//! Video listing and search.
use vstd::prelude::*;
use crate::edit_tags::{GetTagObjectsBatchParameters, small_tag_ids};
use crate::endpoint::Endpoint;
use crate::models::{TagWithPopularity, Video};

verus! {

/// Arguments of a video listing.
#[derive(Clone, Debug)]
pub struct ListVideoParameters {
    /// Offset (start from 0)
    pub offset: Option<i32>,
    /// Num of item in a page
    pub limit: Option<i32>,
    /// Query
    pub query: Option<String>,
    /// Query type, one of tag, text
    pub qtype: Option<String>,
    /// List order, one of 'latest', 'oldest', 'video_latest', 'video_oldest', 'last_modified'
    pub order: Option<String>,
    /// Addtional query constraints
    pub additional_constraint: Option<String>,
    /// If true, no placeholder items will be shown
    pub hide_placeholder: Option<bool>,
    /// User language
    pub lang: Option<String>,
    /// Add tags_readable field to every result item
    pub human_readable_tag: Option<bool>,
}

/// A page of listed videos, with the backend's own total and page count.
#[derive(Debug)]
pub struct ListVideoResult {
    pub videos: Vec<Video>,
    pub count: i32,
    pub page_count: i32,
    pub related_tagids: Option<Vec<i64>>,
}

impl ListVideoParameters {
    /// The endpoint of the listing: search where a query is given, else the plain listing.
    pub fn endpoint(&self) -> (r: Endpoint)
        ensures
            r == (if self.query is None { Endpoint::ListVideo } else { Endpoint::QueryVideo }),
    {
        if self.query.is_none() {
            Endpoint::ListVideo
        } else {
            Endpoint::QueryVideo
        }
    }
}

impl ListVideoResult {
    pub fn videos(&self) -> (r: &Vec<Video>)
        ensures
            *r == self.videos,
    {
        &self.videos
    }

    pub fn count(&self) -> (r: i32)
        ensures
            r == self.count,
    {
        self.count
    }

    pub fn page_count(&self) -> (r: i32)
        ensures
            r == self.page_count,
    {
        self.page_count
    }

    /// The batch lookup of the related tags, where the backend sent any.
    pub fn related_tags(&self) -> (r: Option<GetTagObjectsBatchParameters>)
        ensures
            r is Some <==> self.related_tagids is Some,
            r matches Some(p) ==> p.tagid@ == small_tag_ids(self.related_tagids->Some_0@),
    {
        match &self.related_tagids {
            Some(ids) => Some(GetTagObjectsBatchParameters::for_ids(ids)),
            None => None,
        }
    }

    /// Popular tags are not offered on video listings.
    pub fn popular_tags(&self) -> (r: Option<Vec<TagWithPopularity>>)
        ensures
            r is None,
    {
        None
    }
}

} // verus!
