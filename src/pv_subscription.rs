//! Subscriptions to queries, and the videos they yield.
use vstd::prelude::*;
use crate::edit_tags::{GetTagObjectsBatchParameters, small_tag_ids};
use crate::endpoint::Endpoint;
use crate::models::{Meta, Video};
use crate::oid::ObjectId;

verus! {

/// A saved query of a user.
#[derive(Clone, Debug)]
pub struct PVSubscription {
    pub _id: ObjectId,
    /// Query
    pub qs: String,
    /// Query type, one of 'tag', 'text'
    pub qt: String,
    /// Name of this subscription
    pub name: Option<String>,
    pub meta: Meta,
}

impl PVSubscription {
    /// Query
    pub fn query(&self) -> (r: &String)
        ensures
            *r == self.qs,
    {
        &self.qs
    }

    /// Query type, one of 'tag', 'text'
    pub fn query_type(&self) -> (r: &String)
        ensures
            *r == self.qt,
    {
        &self.qt
    }

    /// The display name; an empty one reads as absent.
    pub fn name(&self) -> (r: Option<String>)
        ensures
            r is Some <==> (self.name is Some && self.name->Some_0@.len() > 0),
            r is Some ==> r == self.name,
    {
        match &self.name {
            Some(s) => if s.as_str().is_empty() {
                None
            } else {
                Some(s.clone())
            },
            None => None,
        }
    }

    pub fn meta(&self) -> (r: &Meta)
        ensures
            *r == self.meta,
    {
        &self.meta
    }
}

/// All subscriptions of the caller.
#[derive(Clone, Debug)]
pub struct ListAllSubscriptionResult {
    pub subs: Vec<PVSubscription>,
}

/// Arguments of a subscription video listing.
#[derive(Clone, Debug)]
pub struct ListSubscriptionVideosParameters {
    /// Offset (start from 0)
    pub offset: Option<i32>,
    /// Num of item in a page
    pub limit: Option<i32>,
    /// List order, one of 'latest', 'oldest', 'video_latest', 'video_oldest', 'last_modified'
    pub order: Option<String>,
    /// Addtional query constraints
    pub additional_constraint: Option<String>,
    /// If true, no placeholder items will be shown
    pub hide_placeholder: Option<bool>,
    /// User language
    pub lang: Option<String>,
    /// Visible subscriptions, list of obejctid
    pub visible: Option<Vec<String>>,
}

/// The endpoint of a subscription video listing, in shuffled order or not.
pub fn subscription_videos_endpoint(randomized: bool) -> (r: Endpoint)
    ensures
        r == (if randomized {
            Endpoint::SubscriptionVideosRandomized
        } else {
            Endpoint::SubscriptionVideos
        }),
{
    if randomized {
        Endpoint::SubscriptionVideosRandomized
    } else {
        Endpoint::SubscriptionVideos
    }
}

/// A page of subscribed videos, with the subscriptions used.
#[derive(Debug)]
pub struct ListSubscriptionVideosResult {
    pub videos: Vec<Video>,
    pub total: i32,
    pub objs: Vec<PVSubscription>,
    pub related_tagids: Option<Vec<i64>>,
}

impl ListSubscriptionVideosResult {
    pub fn videos(&self) -> (r: &Vec<Video>)
        ensures
            *r == self.videos,
    {
        &self.videos
    }

    pub fn count(&self) -> (r: i32)
        ensures
            r == self.total,
    {
        self.total
    }

    /// Return subscriptions used
    pub fn subscriptions(&self) -> (r: &Vec<PVSubscription>)
        ensures
            *r == self.objs,
    {
        &self.objs
    }

    /// The batch lookup of the related tags, where the backend sent any.
    pub fn related_tags(&self) -> (r: Option<GetTagObjectsBatchParameters>)
        ensures
            r is Some <==> self.related_tagids is Some,
            r matches Some(p) ==> p.tagid@ == small_tag_ids(self.related_tagids->Some_0@),
    {
        match &self.related_tagids {
            Some(ids) => Some(GetTagObjectsBatchParameters::for_ids(ids)),
            None => None,
        }
    }
}

impl PVSubscription {
    pub fn id(&self) -> (r: String)
        ensures
            r@ == self._id.hex(),
    {
        self._id.to_string()
    }
}

} // verus!
