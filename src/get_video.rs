//! Fetching one video, with everything its own lookup brings.
use vstd::prelude::*;
use crate::envelope::GatewayError;
use crate::models::{
    PlaylistContentForVideo, RawCategoryEntry, TagCategoryItem, Video, all_categories_known,
    categorized, tag_by_category_items,
};

verus! {

/// Arguments of a video lookup.
#[derive(Clone, Debug)]
pub struct GetVideoParameters {
    /// Video ID
    pub vid: String,
    /// Language
    pub lang: String,
}

/// Arguments of a related-video lookup.
#[derive(Clone, Debug)]
pub struct GetRelatedVideoParameters {
    pub vid: String,
    pub top_k: Option<i32>,
    pub sort_title: Option<bool>,
}

/// The reply of a video lookup.
#[derive(Debug)]
pub struct GetVideoResponse {
    pub video: Video,
    pub tag_by_category: Vec<RawCategoryEntry>,
    pub playlists: Vec<PlaylistContentForVideo>,
    pub copies: Vec<Video>,
}

/// The reply of a related-video lookup.
#[derive(Debug)]
pub struct GetRelatedVideoPesponse {
    pub videos: Vec<Video>,
}

/// Whether `v` is the video of `resp` with the reply's related fields filled in.
pub open spec fn video_of_response(v: Video, resp: GetVideoResponse) -> bool {
    &&& v._id == resp.video._id
    &&& v.clearence == resp.video.clearence
    &&& v.item == resp.video.item
    &&& v.meta == resp.video.meta
    &&& v.tag_count == resp.video.tag_count
    &&& v.tags == resp.video.tags
    &&& v.tags_readable == resp.video.tags_readable
    &&& v.comment_thread == resp.video.comment_thread
    &&& v.copies == Some(resp.copies)
    &&& v.playlists == Some(resp.playlists)
    &&& v.tag_by_category matches Some(items) && categorized(items@, resp.tag_by_category@)
}

impl GetVideoResponse {
    /// The video, its copies, playlists and tags by category filled in
    /// together. Fails where a category name is unknown.
    pub fn into_video(self) -> (r: Result<Video, GatewayError>)
        ensures
            r is Ok <==> all_categories_known(self.tag_by_category@),
            r matches Ok(v) ==> video_of_response(v, self) && v.hydrated() && v.well_formed(),
            r matches Err(e) ==> e is UnknownCategory,
    {
        let catemap: Vec<TagCategoryItem> = tag_by_category_items(self.tag_by_category)?;
        let mut video = self.video;
        video.copies = Some(self.copies);
        video.playlists = Some(self.playlists);
        video.tag_by_category = Some(catemap);
        Ok(video)
    }
}

/// Resolving one video twice from the same reply yields the same entity:
/// nothing accumulates between resolutions.
pub proof fn lemma_video_resolution_idempotent(resp: GetVideoResponse, v1: Video, v2: Video)
    requires
        video_of_response(v1, resp),
        video_of_response(v2, resp),
    ensures
        v1._id == v2._id && v1.clearence == v2.clearence && v1.item == v2.item && v1.meta == v2.meta,
        v1.tag_count == v2.tag_count && v1.tags == v2.tags && v1.tags_readable == v2.tags_readable,
        v1.comment_thread == v2.comment_thread,
        v1.copies == v2.copies && v1.playlists == v2.playlists,
        v1.tag_by_category->Some_0@ == v2.tag_by_category->Some_0@,
{
    let a = v1.tag_by_category->Some_0@;
    let b = v2.tag_by_category->Some_0@;
    assert forall|i: int| 0 <= i < a.len() implies a[i] == b[i] by {
        assert(Some(a[i].key) == Some(b[i].key));
    }
    assert(a =~= b);
}

} // verus!
