//! Editing a video's tags and clearance.
use vstd::prelude::*;
use crate::edit_tags::GetTagObjectsBatchParameters;

verus! {

/// Arguments for editing a video's tags by name.
#[derive(Clone, Debug)]
pub struct EditVideoTagsParameters {
    /// Video ID
    pub video_id: String,
    /// Tags
    pub tags: Vec<String>,
    /// One of 'replace', 'append', 'remove'
    pub edit_behaviour: String,
    /// Behaviour if a tag does not exist, one of 'ignore', 'error', 'append', default 'ignore'
    pub not_found_behaviour: Option<String>,
    /// User language used for adding tags, default is 'ENG'
    pub user_language: Option<String>,
}

/// Arguments for editing a video's tags by id.
#[derive(Clone, Debug)]
pub struct EditVideoTagIdsParameters {
    /// Video ID
    pub video_id: String,
    /// Tags
    pub tags: Vec<i32>,
    /// One of 'replace', 'append', 'remove'
    pub edit_behaviour: String,
    /// Behaviour if a tag does not exist, one of 'ignore', 'error', 'append', default 'ignore'
    pub not_found_behaviour: Option<String>,
    /// User language used for adding tags, default is 'ENG'
    pub user_language: Option<String>,
}

/// The tag ids of a video after an edit.
#[derive(Clone, Debug)]
pub struct EditVideoTagsRespObject {
    pub tagids: Vec<i32>,
}

impl EditVideoTagsRespObject {
    /// The batch lookup of the video's tags after the edit.
    pub fn tags(self) -> (r: GetTagObjectsBatchParameters)
        ensures
            r.tagid == self.tagids,
    {
        GetTagObjectsBatchParameters { tagid: self.tagids }
    }
}

/// Arguments for setting a video's clearance.
#[derive(Clone, Debug)]
pub struct SetVideoClearenceParameters {
    /// Video ID
    pub vid: String,
    /// Clearence, one of 0, 1, 2, 3, default is 0
    pub clearence: Option<i32>,
}

/// A video's clearance after it was set.
#[derive(Clone, Copy, Debug)]
pub struct SetVideoClearenceRespObject {
    pub clearence: i32,
}

} // verus!
