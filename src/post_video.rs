//! Posting videos.
use vstd::prelude::*;
use crate::envelope::{GatewayError, RestResult, succeed_status, is_succeed};

verus! {

/// Arguments for posting one video.
#[derive(Clone, Debug)]
pub struct PostVideoRequestData {
    /// Video URL
    pub url: String,
    /// Video tags
    pub tags: Vec<String>,
    /// Reference to another copy, in video ObjectId format
    pub copy: Option<String>,
    /// Playlist ID if you want to add this video to a playlist
    pub pid: Option<String>,
    /// Rank of video in the playlist you are inserting into, default to last position
    pub rank: Option<i32>,
    /// Type of repost, one of 'official', 'official_repost', 'authorized_translation', 'authorized_repost', 'translation', 'repost', 'unknown'
    pub repost_type: Option<String>,
    /// Behaviour of tags if this video already exists, one of 'merge', 'keep_existing', default 'merge'
    pub tag_merge_behaviour: Option<String>,
}

/// Arguments for posting several videos.
#[derive(Clone, Debug)]
pub struct BatchPostVideoRequestData {
    /// Video URLs
    pub videos: Vec<String>,
    /// Video tags
    pub tags: Vec<String>,
    /// Reference to another copy, in video ObjectId format
    pub copy: Option<String>,
    /// Playlist ID if you want to add this video to a playlist
    pub pid: Option<String>,
    /// Rank of video in the playlist you are inserting into, default to last position
    pub rank: Option<i32>,
    /// Type of repost, one of 'official', 'official_repost', 'authorized_translation', 'authorized_repost', 'translation', 'repost', 'unknown'
    pub repost_type: Option<String>,
    /// If we should treat videos as copies to each other
    pub as_copies: Option<bool>,
}

/// The task that posts a video.
#[derive(Clone, Debug)]
pub struct PostVideoResult {
    pub task_id: String,
}

/// The tasks that post a batch of videos.
#[derive(Clone, Debug)]
pub struct BatchPostVideoResult {
    pub task_ids: String,
}

/// Decodes the envelope of a post: its data on success, else an error coded
/// by the backend's structured reason where it sent one, by its status where not.
pub fn post_outcome<T>(env: RestResult<T>) -> (r: Result<T, GatewayError>)
    ensures
        env.status@ == succeed_status() ==> r == env.outcome(),
        env.status@ != succeed_status() ==> (r matches Err(GatewayError::Backend { code, detail })
            && detail == env.dataerr && code == match env.dataerr {
            Some(d) => d.reason,
            None => env.status,
        }),
{
    if is_succeed(&env.status) {
        env.into_result()
    } else {
        let code = match &env.dataerr {
            Some(d) => d.reason.clone(),
            None => env.status,
        };
        Err(GatewayError::Backend { code, detail: env.dataerr })
    }
}

} // verus!
