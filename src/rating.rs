//! Ratings of videos and playlists, resolved on a best-effort basis.
use vstd::prelude::*;
use crate::endpoint::Endpoint;
use crate::envelope::{GatewayError, RequestRule};
use crate::oid::ObjectId;

verus! {

/// The rating of one video or playlist.
#[derive(Clone, Copy, Debug)]
pub struct Rating {
    /// Rating given by current user, null is not logged in or not rated
    pub user_rating: Option<i32>,
    /// Sum of ratings
    pub total_rating: i32,
    /// Num of users rated this item
    pub total_user: i32,
}

impl Rating {
    pub fn user_rating(&self) -> (r: Option<i32>)
        ensures
            r == self.user_rating,
    {
        self.user_rating
    }

    pub fn total_rating(&self) -> (r: i32)
        ensures
            r == self.total_rating,
    {
        self.total_rating
    }

    pub fn total_user(&self) -> (r: i32)
        ensures
            r == self.total_user,
    {
        self.total_user
    }
}

/// Arguments of a rating lookup: a playlist, a video, or both.
#[derive(Clone, Debug)]
pub struct GetRatingParameters {
    /// ID of playlist
    pub pid: Option<String>,
    /// ID of video
    pub vid: Option<String>,
}

/// The reply of a rating lookup.
#[derive(Clone, Copy, Debug)]
pub struct GetRatingResult {
    pub user_rating: Option<i32>,
    pub total_rating: i32,
    pub total_user: i32,
}

impl GetRatingParameters {
    /// The rating lookup of a video.
    pub fn for_video(vid: &ObjectId) -> (r: GetRatingParameters)
        ensures
            r.pid is None,
            r.vid matches Some(v) && v@ == vid.hex(),
    {
        GetRatingParameters { pid: None, vid: Some(vid.to_string()) }
    }

    /// The rating lookup of a playlist.
    pub fn for_playlist(pid: &ObjectId) -> (r: GetRatingParameters)
        ensures
            r.vid is None,
            r.pid matches Some(p) && p@ == pid.hex(),
    {
        GetRatingParameters { pid: Some(pid.to_string()), vid: None }
    }

    /// The aggregate endpoint to call: the playlist's where a playlist is
    /// named, else the video's. With neither the request is refused, before
    /// any call.
    pub fn endpoint(&self) -> (r: Result<Endpoint, GatewayError>)
        ensures
            self.pid is Some ==> r == Ok::<Endpoint, GatewayError>(Endpoint::PlaylistRating),
            self.pid is None && self.vid is Some ==> r == Ok::<Endpoint, GatewayError>(
                Endpoint::VideoRating,
            ),
            self.pid is None && self.vid is None ==> (r matches Err(
                GatewayError::InvalidRequest { rule },
            ) && rule == RequestRule::RatingTarget),
    {
        if self.pid.is_some() {
            Ok(Endpoint::PlaylistRating)
        } else if self.vid.is_some() {
            Ok(Endpoint::VideoRating)
        } else {
            Err(GatewayError::InvalidRequest { rule: RequestRule::RatingTarget })
        }
    }
}

/// The rating that a lookup yields. A failed backend call is no error here:
/// the rating is then absent.
pub fn rating_outcome(fetched: Result<GetRatingResult, GatewayError>) -> (r: Option<Rating>)
    ensures
        fetched is Err ==> r is None,
        fetched matches Ok(g) ==> r == Some(
            Rating { user_rating: g.user_rating, total_rating: g.total_rating, total_user: g.total_user },
        ),
{
    match fetched {
        Ok(g) => Some(
            Rating { user_rating: g.user_rating, total_rating: g.total_rating, total_user: g.total_user },
        ),
        Err(_) => None,
    }
}

} // verus!
