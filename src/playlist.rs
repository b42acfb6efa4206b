//! Fetching and listing playlists.
use vstd::prelude::*;
use crate::endpoint::Endpoint;
use crate::envelope::GatewayError;
use crate::models::{Meta, Playlist, PlaylistMeta, RawCategoryEntry, TagCategoryItem, Video, all_categories_known, categorized, tag_by_category_items};
use crate::oid::ObjectId;

verus! {

/// A playlist as listings send it.
#[derive(Clone, Debug)]
pub struct ResultantPlaylist {
    pub _id: ObjectId,
    pub item: PlaylistMeta,
    pub meta: Meta,
    pub tag_count: i32,
    pub tags: Vec<i64>,
    pub clearence: i32,
    pub comment_thread: Option<ObjectId>,
}

/// The reply of a playlist lookup. Of `tags`, the entry at index two is the
/// category-to-tags map, where it is a map at all.
#[derive(Clone, Debug)]
pub struct GetPlaylistMetadataResult {
    pub editable: bool,
    pub owner: bool,
    pub playlist: ResultantPlaylist,
    pub tags: Vec<Option<Vec<RawCategoryEntry>>>,
}

/// The reply of a playlist content lookup.
#[derive(Debug)]
pub struct GetPlaylistContentResult {
    pub videos: Vec<Video>,
}

/// Arguments of a playlist lookup.
#[derive(Clone, Debug)]
pub struct GetPlaylistParameters {
    /// ID of playlist
    pub pid: String,
}

/// Arguments of a playlist content lookup.
#[derive(Clone, Debug)]
pub struct GetPlaylistContentParameters {
    /// ID of playlist
    pub pid: String,
    /// Offset (start from 0)
    pub offset: Option<i32>,
    /// Num of item in a page
    pub limit: Option<i32>,
}

/// Arguments of a playlist listing.
#[derive(Clone, Debug)]
pub struct ListPlaylistParameters {
    /// Offset (start from 0)
    pub offset: Option<i32>,
    /// Num of item in a page
    pub limit: Option<i32>,
    /// Query
    pub query: Option<String>,
    /// List order, one of 'latest', 'oldest', 'last_modified'
    pub order: Option<String>,
    /// Addtional query constraints
    pub additional_constraint: Option<String>,
}

/// A page of listed playlists, with the backend's own total and page count.
#[derive(Clone, Debug)]
pub struct ListPlaylistResult {
    pub playlists: Vec<ResultantPlaylist>,
    pub count: i32,
    pub page_count: i32,
}

impl GetPlaylistParameters {
    /// The lookup of the playlist with id `pid`.
    pub fn for_playlist(pid: &ObjectId) -> (r: GetPlaylistParameters)
        ensures
            r.pid@ == pid.hex(),
    {
        GetPlaylistParameters { pid: pid.to_string() }
    }
}

/// The category-to-tags map of a playlist reply, if the reply has one.
pub open spec fn category_map_of(tags: Seq<Option<Vec<RawCategoryEntry>>>) -> Option<Vec<RawCategoryEntry>> {
    if tags.len() > 2 {
        tags[2]
    } else {
        None
    }
}

/// Whether `p` is the playlist of the listing entry `r`, as listings give it:
/// without the fields that only its own lookup brings.
pub open spec fn listed_playlist(p: Playlist, r: ResultantPlaylist) -> bool {
    &&& p._id == r._id && p.item == r.item && p.meta == r.meta && p.clearence == r.clearence
    &&& p.tags == r.tags && p.comment_thread == r.comment_thread
    &&& p.editable is None && p.owner is None && p.tag_by_category is None
}

impl GetPlaylistMetadataResult {
    /// The playlist, with the caller's rights and its tags by category.
    /// Fails where the reply lacks the map or names an unknown category.
    pub fn into_playlist(self) -> (r: Result<Playlist, GatewayError>)
        ensures
            r is Ok <==> (category_map_of(self.tags@) matches Some(m) && all_categories_known(m@)),
            category_map_of(self.tags@) is None ==> r == Err::<Playlist, GatewayError>(
                GatewayError::NoCategoryTagMap,
            ),
            r matches Ok(p) ==> {
                &&& p._id == self.playlist._id && p.item == self.playlist.item
                &&& p.meta == self.playlist.meta && p.clearence == self.playlist.clearence
                &&& p.tags == self.playlist.tags && p.comment_thread == self.playlist.comment_thread
                &&& p.editable == Some(self.editable) && p.owner == Some(self.owner)
                &&& p.tag_by_category matches Some(items) && categorized(
                    items@,
                    category_map_of(self.tags@)->Some_0@,
                )
            },
    {
        let mut tags = self.tags;
        if tags.len() <= 2 {
            return Err(GatewayError::NoCategoryTagMap);
        }
        let entries = match tags.remove(2) {
            Some(m) => m,
            None => {
                return Err(GatewayError::NoCategoryTagMap);
            },
        };
        let catemap: Vec<TagCategoryItem> = tag_by_category_items(entries)?;
        let p = self.playlist;
        Ok(
            Playlist {
                _id: p._id,
                item: p.item,
                meta: p.meta,
                clearence: p.clearence,
                editable: Some(self.editable),
                owner: Some(self.owner),
                tags: p.tags,
                tag_by_category: Some(catemap),
                comment_thread: p.comment_thread,
            },
        )
    }
}

impl ResultantPlaylist {
    /// The playlist as listings give it.
    pub fn into_playlist(self) -> (r: Playlist)
        ensures
            listed_playlist(r, self),
    {
        Playlist {
            _id: self._id,
            item: self.item,
            meta: self.meta,
            clearence: self.clearence,
            editable: None,
            owner: None,
            tags: self.tags,
            tag_by_category: None,
            comment_thread: self.comment_thread,
        }
    }
}

impl ListPlaylistParameters {
    /// The endpoint of the listing: search where a query is given, else the plain listing.
    pub fn endpoint(&self) -> (r: Endpoint)
        ensures
            r == (if self.query is None { Endpoint::ListPlaylists } else { Endpoint::SearchPlaylists }),
    {
        if self.query.is_none() {
            Endpoint::ListPlaylists
        } else {
            Endpoint::SearchPlaylists
        }
    }
}

impl ListPlaylistResult {
    /// The page's playlists, in order.
    pub fn playlists(self) -> (r: Vec<Playlist>)
        ensures
            r@.len() == self.playlists@.len(),
            forall|i: int| 0 <= i < r@.len() ==> listed_playlist(#[trigger] r@[i], self.playlists@[i]),
    {
        let ghost all = self.playlists@;
        let mut rest = self.playlists;
        let n = rest.len();
        let mut out: Vec<Playlist> = Vec::new();
        let mut i: usize = 0;
        while i < n
            invariant
                n == all.len(),
                i <= n,
                rest@ == all.subrange(i as int, n as int),
                out@.len() == i,
                forall|k: int| 0 <= k < i ==> listed_playlist(#[trigger] out@[k], all[k]),
            decreases n - i,
        {
            let p = rest.remove(0);
            out.push(p.into_playlist());
            i = i + 1;
        }
        out
    }

    pub fn count(&self) -> (r: i32)
        ensures
            r == self.count,
    {
        self.count
    }

    pub fn page_count(&self) -> (r: i32)
        ensures
            r == self.page_count,
    {
        self.page_count
    }
}

} // verus!
