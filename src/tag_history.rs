//! The log of tag edits on videos.
use vstd::prelude::*;
use crate::edit_tags::{GetTagObjectsBatchParameters, small_tag_ids};
use crate::models::Video;
use crate::users::GetUserParameters;

verus! {

/// A log entry as the backend sends it; times in milliseconds since the epoch.
#[derive(Debug)]
pub struct RawTagHistoryRestItem {
    pub tag_ids: Vec<i64>,
    pub add_tag_ids: Vec<i64>,
    pub del_tag_ids: Vec<i64>,
    pub user_id: String,
    pub video_obj: Video,
    pub time: i64,
}

/// The log as the backend sends it.
#[derive(Debug)]
pub struct RawTagHistoryRest {
    pub items: Vec<RawTagHistoryRestItem>,
}

/// A log entry: who added and removed which tags on which video, and when.
#[derive(Debug)]
pub struct RawTagHistoryItem {
    pub add_tag_ids: Vec<i64>,
    pub del_tag_ids: Vec<i64>,
    pub user_id: String,
    pub video_obj: Video,
    pub time: i64,
}

/// The log, in the backend's order.
#[derive(Debug)]
pub struct RawTagHistoryResult {
    pub items: Vec<RawTagHistoryItem>,
}

/// Whether `i` is the log entry `o` without its full tag list.
pub open spec fn history_item_of(i: RawTagHistoryItem, o: RawTagHistoryRestItem) -> bool {
    &&& i.add_tag_ids == o.add_tag_ids && i.del_tag_ids == o.del_tag_ids
    &&& i.user_id == o.user_id && i.video_obj == o.video_obj && i.time == o.time
}

impl RawTagHistoryRest {
    /// The log entries, in order.
    pub fn into_result(self) -> (r: RawTagHistoryResult)
        ensures
            r.items@.len() == self.items@.len(),
            forall|i: int| 0 <= i < r.items@.len() ==> history_item_of(#[trigger] r.items@[i], self.items@[i]),
    {
        let ghost all = self.items@;
        let mut rest = self.items;
        let n = rest.len();
        let mut items: Vec<RawTagHistoryItem> = Vec::new();
        let mut i: usize = 0;
        while i < n
            invariant
                n == all.len(),
                i <= n,
                rest@ == all.subrange(i as int, n as int),
                items@.len() == i,
                forall|k: int| 0 <= k < i ==> history_item_of(#[trigger] items@[k], all[k]),
            decreases n - i,
        {
            let o = rest.remove(0);
            items.push(
                RawTagHistoryItem {
                    add_tag_ids: o.add_tag_ids,
                    del_tag_ids: o.del_tag_ids,
                    user_id: o.user_id,
                    video_obj: o.video_obj,
                    time: o.time,
                },
            );
            i = i + 1;
        }
        RawTagHistoryResult { items }
    }
}

impl RawTagHistoryItem {
    pub fn time(&self) -> (r: i64)
        ensures
            r == self.time,
    {
        self.time
    }

    /// The batch lookup of the added tags.
    pub fn added_tags(&self) -> (r: GetTagObjectsBatchParameters)
        ensures
            r.tagid@ == small_tag_ids(self.add_tag_ids@),
    {
        GetTagObjectsBatchParameters::for_ids(&self.add_tag_ids)
    }

    /// The batch lookup of the removed tags.
    pub fn removed_tags(&self) -> (r: GetTagObjectsBatchParameters)
        ensures
            r.tagid@ == small_tag_ids(self.del_tag_ids@),
    {
        GetTagObjectsBatchParameters::for_ids(&self.del_tag_ids)
    }

    /// The lookup of the editor.
    pub fn user(&self) -> (r: GetUserParameters)
        ensures
            r.uid == self.user_id,
    {
        GetUserParameters { uid: self.user_id.clone() }
    }

    pub fn video(&self) -> (r: &Video)
        ensures
            *r == self.video_obj,
    {
        &self.video_obj
    }
}

impl RawTagHistoryResult {
    pub fn items(&self) -> (r: &Vec<RawTagHistoryItem>)
        ensures
            *r == self.items,
    {
        &self.items
    }
}

} // verus!
