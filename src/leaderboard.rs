//! The ranking of tag contributors.
use vstd::prelude::*;
use crate::oid::ObjectId;
use crate::users::GetUserParameters;

verus! {

/// A contributor and their number of tag edits.
#[derive(Clone, Debug)]
pub struct LeaderboardResultItem {
    pub user_id: String,
    pub count: i32,
}

/// The ranking, best first.
#[derive(Clone, Debug)]
pub struct LeaderboardResult {
    pub items: Vec<LeaderboardResultItem>,
}

/// A ranking entry as the backend sends it.
#[derive(Clone, Copy, Debug)]
pub struct LeaderboardResultRestItem {
    pub _id: ObjectId,
    pub count: i32,
}

/// The ranking as the backend sends it.
#[derive(Clone, Debug)]
pub struct LeaderboardResultRest {
    pub data: Vec<LeaderboardResultRestItem>,
}

impl LeaderboardResultItem {
    pub fn count(&self) -> (r: i32)
        ensures
            r == self.count,
    {
        self.count
    }

    /// The lookup of the contributor.
    pub fn user(&self) -> (r: GetUserParameters)
        ensures
            r.uid == self.user_id,
    {
        GetUserParameters { uid: self.user_id.clone() }
    }
}

impl LeaderboardResult {
    pub fn items(&self) -> (r: &Vec<LeaderboardResultItem>)
        ensures
            *r == self.items,
    {
        &self.items
    }
}

/// The ranking, in the backend's order, each contributor named by the spelling of their id.
pub fn leaderboard_from_rest(rest: &Vec<LeaderboardResultRestItem>) -> (r: LeaderboardResult)
    ensures
        r.items@.len() == rest@.len(),
        forall|i: int|
            0 <= i < rest@.len() ==> (#[trigger] r.items@[i]).user_id@ == rest@[i]._id.hex()
                && r.items@[i].count == rest@[i].count,
{
    let mut items: Vec<LeaderboardResultItem> = Vec::new();
    let mut i: usize = 0;
    while i < rest.len()
        invariant
            i <= rest@.len(),
            items@.len() == i,
            forall|k: int|
                0 <= k < i ==> (#[trigger] items@[k]).user_id@ == rest@[k]._id.hex()
                    && items@[k].count == rest@[k].count,
        decreases rest@.len() - i,
    {
        let o = rest[i];
        items.push(LeaderboardResultItem { user_id: o._id.to_string(), count: o.count });
        i = i + 1;
    }
    LeaderboardResult { items }
}

} // verus!
