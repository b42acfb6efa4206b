//! Site statistics.
use vstd::prelude::*;
use crate::edit_tags::GetTagObjectsBatchParameters;

verus! {

/// A tag id with its number of uses.
#[derive(Clone, Copy, Debug)]
pub struct StatsTags {
    pub id: i32,
    pub count: i32,
}

/// Site statistics.
#[derive(Clone, Debug)]
pub struct Stats {
    pub users: i32,
    pub top_tags: Vec<StatsTags>,
}

impl Stats {
    /// Num of users
    pub fn users(&self) -> (r: i32)
        ensures
            r == self.users,
    {
        self.users
    }

    /// The batch lookup of the top tags, and their counts, both in order.
    pub fn top_tags(&self) -> (r: (GetTagObjectsBatchParameters, Vec<i64>))
        ensures
            r.0.tagid@.len() == self.top_tags@.len(),
            r.1@.len() == self.top_tags@.len(),
            forall|i: int| 0 <= i < self.top_tags@.len() ==> #[trigger] r.0.tagid@[i] == self.top_tags@[i].id,
            forall|i: int| 0 <= i < self.top_tags@.len() ==> #[trigger] r.1@[i] == self.top_tags@[i].count as i64,
    {
        let mut ids: Vec<i32> = Vec::new();
        let mut counts: Vec<i64> = Vec::new();
        let mut i: usize = 0;
        while i < self.top_tags.len()
            invariant
                i <= self.top_tags@.len(),
                ids@.len() == i,
                counts@.len() == i,
                forall|k: int| 0 <= k < i ==> #[trigger] ids@[k] == self.top_tags@[k].id,
                forall|k: int| 0 <= k < i ==> #[trigger] counts@[k] == self.top_tags@[k].count as i64,
            decreases self.top_tags@.len() - i,
        {
            ids.push(self.top_tags[i].id);
            counts.push(self.top_tags[i].count as i64);
            i = i + 1;
        }
        (GetTagObjectsBatchParameters { tagid: ids }, counts)
    }
}

} // verus!
