//! Popular tags, and the pairing of tags with their popularity.
use vstd::prelude::*;
use crate::edit_tags::{GetTagObjectsBatchParameters, small_tag_ids};
use crate::envelope::GatewayError;
use crate::models::{TagObjectValue, TagWithPopularity};

verus! {

/// Arguments of a popular-tags lookup.
#[derive(Clone, Debug)]
pub struct GetPopularTagsParameters {
    /// Language, default 'ENG'
    pub lang: Option<String>,
    /// How many tags, default 20
    pub count: Option<i32>,
}

/// One entry of the backend's tag-id-to-popularity map.
#[derive(Clone, Debug)]
pub struct PopularityEntry {
    /// The tag id, in decimal.
    pub key: String,
    pub value: i64,
}

/// The reply of a popular-tags lookup.
#[derive(Clone, Debug)]
pub struct GetPopularTagsResult {
    pub tagids_popmap: Option<Vec<PopularityEntry>>,
}

/// Whether every character is an ASCII decimal digit.
pub open spec fn all_digits(s: Seq<char>) -> bool {
    forall|i: int| 0 <= i < s.len() ==> '0' <= #[trigger] s[i] && s[i] <= '9'
}

/// The value of a string of decimal digits.
pub open spec fn digits_value(s: Seq<char>) -> int
    decreases s.len(),
{
    if s.len() == 0 {
        0
    } else {
        digits_value(s.drop_last()) * 10 + (s.last() as int - '0' as int)
    }
}

/// The number that a text spells in decimal: an optional sign, then at least
/// one digit, within the range of `i64`.
pub open spec fn decimal_i64(s: Seq<char>) -> Option<i64> {
    let negative = s.len() > 0 && s[0] == '-';
    let body = if s.len() > 0 && (s[0] == '-' || s[0] == '+') {
        s.drop_first()
    } else {
        s
    };
    let v = if negative {
        -digits_value(body)
    } else {
        digits_value(body)
    };
    if body.len() > 0 && all_digits(body) && i64::MIN <= v && v <= i64::MAX {
        Some(v as i64)
    } else {
        None
    }
}

/// Relies on `str::parse::<i64>` (`i64::from_str`): an optional `+` or `-`
/// followed by decimal digits, refused when empty or out of range.
#[verifier::external_body]
fn parse_i64(s: &str) -> (r: Option<i64>)
    ensures
        r == decimal_i64(s@),
{
    s.parse::<i64>().ok()
}

/// Pairs tags with popularities, position by position, as far as both go.
pub fn with_popularity(pops: &Vec<i64>, tags: Vec<TagObjectValue>) -> (r: Vec<TagWithPopularity>)
    ensures
        r@.len() == if pops@.len() < tags@.len() { pops@.len() } else { tags@.len() },
        forall|i: int|
            0 <= i < r@.len() ==> (#[trigger] r@[i]).popluarity == pops@[i] as i32 && r@[i].tag
                == tags@[i],
{
    let ghost all = tags@;
    let mut rest = tags;
    let n = if pops.len() < rest.len() {
        pops.len()
    } else {
        rest.len()
    };
    let mut out: Vec<TagWithPopularity> = Vec::new();
    let mut i: usize = 0;
    while i < n
        invariant
            n <= pops@.len(),
            n <= all.len(),
            n == if pops@.len() < all.len() { pops@.len() } else { all.len() },
            i <= n,
            rest@ == all.subrange(i as int, all.len() as int),
            out@.len() == i,
            forall|k: int|
                0 <= k < i ==> (#[trigger] out@[k]).popluarity == pops@[k] as i32 && out@[k].tag
                    == all[k],
        decreases n - i,
    {
        let t = rest.remove(0);
        out.push(TagWithPopularity { popluarity: pops[i] as i32, tag: t });
        i = i + 1;
    }
    out
}

/// Whether every key of the map spells a number.
pub open spec fn keys_parse(m: Seq<PopularityEntry>) -> bool {
    forall|i: int| 0 <= i < m.len() ==> (#[trigger] decimal_i64(m[i].key@)) is Some
}

impl GetPopularTagsResult {
    /// The batch lookup of the popular tags, and their popularities in map
    /// order; none where the backend sent no map. A key that spells no number
    /// fails the lookup.
    pub fn popular_tags(&self) -> (r: Option<Result<(GetTagObjectsBatchParameters, Vec<i64>), GatewayError>>)
        ensures
            r is None <==> self.tagids_popmap is None,
            r matches Some(res) ==> (res is Ok <==> keys_parse(self.tagids_popmap->Some_0@)),
            r matches Some(Ok((p, pops))) ==> {
                let m = self.tagids_popmap->Some_0@;
                &&& pops@.len() == m.len()
                &&& forall|i: int| 0 <= i < m.len() ==> #[trigger] pops@[i] == m[i].value
                &&& p.tagid@ == small_tag_ids(
                    Seq::new(m.len(), |i: int| decimal_i64(m[i].key@)->Some_0),
                )
            },
            r matches Some(Err(e)) ==> e is MalformedTagId,
    {
        match &self.tagids_popmap {
            None => None,
            Some(m) => {
                let ghost ids_spec = Seq::new(m@.len(), |i: int| decimal_i64(m@[i].key@)->Some_0);
                let mut ids: Vec<i64> = Vec::new();
                let mut pops: Vec<i64> = Vec::new();
                let mut i: usize = 0;
                while i < m.len()
                    invariant
                        self.tagids_popmap == Some(*m),
                        i <= m@.len(),
                        ids_spec == Seq::new(m@.len(), |i: int| decimal_i64(m@[i].key@)->Some_0),
                        ids@ == ids_spec.subrange(0, i as int),
                        pops@.len() == i,
                        forall|k: int| 0 <= k < i ==> #[trigger] pops@[k] == m@[k].value,
                        forall|k: int| 0 <= k < i ==> (#[trigger] decimal_i64(m@[k].key@)) is Some,
                    decreases m@.len() - i,
                {
                    match parse_i64(m[i].key.as_str()) {
                        Some(id) => {
                            ids.push(id);
                            pops.push(m[i].value);
                        },
                        None => {
                            assert(!keys_parse(m@));
                            return Some(Err(GatewayError::MalformedTagId { key: m[i].key.clone() }));
                        },
                    }
                    i = i + 1;
                }
                assert(ids_spec.subrange(0, m@.len() as int) =~= ids_spec);
                Some(Ok((GetTagObjectsBatchParameters::for_ids(&ids), pops)))
            },
        }
    }
}

} // verus!
