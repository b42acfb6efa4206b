//! Tag lookup, tag listing and the resolution of tags into their variants.
use vstd::prelude::*;
use crate::author_db::{Author, GetAuthorParameters};
use crate::endpoint::Endpoint;
use crate::envelope::{GatewayError, RequestRule};
use crate::models::{Meta, MultilingualMapping, RegularTagObject, TagCategoryEnum, TagObjectValue, AuthorTagObject};
use crate::oid::ObjectId;

verus! {

/// Arguments of a batch tag lookup.
#[derive(Clone, Debug)]
pub struct GetTagObjectsBatchParameters {
    /// Tag IDs
    pub tagid: Vec<i32>,
}

/// The largest tag id that a batch lookup takes, plus one.
pub const TAG_ID_BOUND: i64 = 2147483647;

/// The tag ids below the bound, in order, as 32-bit ids.
pub open spec fn small_tag_ids(ids: Seq<i64>) -> Seq<i32>
    decreases ids.len(),
{
    if ids.len() == 0 {
        Seq::empty()
    } else {
        let rest = small_tag_ids(ids.drop_last());
        if ids.last() < TAG_ID_BOUND {
            rest.push(ids.last() as i32)
        } else {
            rest
        }
    }
}

impl GetTagObjectsBatchParameters {
    /// The batch lookup of the tags among `ids` that fit a 32-bit id.
    pub fn for_ids(ids: &Vec<i64>) -> (r: GetTagObjectsBatchParameters)
        ensures
            r.tagid@ == small_tag_ids(ids@),
    {
        let mut tagid: Vec<i32> = Vec::new();
        let mut i: usize = 0;
        while i < ids.len()
            invariant
                i <= ids@.len(),
                tagid@ == small_tag_ids(ids@.subrange(0, i as int)),
            decreases ids@.len() - i,
        {
            let n = ids[i];
            assert(ids@.subrange(0, i + 1).drop_last() =~= ids@.subrange(0, i as int));
            if n < TAG_ID_BOUND {
                tagid.push(n as i32);
            }
            i = i + 1;
        }
        assert(ids@.subrange(0, ids@.len() as int) =~= ids@);
        GetTagObjectsBatchParameters { tagid }
    }
}

/// A tag as the backend sends it; its display names already read into pairs,
/// in the order that the backend's map yielded them.
#[derive(Clone, Debug)]
pub struct TagObjectRespObject {
    pub id: i32,
    pub _id: ObjectId,
    pub category: TagCategoryEnum,
    pub count: i32,
    pub languages: Vec<MultilingualMapping>,
    pub alias: Vec<String>,
    pub meta: Meta,
}

/// The reply of a batch tag lookup.
#[derive(Clone, Debug)]
pub struct TagObjectResp {
    pub tag_objs: Vec<TagObjectRespObject>,
}

/// Whether `t` is the raw tag `o` in the shared tag shape, flagged as an
/// author tag exactly for category `Author`.
pub open spec fn regular_of(t: RegularTagObject, o: TagObjectRespObject) -> bool {
    &&& t.tagid == o.id
    &&& t._id == o._id
    &&& t.category == o.category
    &&& t.count == o.count
    &&& t.languages == o.languages
    &&& t.alias == o.alias
    &&& t.meta == o.meta
    &&& t.is_author == (o.category == TagCategoryEnum::Author)
}

impl TagObjectRespObject {
    /// The tag in the shared tag shape, its author flag set from its category.
    pub fn into_regular(self) -> (r: RegularTagObject)
        ensures
            regular_of(r, self),
    {
        RegularTagObject {
            tagid: self.id,
            _id: self._id,
            category: self.category,
            count: self.count,
            languages: self.languages,
            alias: self.alias,
            is_author: self.category == TagCategoryEnum::Author,
            meta: self.meta,
        }
    }
}

/// Raw tags in the shared tag shape, in the backend's order.
pub fn regular_tags(raw: Vec<TagObjectRespObject>) -> (r: Vec<RegularTagObject>)
    ensures
        r@.len() == raw@.len(),
        forall|i: int| 0 <= i < r@.len() ==> regular_of(#[trigger] r@[i], raw@[i]),
{
    let ghost all = raw@;
    let mut rest = raw;
    let n = rest.len();
    let mut out: Vec<RegularTagObject> = Vec::new();
    let mut i: usize = 0;
    while i < n
        invariant
            n == all.len(),
            i <= n,
            rest@ == all.subrange(i as int, n as int),
            out@.len() == i,
            forall|k: int| 0 <= k < i ==> regular_of(#[trigger] out@[k], all[k]),
        decreases n - i,
    {
        let o = rest.remove(0);
        out.push(o.into_regular());
        i = i + 1;
    }
    out
}

/// The author record that a lookup yielded; none where none was made or it failed.
pub open spec fn author_of(lookup: Option<Result<Author, GatewayError>>) -> Option<Author> {
    match lookup {
        Some(Ok(a)) => Some(a),
        _ => None,
    }
}

/// The role of every author tag.
pub open spec fn author_role() -> Seq<char> {
    "author"@
}

/// Whether `r` is the tag `t` resolved into its variant, given what its author lookup yielded:
/// an author tag exactly for category `Author`, carrying the author where the lookup succeeded.
pub open spec fn resolved_from(
    r: TagObjectValue,
    t: RegularTagObject,
    lookup: Option<Result<Author, GatewayError>>,
) -> bool {
    if t.category == TagCategoryEnum::Author {
        &&& r matches TagObjectValue::AuthorTagObject(a)
        &&& a.tagid == t.tagid
        &&& a._id == t._id
        &&& a.category == t.category
        &&& a.count == t.count
        &&& a.languages == t.languages
        &&& a.alias == t.alias
        &&& a.meta == t.meta
        &&& a.author == author_of(lookup)
        &&& a.is_author
        &&& a.author_role@ == author_role()
    } else {
        &&& r matches TagObjectValue::RegularTagObject(g)
        &&& g.tagid == t.tagid
        &&& g._id == t._id
        &&& g.category == t.category
        &&& g.count == t.count
        &&& g.languages == t.languages
        &&& g.alias == t.alias
        &&& g.meta == t.meta
        &&& !g.is_author
    }
}

/// A resolved tag is an author tag exactly when its category is `Author`, and
/// an author tag's role is always `author`.
pub proof fn lemma_tag_variant_follows_category(
    r: TagObjectValue,
    t: RegularTagObject,
    lookup: Option<Result<Author, GatewayError>>,
)
    requires
        resolved_from(r, t, lookup),
    ensures
        r.spec_is_author() <==> r.spec_category() == TagCategoryEnum::Author,
        r matches TagObjectValue::AuthorTagObject(a) ==> a.author_role@ == author_role(),
{
}

/// The author lookup that a tag needs: one exactly for category `Author`, by its tag id.
pub fn author_lookup(t: &RegularTagObject) -> (r: Option<GetAuthorParameters>)
    ensures
        r is Some <==> t.category == TagCategoryEnum::Author,
        r matches Some(p) ==> p.tagid == t.tagid,
{
    if t.category == TagCategoryEnum::Author {
        Some(GetAuthorParameters { tagid: t.tagid })
    } else {
        None
    }
}

/// The author lookups of a batch of tags, one entry per tag.
pub fn author_lookups(tags: &Vec<RegularTagObject>) -> (r: Vec<Option<GetAuthorParameters>>)
    ensures
        r@.len() == tags@.len(),
        forall|i: int|
            0 <= i < r@.len() ==> ((#[trigger] r@[i]) is Some <==> tags@[i].category
                == TagCategoryEnum::Author),
        forall|i: int| 0 <= i < r@.len() ==> ((#[trigger] r@[i]) matches Some(p) ==> p.tagid == tags@[i].tagid),
{
    let mut r: Vec<Option<GetAuthorParameters>> = Vec::new();
    let mut i: usize = 0;
    while i < tags.len()
        invariant
            i <= tags@.len(),
            r@.len() == i,
            forall|k: int|
                0 <= k < i ==> ((#[trigger] r@[k]) is Some <==> tags@[k].category
                    == TagCategoryEnum::Author),
            forall|k: int| 0 <= k < i ==> ((#[trigger] r@[k]) matches Some(p) ==> p.tagid == tags@[k].tagid),
        decreases tags@.len() - i,
    {
        r.push(author_lookup(&tags[i]));
        i = i + 1;
    }
    r
}

/// Resolves a tag into its variant. A failed author lookup is no failure of the
/// tag: it stays an author tag, without its author.
pub fn resolve_tag(t: RegularTagObject, lookup: Option<Result<Author, GatewayError>>) -> (r:
    TagObjectValue)
    ensures
        resolved_from(r, t, lookup),
{
    if t.category == TagCategoryEnum::Author {
        let author = match lookup {
            Some(Ok(a)) => Some(a),
            _ => None,
        };
        TagObjectValue::AuthorTagObject(
            AuthorTagObject {
                tagid: t.tagid,
                _id: t._id,
                category: t.category,
                count: t.count,
                languages: t.languages,
                alias: t.alias,
                author,
                is_author: true,
                meta: t.meta,
                author_role: String::from_str("author"),
            },
        )
    } else {
        TagObjectValue::RegularTagObject(RegularTagObject { is_author: false, ..t })
    }
}

/// What the lookup at `i` yielded; none past the end.
pub open spec fn lookup_at(
    lookups: Seq<Option<Result<Author, GatewayError>>>,
    i: int,
) -> Option<Result<Author, GatewayError>> {
    if 0 <= i < lookups.len() {
        lookups[i]
    } else {
        None
    }
}

/// Resolves a batch of tags, in order, each with the outcome of its author lookup.
pub fn resolve_tags(
    tags: Vec<RegularTagObject>,
    lookups: Vec<Option<Result<Author, GatewayError>>>,
) -> (r: Vec<TagObjectValue>)
    ensures
        r@.len() == tags@.len(),
        forall|i: int|
            0 <= i < r@.len() ==> resolved_from(#[trigger] r@[i], tags@[i], lookup_at(lookups@, i)),
{
    let ghost all = tags@;
    let ghost looks = lookups@;
    let mut rest = tags;
    let mut pending = lookups;
    let n = rest.len();
    let mut out: Vec<TagObjectValue> = Vec::new();
    let mut i: usize = 0;
    while i < n
        invariant
            n == all.len(),
            i <= n,
            rest@ == all.subrange(i as int, n as int),
            i <= looks.len() ==> pending@ == looks.subrange(i as int, looks.len() as int),
            i > looks.len() ==> pending@.len() == 0,
            out@.len() == i,
            forall|k: int| 0 <= k < i ==> resolved_from(#[trigger] out@[k], all[k], lookup_at(looks, k)),
        decreases n - i,
    {
        let t = rest.remove(0);
        let lookup = if pending.len() > 0 {
            pending.remove(0)
        } else {
            None
        };
        assert(lookup == lookup_at(looks, i as int));
        out.push(resolve_tag(t, lookup));
        i = i + 1;
    }
    out
}

/// Arguments of a tag listing.
#[derive(Clone, Debug)]
pub struct ListTagParameters {
    /// Query
    pub query: Option<String>,
    /// Use regex for query if exists and true, otherwise wildcard query will be used
    pub query_regex: Option<bool>,
    /// Category
    pub category: Option<String>,
    /// Order, one of 'latest', 'oldest', 'count', 'count_inv'
    pub order: Option<String>,
    pub offset: Option<i32>,
    pub limit: Option<i32>,
}

impl ListTagParameters {
    /// The endpoint of the listing: a query selects regular-expression or
    /// wildcard search, else a category selects the category listing. With
    /// neither the request is refused before any call.
    pub fn endpoint(&self) -> (r: Result<Endpoint, GatewayError>)
        ensures
            self.query is Some && self.query_regex == Some(true) ==> r == Ok::<
                Endpoint,
                GatewayError,
            >(Endpoint::QueryTagsRegex),
            self.query is Some && self.query_regex != Some(true) ==> r == Ok::<
                Endpoint,
                GatewayError,
            >(Endpoint::QueryTagsWildcard),
            self.query is None && self.category is Some ==> r == Ok::<Endpoint, GatewayError>(
                Endpoint::QueryTags,
            ),
            self.query is None && self.category is None ==> (r matches Err(
                GatewayError::InvalidRequest { rule },
            ) && rule == RequestRule::TagQuery),
    {
        if self.query.is_none() && self.category.is_some() {
            Ok(Endpoint::QueryTags)
        } else if self.query.is_some() {
            let use_regex = match self.query_regex {
                Some(f) => f,
                None => false,
            };
            if use_regex {
                Ok(Endpoint::QueryTagsRegex)
            } else {
                Ok(Endpoint::QueryTagsWildcard)
            }
        } else {
            Err(GatewayError::InvalidRequest { rule: RequestRule::TagQuery })
        }
    }
}

/// The reply of a tag listing.
#[derive(Clone, Debug)]
pub struct ListTagsRespObject {
    pub tags: Vec<TagObjectRespObject>,
    pub count: i32,
    pub page_count: i32,
}

/// A page of listed tags, with the backend's own total and page count.
#[derive(Clone, Debug)]
pub struct ListTagsResult {
    pub tags: Vec<RegularTagObject>,
    pub count: i32,
    pub page_count: i32,
}

impl ListTagsRespObject {
    /// The page, its tags read in the shared tag shape in the backend's order.
    pub fn into_result(self) -> (r: ListTagsResult)
        ensures
            r.count == self.count,
            r.page_count == self.page_count,
            r.tags@.len() == self.tags@.len(),
            forall|i: int| 0 <= i < r.tags@.len() ==> regular_of(#[trigger] r.tags@[i], self.tags@[i]),
    {
        ListTagsResult { tags: regular_tags(self.tags), count: self.count, page_count: self.page_count }
    }
}

impl ListTagsResult {
    /// The author lookups that the page's tags need, one entry per tag.
    pub fn author_lookups(&self) -> (r: Vec<Option<GetAuthorParameters>>)
        ensures
            r@.len() == self.tags@.len(),
            forall|i: int|
                0 <= i < r@.len() ==> ((#[trigger] r@[i]) is Some <==> self.tags@[i].category
                    == TagCategoryEnum::Author),
            forall|i: int|
                0 <= i < r@.len() ==> ((#[trigger] r@[i]) matches Some(p) ==> p.tagid
                    == self.tags@[i].tagid),
    {
        author_lookups(&self.tags)
    }

    /// The page's tags resolved into their variants, in order.
    pub fn tags(self, lookups: Vec<Option<Result<Author, GatewayError>>>) -> (r: Vec<
        TagObjectValue,
    >)
        ensures
            r@.len() == self.tags@.len(),
            forall|i: int|
                0 <= i < r@.len() ==> resolved_from(
                    #[trigger] r@[i],
                    self.tags@[i],
                    lookup_at(lookups@, i),
                ),
    {
        resolve_tags(self.tags, lookups)
    }

    pub fn count(&self) -> (r: i32)
        ensures
            r == self.count,
    {
        self.count
    }

    pub fn page_count(&self) -> (r: i32)
        ensures
            r == self.page_count,
    {
        self.page_count
    }
}

/// Arguments for adding a tag.
#[derive(Clone, Debug)]
pub struct AddTagParameters {
    /// Tag
    pub tag: String,
    /// Category
    pub category: String,
    /// Language
    pub language: String,
}

/// Arguments for removing a tag.
#[derive(Clone, Debug)]
pub struct RemoveTagParameters {
    /// Tag
    pub tag: String,
}

/// Arguments for moving a tag to another category.
#[derive(Clone, Debug)]
pub struct TransferCategoryParameters {
    /// Tag
    pub tag: String,
    /// Category
    pub category: String,
}

/// Arguments for renaming a tag.
#[derive(Clone, Debug)]
pub struct RenameTagParameters {
    /// Tag
    pub tag: String,
    /// New Tag
    pub new_tag: String,
    /// Language
    pub language: String,
}

/// Arguments for renaming an alias.
#[derive(Clone, Debug)]
pub struct RenameAliasParameters {
    /// Tag
    pub tag: String,
    /// New Tag
    pub new_tag: String,
}

/// Arguments for adding an alias.
#[derive(Clone, Debug)]
pub struct AddAliasParameters {
    /// Tag
    pub tag: String,
    /// New Tag
    pub new_tag: String,
}

/// Arguments for adding a display name in another language.
#[derive(Clone, Debug)]
pub struct AddTagLanguageParameters {
    /// Tag
    pub tag: String,
    /// New Tag
    pub new_tag: String,
    /// Language
    pub language: String,
}

/// Arguments for removing an alias.
#[derive(Clone, Debug)]
pub struct RemoveAliasParameters {
    /// Alias
    pub alias: String,
}

/// Arguments for merging one tag into another.
#[derive(Clone, Debug)]
pub struct MergeTagParameters {
    /// Tag dst
    pub tag_dst: String,
    /// Tag src
    pub tag_src: String,
}

} // verus!
