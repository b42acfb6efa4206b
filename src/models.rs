//! The entities of the graph: metadata, tag categories, videos, playlists and tags.
use vstd::prelude::*;
use crate::oid::{ObjectId, is_oid_hex, hex_decode};
use crate::users::GetUserParameters;
use crate::envelope::GatewayError;
use crate::author_db::Author;
use crate::comment::{GetThreadParameters, thread_lookup};
use crate::edit_tags::{GetTagObjectsBatchParameters, small_tag_ids};
use crate::get_video::{GetRelatedVideoParameters, GetVideoParameters};
use crate::playlist::{GetPlaylistContentParameters, GetPlaylistParameters};
use crate::rating::GetRatingParameters;

verus! {

/// An object id as the backend writes it: an extended-JSON object whose
/// `$oid` entry holds the digits (the entry's text, if it is a string), or a
/// bare string.
#[derive(Clone, Debug)]
pub enum MyObjectId {
    Oid(Option<String>),
    Str(String),
}

impl MyObjectId {
    /// The digits that this id spells, if it spells a valid one.
    pub open spec fn oid_bytes(self) -> Option<Seq<u8>> {
        match self {
            MyObjectId::Oid(Some(s)) => if is_oid_hex(s@) {
                Some(hex_decode(s@))
            } else {
                None
            },
            MyObjectId::Oid(None) => None,
            MyObjectId::Str(s) => if s@.len() > 0 && is_oid_hex(s@) {
                Some(hex_decode(s@))
            } else {
                None
            },
        }
    }

    /// The id, if the text spells a valid one.
    pub fn to_oid(&self) -> (r: Option<ObjectId>)
        ensures
            r is Some <==> self.oid_bytes() is Some,
            r matches Some(o) ==> o.bytes@ == self.oid_bytes()->Some_0,
    {
        match self {
            MyObjectId::Oid(o) => match o {
                Some(s) => ObjectId::parse(s.as_str()),
                None => None,
            },
            MyObjectId::Str(s) => {
                if !s.as_str().is_empty() {
                    ObjectId::parse(s.as_str())
                } else {
                    None
                }
            },
        }
    }
}

/// The lookup of the user behind an optional id; none where the id is absent or invalid.
pub open spec fn user_lookup_of(id: Option<MyObjectId>) -> Option<Seq<u8>> {
    match id {
        Some(u) => u.oid_bytes(),
        None => None,
    }
}

/// Where a lazily fetched field comes from: the value already held, or a
/// fresh lookup of the whole entity, made for this field alone.
#[derive(Clone, Debug)]
pub enum Hydration<T, R> {
    Cached(T),
    Refetch(R),
}

/// Creation and modification metadata; times in milliseconds since the epoch.
#[derive(Clone, Debug)]
pub struct Meta {
    pub created_at: i64,
    pub created_by: Option<MyObjectId>,
    pub modified_at: Option<i64>,
    pub modified_by: Option<MyObjectId>,
}

fn user_lookup(id: &Option<MyObjectId>) -> (r: Option<GetUserParameters>)
    ensures
        r is Some <==> user_lookup_of(*id) is Some,
        r matches Some(p) ==> p.uid@ == crate::oid::hex_encode(user_lookup_of(*id)->Some_0),
{
    match id {
        Some(u) => match u.to_oid() {
            Some(oid) => Some(GetUserParameters::for_user(&oid)),
            None => None,
        },
        None => None,
    }
}

impl Meta {
    pub fn created_at(&self) -> (r: i64)
        ensures
            r == self.created_at,
    {
        self.created_at
    }

    pub fn modified_at(&self) -> (r: Option<i64>)
        ensures
            r == self.modified_at,
    {
        self.modified_at
    }

    /// The lookup of the creator: none where no valid creator id is recorded.
    pub fn created_by(&self) -> (r: Option<GetUserParameters>)
        ensures
            r is Some <==> user_lookup_of(self.created_by) is Some,
            r matches Some(p) ==> p.uid@ == crate::oid::hex_encode(
                user_lookup_of(self.created_by)->Some_0,
            ),
    {
        user_lookup(&self.created_by)
    }

    /// The lookup of the last modifier: none where no valid modifier id is recorded.
    pub fn modified_by(&self) -> (r: Option<GetUserParameters>)
        ensures
            r is Some <==> user_lookup_of(self.modified_by) is Some,
            r matches Some(p) ==> p.uid@ == crate::oid::hex_encode(
                user_lookup_of(self.modified_by)->Some_0,
            ),
    {
        user_lookup(&self.modified_by)
    }
}


/// The closed set of tag categories.
#[derive(Clone, Copy, Debug, PartialEq, Eq, Structural)]
pub enum TagCategoryEnum {
    General,
    Character,
    Copyright,
    Author,
    Meta,
    Language,
    Soundtrack,
}

/// The category that a name denotes, if any.
pub open spec fn category_named(s: Seq<char>) -> Option<TagCategoryEnum> {
    if s == "General"@ {
        Some(TagCategoryEnum::General)
    } else if s == "Character"@ {
        Some(TagCategoryEnum::Character)
    } else if s == "Copyright"@ {
        Some(TagCategoryEnum::Copyright)
    } else if s == "Author"@ {
        Some(TagCategoryEnum::Author)
    } else if s == "Meta"@ {
        Some(TagCategoryEnum::Meta)
    } else if s == "Language"@ {
        Some(TagCategoryEnum::Language)
    } else if s == "Soundtrack"@ {
        Some(TagCategoryEnum::Soundtrack)
    } else {
        None
    }
}

fn same_text(a: &String, b: &str) -> (r: bool)
    ensures
        r == (a@ == b@),
{
    *a == String::from_str(b)
}

impl TagCategoryEnum {
    /// The category named `cat`; an unknown name is an error.
    pub fn from_string(cat: &str) -> (r: Result<TagCategoryEnum, GatewayError>)
        ensures
            category_named(cat@) matches Some(c) ==> r == Ok::<TagCategoryEnum, GatewayError>(c),
            category_named(cat@) is None ==> (r matches Err(GatewayError::UnknownCategory { name })
                && name@ == cat@),
    {
        let s = String::from_str(cat);
        if same_text(&s, "General") {
            Ok(TagCategoryEnum::General)
        } else if same_text(&s, "Character") {
            Ok(TagCategoryEnum::Character)
        } else if same_text(&s, "Copyright") {
            Ok(TagCategoryEnum::Copyright)
        } else if same_text(&s, "Author") {
            Ok(TagCategoryEnum::Author)
        } else if same_text(&s, "Meta") {
            Ok(TagCategoryEnum::Meta)
        } else if same_text(&s, "Language") {
            Ok(TagCategoryEnum::Language)
        } else if same_text(&s, "Soundtrack") {
            Ok(TagCategoryEnum::Soundtrack)
        } else {
            Err(GatewayError::UnknownCategory { name: s })
        }
    }
}

/// The tags of one category, by display name.
#[derive(Clone, Debug)]
pub struct TagCategoryItem {
    pub key: TagCategoryEnum,
    pub value: Vec<String>,
}

/// One entry of a backend category-to-tags map, its key not yet checked.
#[derive(Clone, Debug)]
pub struct RawCategoryEntry {
    pub key: String,
    pub value: Vec<String>,
}

/// Whether every entry's key names a category.
pub open spec fn all_categories_known(entries: Seq<RawCategoryEntry>) -> bool {
    forall|i: int| 0 <= i < entries.len() ==> (#[trigger] category_named(entries[i].key@)) is Some
}

/// Whether `items` are `entries` with each key read as a category, in order.
pub open spec fn categorized(items: Seq<TagCategoryItem>, entries: Seq<RawCategoryEntry>) -> bool {
    &&& items.len() == entries.len()
    &&& forall|i: int|
        0 <= i < items.len() ==> {
            &&& Some(#[trigger] items[i].key) == category_named(entries[i].key@)
            &&& items[i].value == entries[i].value
        }
}

/// Reads a category-to-tags map; fails on the first key that names no category.
pub fn tag_by_category_items(entries: Vec<RawCategoryEntry>) -> (r: Result<
    Vec<TagCategoryItem>,
    GatewayError,
>)
    ensures
        r is Ok <==> all_categories_known(entries@),
        r matches Ok(items) ==> categorized(items@, entries@),
        r matches Err(e) ==> e is UnknownCategory,
{
    let ghost all = entries@;
    let mut rest = entries;
    let n = rest.len();
    let mut items: Vec<TagCategoryItem> = Vec::new();
    let mut i: usize = 0;
    while i < n
        invariant
            all == entries@,
            n == all.len(),
            i <= n,
            rest@ == all.subrange(i as int, n as int),
            categorized(items@, all.subrange(0, i as int)),
        decreases n - i,
    {
        let e = rest.remove(0);
        match TagCategoryEnum::from_string(e.key.as_str()) {
            Ok(key) => {
                items.push(TagCategoryItem { key, value: e.value });
            },
            Err(err) => {
                assert(all[i as int] == e);
                assert(category_named(all[i as int].key@) is None);
                return Err(err);
            },
        }
        i = i + 1;
        assert(categorized(items@, all.subrange(0, i as int)));
    }
    assert(all.subrange(0, n as int) =~= all);
    assert forall|k: int| 0 <= k < all.len() implies (#[trigger] category_named(all[k].key@)) is Some by {
        assert(Some(items@[k].key) == category_named(all[k].key@));
    }
    Ok(items)
}

/// A display name of a tag in one language.
#[derive(Clone, Debug)]
pub struct MultilingualMapping {
    pub lang: String,
    pub value: String,
}

/// A tag of any category but `Author`.
#[derive(Clone, Debug)]
pub struct RegularTagObject {
    pub tagid: i32,
    pub _id: ObjectId,
    pub category: TagCategoryEnum,
    pub count: i32,
    pub languages: Vec<MultilingualMapping>,
    pub alias: Vec<String>,
    pub is_author: bool,
    pub meta: Meta,
}

/// A tag of category `Author`, with its linked author record where that could be fetched.
#[derive(Clone, Debug)]
pub struct AuthorTagObject {
    pub tagid: i32,
    pub _id: ObjectId,
    pub category: TagCategoryEnum,
    pub count: i32,
    pub languages: Vec<MultilingualMapping>,
    pub alias: Vec<String>,
    pub author: Option<Author>,
    pub is_author: bool,
    pub meta: Meta,
    pub author_role: String,
}

/// A tag: one of the two variants, told apart by category.
#[derive(Clone, Debug)]
pub enum TagObjectValue {
    RegularTagObject(RegularTagObject),
    AuthorTagObject(AuthorTagObject),
}

impl TagObjectValue {
    pub open spec fn spec_is_author(self) -> bool {
        match self {
            TagObjectValue::RegularTagObject(t) => t.is_author,
            TagObjectValue::AuthorTagObject(t) => t.is_author,
        }
    }

    pub open spec fn spec_category(self) -> TagCategoryEnum {
        match self {
            TagObjectValue::RegularTagObject(t) => t.category,
            TagObjectValue::AuthorTagObject(t) => t.category,
        }
    }

    pub fn tagid(&self) -> (r: i32)
        ensures
            r == match self {
                TagObjectValue::RegularTagObject(t) => t.tagid,
                TagObjectValue::AuthorTagObject(t) => t.tagid,
            },
    {
        match self {
            TagObjectValue::RegularTagObject(t) => t.tagid,
            TagObjectValue::AuthorTagObject(t) => t.tagid,
        }
    }

    pub fn category(&self) -> (r: TagCategoryEnum)
        ensures
            r == self.spec_category(),
    {
        match self {
            TagObjectValue::RegularTagObject(t) => t.category,
            TagObjectValue::AuthorTagObject(t) => t.category,
        }
    }

    pub fn count(&self) -> (r: i32)
        ensures
            r == match self {
                TagObjectValue::RegularTagObject(t) => t.count,
                TagObjectValue::AuthorTagObject(t) => t.count,
            },
    {
        match self {
            TagObjectValue::RegularTagObject(t) => t.count,
            TagObjectValue::AuthorTagObject(t) => t.count,
        }
    }

    pub fn id(&self) -> (r: String)
        ensures
            r@ == match self {
                TagObjectValue::RegularTagObject(t) => t._id.hex(),
                TagObjectValue::AuthorTagObject(t) => t._id.hex(),
            },
    {
        match self {
            TagObjectValue::RegularTagObject(t) => t._id.to_string(),
            TagObjectValue::AuthorTagObject(t) => t._id.to_string(),
        }
    }

    pub fn languages(&self) -> (r: &Vec<MultilingualMapping>)
        ensures
            *r == match self {
                TagObjectValue::RegularTagObject(t) => t.languages,
                TagObjectValue::AuthorTagObject(t) => t.languages,
            },
    {
        match self {
            TagObjectValue::RegularTagObject(t) => &t.languages,
            TagObjectValue::AuthorTagObject(t) => &t.languages,
        }
    }

    pub fn alias(&self) -> (r: &Vec<String>)
        ensures
            *r == match self {
                TagObjectValue::RegularTagObject(t) => t.alias,
                TagObjectValue::AuthorTagObject(t) => t.alias,
            },
    {
        match self {
            TagObjectValue::RegularTagObject(t) => &t.alias,
            TagObjectValue::AuthorTagObject(t) => &t.alias,
        }
    }

    pub fn meta(&self) -> (r: &Meta)
        ensures
            *r == match self {
                TagObjectValue::RegularTagObject(t) => t.meta,
                TagObjectValue::AuthorTagObject(t) => t.meta,
            },
    {
        match self {
            TagObjectValue::RegularTagObject(t) => &t.meta,
            TagObjectValue::AuthorTagObject(t) => &t.meta,
        }
    }

    pub fn is_author(&self) -> (r: bool)
        ensures
            r == self.spec_is_author(),
    {
        match self {
            TagObjectValue::RegularTagObject(t) => t.is_author,
            TagObjectValue::AuthorTagObject(t) => t.is_author,
        }
    }
}

/// A tag with how popular it is.
#[derive(Clone, Debug)]
pub struct TagWithPopularity {
    pub popluarity: i32,
    pub tag: TagObjectValue,
}


/// The decimal digit for a value below ten.
pub open spec fn decimal_digit(n: nat) -> char {
    (n + '0' as nat) as char
}

/// The decimal spelling of a number: no sign, no leading zero.
pub open spec fn decimal(n: nat) -> Seq<char>
    decreases n,
{
    if n < 10 {
        seq![decimal_digit(n)]
    } else {
        decimal(n / 10).push(decimal_digit(n % 10))
    }
}

/// Relies on the `Display` of `u64` (through `ToString`): its decimal digits.
#[verifier::external_body]
fn u64_decimal(n: u64) -> (r: String)
    ensures
        r@ == decimal(n as nat),
{
    n.to_string()
}

/// What the backend knows of a video's content.
#[derive(Clone, Debug)]
pub struct VideoItem {
    pub cover_image: String,
    pub title: String,
    pub desc: String,
    pub placeholder: Option<bool>,
    /// Bit pattern of the average rating, an IEEE 754 double.
    pub rating_bits: u64,
    pub repost_type: String,
    pub copies: Vec<ObjectId>,
    pub series: Vec<ObjectId>,
    pub site: String,
    pub thumbnail_url: String,
    pub unique_id: String,
    /// Milliseconds since the epoch.
    pub upload_time: i64,
    pub url: String,
    pub user_space_urls: Option<Vec<String>>,
    pub utags: Vec<String>,
    pub views: i32,
    pub cid: Option<u64>,
    pub part_name: Option<String>,
}

impl VideoItem {
    /// The part id, in decimal.
    pub fn cid(&self) -> (r: Option<String>)
        ensures
            r is Some <==> self.cid is Some,
            r matches Some(s) ==> s@ == decimal(self.cid->Some_0 as nat),
    {
        match self.cid {
            Some(c) => Some(u64_decimal(c)),
            None => None,
        }
    }
}

/// What the backend knows of a playlist's content.
#[derive(Clone, Debug)]
pub struct PlaylistMeta {
    pub cover: String,
    pub videos: i32,
    pub desc: String,
    pub private: bool,
    pub privateEdit: bool,
    pub title: String,
    pub views: i32,
}

impl PlaylistMeta {
    pub fn cover(&self) -> (r: &String)
        ensures
            *r == self.cover,
    {
        &self.cover
    }

    /// The number of videos in the playlist.
    pub fn count(&self) -> (r: i32)
        ensures
            r == self.videos,
    {
        self.videos
    }

    pub fn title(&self) -> (r: &String)
        ensures
            *r == self.title,
    {
        &self.title
    }

    pub fn desc(&self) -> (r: &String)
        ensures
            *r == self.desc,
    {
        &self.desc
    }

    pub fn private(&self) -> (r: bool)
        ensures
            r == self.private,
    {
        self.private
    }

    pub fn privateEdit(&self) -> (r: bool)
        ensures
            r == self.privateEdit,
    {
        self.privateEdit
    }
}

/// A playlist. `editable` and `owner` are known only when it was fetched on
/// its own; `tag_by_category` is fetched lazily when absent.
#[derive(Clone, Debug)]
pub struct Playlist {
    pub _id: ObjectId,
    pub item: PlaylistMeta,
    pub meta: Meta,
    pub clearence: i32,
    pub editable: Option<bool>,
    pub owner: Option<bool>,
    pub tags: Vec<i64>,
    pub tag_by_category: Option<Vec<TagCategoryItem>>,
    pub comment_thread: Option<ObjectId>,
}

impl Playlist {
    /// The lookup of a page of the playlist's videos.
    pub fn videos(&self, offset: Option<i32>, limit: Option<i32>) -> (r: GetPlaylistContentParameters)
        ensures
            r.pid@ == self._id.hex(),
            r.offset == offset,
            r.limit == limit,
    {
        GetPlaylistContentParameters { pid: self._id.to_string(), offset, limit }
    }

    /// The tag ids that fit a 32-bit id, in order.
    pub fn tag_ids(&self) -> (r: Vec<i32>)
        ensures
            r@ == small_tag_ids(self.tags@),
    {
        GetTagObjectsBatchParameters::for_ids(&self.tags).tagid
    }

    /// The batch lookup of the playlist's tags.
    pub fn tags(&self) -> (r: GetTagObjectsBatchParameters)
        ensures
            r.tagid@ == small_tag_ids(self.tags@),
    {
        GetTagObjectsBatchParameters::for_ids(&self.tags)
    }

    /// The tags by category: those held, or else a lookup of the playlist.
    pub fn tag_by_category(&self) -> (r: Hydration<&Vec<TagCategoryItem>, GetPlaylistParameters>)
        ensures
            self.tag_by_category matches Some(c) ==> (r matches Hydration::Cached(x) && *x == c),
            self.tag_by_category is None ==> (r matches Hydration::Refetch(p) && p.pid@
                == self._id.hex()),
    {
        match &self.tag_by_category {
            Some(c) => Hydration::Cached(c),
            None => Hydration::Refetch(GetPlaylistParameters::for_playlist(&self._id)),
        }
    }

    /// The tags by category of a playlist fetched on its own.
    pub fn take_tag_by_category(self) -> (r: Result<Vec<TagCategoryItem>, GatewayError>)
        ensures
            self.tag_by_category matches Some(c) ==> r == Ok::<Vec<TagCategoryItem>, GatewayError>(c),
            self.tag_by_category is None ==> r == Err::<Vec<TagCategoryItem>, GatewayError>(
                GatewayError::MissingData,
            ),
    {
        match self.tag_by_category {
            Some(c) => Ok(c),
            None => Err(GatewayError::MissingData),
        }
    }

    /// The lookup of the playlist's rating.
    pub fn rating(&self) -> (r: GetRatingParameters)
        ensures
            r.vid is None,
            r.pid matches Some(p) && p@ == self._id.hex(),
    {
        GetRatingParameters::for_playlist(&self._id)
    }

    /// The lookup of the playlist's comment thread, if it has one.
    pub fn comment_thread(&self) -> (r: Option<GetThreadParameters>)
        ensures
            r is Some <==> self.comment_thread is Some,
            r matches Some(p) ==> p.thread_id@ == self.comment_thread->Some_0.hex(),
    {
        thread_lookup(&self.comment_thread)
    }
}

/// A video's place in one playlist, with its neighbours' ids.
#[derive(Clone, Debug)]
pub struct PlaylistContentForVideo {
    pub _id: ObjectId,
    pub vid: ObjectId,
    pub item: PlaylistMeta,
    pub rank: i32,
    pub next: Option<String>,
    pub prev: Option<String>,
}

impl PlaylistContentForVideo {
    /// The playlist's metadata.
    pub fn meta(&self) -> (r: &PlaylistMeta)
        ensures
            *r == self.item,
    {
        &self.item
    }

    /// The video's position in the playlist.
    pub fn rank(&self) -> (r: i32)
        ensures
            r == self.rank,
    {
        self.rank
    }

    /// The lookup of the whole playlist.
    pub fn playlist(&self) -> (r: GetPlaylistParameters)
        ensures
            r.pid@ == self._id.hex(),
    {
        GetPlaylistParameters::for_playlist(&self._id)
    }

    /// The lookup of the next video, if there is one.
    pub fn next(&self, lang: String) -> (r: Option<GetVideoParameters>)
        ensures
            r is Some <==> self.next is Some,
            r matches Some(p) ==> p.vid == self.next->Some_0 && p.lang == lang,
    {
        match &self.next {
            Some(vid) => Some(GetVideoParameters { vid: vid.clone(), lang }),
            None => None,
        }
    }

    /// The lookup of the previous video, if there is one.
    pub fn prev(&self, lang: String) -> (r: Option<GetVideoParameters>)
        ensures
            r is Some <==> self.prev is Some,
            r matches Some(p) ==> p.vid == self.prev->Some_0 && p.lang == lang,
    {
        match &self.prev {
            Some(vid) => Some(GetVideoParameters { vid: vid.clone(), lang }),
            None => None,
        }
    }
}

/// A video with its position in a playlist.
#[derive(Debug)]
pub struct VideoRank {
    pub video: Video,
    pub rank: i32,
}

/// A video. `tag_by_category`, `copies` and `playlists` come from one lookup
/// of the video: all three are present, or all three absent until fetched.
#[derive(Debug)]
pub struct Video {
    pub _id: ObjectId,
    pub clearence: i32,
    pub item: VideoItem,
    pub meta: Meta,
    pub tag_count: Option<i32>,
    pub tags: Vec<i64>,
    pub tags_readable: Option<Vec<String>>,
    pub tag_by_category: Option<Vec<TagCategoryItem>>,
    pub copies: Option<Vec<Video>>,
    pub playlists: Option<Vec<PlaylistContentForVideo>>,
    pub comment_thread: Option<ObjectId>,
}

impl Video {
    /// Whether the fields of the video's own lookup are all present.
    pub open spec fn hydrated(self) -> bool {
        self.tag_by_category is Some && self.copies is Some && self.playlists is Some
    }

    /// Whether they are all present or all absent.
    pub open spec fn well_formed(self) -> bool {
        self.hydrated() || (self.tag_by_category is None && self.copies is None
            && self.playlists is None)
    }

    /// Whether the lazily fetched fields are present, all three together.
    pub fn is_hydrated(&self) -> (r: bool)
        ensures
            r == self.hydrated(),
    {
        self.tag_by_category.is_some() && self.copies.is_some() && self.playlists.is_some()
    }

    /// The number of tags; zero where the backend gave none.
    pub fn tag_count(&self) -> (r: i32)
        ensures
            r == match self.tag_count {
                Some(c) => c,
                None => 0,
            },
    {
        match self.tag_count {
            Some(c) => c,
            None => 0,
        }
    }

    /// The tag ids that fit a 32-bit id, in order.
    pub fn tag_ids(&self) -> (r: Vec<i32>)
        ensures
            r@ == small_tag_ids(self.tags@),
    {
        GetTagObjectsBatchParameters::for_ids(&self.tags).tagid
    }

    /// The batch lookup of the video's tags.
    pub fn tags(&self) -> (r: GetTagObjectsBatchParameters)
        ensures
            r.tagid@ == small_tag_ids(self.tags@),
    {
        GetTagObjectsBatchParameters::for_ids(&self.tags)
    }

    /// The lookup of this video in language `lang`.
    pub fn refetch(&self, lang: String) -> (r: GetVideoParameters)
        ensures
            r.vid@ == self._id.hex(),
            r.lang == lang,
    {
        GetVideoParameters { vid: self._id.to_string(), lang }
    }

    /// The tags by category: those held, or else a lookup of the video.
    pub fn tag_by_category(&self, lang: String) -> (r: Hydration<&Vec<TagCategoryItem>, GetVideoParameters>)
        ensures
            self.tag_by_category matches Some(c) ==> (r matches Hydration::Cached(x) && *x == c),
            self.tag_by_category is None ==> (r matches Hydration::Refetch(p) && p.vid@
                == self._id.hex() && p.lang == lang),
    {
        match &self.tag_by_category {
            Some(c) => Hydration::Cached(c),
            None => Hydration::Refetch(self.refetch(lang)),
        }
    }

    /// The copies: those held, or else a lookup of the video.
    pub fn copies(&self, lang: String) -> (r: Hydration<&Vec<Video>, GetVideoParameters>)
        ensures
            self.copies matches Some(c) ==> (r matches Hydration::Cached(x) && *x == c),
            self.copies is None ==> (r matches Hydration::Refetch(p) && p.vid@ == self._id.hex()
                && p.lang == lang),
    {
        match &self.copies {
            Some(c) => Hydration::Cached(c),
            None => Hydration::Refetch(self.refetch(lang)),
        }
    }

    /// The playlist memberships: those held, or else a lookup of the video.
    pub fn playlists(&self, lang: String) -> (r: Hydration<&Vec<PlaylistContentForVideo>, GetVideoParameters>)
        ensures
            self.playlists matches Some(c) ==> (r matches Hydration::Cached(x) && *x == c),
            self.playlists is None ==> (r matches Hydration::Refetch(p) && p.vid@ == self._id.hex()
                && p.lang == lang),
    {
        match &self.playlists {
            Some(c) => Hydration::Cached(c),
            None => Hydration::Refetch(self.refetch(lang)),
        }
    }

    /// The tags by category of a video fetched on its own.
    pub fn take_tag_by_category(self) -> (r: Result<Vec<TagCategoryItem>, GatewayError>)
        ensures
            self.tag_by_category matches Some(c) ==> r == Ok::<Vec<TagCategoryItem>, GatewayError>(c),
            self.tag_by_category is None ==> r == Err::<Vec<TagCategoryItem>, GatewayError>(
                GatewayError::MissingData,
            ),
    {
        match self.tag_by_category {
            Some(c) => Ok(c),
            None => Err(GatewayError::MissingData),
        }
    }

    /// The copies of a video fetched on its own.
    pub fn take_copies(self) -> (r: Result<Vec<Video>, GatewayError>)
        ensures
            self.copies matches Some(c) ==> r == Ok::<Vec<Video>, GatewayError>(c),
            self.copies is None ==> r == Err::<Vec<Video>, GatewayError>(GatewayError::MissingData),
    {
        match self.copies {
            Some(c) => Ok(c),
            None => Err(GatewayError::MissingData),
        }
    }

    /// The playlist memberships of a video fetched on its own.
    pub fn take_playlists(self) -> (r: Result<Vec<PlaylistContentForVideo>, GatewayError>)
        ensures
            self.playlists matches Some(c) ==> r == Ok::<Vec<PlaylistContentForVideo>, GatewayError>(c),
            self.playlists is None ==> r == Err::<Vec<PlaylistContentForVideo>, GatewayError>(
                GatewayError::MissingData,
            ),
    {
        match self.playlists {
            Some(c) => Ok(c),
            None => Err(GatewayError::MissingData),
        }
    }

    /// The lookup of the video's rating.
    pub fn rating(&self) -> (r: GetRatingParameters)
        ensures
            r.pid is None,
            r.vid matches Some(v) && v@ == self._id.hex(),
    {
        GetRatingParameters::for_video(&self._id)
    }

    /// The lookup of the video's comment thread, if it has one.
    pub fn comment_thread(&self) -> (r: Option<GetThreadParameters>)
        ensures
            r is Some <==> self.comment_thread is Some,
            r matches Some(p) ==> p.thread_id@ == self.comment_thread->Some_0.hex(),
    {
        thread_lookup(&self.comment_thread)
    }

    /// The lookup of videos related to this one.
    pub fn related_videos(&self, top_k: Option<i32>, sort_title: Option<bool>) -> (r: GetRelatedVideoParameters)
        ensures
            r.vid@ == self._id.hex(),
            r.top_k == top_k,
            r.sort_title == sort_title,
    {
        GetRelatedVideoParameters { vid: self._id.to_string(), top_k, sort_title }
    }
}

impl VideoItem {
    pub fn cover_image(&self) -> (r: &String)
        ensures
            *r == self.cover_image,
    {
        &self.cover_image
    }

    pub fn title(&self) -> (r: &String)
        ensures
            *r == self.title,
    {
        &self.title
    }

    pub fn desc(&self) -> (r: &String)
        ensures
            *r == self.desc,
    {
        &self.desc
    }

    pub fn placeholder(&self) -> (r: Option<bool>)
        ensures
            r == self.placeholder,
    {
        self.placeholder
    }

    pub fn repost_type(&self) -> (r: &String)
        ensures
            *r == self.repost_type,
    {
        &self.repost_type
    }

    pub fn site(&self) -> (r: &String)
        ensures
            *r == self.site,
    {
        &self.site
    }

    pub fn thumbnail_url(&self) -> (r: &String)
        ensures
            *r == self.thumbnail_url,
    {
        &self.thumbnail_url
    }

    pub fn unique_id(&self) -> (r: &String)
        ensures
            *r == self.unique_id,
    {
        &self.unique_id
    }

    /// Milliseconds since the epoch.
    pub fn upload_time(&self) -> (r: i64)
        ensures
            r == self.upload_time,
    {
        self.upload_time
    }

    pub fn url(&self) -> (r: &String)
        ensures
            *r == self.url,
    {
        &self.url
    }

    pub fn user_space_urls(&self) -> (r: &Option<Vec<String>>)
        ensures
            *r == self.user_space_urls,
    {
        &self.user_space_urls
    }

    pub fn utags(&self) -> (r: &Vec<String>)
        ensures
            *r == self.utags,
    {
        &self.utags
    }

    pub fn views(&self) -> (r: i32)
        ensures
            r == self.views,
    {
        self.views
    }

    pub fn part_name(&self) -> (r: &Option<String>)
        ensures
            *r == self.part_name,
    {
        &self.part_name
    }
}

impl Video {
    pub fn id(&self) -> (r: String)
        ensures
            r@ == self._id.hex(),
    {
        self._id.to_string()
    }

    pub fn clearence(&self) -> (r: i32)
        ensures
            r == self.clearence,
    {
        self.clearence
    }

    pub fn item(&self) -> (r: &VideoItem)
        ensures
            *r == self.item,
    {
        &self.item
    }

    pub fn meta(&self) -> (r: &Meta)
        ensures
            *r == self.meta,
    {
        &self.meta
    }

    pub fn tags_readable(&self) -> (r: &Option<Vec<String>>)
        ensures
            *r == self.tags_readable,
    {
        &self.tags_readable
    }
}

impl Playlist {
    pub fn id(&self) -> (r: String)
        ensures
            r@ == self._id.hex(),
    {
        self._id.to_string()
    }

    pub fn clearence(&self) -> (r: i32)
        ensures
            r == self.clearence,
    {
        self.clearence
    }

    /// Metadata (created_at etc.)
    pub fn meta(&self) -> (r: &Meta)
        ensures
            *r == self.meta,
    {
        &self.meta
    }

    /// Playlist metadata
    pub fn item(&self) -> (r: &PlaylistMeta)
        ensures
            *r == self.item,
    {
        &self.item
    }

    /// If current user can edit this playlist
    pub fn editable(&self) -> (r: Option<bool>)
        ensures
            r == self.editable,
    {
        self.editable
    }

    /// If current user can edit or delete this playlist
    pub fn owner(&self) -> (r: Option<bool>)
        ensures
            r == self.owner,
    {
        self.owner
    }
}

impl PlaylistContentForVideo {
    pub fn id(&self) -> (r: String)
        ensures
            r@ == self._id.hex(),
    {
        self._id.to_string()
    }
}

} // verus!
