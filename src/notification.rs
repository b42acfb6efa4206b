//! Notifications: their resolution into variants, and unread counts by type.
use vstd::prelude::*;
use crate::endpoint::Endpoint;
use crate::envelope::GatewayError;
use crate::oid::{ObjectId, is_oid_hex, hex_decode, hex_encode};
use crate::users::{GetUserParameters, User};

verus! {

/// A value of a notification's open-ended payload, as far as resolution reads it.
#[derive(Clone, Debug)]
pub enum NoteValue {
    /// A JSON string.
    Text(String),
    /// A JSON object whose `$oid` entry is the string held.
    OidObject(String),
    /// Anything else.
    Other,
}

/// One entry of a notification's payload.
#[derive(Clone, Debug)]
pub struct NoteEntry {
    pub key: String,
    pub value: NoteValue,
}

/// A notification as the backend sends it; times in milliseconds since the epoch.
#[derive(Clone, Debug)]
pub struct SingleNotificationResult {
    pub _id: ObjectId,
    pub type_: String,
    pub time: i64,
    pub read: bool,
    pub to: ObjectId,
    pub other: Vec<NoteEntry>,
}

/// A reply to one of the caller's comments.
#[derive(Clone, Debug)]
pub struct ReplyNotificationObject {
    pub _id: ObjectId,
    pub type_: String,
    pub time: i64,
    pub read: bool,
    pub content: String,
    pub replied_by: User,
    /// Comment ID
    pub cid: ObjectId,
    /// One of 'forum', 'video', 'playlist'
    pub replied_type: String,
    /// Link to thread
    pub replied_obj: ObjectId,
}

/// A notification without payload.
#[derive(Clone, Debug)]
pub struct BaseNotificationObject {
    pub _id: ObjectId,
    pub type_: String,
    pub time: i64,
    pub read: bool,
}

/// A message of the system.
#[derive(Clone, Debug)]
pub struct SystemNotificationObject {
    pub _id: ObjectId,
    pub type_: String,
    pub time: i64,
    pub read: bool,
    pub content: String,
    pub title: String,
    pub related_link: Option<String>,
}

/// A notification: one of three variants, told apart by type.
#[derive(Clone, Debug)]
pub enum NotificationObjectValue {
    ReplyNotificationObject(ReplyNotificationObject),
    BaseNotificationObject(BaseNotificationObject),
    SystemNotificationObject(SystemNotificationObject),
}

impl NotificationObjectValue {
    pub fn id(&self) -> (r: &ObjectId)
        ensures
            *r == match self {
                NotificationObjectValue::ReplyNotificationObject(n) => n._id,
                NotificationObjectValue::BaseNotificationObject(n) => n._id,
                NotificationObjectValue::SystemNotificationObject(n) => n._id,
            },
    {
        match self {
            NotificationObjectValue::ReplyNotificationObject(n) => &n._id,
            NotificationObjectValue::BaseNotificationObject(n) => &n._id,
            NotificationObjectValue::SystemNotificationObject(n) => &n._id,
        }
    }

    pub fn type_(&self) -> (r: &String)
        ensures
            *r == match self {
                NotificationObjectValue::ReplyNotificationObject(n) => n.type_,
                NotificationObjectValue::BaseNotificationObject(n) => n.type_,
                NotificationObjectValue::SystemNotificationObject(n) => n.type_,
            },
    {
        match self {
            NotificationObjectValue::ReplyNotificationObject(n) => &n.type_,
            NotificationObjectValue::BaseNotificationObject(n) => &n.type_,
            NotificationObjectValue::SystemNotificationObject(n) => &n.type_,
        }
    }

    /// Milliseconds since the epoch.
    pub fn time(&self) -> (r: i64)
        ensures
            r == match self {
                NotificationObjectValue::ReplyNotificationObject(n) => n.time,
                NotificationObjectValue::BaseNotificationObject(n) => n.time,
                NotificationObjectValue::SystemNotificationObject(n) => n.time,
            },
    {
        match self {
            NotificationObjectValue::ReplyNotificationObject(n) => n.time,
            NotificationObjectValue::BaseNotificationObject(n) => n.time,
            NotificationObjectValue::SystemNotificationObject(n) => n.time,
        }
    }

    /// If this notification has been read
    pub fn read(&self) -> (r: bool)
        ensures
            r == match self {
                NotificationObjectValue::ReplyNotificationObject(n) => n.read,
                NotificationObjectValue::BaseNotificationObject(n) => n.read,
                NotificationObjectValue::SystemNotificationObject(n) => n.read,
            },
    {
        match self {
            NotificationObjectValue::ReplyNotificationObject(n) => n.read,
            NotificationObjectValue::BaseNotificationObject(n) => n.read,
            NotificationObjectValue::SystemNotificationObject(n) => n.read,
        }
    }
}

/// The value under `key`: the first entry that has it.
pub open spec fn lookup_field(m: Seq<NoteEntry>, key: Seq<char>) -> Option<NoteValue>
    decreases m.len(),
{
    if m.len() == 0 {
        None
    } else if m[0].key@ == key {
        Some(m[0].value)
    } else {
        lookup_field(m.drop_first(), key)
    }
}

/// The string under `key`, if there is one and it is a string.
pub open spec fn text_field(m: Seq<NoteEntry>, key: Seq<char>) -> Option<String> {
    match lookup_field(m, key) {
        Some(NoteValue::Text(s)) => Some(s),
        _ => None,
    }
}

/// The id under `key`, if there is one and it is an extended-JSON id.
pub open spec fn oid_field(m: Seq<NoteEntry>, key: Seq<char>) -> Option<Seq<u8>> {
    match lookup_field(m, key) {
        Some(NoteValue::OidObject(s)) => if is_oid_hex(s@) {
            Some(hex_decode(s@))
        } else {
            None
        },
        _ => None,
    }
}

pub open spec fn is_reply(n: SingleNotificationResult) -> bool {
    n.type_@ == "comment_reply"@
}

pub open spec fn is_system(n: SingleNotificationResult) -> bool {
    n.type_@ == "system_message"@
}

/// Whether a reply notification holds every field that its variant needs.
pub open spec fn reply_well_formed(m: Seq<NoteEntry>) -> bool {
    &&& text_field(m, "content"@) is Some
    &&& oid_field(m, "cid"@) is Some
    &&& oid_field(m, "replied_by"@) is Some
    &&& text_field(m, "replied_type"@) is Some
    &&& oid_field(m, "replied_obj"@) is Some
}

/// Whether a system notification holds every field that its variant needs.
pub open spec fn system_well_formed(m: Seq<NoteEntry>) -> bool {
    &&& text_field(m, "content"@) is Some
    &&& text_field(m, "title"@) is Some
    &&& (lookup_field(m, "related_link"@) is None || text_field(m, "related_link"@) is Some)
}

/// The value under `key`; its absence makes the notification malformed.
pub fn fetch_field<'a>(map: &'a Vec<NoteEntry>, val: &str) -> (r: Result<&'a NoteValue, GatewayError>)
    ensures
        lookup_field(map@, val@) matches Some(v) ==> (r matches Ok(x) && *x == v),
        lookup_field(map@, val@) is None ==> (r matches Err(GatewayError::MalformedNotification { field })
            && field@ == val@),
{
    match fetch_field_opt(map, val) {
        Some(v) => Ok(v),
        None => Err(GatewayError::MalformedNotification { field: String::from_str(val) }),
    }
}

/// The value under `key`, if any.
pub fn fetch_field_opt<'a>(map: &'a Vec<NoteEntry>, val: &str) -> (r: Option<&'a NoteValue>)
    ensures
        lookup_field(map@, val@) matches Some(v) ==> (r matches Some(x) && *x == v),
        lookup_field(map@, val@) is None ==> r is None,
{
    let key = String::from_str(val);
    let mut i: usize = 0;
    assert(map@.subrange(0, map@.len() as int) =~= map@);
    while i < map.len()
        invariant
            i <= map@.len(),
            key@ == val@,
            lookup_field(map@, val@) == lookup_field(map@.subrange(i as int, map@.len() as int), val@),
        decreases map@.len() - i,
    {
        let ghost tail = map@.subrange(i as int, map@.len() as int);
        assert(tail.drop_first() =~= map@.subrange(i + 1, map@.len() as int));
        if map[i].key == key {
            return Some(&map[i].value);
        }
        i = i + 1;
    }
    None
}

/// The id that a payload value holds, if it is an extended-JSON id.
pub fn value_to_oid(val: &NoteValue) -> (r: Option<ObjectId>)
    ensures
        (val matches NoteValue::OidObject(s) && is_oid_hex(s@)) <==> r is Some,
        r matches Some(o) ==> (val matches NoteValue::OidObject(s) && o.bytes@ == hex_decode(s@)),
{
    match val {
        NoteValue::OidObject(s) => ObjectId::parse(s.as_str()),
        _ => None,
    }
}

fn text_value(m: &Vec<NoteEntry>, key: &str) -> (r: Result<String, GatewayError>)
    ensures
        text_field(m@, key@) matches Some(s) ==> r == Ok::<String, GatewayError>(s),
        text_field(m@, key@) is None ==> (r matches Err(e) && e is MalformedNotification),
{
    match fetch_field(m, key) {
        Ok(NoteValue::Text(s)) => Ok(s.clone()),
        _ => Err(GatewayError::MalformedNotification { field: String::from_str(key) }),
    }
}

fn oid_value(m: &Vec<NoteEntry>, key: &str) -> (r: Result<ObjectId, GatewayError>)
    ensures
        oid_field(m@, key@) matches Some(b) ==> (r matches Ok(o) && o.bytes@ == b),
        oid_field(m@, key@) is None ==> (r matches Err(e) && e is MalformedNotification),
{
    match fetch_field(m, key) {
        Ok(v) => match value_to_oid(v) {
            Some(o) => Ok(o),
            None => Err(GatewayError::MalformedNotification { field: String::from_str(key) }),
        },
        Err(e) => Err(e),
    }
}

fn is_type(n: &SingleNotificationResult, t: &str) -> (r: bool)
    ensures
        r == (n.type_@ == t@),
{
    n.type_ == String::from_str(t)
}

/// The user fetch that a notification needs: exactly one for a reply, for the
/// id of the replying user; none for any other type. A reply that lacks a field
/// of its variant is malformed.
pub fn reply_user_lookup(note: &SingleNotificationResult) -> (r: Result<
    Option<GetUserParameters>,
    GatewayError,
>)
    ensures
        r is Err <==> is_reply(*note) && !reply_well_formed(note.other@),
        r matches Err(e) ==> e is MalformedNotification,
        r matches Ok(Some(p)) ==> is_reply(*note) && p.uid@ == hex_encode(
            oid_field(note.other@, "replied_by"@)->Some_0,
        ),
        r matches Ok(None) ==> !is_reply(*note),
{
    if is_type(note, "comment_reply") {
        let _content = text_value(&note.other, "content")?;
        let _cid = oid_value(&note.other, "cid")?;
        let replied_by = oid_value(&note.other, "replied_by")?;
        let _replied_type = text_value(&note.other, "replied_type")?;
        let _replied_obj = oid_value(&note.other, "replied_obj")?;
        Ok(Some(GetUserParameters::for_user(&replied_by)))
    } else {
        Ok(None)
    }
}

/// Whether a notification resolves, given the user fetched for it.
pub open spec fn resolvable(n: SingleNotificationResult, user: Option<User>) -> bool {
    if is_reply(n) {
        reply_well_formed(n.other@) && user is Some
    } else if is_system(n) {
        system_well_formed(n.other@)
    } else {
        true
    }
}

/// Whether `r` is the notification `n` resolved into its variant, with `user` as replying user.
pub open spec fn resolved_note(r: NotificationObjectValue, n: SingleNotificationResult, user: Option<User>) -> bool {
    if is_reply(n) {
        &&& r matches NotificationObjectValue::ReplyNotificationObject(o)
        &&& o._id == n._id && o.type_ == n.type_ && o.time == n.time && o.read == n.read
        &&& Some(o.replied_by) == user
        &&& Some(o.content) == text_field(n.other@, "content"@)
        &&& Some(o.cid.bytes@) == oid_field(n.other@, "cid"@)
        &&& Some(o.replied_type) == text_field(n.other@, "replied_type"@)
        &&& Some(o.replied_obj.bytes@) == oid_field(n.other@, "replied_obj"@)
    } else if is_system(n) {
        &&& r matches NotificationObjectValue::SystemNotificationObject(o)
        &&& o._id == n._id && o.type_ == n.type_ && o.time == n.time && o.read == n.read
        &&& Some(o.content) == text_field(n.other@, "content"@)
        &&& Some(o.title) == text_field(n.other@, "title"@)
        &&& o.related_link == text_field(n.other@, "related_link"@)
    } else {
        &&& r matches NotificationObjectValue::BaseNotificationObject(o)
        &&& o._id == n._id && o.type_ == n.type_ && o.time == n.time && o.read == n.read
    }
}

/// A resolved reply carries, as its replying user, exactly the user fetched for it.
pub proof fn lemma_reply_carries_fetched_user(
    r: NotificationObjectValue,
    n: SingleNotificationResult,
    u: User,
)
    requires
        is_reply(n),
        resolved_note(r, n, Some(u)),
    ensures
        r matches NotificationObjectValue::ReplyNotificationObject(o) && o.replied_by == u,
{
}

/// Resolves a notification into its variant. A reply takes the user fetched for
/// its replying user; a missing field of its variant makes it malformed.
pub fn resolve_notification(note: SingleNotificationResult, user: Option<User>) -> (r: Result<
    NotificationObjectValue,
    GatewayError,
>)
    ensures
        r is Ok <==> resolvable(note, user),
        r matches Ok(v) ==> resolved_note(v, note, user),
        r matches Err(e) ==> (e is MalformedNotification || e is MissingData),
{
    if is_type(&note, "comment_reply") {
        let content = text_value(&note.other, "content")?;
        let cid = oid_value(&note.other, "cid")?;
        let _replied_by = oid_value(&note.other, "replied_by")?;
        let replied_type = text_value(&note.other, "replied_type")?;
        let replied_obj = oid_value(&note.other, "replied_obj")?;
        match user {
            Some(u) => Ok(
                NotificationObjectValue::ReplyNotificationObject(
                    ReplyNotificationObject {
                        _id: note._id,
                        type_: note.type_,
                        time: note.time,
                        read: note.read,
                        content,
                        replied_by: u,
                        cid,
                        replied_type,
                        replied_obj,
                    },
                ),
            ),
            None => Err(GatewayError::MissingData),
        }
    } else if is_type(&note, "system_message") {
        let content = text_value(&note.other, "content")?;
        let title = text_value(&note.other, "title")?;
        let related_link = match fetch_field_opt(&note.other, "related_link") {
            Some(NoteValue::Text(s)) => Some(s.clone()),
            Some(_) => {
                return Err(
                    GatewayError::MalformedNotification { field: String::from_str("related_link") },
                );
            },
            None => None,
        };
        Ok(
            NotificationObjectValue::SystemNotificationObject(
                SystemNotificationObject {
                    _id: note._id,
                    type_: note.type_,
                    time: note.time,
                    read: note.read,
                    content,
                    title,
                    related_link,
                },
            ),
        )
    } else {
        Ok(
            NotificationObjectValue::BaseNotificationObject(
                BaseNotificationObject {
                    _id: note._id,
                    type_: note.type_,
                    time: note.time,
                    read: note.read,
                },
            ),
        )
    }
}


/// Arguments of a notification listing.
#[derive(Clone, Debug)]
pub struct ListNotificationParameters {
    pub offset: Option<i32>,
    pub limit: Option<i32>,
    /// Whether or not to list all notifications, default only list unread
    pub list_all: Option<bool>,
    /// Type of notification to list, one of 'all', 'forum_reply', 'comment_reply', 'system_message', 'dm', 'post_result', default is 'all'
    pub note_type: Option<String>,
}

impl ListNotificationParameters {
    /// The listing of every unread notification, with the backend's defaults.
    pub fn all_unread() -> (r: ListNotificationParameters)
        ensures
            r.offset is None && r.limit is None && r.list_all is None && r.note_type is None,
    {
        ListNotificationParameters { offset: None, limit: None, list_all: None, note_type: None }
    }

    /// The endpoint of the listing: all notifications only where asked for.
    pub fn endpoint(&self) -> (r: Endpoint)
        ensures
            r == (if self.list_all == Some(true) {
                Endpoint::NotesAll
            } else {
                Endpoint::NotesUnread
            }),
    {
        let list_all = match self.list_all {
            Some(f) => f,
            None => false,
        };
        if list_all {
            Endpoint::NotesAll
        } else {
            Endpoint::NotesUnread
        }
    }
}

/// The reply of a notification listing.
#[derive(Clone, Debug)]
pub struct ListNotificationResult {
    pub notes: Vec<SingleNotificationResult>,
    pub count: i32,
    pub count_unread: i32,
    pub count_all: i32,
    pub page_count: Option<i32>,
}

/// A page of resolved notifications, with the backend's counts.
#[derive(Clone, Debug)]
pub struct ListNotificationGQLResult {
    pub notes: Vec<NotificationObjectValue>,
    pub count: i32,
    pub count_unread: i32,
    pub count_all: i32,
    pub page_count: Option<i32>,
}

/// Unread notification counts, one item per type that occurs.
#[derive(Clone, Debug)]
pub struct ListUnreadNotificationCountGQLResult {
    pub list: Vec<ListUnreadNotificationCountGQLResultItem>,
}

/// The number of unread notifications of one type.
#[derive(Clone, Debug)]
pub struct ListUnreadNotificationCountGQLResultItem {
    /// Note message type
    pub msgtype: String,
    /// Number of unread note messages of this type
    pub count: i32,
}

/// The user fetched for the notification at `i`; none past the end.
pub open spec fn user_at(users: Seq<Option<User>>, i: int) -> Option<User> {
    if 0 <= i < users.len() {
        users[i]
    } else {
        None
    }
}

/// Whether every notification of a page is well formed for its variant.
pub open spec fn lookups_succeed(notes: Seq<SingleNotificationResult>) -> bool {
    forall|i: int|
        0 <= i < notes.len() ==> !(is_reply(#[trigger] notes[i]) && !reply_well_formed(notes[i].other@))
}

impl ListNotificationResult {
    /// The user fetches that the page needs, one entry per notification: one
    /// for each reply, by its replying user. A malformed reply fails the page.
    pub fn user_lookups(&self) -> (r: Result<Vec<Option<GetUserParameters>>, GatewayError>)
        ensures
            r is Ok <==> lookups_succeed(self.notes@),
            r matches Err(e) ==> e is MalformedNotification,
            r matches Ok(v) ==> v@.len() == self.notes@.len(),
            r matches Ok(v) ==> forall|i: int|
                0 <= i < v@.len() ==> ((#[trigger] v@[i]) is Some <==> is_reply(self.notes@[i])),
            r matches Ok(v) ==> forall|i: int|
                0 <= i < v@.len() ==> ((#[trigger] v@[i]) matches Some(p) ==> p.uid@ == hex_encode(
                    oid_field(self.notes@[i].other@, "replied_by"@)->Some_0,
                )),
    {
        let mut r: Vec<Option<GetUserParameters>> = Vec::new();
        let mut i: usize = 0;
        while i < self.notes.len()
            invariant
                i <= self.notes@.len(),
                r@.len() == i,
                forall|k: int|
                    0 <= k < i ==> !(is_reply(#[trigger] self.notes@[k]) && !reply_well_formed(
                        self.notes@[k].other@,
                    )),
                forall|k: int| 0 <= k < i ==> ((#[trigger] r@[k]) is Some <==> is_reply(self.notes@[k])),
                forall|k: int|
                    0 <= k < i ==> ((#[trigger] r@[k]) matches Some(p) ==> p.uid@ == hex_encode(
                        oid_field(self.notes@[k].other@, "replied_by"@)->Some_0,
                    )),
            decreases self.notes@.len() - i,
        {
            let lookup = reply_user_lookup(&self.notes[i]);
            match lookup {
                Ok(p) => r.push(p),
                Err(e) => {
                    assert(!lookups_succeed(self.notes@));
                    return Err(e);
                },
            }
            i = i + 1;
        }
        Ok(r)
    }

    /// Resolves the page, each notification with the user fetched for it.
    /// Fails where any notification does not resolve.
    pub fn resolve(self, users: Vec<Option<User>>) -> (r: Result<ListNotificationGQLResult, GatewayError>)
        ensures
            r is Ok <==> forall|i: int|
                0 <= i < self.notes@.len() ==> resolvable(#[trigger] self.notes@[i], user_at(users@, i)),
            r matches Ok(g) ==> {
                &&& g.count == self.count && g.count_unread == self.count_unread
                &&& g.count_all == self.count_all && g.page_count == self.page_count
                &&& g.notes@.len() == self.notes@.len()
                &&& forall|i: int|
                    0 <= i < g.notes@.len() ==> resolved_note(
                        #[trigger] g.notes@[i],
                        self.notes@[i],
                        user_at(users@, i),
                    )
            },
            r matches Err(e) ==> (e is MalformedNotification || e is MissingData),
    {
        let ghost all = self.notes@;
        let ghost us = users@;
        let mut rest = self.notes;
        let mut pending = users;
        let n = rest.len();
        let mut out: Vec<NotificationObjectValue> = Vec::new();
        let mut i: usize = 0;
        while i < n
            invariant
                all == self.notes@,
                us == users@,
                n == all.len(),
                i <= n,
                rest@ == all.subrange(i as int, n as int),
                i <= us.len() ==> pending@ == us.subrange(i as int, us.len() as int),
                i > us.len() ==> pending@.len() == 0,
                out@.len() == i,
                forall|k: int| 0 <= k < i ==> resolvable(#[trigger] all[k], user_at(us, k)),
                forall|k: int| 0 <= k < i ==> resolved_note(#[trigger] out@[k], all[k], user_at(us, k)),
            decreases n - i,
        {
            let note = rest.remove(0);
            let user = if pending.len() > 0 {
                pending.remove(0)
            } else {
                None
            };
            assert(user == user_at(us, i as int));
            assert(note == all[i as int]);
            let v = resolve_notification(note, user)?;
            out.push(v);
            i = i + 1;
        }
        Ok(
            ListNotificationGQLResult {
                notes: out,
                count: self.count,
                count_unread: self.count_unread,
                count_all: self.count_all,
                page_count: self.page_count,
            },
        )
    }
}

/// How many entries of `types` equal `t`.
pub open spec fn occurrences(types: Seq<Seq<char>>, t: Seq<char>) -> nat
    decreases types.len(),
{
    if types.len() == 0 {
        0
    } else {
        occurrences(types.drop_last(), t) + if types.last() == t {
            1nat
        } else {
            0nat
        }
    }
}

/// The types of some notifications, in order.
pub open spec fn types_of(notes: Seq<SingleNotificationResult>) -> Seq<Seq<char>> {
    notes.map_values(|n: SingleNotificationResult| n.type_@)
}

/// Whether `list` counts the entries of `types` by value: one item for each
/// value that occurs, none for a value that does not, each with its number of
/// occurrences.
pub open spec fn counts_by_type(list: Seq<ListUnreadNotificationCountGQLResultItem>, types: Seq<Seq<char>>) -> bool {
    &&& forall|k: int| 0 <= k < list.len() ==> (#[trigger] list[k]).count == occurrences(types, list[k].msgtype@)
    &&& forall|k: int| 0 <= k < list.len() ==> (#[trigger] list[k]).count >= 1
    &&& forall|j: int, k: int| 0 <= j < k < list.len() ==> (#[trigger] list[j]).msgtype@ != (#[trigger] list[k]).msgtype@
    &&& forall|j: int| 0 <= j < types.len() ==> exists|k: int| 0 <= k < list.len() && (#[trigger] list[k]).msgtype@ == #[trigger] types[j]
}

proof fn lemma_occurrences_positive(types: Seq<Seq<char>>, t: Seq<char>)
    requires
        occurrences(types, t) > 0,
    ensures
        exists|j: int| 0 <= j < types.len() && types[j] == t,
    decreases types.len(),
{
    if types.last() != t {
        lemma_occurrences_positive(types.drop_last(), t);
        let j = choose|j: int| 0 <= j < types.drop_last().len() && types.drop_last()[j] == t;
        assert(types[j] == t);
    } else {
        assert(types[types.len() - 1] == t);
    }
}

/// A type of which no unread notification exists has no item among the
/// counts: it is left out, not counted as zero.
pub proof fn lemma_absent_type_not_counted(
    list: Seq<ListUnreadNotificationCountGQLResultItem>,
    types: Seq<Seq<char>>,
    t: Seq<char>,
)
    requires
        counts_by_type(list, types),
        forall|j: int| 0 <= j < types.len() ==> types[j] != t,
    ensures
        forall|k: int| 0 <= k < list.len() ==> (#[trigger] list[k]).msgtype@ != t,
{
    assert forall|k: int| 0 <= k < list.len() implies (#[trigger] list[k]).msgtype@ != t by {
        if list[k].msgtype@ == t {
            lemma_occurrences_positive(types, t);
        }
    }
}

proof fn lemma_occurrences_absent(types: Seq<Seq<char>>, t: Seq<char>)
    requires
        forall|j: int| 0 <= j < types.len() ==> types[j] != t,
    ensures
        occurrences(types, t) == 0,
    decreases types.len(),
{
    if types.len() > 0 {
        lemma_occurrences_absent(types.drop_last(), t);
    }
}

/// Counts unread notifications by type: one item per type that occurs; a type
/// that does not occur has no item.
pub fn count_unread_by_type(notes: &Vec<SingleNotificationResult>) -> (r: ListUnreadNotificationCountGQLResult)
    requires
        notes@.len() <= i32::MAX,
    ensures
        counts_by_type(r.list@, types_of(notes@)),
{
    let ghost types = types_of(notes@);
    let mut list: Vec<ListUnreadNotificationCountGQLResultItem> = Vec::new();
    let mut i: usize = 0;
    while i < notes.len()
        invariant
            i <= notes@.len() <= i32::MAX,
            types == types_of(notes@),
            counts_by_type(list@, types.subrange(0, i as int)),
            forall|k: int| 0 <= k < list@.len() ==> (#[trigger] list@[k]).count <= i,
        decreases notes@.len() - i,
    {
        let ghost prev = types.subrange(0, i as int);
        let ghost next = types.subrange(0, i + 1);
        assert(next.drop_last() =~= prev);
        assert(next.last() == notes@[i as int].type_@);
        let t = &notes[i].type_;
        let mut k: usize = 0;
        while k < list.len() && list[k].msgtype != *t
            invariant
                k <= list@.len(),
                forall|m: int| 0 <= m < k ==> (#[trigger] list@[m]).msgtype@ != t@,
            decreases list@.len() - k,
        {
            k = k + 1;
        }
        let found = k < list.len();
        proof {
            assert forall|m: int| 0 <= m < list@.len() && m != k implies occurrences(next, (#[trigger] list@[m]).msgtype@) == occurrences(prev, list@[m].msgtype@) by {
                if found {
                    assert(list@[m].msgtype@ != list@[k as int].msgtype@);
                }
            }
        }
        if found {
            let ghost old_list = list@;
            let c = list[k].count;
            list[k].count = c + 1;
            proof {
                assert forall|j: int| 0 <= j < next.len() implies exists|m: int| 0 <= m < list@.len() && (#[trigger] list@[m]).msgtype@ == #[trigger] next[j] by {
                    if j < prev.len() {
                        assert(prev[j] == next[j]);
                        let m = choose|m: int| 0 <= m < old_list.len() && (#[trigger] old_list[m]).msgtype@ == prev[j];
                        assert(list@[m].msgtype@ == next[j]);
                    } else {
                        assert(list@[k as int].msgtype@ == next[j]);
                    }
                }
                assert forall|a: int, b: int| 0 <= a < b < list@.len() implies (#[trigger] list@[a]).msgtype@ != (#[trigger] list@[b]).msgtype@ by {
                    assert(old_list[a].msgtype@ != old_list[b].msgtype@);
                }
            }
        } else {
            let ghost old_list = list@;
            proof {
                assert forall|j: int| 0 <= j < prev.len() implies prev[j] != t@ by {
                    let m = choose|m: int| 0 <= m < old_list.len() && (#[trigger] old_list[m]).msgtype@ == prev[j];
                }
                lemma_occurrences_absent(prev, t@);
            }
            list.push(ListUnreadNotificationCountGQLResultItem { msgtype: t.clone(), count: 1 });
            proof {
                assert forall|j: int| 0 <= j < next.len() implies exists|m: int| 0 <= m < list@.len() && (#[trigger] list@[m]).msgtype@ == #[trigger] next[j] by {
                    if j < prev.len() {
                        assert(prev[j] == next[j]);
                        let m = choose|m: int| 0 <= m < old_list.len() && (#[trigger] old_list[m]).msgtype@ == prev[j];
                        assert(list@[m].msgtype@ == next[j]);
                    } else {
                        assert(list@[old_list.len() as int].msgtype@ == next[j]);
                    }
                }
                assert forall|a: int, b: int| 0 <= a < b < list@.len() implies (#[trigger] list@[a]).msgtype@ != (#[trigger] list@[b]).msgtype@ by {
                    if b < old_list.len() {
                        assert(old_list[a].msgtype@ != old_list[b].msgtype@);
                    } else {
                        assert(old_list[a].msgtype@ != t@);
                    }
                }
            }
        }
        i = i + 1;
    }
    assert(types.subrange(0, notes@.len() as int) =~= types);
    ListUnreadNotificationCountGQLResult { list }
}

} // verus!
