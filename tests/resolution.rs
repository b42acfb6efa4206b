use patchy_gateway::author_db::Author;
use patchy_gateway::edit_tags::{author_lookups, regular_tags, resolve_tags, GetTagObjectsBatchParameters, TagObjectRespObject};
use patchy_gateway::envelope::{GatewayError, RestResult, RestResultError};
use patchy_gateway::get_video::GetVideoResponse;
use patchy_gateway::models::{
    Hydration, Meta, MultilingualMapping, MyObjectId, RawCategoryEntry, TagCategoryEnum, TagObjectValue, Video, VideoItem,
};
use patchy_gateway::notification::{
    count_unread_by_type, ListNotificationResult, NoteEntry, NoteValue, NotificationObjectValue, SingleNotificationResult,
};
use patchy_gateway::oid::ObjectId;
use patchy_gateway::playlist::{GetPlaylistMetadataResult, ResultantPlaylist};
use patchy_gateway::models::PlaylistMeta;
use patchy_gateway::tags::{with_popularity, GetPopularTagsResult, PopularityEntry};
use patchy_gateway::users::{User, whoami_outcome};
use patchy_gateway::leaderboard::{leaderboard_from_rest, LeaderboardResultRestItem};
use patchy_gateway::post_video::{post_outcome, PostVideoResult};

fn oid(last: u8) -> ObjectId {
    let mut bytes = [0u8; 12];
    bytes[0] = 0x5f;
    bytes[11] = last;
    ObjectId { bytes }
}

fn meta() -> Meta {
    Meta { created_at: 1_600_000_000_000, created_by: None, modified_at: None, modified_by: None }
}

fn raw_tag(id: i32, category: TagCategoryEnum) -> TagObjectRespObject {
    TagObjectRespObject {
        id,
        _id: oid(id as u8),
        category,
        count: 10 * id,
        languages: vec![MultilingualMapping { lang: "ENG".to_string(), value: format!("tag{}", id) }],
        alias: vec![],
        meta: meta(),
    }
}

fn author(tagid: i32) -> Author {
    Author {
        _id: oid(99),
        type_: "individual".to_string(),
        tagname: format!("author{}", tagid),
        common_tagids: vec![1, 2],
        urls: vec![],
        user_space_ids: vec![],
        avatar: String::new(),
        desc: String::new(),
        pv_user_id: None,
    }
}

fn item() -> VideoItem {
    VideoItem {
        cover_image: "c.png".to_string(),
        title: "t".to_string(),
        desc: "d".to_string(),
        placeholder: None,
        rating_bits: 0,
        repost_type: "official".to_string(),
        copies: vec![],
        series: vec![],
        site: "bilibili".to_string(),
        thumbnail_url: String::new(),
        unique_id: "bilibili:av1".to_string(),
        upload_time: 0,
        url: "https://www.bilibili.com/video/av1".to_string(),
        user_space_urls: None,
        utags: vec![],
        views: 3,
        cid: Some(1234567890123),
        part_name: None,
    }
}

fn bare_video(last: u8) -> Video {
    Video {
        _id: oid(last),
        clearence: 2,
        item: item(),
        meta: meta(),
        tag_count: None,
        tags: vec![1, 2147483647, 5, 3_000_000_000],
        tags_readable: None,
        tag_by_category: None,
        copies: None,
        playlists: None,
        comment_thread: None,
    }
}

fn video_response() -> GetVideoResponse {
    GetVideoResponse {
        video: bare_video(7),
        tag_by_category: vec![
            RawCategoryEntry { key: "Copyright".to_string(), value: vec!["touhou".to_string()] },
            RawCategoryEntry { key: "Author".to_string(), value: vec!["zun".to_string()] },
        ],
        playlists: vec![],
        copies: vec![bare_video(8)],
    }
}

fn note(type_: &str, other: Vec<NoteEntry>) -> SingleNotificationResult {
    SingleNotificationResult { _id: oid(1), type_: type_.to_string(), time: 5, read: false, to: oid(2), other }
}

fn entry(key: &str, value: NoteValue) -> NoteEntry {
    NoteEntry { key: key.to_string(), value }
}

fn reply_fields() -> Vec<NoteEntry> {
    vec![
        entry("content", NoteValue::Text("hello".to_string())),
        entry("cid", NoteValue::OidObject("5f000000000000000000000a".to_string())),
        entry("replied_by", NoteValue::OidObject("5F00000000000000000000AB".to_string())),
        entry("replied_type", NoteValue::Text("video".to_string())),
        entry("replied_obj", NoteValue::OidObject("5f000000000000000000000c".to_string())),
    ]
}

fn user() -> User {
    User {
        _id: oid(0xab),
        bind_qq: None,
        desc: "d".to_string(),
        username: "alice".to_string(),
        image: "default".to_string(),
        email: None,
        gravatar: None,
        meta: meta(),
    }
}

#[test]
fn object_id_parses_either_case_and_prints_lower_case() {
    let o = ObjectId::parse("5F0C0C0C0C0C0C0C0C0C0CAB").unwrap();
    assert_eq!(o.bytes[0], 0x5f);
    assert_eq!(o.bytes[11], 0xab);
    assert_eq!(o.to_string(), "5f0c0c0c0c0c0c0c0c0c0cab");
    assert!(ObjectId::parse("5f0c").is_none());
    assert!(ObjectId::parse("zz0c0c0c0c0c0c0c0c0c0cab").is_none());
}

#[test]
fn extended_json_ids_are_read() {
    let o = MyObjectId::Oid(Some("5f000000000000000000000a".to_string())).to_oid().unwrap();
    assert_eq!(o.bytes[11], 0x0a);
    assert!(MyObjectId::Oid(None).to_oid().is_none());
    assert!(MyObjectId::Str(String::new()).to_oid().is_none());
    assert!(MyObjectId::Str("5f000000000000000000000b".to_string()).to_oid().is_some());
}

#[test]
fn creator_lookup_uses_the_creator_id() {
    let mut m = meta();
    assert!(m.created_by().is_none());
    m.created_by = Some(MyObjectId::Str("5F000000000000000000000B".to_string()));
    assert_eq!(m.created_by().unwrap().uid, "5f000000000000000000000b");
    m.modified_by = Some(MyObjectId::Str("not an id".to_string()));
    assert!(m.modified_by().is_none());
}

#[test]
fn category_names_are_a_closed_set() {
    assert_eq!(TagCategoryEnum::from_string("Author").unwrap(), TagCategoryEnum::Author);
    assert_eq!(TagCategoryEnum::from_string("Soundtrack").unwrap(), TagCategoryEnum::Soundtrack);
    match TagCategoryEnum::from_string("author") {
        Err(GatewayError::UnknownCategory { name }) => assert_eq!(name, "author"),
        other => panic!("unexpected {:?}", other),
    }
}

#[test]
fn tag_variant_follows_category_in_backend_order() {
    let tags = regular_tags(vec![raw_tag(3, TagCategoryEnum::General), raw_tag(1, TagCategoryEnum::Author), raw_tag(2, TagCategoryEnum::Meta)]);
    let lookups = author_lookups(&tags);
    assert!(lookups[0].is_none());
    assert_eq!(lookups[1].unwrap().tagid, 1);
    assert!(lookups[2].is_none());
    let resolved = resolve_tags(tags, vec![None, Some(Ok(author(1))), None]);
    let ids: Vec<i32> = resolved.iter().map(|t| t.tagid()).collect();
    assert_eq!(ids, vec![3, 1, 2]);
    for t in &resolved {
        assert_eq!(t.is_author(), t.category() == TagCategoryEnum::Author);
    }
    match &resolved[1] {
        TagObjectValue::AuthorTagObject(a) => {
            assert_eq!(a.author_role, "author");
            assert_eq!(a.author.as_ref().unwrap().tagname, "author1");
            assert_eq!(a.count, 10);
        }
        _ => panic!("expected an author tag"),
    }
}

#[test]
fn regular_batch_flags_author_tags() {
    let tags = regular_tags(vec![raw_tag(1, TagCategoryEnum::Author), raw_tag(2, TagCategoryEnum::Character)]);
    assert!(tags[0].is_author);
    assert!(!tags[1].is_author);
}

#[test]
fn author_tag_survives_failed_author_lookup() {
    let tags = regular_tags(vec![raw_tag(4, TagCategoryEnum::Author)]);
    let failed = GatewayError::Backend { code: "RECORD_NOT_FOUND".to_string(), detail: None };
    let resolved = resolve_tags(tags, vec![Some(Err(failed))]);
    assert_eq!(resolved.len(), 1);
    match &resolved[0] {
        TagObjectValue::AuthorTagObject(a) => {
            assert!(a.author.is_none());
            assert!(a.is_author);
            assert_eq!(a.author_role, "author");
            assert_eq!(a.tagid, 4);
        }
        _ => panic!("expected an author tag"),
    }
}

#[test]
fn batch_lookup_keeps_ids_that_fit() {
    let p = GetTagObjectsBatchParameters::for_ids(&vec![1, 2147483647, 5, 3_000_000_000, 2147483646]);
    assert_eq!(p.tagid, vec![1, 5, 2147483646]);
    assert_eq!(bare_video(1).tag_ids(), vec![1, 5]);
}

#[test]
fn video_lookup_fills_related_fields_together() {
    let v = video_response().into_video().unwrap();
    assert!(v.is_hydrated());
    let cats = v.tag_by_category.as_ref().unwrap();
    assert_eq!(cats.len(), 2);
    assert_eq!(cats[0].key, TagCategoryEnum::Copyright);
    assert_eq!(cats[1].key, TagCategoryEnum::Author);
    assert_eq!(cats[1].value, vec!["zun".to_string()]);
    assert_eq!(v.copies.as_ref().unwrap().len(), 1);
    assert_eq!(v.playlists.as_ref().unwrap().len(), 0);
}

#[test]
fn video_lookup_with_unknown_category_fails() {
    let mut resp = video_response();
    resp.tag_by_category.push(RawCategoryEntry { key: "Series".to_string(), value: vec![] });
    match resp.into_video() {
        Err(GatewayError::UnknownCategory { name }) => assert_eq!(name, "Series"),
        _ => panic!("expected an unknown category"),
    }
}

#[test]
fn resolving_a_video_twice_gives_equal_entities() {
    let a = video_response().into_video().unwrap();
    let b = video_response().into_video().unwrap();
    assert_eq!(format!("{:?}", a), format!("{:?}", b));
}

#[test]
fn missing_related_fields_are_fetched_per_field() {
    let v = bare_video(7);
    assert!(!v.is_hydrated());
    match v.tag_by_category("CHS".to_string()) {
        Hydration::Refetch(p) => {
            assert_eq!(p.vid, "5f0000000000000000000007");
            assert_eq!(p.lang, "CHS");
        }
        Hydration::Cached(_) => panic!("expected a refetch"),
    }
    assert!(matches!(v.copies("ENG".to_string()), Hydration::Refetch(_)));
    let full = video_response().into_video().unwrap();
    match full.playlists("ENG".to_string()) {
        Hydration::Cached(p) => assert!(p.is_empty()),
        Hydration::Refetch(_) => panic!("expected the held value"),
    }
    let refetched = video_response().into_video().unwrap();
    assert_eq!(refetched.take_copies().unwrap().len(), 1);
    assert!(matches!(bare_video(1).take_playlists(), Err(GatewayError::MissingData)));
}

#[test]
fn video_rating_and_part_id() {
    let v = bare_video(9);
    let r = v.rating();
    assert_eq!(r.vid.unwrap(), "5f0000000000000000000009");
    assert!(r.pid.is_none());
    assert_eq!(v.item.cid().unwrap(), "1234567890123");
    assert_eq!(v.tag_count(), 0);
}

#[test]
fn unread_counts_omit_absent_types() {
    let notes = vec![
        note("comment_reply", vec![]),
        note("system_message", vec![]),
        note("comment_reply", vec![]),
    ];
    let r = count_unread_by_type(&notes);
    assert_eq!(r.list.len(), 2);
    assert_eq!(r.list[0].msgtype, "comment_reply");
    assert_eq!(r.list[0].count, 2);
    assert_eq!(r.list[1].msgtype, "system_message");
    assert_eq!(r.list[1].count, 1);
    assert!(r.list.iter().all(|i| i.msgtype != "dm"));
    assert!(count_unread_by_type(&vec![]).list.is_empty());
}

#[test]
fn reply_notification_fetches_its_replying_user_once() {
    let page = ListNotificationResult {
        notes: vec![note("comment_reply", reply_fields()), note("dm", vec![])],
        count: 2,
        count_unread: 2,
        count_all: 7,
        page_count: Some(1),
    };
    let lookups = page.user_lookups().unwrap();
    assert_eq!(lookups.len(), 2);
    assert_eq!(lookups[0].as_ref().unwrap().uid, "5f00000000000000000000ab");
    assert!(lookups[1].is_none());
    let g = page.resolve(vec![Some(user()), None]).unwrap();
    assert_eq!(g.count_all, 7);
    match &g.notes[0] {
        NotificationObjectValue::ReplyNotificationObject(r) => {
            assert_eq!(r.replied_by.username, "alice");
            assert_eq!(r.content, "hello");
            assert_eq!(r.replied_type, "video");
            assert_eq!(r.cid.bytes[11], 0x0a);
        }
        _ => panic!("expected a reply"),
    }
    assert!(matches!(g.notes[1], NotificationObjectValue::BaseNotificationObject(_)));
}

#[test]
fn malformed_reply_notification_fails() {
    let mut fields = reply_fields();
    fields.remove(1);
    let page = ListNotificationResult { notes: vec![note("comment_reply", fields)], count: 1, count_unread: 1, count_all: 1, page_count: None };
    match page.user_lookups() {
        Err(GatewayError::MalformedNotification { field }) => assert_eq!(field, "cid"),
        other => panic!("unexpected {:?}", other),
    }
    let mut bad_id = reply_fields();
    bad_id[2].value = NoteValue::Text("5f00000000000000000000ab".to_string());
    let page = ListNotificationResult { notes: vec![note("comment_reply", bad_id)], count: 1, count_unread: 1, count_all: 1, page_count: None };
    assert!(page.user_lookups().is_err());
}

#[test]
fn system_notification_link_is_optional() {
    let page = ListNotificationResult {
        notes: vec![note("system_message", vec![entry("title", NoteValue::Text("T".to_string())), entry("content", NoteValue::Text("C".to_string()))])],
        count: 1,
        count_unread: 1,
        count_all: 1,
        page_count: None,
    };
    let g = page.resolve(vec![]).unwrap();
    match &g.notes[0] {
        NotificationObjectValue::SystemNotificationObject(s) => {
            assert_eq!(s.title, "T");
            assert_eq!(s.content, "C");
            assert!(s.related_link.is_none());
        }
        _ => panic!("expected a system message"),
    }
    let missing_title = ListNotificationResult { notes: vec![note("system_message", vec![entry("content", NoteValue::Text("C".to_string()))])], count: 1, count_unread: 1, count_all: 1, page_count: None };
    assert!(matches!(missing_title.resolve(vec![]), Err(GatewayError::MalformedNotification { .. })));
}

#[test]
fn envelope_decoding() {
    let ok = RestResult { status: "SUCCEED".to_string(), data: Some(3), dataerr: None };
    assert_eq!(ok.into_result().unwrap(), 3);
    let empty: RestResult<i32> = RestResult { status: "SUCCEED".to_string(), data: None, dataerr: None };
    assert!(matches!(empty.into_result(), Err(GatewayError::MissingData)));
    let failed: RestResult<i32> = RestResult {
        status: "UNAUTHORISED_OPERATION".to_string(),
        data: None,
        dataerr: Some(RestResultError { reason: "NOT_LOGGED_IN".to_string(), aux: None }),
    };
    let e = failed.clone().into_result().unwrap_err();
    assert_eq!(e.code(), "UNAUTHORISED_OPERATION");
    assert!(failed.acknowledge().is_err());
    let ack: RestResult<i32> = RestResult { status: "SUCCEED".to_string(), data: None, dataerr: None };
    assert_eq!(ack.acknowledge().unwrap(), true);
    assert_eq!(GatewayError::Transport.code(), "TRANSPORT_ERROR");
    assert_eq!(GatewayError::NoCategoryTagMap.code(), "NO_CATEGORY_TAG_MAP");
}

#[test]
fn post_errors_carry_the_backend_reason() {
    let failed: RestResult<PostVideoResult> = RestResult {
        status: "FAILED".to_string(),
        data: None,
        dataerr: Some(RestResultError { reason: "URL_NOT_SUPPORTED".to_string(), aux: Some("x".to_string()) }),
    };
    match post_outcome(failed) {
        Err(GatewayError::Backend { code, detail }) => {
            assert_eq!(code, "URL_NOT_SUPPORTED");
            assert_eq!(detail.unwrap().aux.unwrap(), "x");
        }
        _ => panic!("expected a backend error"),
    }
    let ok = RestResult { status: "SUCCEED".to_string(), data: Some(PostVideoResult { task_id: "t1".to_string() }), dataerr: None };
    assert_eq!(post_outcome(ok).unwrap().task_id, "t1");
}

#[test]
fn whoami_falls_back_to_not_logged_in() {
    assert_eq!(whoami_outcome(true, Some("alice".to_string())), "alice");
    assert_eq!(whoami_outcome(false, Some("alice".to_string())), "NOT_LOGGED_IN");
    assert_eq!(whoami_outcome(true, None), "NOT_LOGGED_IN");
}

fn playlist_meta() -> PlaylistMeta {
    PlaylistMeta { cover: "c".to_string(), videos: 4, desc: "d".to_string(), private: false, privateEdit: true, title: "t".to_string(), views: 1 }
}

fn resultant() -> ResultantPlaylist {
    ResultantPlaylist { _id: oid(3), item: playlist_meta(), meta: meta(), tag_count: 0, tags: vec![2], clearence: 0, comment_thread: Some(oid(4)) }
}

#[test]
fn playlist_lookup_reads_the_category_map() {
    let r = GetPlaylistMetadataResult {
        editable: true,
        owner: false,
        playlist: resultant(),
        tags: vec![None, None, Some(vec![RawCategoryEntry { key: "Language".to_string(), value: vec!["ja".to_string()] }])],
    };
    let p = r.into_playlist().unwrap();
    assert_eq!(p.editable, Some(true));
    assert_eq!(p.owner, Some(false));
    assert_eq!(p.tag_by_category.as_ref().unwrap()[0].key, TagCategoryEnum::Language);
    assert_eq!(p.item.count(), 4);
    assert!(p.item.privateEdit());
    assert_eq!(p.comment_thread().unwrap().thread_id, "5f0000000000000000000004");
    let short = GetPlaylistMetadataResult { editable: true, owner: true, playlist: resultant(), tags: vec![None] };
    assert!(matches!(short.into_playlist(), Err(GatewayError::NoCategoryTagMap)));
}

#[test]
fn listed_playlist_needs_its_own_lookup_for_categories() {
    let p = resultant().into_playlist();
    assert!(p.editable.is_none());
    match p.tag_by_category() {
        Hydration::Refetch(q) => assert_eq!(q.pid, "5f0000000000000000000003"),
        Hydration::Cached(_) => panic!("expected a refetch"),
    }
}

#[test]
fn popular_tags_pair_ids_with_popularity() {
    let r = GetPopularTagsResult {
        tagids_popmap: Some(vec![
            PopularityEntry { key: "12".to_string(), value: 30 },
            PopularityEntry { key: "7".to_string(), value: 20 },
        ]),
    };
    let (p, pops) = r.popular_tags().unwrap().unwrap();
    assert_eq!(p.tagid, vec![12, 7]);
    assert_eq!(pops, vec![30, 20]);
    let tags = resolve_tags(regular_tags(vec![raw_tag(12, TagCategoryEnum::General)]), vec![]);
    let paired = with_popularity(&pops, tags);
    assert_eq!(paired.len(), 1);
    assert_eq!(paired[0].popluarity, 30);
    let bad = GetPopularTagsResult { tagids_popmap: Some(vec![PopularityEntry { key: "x1".to_string(), value: 1 }]) };
    assert!(matches!(bad.popular_tags(), Some(Err(GatewayError::MalformedTagId { .. }))));
    assert!(GetPopularTagsResult { tagids_popmap: None }.popular_tags().is_none());
}

#[test]
fn leaderboard_names_users_by_id() {
    let l = leaderboard_from_rest(&vec![LeaderboardResultRestItem { _id: oid(0x1f), count: 9 }]);
    assert_eq!(l.items()[0].user_id, "5f000000000000000000001f");
    assert_eq!(l.items()[0].count(), 9);
    assert_eq!(l.items()[0].user().uid, "5f000000000000000000001f");
}
