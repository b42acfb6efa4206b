use patchy_gateway::comment::{CommentType, EditCommentOp, EditCommentParameters, PostCommentParameters, PostReplyParameters};
use patchy_gateway::context::Context;
use patchy_gateway::edit_tags::ListTagParameters;
use patchy_gateway::endpoint::{Endpoint, BACKEND_URL_PRODUCTION};
use patchy_gateway::envelope::{GatewayError, RequestRule};
use patchy_gateway::list_video::ListVideoParameters;
use patchy_gateway::notification::ListNotificationParameters;
use patchy_gateway::playlist::ListPlaylistParameters;
use patchy_gateway::pv_subscription::subscription_videos_endpoint;
use patchy_gateway::rating::{rating_outcome, GetRatingParameters, GetRatingResult};

fn video_listing(query: Option<&str>) -> ListVideoParameters {
    ListVideoParameters {
        offset: None,
        limit: None,
        query: query.map(|q| q.to_string()),
        qtype: None,
        order: None,
        additional_constraint: None,
        hide_placeholder: None,
        lang: None,
        human_readable_tag: None,
    }
}

fn tag_listing(query: Option<&str>, regex: Option<bool>, category: Option<&str>) -> ListTagParameters {
    ListTagParameters {
        query: query.map(|q| q.to_string()),
        query_regex: regex,
        category: category.map(|c| c.to_string()),
        order: None,
        offset: None,
        limit: None,
    }
}

#[test]
fn video_listing_without_query_uses_plain_listing() {
    let ep = video_listing(None).endpoint();
    assert_eq!(ep, Endpoint::ListVideo);
    assert_eq!(ep.path(), "/listvideo.do");
}

#[test]
fn video_listing_with_query_uses_search() {
    let ep = video_listing(Some("touhou")).endpoint();
    assert_eq!(ep, Endpoint::QueryVideo);
    assert_eq!(ep.path(), "/queryvideo.do");
}

#[test]
fn playlist_listing_routes_by_query() {
    let mut p = ListPlaylistParameters { offset: Some(0), limit: Some(20), query: None, order: None, additional_constraint: None };
    assert_eq!(p.endpoint().path(), "/lists/all.do");
    p.query = Some("touhou".to_string());
    assert_eq!(p.endpoint().path(), "/lists/search.do");
}

#[test]
fn tag_listing_routes_by_query_mode() {
    assert_eq!(tag_listing(None, None, Some("Author")).endpoint().unwrap(), Endpoint::QueryTags);
    assert_eq!(tag_listing(Some("a*"), Some(true), None).endpoint().unwrap(), Endpoint::QueryTagsRegex);
    assert_eq!(tag_listing(Some("a*"), Some(false), Some("Meta")).endpoint().unwrap(), Endpoint::QueryTagsWildcard);
    assert_eq!(tag_listing(Some("a*"), None, None).endpoint().unwrap().path(), "/tags/query_tags_wildcard.do");
}

#[test]
fn tag_listing_without_query_or_category_is_refused() {
    match tag_listing(None, Some(true), None).endpoint() {
        Err(GatewayError::InvalidRequest { rule }) => {
            assert_eq!(rule, RequestRule::TagQuery);
            assert_eq!(rule.message(), "At least one of query or category must be set");
        }
        other => panic!("unexpected {:?}", other),
    }
}

#[test]
fn rating_without_target_is_refused() {
    let p = GetRatingParameters { pid: None, vid: None };
    match p.endpoint() {
        Err(e) => {
            assert!(matches!(e, GatewayError::InvalidRequest { rule: RequestRule::RatingTarget }));
            assert_eq!(e.code(), "INCORRECT_REQUEST");
        }
        Ok(ep) => panic!("unexpected {:?}", ep),
    }
}

#[test]
fn rating_routes_playlist_first() {
    let pid = Some("5f0c0c0c0c0c0c0c0c0c0c0c".to_string());
    let vid = Some("5f0c0c0c0c0c0c0c0c0c0c0d".to_string());
    assert_eq!(GetRatingParameters { pid: pid.clone(), vid: None }.endpoint().unwrap(), Endpoint::PlaylistRating);
    assert_eq!(GetRatingParameters { pid: None, vid: vid.clone() }.endpoint().unwrap(), Endpoint::VideoRating);
    assert_eq!(GetRatingParameters { pid, vid }.endpoint().unwrap().path(), "/rating/get_playlist_total.do");
}

#[test]
fn failed_rating_lookup_is_absent_not_an_error() {
    assert!(rating_outcome(Err(GatewayError::Transport)).is_none());
    let backend = GatewayError::Backend { code: "UNAUTHORISED_OPERATION".to_string(), detail: None };
    assert!(rating_outcome(Err(backend)).is_none());
    let r = rating_outcome(Ok(GetRatingResult { user_rating: Some(8), total_rating: 42, total_user: 5 })).unwrap();
    assert_eq!(r.user_rating(), Some(8));
    assert_eq!(r.total_rating(), 42);
    assert_eq!(r.total_user(), 5);
}

#[test]
fn notification_listing_routes_by_list_all() {
    let mut p = ListNotificationParameters::all_unread();
    assert_eq!(p.endpoint(), Endpoint::NotesUnread);
    p.list_all = Some(false);
    assert_eq!(p.endpoint(), Endpoint::NotesUnread);
    p.list_all = Some(true);
    assert_eq!(p.endpoint().path(), "/notes/list_all.do");
}

#[test]
fn comment_mutations_route_by_kind_and_filter() {
    let mut p = PostCommentParameters { target_id: "x".to_string(), comment_type: CommentType::Video, filter: true, content: "hi".to_string() };
    assert_eq!(p.endpoint().path(), "/comments/add_to_video.do");
    p.filter = false;
    assert_eq!(p.endpoint().path(), "/comments/add_to_video_unfiltered.do");
    p.comment_type = CommentType::Playlist;
    assert_eq!(p.endpoint().path(), "/comments/add_to_playlist_unfiltered.do");
    p.filter = true;
    assert_eq!(p.endpoint().path(), "/comments/add_to_playlist.do");
    let r = PostReplyParameters { reply_to: "c".to_string(), filter: false, text: "t".to_string() };
    assert_eq!(r.endpoint(), Endpoint::ReplyUnfiltered);
    let e = EditCommentParameters { cid: "c".to_string(), filter: true, text: "t".to_string() };
    assert_eq!(e.endpoint(), Endpoint::EditComment);
}

#[test]
fn comment_post_request_carries_target_and_text() {
    let p = PostCommentParameters { target_id: "5f0c".to_string(), comment_type: CommentType::Playlist, filter: false, content: "hi".to_string() };
    let r = p.request();
    assert_eq!(r.endpoint, Endpoint::CommentOnPlaylistUnfiltered);
    assert_eq!(r.vid, "5f0c");
    assert_eq!(r.text, "hi");
}

#[test]
fn comment_moderation_shares_one_request_shape() {
    let del = EditCommentOp::Del.request("c1".to_string());
    assert_eq!(del.endpoint.path(), "/comments/del.do");
    assert_eq!(del.cid, "c1");
    assert_eq!(del.pinned, None);
    let hide = EditCommentOp::Hide.request("c2".to_string());
    assert_eq!(hide.endpoint, Endpoint::HideComment);
    assert_eq!(hide.pinned, None);
    let pin = EditCommentOp::Pin(false).request("c3".to_string());
    assert_eq!(pin.endpoint.path(), "/comments/pin.do");
    assert_eq!(pin.pinned, Some(false));
}

#[test]
fn subscription_listing_routes_by_order() {
    assert_eq!(subscription_videos_endpoint(false).path(), "/subs/list.do");
    assert_eq!(subscription_videos_endpoint(true).path(), "/subs/list_randomized.do");
}

#[test]
fn endpoint_url_joins_base_and_path() {
    assert_eq!(Endpoint::GetVideo.url(BACKEND_URL_PRODUCTION), "http://patchyvideo-primary-stack_web:5000/getvideo.do");
    assert_eq!(Endpoint::Whoami.url("https://example.org/be"), "https://example.org/be/user/whoami");
}

#[test]
fn credentials_are_forwarded_verbatim() {
    let ctx = Context { session: Some("abc".to_string()), auth_header: Some("Bearer t".to_string()) };
    let h = ctx.credential_headers();
    assert_eq!(h.len(), 2);
    assert_eq!(h[0].name, "cookie");
    assert_eq!(h[0].value, "session=abc");
    assert_eq!(h[1].name, "Authorization");
    assert_eq!(h[1].value, "Bearer t");
    let only_auth = Context { session: None, auth_header: Some("k".to_string()) }.credential_headers();
    assert_eq!(only_auth.len(), 1);
    assert_eq!(only_auth[0].name, "Authorization");
    assert!(Context::anonymous().credential_headers().is_empty());
}
