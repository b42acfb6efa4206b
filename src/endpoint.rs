//! The backend's endpoints, one variant each, and their URLs.
use vstd::prelude::*;

verus! {

/// Base URL of the backend in development builds.
pub const BACKEND_URL_DEVELOPMENT: &'static str = "https://patchyvideo.com/be";

/// Base URL of the backend in production deployments.
pub const BACKEND_URL_PRODUCTION: &'static str = "http://patchyvideo-primary-stack_web:5000";

/// An endpoint of the backend; every call is a JSON POST to its path.
#[derive(Clone, Copy, Debug, PartialEq, Eq, Structural)]
pub enum Endpoint {
    /// Plain video listing.
    ListVideo,
    /// Video search by query.
    QueryVideo,
    /// One video, with its copies, playlists and tags by category.
    GetVideo,
    /// Videos related to one video.
    RelatedVideos,
    /// A batch of tags by numeric id.
    TagBatch,
    /// Tag listing by category.
    QueryTags,
    /// Tag search by regular expression.
    QueryTagsRegex,
    /// Tag search by wildcard pattern.
    QueryTagsWildcard,
    AddTag,
    RemoveTag,
    TransferCategory,
    RenameTag,
    RenameAlias,
    AddAlias,
    AddTagLanguage,
    RemoveAlias,
    MergeTag,
    PopularTags,
    /// The author record linked to a tag.
    AuthorRecord,
    AssociateWithPvUser,
    DisassociateWithPvUser,
    /// One playlist, without its videos.
    PlaylistMetadata,
    /// The videos of a playlist.
    PlaylistContent,
    /// Plain playlist listing.
    ListPlaylists,
    /// Playlist search by query.
    SearchPlaylists,
    UserProfile,
    Whoami,
    PlaylistRating,
    VideoRating,
    ListSubscriptions,
    SubscriptionVideos,
    SubscriptionVideosRandomized,
    /// All notifications, read or not.
    NotesAll,
    /// Unread notifications only.
    NotesUnread,
    ViewThread,
    CommentOnVideo,
    CommentOnVideoUnfiltered,
    CommentOnPlaylist,
    CommentOnPlaylistUnfiltered,
    Reply,
    ReplyUnfiltered,
    EditComment,
    EditCommentUnfiltered,
    DeleteComment,
    HideComment,
    PinComment,
    Stats,
    TagContributors,
    PostVideo,
    PostVideoBatch,
    EditVideoTags,
    EditVideoTagIds,
    SetVideoClearence,
    RawTagIdLog,
}

impl Endpoint {
    /// The path of the endpoint under the backend's base URL.
    pub open spec fn path_spec(self) -> Seq<char> {
        match self {
            Endpoint::ListVideo => "/listvideo.do"@,
            Endpoint::QueryVideo => "/queryvideo.do"@,
            Endpoint::GetVideo => "/getvideo.do"@,
            Endpoint::RelatedVideos => "/get_related_videos.do"@,
            Endpoint::TagBatch => "/tags/get_tag_batch.do"@,
            Endpoint::QueryTags => "/tags/query_tags.do"@,
            Endpoint::QueryTagsRegex => "/tags/query_tags_regex.do"@,
            Endpoint::QueryTagsWildcard => "/tags/query_tags_wildcard.do"@,
            Endpoint::AddTag => "/tags/add_tag.do"@,
            Endpoint::RemoveTag => "/tags/remove_tag.do"@,
            Endpoint::TransferCategory => "/tags/transfer_category.do"@,
            Endpoint::RenameTag => "/tags/rename_tag.do"@,
            Endpoint::RenameAlias => "/tags/rename_alias.do"@,
            Endpoint::AddAlias => "/tags/add_alias.do"@,
            Endpoint::AddTagLanguage => "/tags/add_tag_language.do"@,
            Endpoint::RemoveAlias => "/tags/remove_alias.do"@,
            Endpoint::MergeTag => "/tags/merge_tag.do"@,
            Endpoint::PopularTags => "/tags/popular_tags.do"@,
            Endpoint::AuthorRecord => "/authors/get_record_raw.do"@,
            Endpoint::AssociateWithPvUser => "/authors/associate_with_pv_user.do"@,
            Endpoint::DisassociateWithPvUser => "/authors/disassociate_with_pv_user.do"@,
            Endpoint::PlaylistMetadata => "/lists/get_playlist_metadata.do"@,
            Endpoint::PlaylistContent => "/lists/get_playlist.do"@,
            Endpoint::ListPlaylists => "/lists/all.do"@,
            Endpoint::SearchPlaylists => "/lists/search.do"@,
            Endpoint::UserProfile => "/user/profile.do"@,
            Endpoint::Whoami => "/user/whoami"@,
            Endpoint::PlaylistRating => "/rating/get_playlist_total.do"@,
            Endpoint::VideoRating => "/rating/get_video_total.do"@,
            Endpoint::ListSubscriptions => "/subs/all.do"@,
            Endpoint::SubscriptionVideos => "/subs/list.do"@,
            Endpoint::SubscriptionVideosRandomized => "/subs/list_randomized.do"@,
            Endpoint::NotesAll => "/notes/list_all.do"@,
            Endpoint::NotesUnread => "/notes/list_unread.do"@,
            Endpoint::ViewThread => "/comments/view.do"@,
            Endpoint::CommentOnVideo => "/comments/add_to_video.do"@,
            Endpoint::CommentOnVideoUnfiltered => "/comments/add_to_video_unfiltered.do"@,
            Endpoint::CommentOnPlaylist => "/comments/add_to_playlist.do"@,
            Endpoint::CommentOnPlaylistUnfiltered => "/comments/add_to_playlist_unfiltered.do"@,
            Endpoint::Reply => "/comments/reply.do"@,
            Endpoint::ReplyUnfiltered => "/comments/reply_unfiltered.do"@,
            Endpoint::EditComment => "/comments/edit.do"@,
            Endpoint::EditCommentUnfiltered => "/comments/edit_unfiltered.do"@,
            Endpoint::DeleteComment => "/comments/del.do"@,
            Endpoint::HideComment => "/comments/hide.do"@,
            Endpoint::PinComment => "/comments/pin.do"@,
            Endpoint::Stats => "/stats.do"@,
            Endpoint::TagContributors => "/ranking/tag_contributor.do"@,
            Endpoint::PostVideo => "/postvideo.do"@,
            Endpoint::PostVideoBatch => "/postvideo_batch.do"@,
            Endpoint::EditVideoTags => "/videos/edittags.do"@,
            Endpoint::EditVideoTagIds => "/videos/edittagids.do"@,
            Endpoint::SetVideoClearence => "/videos/set_clearence.do"@,
            Endpoint::RawTagIdLog => "/video/raw_tagid_log.do"@,
        }
    }

    /// The path of the endpoint under the backend's base URL.
    pub fn path(&self) -> (r: &'static str)
        ensures
            r@ == self.path_spec(),
    {
        match self {
            Endpoint::ListVideo => "/listvideo.do",
            Endpoint::QueryVideo => "/queryvideo.do",
            Endpoint::GetVideo => "/getvideo.do",
            Endpoint::RelatedVideos => "/get_related_videos.do",
            Endpoint::TagBatch => "/tags/get_tag_batch.do",
            Endpoint::QueryTags => "/tags/query_tags.do",
            Endpoint::QueryTagsRegex => "/tags/query_tags_regex.do",
            Endpoint::QueryTagsWildcard => "/tags/query_tags_wildcard.do",
            Endpoint::AddTag => "/tags/add_tag.do",
            Endpoint::RemoveTag => "/tags/remove_tag.do",
            Endpoint::TransferCategory => "/tags/transfer_category.do",
            Endpoint::RenameTag => "/tags/rename_tag.do",
            Endpoint::RenameAlias => "/tags/rename_alias.do",
            Endpoint::AddAlias => "/tags/add_alias.do",
            Endpoint::AddTagLanguage => "/tags/add_tag_language.do",
            Endpoint::RemoveAlias => "/tags/remove_alias.do",
            Endpoint::MergeTag => "/tags/merge_tag.do",
            Endpoint::PopularTags => "/tags/popular_tags.do",
            Endpoint::AuthorRecord => "/authors/get_record_raw.do",
            Endpoint::AssociateWithPvUser => "/authors/associate_with_pv_user.do",
            Endpoint::DisassociateWithPvUser => "/authors/disassociate_with_pv_user.do",
            Endpoint::PlaylistMetadata => "/lists/get_playlist_metadata.do",
            Endpoint::PlaylistContent => "/lists/get_playlist.do",
            Endpoint::ListPlaylists => "/lists/all.do",
            Endpoint::SearchPlaylists => "/lists/search.do",
            Endpoint::UserProfile => "/user/profile.do",
            Endpoint::Whoami => "/user/whoami",
            Endpoint::PlaylistRating => "/rating/get_playlist_total.do",
            Endpoint::VideoRating => "/rating/get_video_total.do",
            Endpoint::ListSubscriptions => "/subs/all.do",
            Endpoint::SubscriptionVideos => "/subs/list.do",
            Endpoint::SubscriptionVideosRandomized => "/subs/list_randomized.do",
            Endpoint::NotesAll => "/notes/list_all.do",
            Endpoint::NotesUnread => "/notes/list_unread.do",
            Endpoint::ViewThread => "/comments/view.do",
            Endpoint::CommentOnVideo => "/comments/add_to_video.do",
            Endpoint::CommentOnVideoUnfiltered => "/comments/add_to_video_unfiltered.do",
            Endpoint::CommentOnPlaylist => "/comments/add_to_playlist.do",
            Endpoint::CommentOnPlaylistUnfiltered => "/comments/add_to_playlist_unfiltered.do",
            Endpoint::Reply => "/comments/reply.do",
            Endpoint::ReplyUnfiltered => "/comments/reply_unfiltered.do",
            Endpoint::EditComment => "/comments/edit.do",
            Endpoint::EditCommentUnfiltered => "/comments/edit_unfiltered.do",
            Endpoint::DeleteComment => "/comments/del.do",
            Endpoint::HideComment => "/comments/hide.do",
            Endpoint::PinComment => "/comments/pin.do",
            Endpoint::Stats => "/stats.do",
            Endpoint::TagContributors => "/ranking/tag_contributor.do",
            Endpoint::PostVideo => "/postvideo.do",
            Endpoint::PostVideoBatch => "/postvideo_batch.do",
            Endpoint::EditVideoTags => "/videos/edittags.do",
            Endpoint::EditVideoTagIds => "/videos/edittagids.do",
            Endpoint::SetVideoClearence => "/videos/set_clearence.do",
            Endpoint::RawTagIdLog => "/video/raw_tagid_log.do",
        }
    }

    /// The full URL of the endpoint under `base`.
    pub fn url(&self, base: &str) -> (r: String)
        ensures
            r@ == base@ + self.path_spec(),
    {
        let mut r = String::from_str(base);
        r.append(self.path());
        r
    }
}

} // verus!
