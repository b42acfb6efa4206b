//! Comment threads, comments, and the routing of comment mutations.
use vstd::prelude::*;
use crate::endpoint::Endpoint;
use crate::models::{Hydration, Meta};
use crate::oid::ObjectId;
use crate::users::GetUserParameters;

verus! {

/// A single comment; `children` holds its replies as the backend sent them.
#[derive(Debug)]
pub struct Comment {
    pub _id: ObjectId,
    pub thread: Option<ObjectId>,
    pub content: Option<String>,
    pub parent: Option<ObjectId>,
    pub children: Option<Vec<Comment>>,
    pub hidden: bool,
    pub deleted: bool,
    pub pinned: bool,
    pub upvotes: i32,
    pub downvotes: i32,
    pub meta: Meta,
    pub edited: Option<bool>,
}

/// A comment thread; `count` includes hidden and deleted comments but not replies.
#[derive(Debug)]
pub struct Thread {
    pub _id: ObjectId,
    pub count: i32,
    pub owner: ObjectId,
    pub obj_type: String,
    pub comments: Option<Vec<Comment>>,
}

/// Arguments of a thread lookup.
#[derive(Clone, Debug)]
pub struct GetThreadParameters {
    /// ID of thread
    pub thread_id: String,
}

/// The reply of a thread lookup.
#[derive(Debug)]
pub struct GetThreadResponse {
    pub comments: Vec<Comment>,
    pub thread: Thread,
}

impl GetThreadParameters {
    /// The lookup of the thread with id `id`.
    pub fn for_thread(id: &ObjectId) -> (r: GetThreadParameters)
        ensures
            r.thread_id@ == id.hex(),
    {
        GetThreadParameters { thread_id: id.to_string() }
    }
}

/// The lookup of an optional thread.
pub fn thread_lookup(id: &Option<ObjectId>) -> (r: Option<GetThreadParameters>)
    ensures
        r is Some <==> id is Some,
        r matches Some(p) ==> p.thread_id@ == id->Some_0.hex(),
{
    match id {
        Some(t) => Some(GetThreadParameters::for_thread(t)),
        None => None,
    }
}

impl GetThreadResponse {
    /// The thread, with its comments filled in from the reply.
    pub fn into_thread(self) -> (r: Thread)
        ensures
            r._id == self.thread._id,
            r.count == self.thread.count,
            r.owner == self.thread.owner,
            r.obj_type == self.thread.obj_type,
            r.comments == Some(self.comments),
    {
        Thread { comments: Some(self.comments), ..self.thread }
    }
}

impl Comment {
    /// The lookup of the comment's thread, if it names one.
    pub fn thread(&self) -> (r: Option<GetThreadParameters>)
        ensures
            r is Some <==> self.thread is Some,
            r matches Some(p) ==> p.thread_id@ == self.thread->Some_0.hex(),
    {
        thread_lookup(&self.thread)
    }

    /// The content; an empty one reads as absent.
    pub fn content(&self) -> (r: Option<String>)
        ensures
            r is Some <==> (self.content is Some && self.content->Some_0@.len() > 0),
            r is Some ==> r == self.content,
    {
        match &self.content {
            Some(s) => if s.as_str().is_empty() {
                None
            } else {
                Some(s.clone())
            },
            None => None,
        }
    }

    /// The replies; an empty list reads as absent.
    pub fn children(&self) -> (r: Option<&Vec<Comment>>)
        ensures
            r is Some <==> (self.children is Some && self.children->Some_0@.len() > 0),
            r matches Some(x) ==> Some(*x) == self.children,
    {
        match &self.children {
            Some(c) => if c.len() > 0 {
                Some(c)
            } else {
                None
            },
            None => None,
        }
    }

    pub fn edited(&self) -> (r: bool)
        ensures
            r == (self.edited == Some(true)),
    {
        match self.edited {
            Some(e) => e,
            None => false,
        }
    }
}

impl Thread {
    /// The lookup of the thread's owner.
    pub fn owner(&self) -> (r: GetUserParameters)
        ensures
            r.uid@ == self.owner.hex(),
    {
        GetUserParameters::for_user(&self.owner)
    }

    /// The comments: those held, or else a lookup of the thread by its id.
    pub fn comments(&self) -> (r: Hydration<&Vec<Comment>, GetThreadParameters>)
        ensures
            self.comments matches Some(c) ==> (r matches Hydration::Cached(x) && *x == c),
            self.comments is None ==> (r matches Hydration::Refetch(p) && p.thread_id@
                == self._id.hex()),
    {
        match &self.comments {
            Some(c) => Hydration::Cached(c),
            None => Hydration::Refetch(GetThreadParameters::for_thread(&self._id)),
        }
    }
}

/// What a comment is posted on.
#[derive(Clone, Copy, Debug, PartialEq, Eq, Structural)]
pub enum CommentType {
    Video,
    Playlist,
}

/// Arguments for posting a comment.
#[derive(Clone, Debug)]
pub struct PostCommentParameters {
    /// Target vid, pid or comment_id (ObjectId)
    pub target_id: String,
    /// Type of comment
    pub comment_type: CommentType,
    /// To filter or not
    pub filter: bool,
    /// Content
    pub content: String,
}

/// A comment post: where it goes and what its payload holds.
#[derive(Clone, Debug)]
pub struct PostCommentRequest {
    pub endpoint: Endpoint,
    /// The target's id, sent under `vid` whatever the target type.
    pub vid: String,
    pub text: String,
}

/// The reply to a posted comment.
#[derive(Clone, Debug)]
pub struct PostCommentResponse {
    pub thread_id: String,
    pub cid: String,
}

impl PostCommentParameters {
    /// The endpoint: by target type, filtered or not.
    pub fn endpoint(&self) -> (r: Endpoint)
        ensures
            r == match (self.comment_type, self.filter) {
                (CommentType::Video, true) => Endpoint::CommentOnVideo,
                (CommentType::Video, false) => Endpoint::CommentOnVideoUnfiltered,
                (CommentType::Playlist, true) => Endpoint::CommentOnPlaylist,
                (CommentType::Playlist, false) => Endpoint::CommentOnPlaylistUnfiltered,
            },
    {
        match self.comment_type {
            CommentType::Video => if self.filter {
                Endpoint::CommentOnVideo
            } else {
                Endpoint::CommentOnVideoUnfiltered
            },
            CommentType::Playlist => if self.filter {
                Endpoint::CommentOnPlaylist
            } else {
                Endpoint::CommentOnPlaylistUnfiltered
            },
        }
    }
}

impl PostCommentParameters {
    /// The one call that posts the comment.
    pub fn request(self) -> (r: PostCommentRequest)
        ensures
            r.endpoint == match (self.comment_type, self.filter) {
                (CommentType::Video, true) => Endpoint::CommentOnVideo,
                (CommentType::Video, false) => Endpoint::CommentOnVideoUnfiltered,
                (CommentType::Playlist, true) => Endpoint::CommentOnPlaylist,
                (CommentType::Playlist, false) => Endpoint::CommentOnPlaylistUnfiltered,
            },
            r.vid == self.target_id,
            r.text == self.content,
    {
        let endpoint = self.endpoint();
        PostCommentRequest { endpoint, vid: self.target_id, text: self.content }
    }
}

impl PostCommentResponse {
    /// The id of the new comment, if the reply spells a valid one.
    pub fn comment_id(&self) -> (r: Option<ObjectId>)
        ensures
            r is Some <==> crate::oid::is_oid_hex(self.cid@),
            r matches Some(o) ==> o.bytes@ == crate::oid::hex_decode(self.cid@),
    {
        ObjectId::parse(self.cid.as_str())
    }

    /// The lookup of the thread that the comment went to.
    pub fn thread(&self) -> (r: GetThreadParameters)
        ensures
            r.thread_id == self.thread_id,
    {
        GetThreadParameters { thread_id: self.thread_id.clone() }
    }
}

/// Arguments for replying to a comment.
#[derive(Clone, Debug)]
pub struct PostReplyParameters {
    /// Target comment_id (ObjectId)
    pub reply_to: String,
    /// To filter or not
    pub filter: bool,
    /// Content
    pub text: String,
}

impl PostReplyParameters {
    pub fn endpoint(&self) -> (r: Endpoint)
        ensures
            r == (if self.filter { Endpoint::Reply } else { Endpoint::ReplyUnfiltered }),
    {
        if self.filter {
            Endpoint::Reply
        } else {
            Endpoint::ReplyUnfiltered
        }
    }
}

/// Arguments for editing a comment.
#[derive(Clone, Debug)]
pub struct EditCommentParameters {
    /// Target comment_id (ObjectId)
    pub cid: String,
    /// To filter or not
    pub filter: bool,
    /// Content
    pub text: String,
}

impl EditCommentParameters {
    pub fn endpoint(&self) -> (r: Endpoint)
        ensures
            r == (if self.filter { Endpoint::EditComment } else { Endpoint::EditCommentUnfiltered }),
    {
        if self.filter {
            Endpoint::EditComment
        } else {
            Endpoint::EditCommentUnfiltered
        }
    }
}

/// A moderation action on a comment.
#[derive(Clone, Copy, Debug, PartialEq, Eq, Structural)]
pub enum EditCommentOp {
    Del,
    Hide,
    Pin(bool),
}

/// A moderation call: where it goes and what its payload holds.
#[derive(Clone, Debug)]
pub struct EditCommentRequest {
    pub endpoint: Endpoint,
    pub cid: String,
    /// Present for pinning only.
    pub pinned: Option<bool>,
}

impl EditCommentOp {
    /// The one moderation call for this action on comment `cid`.
    pub fn request(self, cid: String) -> (r: EditCommentRequest)
        ensures
            r.cid == cid,
            r.endpoint == match self {
                EditCommentOp::Del => Endpoint::DeleteComment,
                EditCommentOp::Hide => Endpoint::HideComment,
                EditCommentOp::Pin(_) => Endpoint::PinComment,
            },
            r.pinned == match self {
                EditCommentOp::Pin(p) => Some(p),
                _ => None::<bool>,
            },
    {
        match self {
            EditCommentOp::Del => EditCommentRequest { endpoint: Endpoint::DeleteComment, cid, pinned: None },
            EditCommentOp::Hide => EditCommentRequest { endpoint: Endpoint::HideComment, cid, pinned: None },
            EditCommentOp::Pin(p) => EditCommentRequest {
                endpoint: Endpoint::PinComment,
                cid,
                pinned: Some(p),
            },
        }
    }
}

impl Comment {
    pub fn id(&self) -> (r: String)
        ensures
            r@ == self._id.hex(),
    {
        self._id.to_string()
    }

    pub fn parent(&self) -> (r: Option<ObjectId>)
        ensures
            r == self.parent,
    {
        self.parent
    }

    pub fn hidden(&self) -> (r: bool)
        ensures
            r == self.hidden,
    {
        self.hidden
    }

    pub fn deleted(&self) -> (r: bool)
        ensures
            r == self.deleted,
    {
        self.deleted
    }

    pub fn pinned(&self) -> (r: bool)
        ensures
            r == self.pinned,
    {
        self.pinned
    }

    pub fn upvotes(&self) -> (r: i32)
        ensures
            r == self.upvotes,
    {
        self.upvotes
    }

    pub fn downvotes(&self) -> (r: i32)
        ensures
            r == self.downvotes,
    {
        self.downvotes
    }

    pub fn meta(&self) -> (r: &Meta)
        ensures
            *r == self.meta,
    {
        &self.meta
    }
}

impl Thread {
    pub fn id(&self) -> (r: String)
        ensures
            r@ == self._id.hex(),
    {
        self._id.to_string()
    }

    /// Number of comment in this thread, includes deleted ones but not replies
    pub fn count(&self) -> (r: i32)
        ensures
            r == self.count,
    {
        self.count
    }

    /// One of 'video', 'playlist', 'user', 'forum'
    pub fn thread_type(&self) -> (r: &String)
        ensures
            *r == self.obj_type,
    {
        &self.obj_type
    }
}

} // verus!
