//! Platform users.
use vstd::prelude::*;
use crate::models::Meta;
use crate::oid::ObjectId;

verus! {

/// A platform user, always fully populated.
#[derive(Clone, Debug)]
pub struct User {
    pub _id: ObjectId,
    pub bind_qq: Option<bool>,
    pub desc: String,
    pub username: String,
    pub image: String,
    pub email: Option<String>,
    pub gravatar: Option<String>,
    pub meta: Meta,
}

/// Arguments of a user lookup.
#[derive(Clone, Debug)]
pub struct GetUserParameters {
    /// ID of user
    pub uid: String,
}

/// The profile part of a user lookup's reply.
#[derive(Clone, Debug)]
pub struct UserProfile {
    pub bind_qq: Option<bool>,
    pub desc: String,
    pub username: String,
    pub image: String,
    pub email: Option<String>,
    pub gravatar: Option<String>,
}

/// The reply of a user lookup.
#[derive(Clone, Debug)]
pub struct GetProfileResult {
    pub profile: UserProfile,
    pub _id: ObjectId,
    pub meta: Meta,
}

/// The reported name of a caller that is not logged in.
pub open spec fn not_logged_in() -> Seq<char> {
    "NOT_LOGGED_IN"@
}

impl GetUserParameters {
    /// The lookup of the user with id `uid`.
    pub fn for_user(uid: &ObjectId) -> (r: GetUserParameters)
        ensures
            r.uid@ == uid.hex(),
    {
        GetUserParameters { uid: uid.to_string() }
    }
}

impl GetProfileResult {
    /// The user that a profile reply describes, with every field carried over.
    pub fn into_user(self) -> (r: User)
        ensures
            r._id == self._id,
            r.meta == self.meta,
            r.bind_qq == self.profile.bind_qq,
            r.desc == self.profile.desc,
            r.username == self.profile.username,
            r.image == self.profile.image,
            r.email == self.profile.email,
            r.gravatar == self.profile.gravatar,
    {
        User {
            _id: self._id,
            bind_qq: self.profile.bind_qq,
            desc: self.profile.desc,
            username: self.profile.username,
            image: self.profile.image,
            email: self.profile.email,
            gravatar: self.profile.gravatar,
            meta: self.meta,
        }
    }
}

/// The name of the caller: the backend's answer on success, else `NOT_LOGGED_IN`.
pub fn whoami_outcome(status_ok: bool, name: Option<String>) -> (r: String)
    ensures
        status_ok && name is Some ==> r == name->Some_0,
        !(status_ok && name is Some) ==> r@ == not_logged_in(),
{
    match name {
        Some(n) if status_ok => n,
        _ => String::from_str("NOT_LOGGED_IN"),
    }
}

impl User {
    pub fn id(&self) -> (r: String)
        ensures
            r@ == self._id.hex(),
    {
        self._id.to_string()
    }

    pub fn bind_qq(&self) -> (r: Option<bool>)
        ensures
            r == self.bind_qq,
    {
        self.bind_qq
    }

    pub fn desc(&self) -> (r: &String)
        ensures
            *r == self.desc,
    {
        &self.desc
    }

    pub fn username(&self) -> (r: &String)
        ensures
            *r == self.username,
    {
        &self.username
    }

    pub fn image(&self) -> (r: &String)
        ensures
            *r == self.image,
    {
        &self.image
    }

    pub fn email(&self) -> (r: &Option<String>)
        ensures
            *r == self.email,
    {
        &self.email
    }

    pub fn gravatar(&self) -> (r: &Option<String>)
        ensures
            *r == self.gravatar,
    {
        &self.gravatar
    }

    pub fn meta(&self) -> (r: &Meta)
        ensures
            *r == self.meta,
    {
        &self.meta
    }
}

} // verus!
