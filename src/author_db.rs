//! Author records linked to tags of category `Author`.
use vstd::prelude::*;
use crate::edit_tags::GetTagObjectsBatchParameters;
use crate::oid::ObjectId;
use crate::users::GetUserParameters;

verus! {

/// An author record.
#[derive(Clone, Debug)]
pub struct Author {
    pub _id: ObjectId,
    pub type_: String,
    pub tagname: String,
    pub common_tagids: Vec<i32>,
    pub urls: Vec<String>,
    pub user_space_ids: Vec<String>,
    pub avatar: String,
    pub desc: String,
    pub pv_user_id: Option<ObjectId>,
}

/// Arguments of an author lookup.
#[derive(Clone, Copy, Debug)]
pub struct GetAuthorParameters {
    /// Tag ID
    pub tagid: i32,
}

/// The reply of an author lookup.
#[derive(Clone, Debug)]
pub struct GetAuthorResp {
    pub record: Author,
}

/// Arguments to link or unlink an author and a platform user.
#[derive(Clone, Debug)]
pub struct PvUserAssociationParameters {
    /// Tag ID
    pub tagid: i32,
    /// PatchyVideo User ID
    pub uid: String,
}

impl Author {
    /// The batch lookup of the author's common tags.
    pub fn common_tags(&self) -> (r: GetTagObjectsBatchParameters)
        ensures
            r.tagid@ == self.common_tagids@,
    {
        GetTagObjectsBatchParameters { tagid: self.common_tagids.clone() }
    }

    /// The lookup of the linked platform user, if any.
    pub fn pv_user(&self) -> (r: Option<GetUserParameters>)
        ensures
            r is Some <==> self.pv_user_id is Some,
            r matches Some(p) ==> p.uid@ == self.pv_user_id->Some_0.hex(),
    {
        match &self.pv_user_id {
            Some(uid) => Some(GetUserParameters::for_user(uid)),
            None => None,
        }
    }
}

impl Author {
    pub fn id(&self) -> (r: String)
        ensures
            r@ == self._id.hex(),
    {
        self._id.to_string()
    }

    pub fn type_(&self) -> (r: &String)
        ensures
            *r == self.type_,
    {
        &self.type_
    }

    pub fn tagname(&self) -> (r: &String)
        ensures
            *r == self.tagname,
    {
        &self.tagname
    }

    pub fn common_tagids(&self) -> (r: &Vec<i32>)
        ensures
            *r == self.common_tagids,
    {
        &self.common_tagids
    }

    pub fn urls(&self) -> (r: &Vec<String>)
        ensures
            *r == self.urls,
    {
        &self.urls
    }

    pub fn user_space_ids(&self) -> (r: &Vec<String>)
        ensures
            *r == self.user_space_ids,
    {
        &self.user_space_ids
    }

    pub fn avatar(&self) -> (r: &String)
        ensures
            *r == self.avatar,
    {
        &self.avatar
    }

    pub fn desc(&self) -> (r: &String)
        ensures
            *r == self.desc,
    {
        &self.desc
    }
}

} // verus!
