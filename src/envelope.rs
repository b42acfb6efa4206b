//! The backend's response envelope and the gateway's error taxonomy.
use vstd::prelude::*;

verus! {

/// The body of a non-2xx reply of the backend.
#[derive(Clone, Debug)]
pub struct Error {
    pub code: String,
    pub aux: Option<String>,
}

/// The structured reason that a failing envelope may carry.
#[derive(Clone, Debug)]
pub struct RestResultError {
    pub reason: String,
    pub aux: Option<String>,
}

/// The envelope `{status, data, error}` of every backend reply.
#[derive(Clone, Debug)]
pub struct RestResult<T> {
    pub status: String,
    pub data: Option<T>,
    pub dataerr: Option<RestResultError>,
}

/// A precondition on a resolver's arguments.
#[derive(Clone, Copy, Debug, PartialEq, Eq, Structural)]
pub enum RequestRule {
    /// A rating names a playlist or a video.
    RatingTarget,
    /// A tag listing names a query or a category.
    TagQuery,
}

/// Why a field could not be resolved.
#[derive(Clone, Debug)]
pub enum GatewayError {
    /// The backend could not be reached, or its reply could not be read.
    Transport,
    /// The backend answered with a status other than `SUCCEED`.
    Backend { code: String, detail: Option<RestResultError> },
    /// A `SUCCEED` envelope without its data.
    MissingData,
    /// The caller's arguments break a precondition; no backend call was made.
    InvalidRequest { rule: RequestRule },
    /// A notification lacks a field that its type requires, or holds it ill-typed.
    MalformedNotification { field: String },
    /// A category name outside the closed set of categories.
    UnknownCategory { name: String },
    /// A playlist reply without its category-to-tags map.
    NoCategoryTagMap,
    /// A tag id, sent as a map key, that spells no number.
    MalformedTagId { key: String },
}

/// The status of a successful envelope.
pub open spec fn succeed_status() -> Seq<char> {
    "SUCCEED"@
}

/// Whether `s` is the status of a successful envelope.
pub fn is_succeed(s: &String) -> (r: bool)
    ensures
        r == (s@ == succeed_status()),
{
    let expected = String::from_str("SUCCEED");
    *s == expected
}

impl<T> RestResult<T> {
    /// What decoding the envelope yields.
    pub open spec fn outcome(self) -> Result<T, GatewayError> {
        if self.status@ == succeed_status() {
            match self.data {
                Some(d) => Ok(d),
                None => Err(GatewayError::MissingData),
            }
        } else {
            Err(GatewayError::Backend { code: self.status, detail: self.dataerr })
        }
    }

    /// Decodes the envelope: its data on `SUCCEED`, else the backend's error.
    pub fn into_result(self) -> (r: Result<T, GatewayError>)
        ensures
            r == self.outcome(),
    {
        if is_succeed(&self.status) {
            match self.data {
                Some(d) => Ok(d),
                None => Err(GatewayError::MissingData),
            }
        } else {
            Err(GatewayError::Backend { code: self.status, detail: self.dataerr })
        }
    }

    /// Decodes the envelope of a call whose data nobody reads: `true` on `SUCCEED`.
    pub fn acknowledge(self) -> (r: Result<bool, GatewayError>)
        ensures
            self.status@ == succeed_status() ==> r == Ok::<bool, GatewayError>(true),
            self.status@ != succeed_status() ==> r == Err::<bool, GatewayError>(
                GatewayError::Backend { code: self.status, detail: self.dataerr },
            ),
    {
        if is_succeed(&self.status) {
            Ok(true)
        } else {
            Err(GatewayError::Backend { code: self.status, detail: self.dataerr })
        }
    }
}

impl RequestRule {
    /// The message that explains the rule to the caller.
    pub fn message(&self) -> (r: &'static str)
        ensures
            *self == RequestRule::RatingTarget ==> r@ == "At least one of pid or vid must be set"@,
            *self == RequestRule::TagQuery ==> r@ == "At least one of query or category must be set"@,
    {
        match self {
            RequestRule::RatingTarget => "At least one of pid or vid must be set",
            RequestRule::TagQuery => "At least one of query or category must be set",
        }
    }
}

impl GatewayError {
    /// The code under which the error is reported on its field.
    pub fn code(&self) -> (r: String)
        ensures
            self is Transport ==> r@ == "TRANSPORT_ERROR"@,
            self is Backend ==> r@ == self->Backend_code@,
            self is MissingData ==> r@ == "INTERNAL_SERVER_ERROR"@,
            self is InvalidRequest ==> r@ == "INCORRECT_REQUEST"@,
            self is MalformedNotification ==> r@ == "INTERNAL_SERVER_ERROR"@,
            self is UnknownCategory ==> r@ == "UNKNOWN_CATEGORY"@,
            self is NoCategoryTagMap ==> r@ == "NO_CATEGORY_TAG_MAP"@,
            self is MalformedTagId ==> r@ == "INTERNAL_SERVER_ERROR"@,
    {
        match self {
            GatewayError::Transport => String::from_str("TRANSPORT_ERROR"),
            GatewayError::Backend { code, .. } => code.clone(),
            GatewayError::MissingData => String::from_str("INTERNAL_SERVER_ERROR"),
            GatewayError::InvalidRequest { .. } => String::from_str("INCORRECT_REQUEST"),
            GatewayError::MalformedNotification { .. } => String::from_str("INTERNAL_SERVER_ERROR"),
            GatewayError::UnknownCategory { .. } => String::from_str("UNKNOWN_CATEGORY"),
            GatewayError::NoCategoryTagMap => String::from_str("NO_CATEGORY_TAG_MAP"),
            GatewayError::MalformedTagId { .. } => String::from_str("INTERNAL_SERVER_ERROR"),
        }
    }
}

} // verus!
