//! The per-request credentials, threaded through every resolver call.
use vstd::prelude::*;

verus! {

/// The credentials of one inbound request, forwarded verbatim to the backend.
#[derive(Clone, Debug)]
pub struct Context {
    /// Value of the `session` cookie, if any.
    pub session: Option<String>,
    /// Value of the `Authorization` header, if any.
    pub auth_header: Option<String>,
}

/// A header to attach to an outbound backend call.
#[derive(Clone, Debug)]
pub struct Header {
    pub name: String,
    pub value: String,
}

impl Header {
    pub open spec fn view(self) -> (Seq<char>, Seq<char>) {
        (self.name@, self.value@)
    }
}

/// The headers that carry a request's credentials: the session as a cookie,
/// then the authorization value as is. Neither is attached when absent.
pub open spec fn credential_headers_spec(
    session: Option<Seq<char>>,
    auth: Option<Seq<char>>,
) -> Seq<(Seq<char>, Seq<char>)> {
    let cookie: Seq<(Seq<char>, Seq<char>)> = match session {
        Some(s) => seq![("cookie"@, "session="@ + s)],
        None => Seq::empty(),
    };
    let authorization: Seq<(Seq<char>, Seq<char>)> = match auth {
        Some(a) => seq![("Authorization"@, a)],
        None => Seq::empty(),
    };
    cookie + authorization
}

/// The view of an optional string.
pub open spec fn opt_view(o: Option<String>) -> Option<Seq<char>> {
    match o {
        Some(s) => Some(s@),
        None => None,
    }
}

impl Context {
    /// A context without credentials: an anonymous request.
    pub fn anonymous() -> (r: Context)
        ensures
            r.session is None,
            r.auth_header is None,
    {
        Context { session: None, auth_header: None }
    }

    /// The headers to attach to each backend call made for this request.
    pub fn credential_headers(&self) -> (r: Vec<Header>)
        ensures
            r@.map_values(|h: Header| h.view()) == credential_headers_spec(
                opt_view(self.session),
                opt_view(self.auth_header),
            ),
    {
        let mut r: Vec<Header> = Vec::new();
        if let Some(s) = &self.session {
            let mut value = String::from_str("session=");
            value.append(s.as_str());
            r.push(Header { name: String::from_str("cookie"), value });
        }
        if let Some(a) = &self.auth_header {
            r.push(Header { name: String::from_str("Authorization"), value: a.clone() });
        }
        assert(r@.map_values(|h: Header| h.view()) =~= credential_headers_spec(
            opt_view(self.session),
            opt_view(self.auth_header),
        ));
        r
    }
}

} // verus!
