use vstd::prelude::*;
use vstd::string::*;

verus! {

/// A server-issued token that binds a cookie value to an identity.
pub struct Session {
    pub username: String,
    pub session_id: String,
}

/// A session as plain values.
pub struct SessionModel {
    pub username: Seq<char>,
    pub session_id: Seq<char>,
}

impl View for Session {
    type V = SessionModel;

    open spec fn view(&self) -> SessionModel {
        SessionModel { username: self.username@, session_id: self.session_id@ }
    }
}

impl Clone for Session {
    fn clone(&self) -> (out: Self)
        ensures
            out@ == self@,
    {
        Session { username: self.username.clone(), session_id: self.session_id.clone() }
    }
}

impl Session {
    /// A session of `username` under the identifier `token`. The token is a
    /// bearer secret: the caller draws it from a randomness source, fresh for
    /// each login, so that it cannot be guessed from the name.
    pub fn new(username: String, token: String) -> (out: Self)
        ensures
            out@ == (SessionModel { username: username@, session_id: token@ }),
    {
        Session { username, session_id: token }
    }
}

/// The attributes of the cookie that carries a session to the client.
pub struct SessionCookie {
    pub name: String,
    pub value: String,
    pub http_only: bool,
    pub secure: bool,
    pub same_site: SameSite,
    pub path: String,
}

/// The cross-site policy of a cookie.
#[derive(Clone, Copy, Debug, PartialEq, Eq, Structural)]
pub enum SameSite {
    Strict,
    Lax,
    Unrestricted,
}

/// The name of the session cookie.
pub open spec fn cookie_name() -> Seq<char> {
    seq!['s', 'e', 's', 's', 'i', 'o', 'n', 'i', 'd']
}

/// The path that the session cookie is scoped to.
pub open spec fn cookie_path() -> Seq<char> {
    seq!['/', 'a', 'p', 'i']
}

/// Whether `cookie` is the session cookie of `session`: named `sessionid`,
/// holding the session's identifier, HTTP-only, not marked secure, strict
/// same-site, scoped to `/api`.
pub open spec fn is_session_cookie(cookie: SessionCookie, session: SessionModel) -> bool {
    &&& cookie.name@ == cookie_name()
    &&& cookie.value@ == session.session_id
    &&& cookie.http_only
    &&& !cookie.secure
    &&& cookie.same_site == SameSite::Strict
    &&& cookie.path@ == cookie_path()
}

/// Builds the cookie under which a session is handed to the client.
pub fn create_session_cookie(session: Session) -> (out: SessionCookie)
    ensures
        is_session_cookie(out, session@),
{
    proof {
        reveal_strlit("sessionid");
        reveal_strlit("/api");
    }
    let name = String::from_str("sessionid");
    let path = String::from_str("/api");
    assert(name@ =~= cookie_name());
    assert(path@ =~= cookie_path());
    SessionCookie {
        name,
        value: session.session_id,
        http_only: true,
        secure: false,
        same_site: SameSite::Strict,
        path,
    }
}

} // verus!
