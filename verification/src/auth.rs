use vstd::prelude::*;
use vstd::string::*;
use vstd::utf8::*;
use crate::codec::base64_decode;
use crate::codec::base64_standard;
use crate::codec::sha256_digest;
use crate::codec::sha256_hex;
use crate::codec::string_from_utf8;
use crate::environment::EnvironmentModel;
use crate::environment::EnvironmentService;
use crate::text::same_text;
use crate::text::text_of;
use crate::session::create_session_cookie;
use crate::session::is_session_cookie;
use crate::session::Session;
use crate::session::SessionCookie;
use crate::session::SessionModel;
use crate::store::stored_session;
use crate::store::stored_user;
use crate::store::session_at;
use crate::store::unique_ids;
use crate::store::SessionStore;
use crate::store::UserStore;
use crate::user::resolve;
use crate::user::User;
use crate::user::UserModel;

verus! {

/// Why an `Authorization` header yields no credential pair.
#[derive(Clone, Copy, Debug, PartialEq, Eq, Structural)]
pub enum CredentialError {
    /// The header does not start with `Basic` and one space.
    NotBasic,
    /// What follows the scheme is not base64.
    InvalidBase64,
    /// The decoded bytes are not UTF-8.
    InvalidUtf8,
    /// The decoded text holds no colon.
    MissingColon,
}

/// The scheme word and the space that open a Basic header.
pub open spec fn scheme_prefix() -> Seq<char> {
    seq!['B', 'a', 's', 'i', 'c', ' ']
}

/// What follows the scheme in a Basic header; `None` for any other header.
pub open spec fn payload_of(header: Seq<char>) -> Option<Seq<char>> {
    if header.len() >= 6 && header.subrange(0, 6) == scheme_prefix() {
        Some(header.subrange(6, header.len() as int))
    } else {
        None
    }
}

/// Whether the first colon of `text` stands at `i`.
pub open spec fn is_first_colon(text: Seq<char>, i: int) -> bool {
    &&& 0 <= i < text.len()
    &&& text[i] == ':'
    &&& forall|j: int| 0 <= j < i ==> text[j] != ':'
}

/// The text before the first colon and the text after it; `None` where there
/// is no colon.
pub open spec fn split_pair(text: Seq<char>) -> Option<(Seq<char>, Seq<char>)> {
    if exists|i: int| is_first_colon(text, i) {
        let i = choose|i: int| is_first_colon(text, i);
        Some((text.subrange(0, i), text.subrange(i + 1, text.len() as int)))
    } else {
        None
    }
}

/// The pair that decoded bytes hold.
pub open spec fn pair_of_bytes(bytes: Seq<u8>) -> Result<(Seq<char>, Seq<char>), CredentialError> {
    if !valid_utf8(bytes) {
        Err(CredentialError::InvalidUtf8)
    } else {
        match split_pair(decode_utf8(bytes)) {
            Some(pair) => Ok(pair),
            None => Err(CredentialError::MissingColon),
        }
    }
}

/// The identity and the secret that a Basic header carries.
pub open spec fn credentials(header: Seq<char>) -> Result<(Seq<char>, Seq<char>), CredentialError> {
    match payload_of(header) {
        None => Err(CredentialError::NotBasic),
        Some(payload) => match base64_standard(payload) {
            None => Err(CredentialError::InvalidBase64),
            Some(bytes) => pair_of_bytes(bytes),
        },
    }
}

/// Takes the payload out of a Basic header.
pub fn basic_auth_payload(header: &str) -> (out: Option<String>)
    ensures
        match out {
            Some(payload) => payload_of(header@) == Some(payload@),
            None => payload_of(header@) is None,
        },
{
    let n = header.unicode_len();
    if n < 6 {
        return None;
    }
    if header.get_char(0) == 'B' && header.get_char(1) == 'a' && header.get_char(2) == 's'
        && header.get_char(3) == 'i' && header.get_char(4) == 'c' && header.get_char(5) == ' ' {
        assert(header@.subrange(0, 6) =~= scheme_prefix());
        Some(header.substring_char(6, n).to_owned())
    } else {
        assert(header@.subrange(0, 6) != scheme_prefix()) by {
            let head = header@.subrange(0, 6);
            if head == scheme_prefix() {
                assert(head[0] == 'B' && head[1] == 'a' && head[2] == 's' && head[3] == 'i'
                    && head[4] == 'c' && head[5] == ' ');
            }
        }
        None
    }
}

/// Splits a decoded text at its first colon.
pub fn split_credentials(text: &str) -> (out: Option<(String, String)>)
    ensures
        match out {
            Some((identity, secret)) => split_pair(text@) == Some((identity@, secret@)),
            None => split_pair(text@) is None,
        },
{
    let n = text.unicode_len();
    let mut i: usize = 0;
    while i < n
        invariant
            i <= n,
            n == text@.len(),
            forall|j: int| 0 <= j < i ==> text@[j] != ':',
        decreases n - i,
    {
        if text.get_char(i) == ':' {
            proof {
                assert(is_first_colon(text@, i as int));
                let c = choose|k: int| is_first_colon(text@, k);
                assert(is_first_colon(text@, c));
                assert(c == i) by {
                    if c < i {
                        assert(text@[c] != ':');
                    } else if i < c {
                        assert(text@[i as int] != ':');
                    }
                }
            }
            let identity = text.substring_char(0, i).to_owned();
            let secret = text.substring_char(i + 1, n).to_owned();
            return Some((identity, secret));
        }
        i += 1;
    }
    None
}

/// Reads the pair out of the bytes that a Basic payload decodes to.
pub fn credentials_from_bytes(bytes: Vec<u8>) -> (out: Result<(String, String), CredentialError>)
    ensures
        match out {
            Ok((identity, secret)) => pair_of_bytes(bytes@) == Ok::<
                (Seq<char>, Seq<char>),
                CredentialError,
            >((identity@, secret@)),
            Err(e) => pair_of_bytes(bytes@) == Err::<(Seq<char>, Seq<char>), CredentialError>(e),
        },
{
    match string_from_utf8(bytes) {
        None => Err(CredentialError::InvalidUtf8),
        Some(text) => match split_credentials(text.as_str()) {
            Some(pair) => Ok(pair),
            None => Err(CredentialError::MissingColon),
        },
    }
}

/// Decodes a Basic `Authorization` header into identity and secret.
pub fn extract_basic_auth(auth: &str) -> (out: Result<(String, String), CredentialError>)
    ensures
        match out {
            Ok((identity, secret)) => credentials(auth@) == Ok::<
                (Seq<char>, Seq<char>),
                CredentialError,
            >((identity@, secret@)),
            Err(e) => credentials(auth@) == Err::<(Seq<char>, Seq<char>), CredentialError>(e),
        },
{
    match basic_auth_payload(auth) {
        None => Err(CredentialError::NotBasic),
        Some(payload) => match base64_decode(payload.as_str()) {
            None => Err(CredentialError::InvalidBase64),
            Some(bytes) => credentials_from_bytes(bytes),
        },
    }
}

/// Decodes the header of a login request into identity and secret.
pub fn basic_auth_login(rq: String) -> (out: Result<(String, String), CredentialError>)
    ensures
        match out {
            Ok((identity, secret)) => credentials(rq@) == Ok::<
                (Seq<char>, Seq<char>),
                CredentialError,
            >((identity@, secret@)),
            Err(e) => credentials(rq@) == Err::<(Seq<char>, Seq<char>), CredentialError>(e),
        },
{
    extract_basic_auth(rq.as_str())
}

/// Why a login attempt was turned away. The client never learns which of
/// these it was; the reason is for the server's own records.
#[derive(Clone, Copy, Debug, PartialEq, Eq, Structural)]
pub enum Refusal {
    /// The request carries neither a known session cookie nor an
    /// `Authorization` header.
    MissingHeader,
    /// The `Authorization` header yields no credential pair.
    BadHeader(CredentialError),
    /// The credentials name another identity than the request path.
    IdentityMismatch,
    /// The name resolves to no identity.
    UnknownIdentity,
    /// The digest of the secret is not the identity's stored digest.
    WrongSecret,
}

/// How one login attempt ends.
pub enum LoginOutcome {
    /// Accepted under a session, which goes out as a cookie.
    Session(Session),
    /// Accepted on the bootstrap pair: no session, no cookie.
    Bootstrap,
    /// Turned away.
    Unauthorized(Refusal),
    /// The new session could not be persisted.
    StoreFailure,
}

/// The end of a login attempt as plain values.
pub enum LoginModel {
    Session(SessionModel),
    Bootstrap,
    Unauthorized(Refusal),
    StoreFailure,
}

impl View for LoginOutcome {
    type V = LoginModel;

    open spec fn view(&self) -> LoginModel {
        match *self {
            LoginOutcome::Session(s) => LoginModel::Session(s@),
            LoginOutcome::Bootstrap => LoginModel::Bootstrap,
            LoginOutcome::Unauthorized(reason) => LoginModel::Unauthorized(reason),
            LoginOutcome::StoreFailure => LoginModel::StoreFailure,
        }
    }
}

impl LoginModel {
    /// The HTTP status that answers the attempt.
    pub open spec fn status(self) -> int {
        match self {
            LoginModel::Session(_) => 200,
            LoginModel::Bootstrap => 200,
            LoginModel::Unauthorized(_) => 401,
            LoginModel::StoreFailure => 500,
        }
    }
}

impl LoginOutcome {
    /// The HTTP status that answers the attempt: 200 for both ways of being
    /// accepted, 401 for every refusal, 500 where the store failed.
    pub fn status(&self) -> (out: u16)
        ensures
            out == self@.status(),
    {
        match self {
            LoginOutcome::Session(_) => 200,
            LoginOutcome::Bootstrap => 200,
            LoginOutcome::Unauthorized(_) => 401,
            LoginOutcome::StoreFailure => 500,
        }
    }

    /// The cookie that goes out with the answer: the session's cookie where
    /// a session was accepted or issued, none otherwise.
    pub fn cookie(self) -> (out: Option<SessionCookie>)
        ensures
            match self@ {
                LoginModel::Session(s) => out is Some && is_session_cookie(out->0, s),
                _ => out is None,
            },
    {
        match self {
            LoginOutcome::Session(s) => Some(create_session_cookie(s)),
            _ => None,
        }
    }
}

/// The check against the store: the resolved identity must be there and its
/// stored digest must be `digest`; then a session under `token` is issued,
/// which fails where the token is taken.
pub open spec fn store_check(
    user: Option<UserModel>,
    digest: Seq<char>,
    token: Seq<char>,
    sessions: Seq<SessionModel>,
) -> LoginModel {
    match user {
        None => LoginModel::Unauthorized(Refusal::UnknownIdentity),
        Some(u) => if u.password == Some(digest) {
            if stored_session(sessions, token) is Some {
                LoginModel::StoreFailure
            } else {
                LoginModel::Session(SessionModel { username: u.username, session_id: token })
            }
        } else {
            LoginModel::Unauthorized(Refusal::WrongSecret)
        },
    }
}

/// The check of Basic credentials for the identity `path_user` named in the
/// request path.
pub open spec fn basic_auth_check(
    path_user: Seq<char>,
    authorization: Option<Seq<char>>,
    token: Seq<char>,
    env: EnvironmentModel,
    users: Seq<UserModel>,
    sessions: Seq<SessionModel>,
) -> LoginModel {
    match authorization {
        None => LoginModel::Unauthorized(Refusal::MissingHeader),
        Some(header) => match credentials(header) {
            Err(e) => LoginModel::Unauthorized(Refusal::BadHeader(e)),
            Ok((claimed, secret)) => if claimed != path_user {
                LoginModel::Unauthorized(Refusal::IdentityMismatch)
            } else if env.is_bootstrap_pair(claimed, secret) {
                LoginModel::Bootstrap
            } else {
                store_check(resolve(env, users, claimed), sha256_hex(secret), token, sessions)
            },
        },
    }
}

/// The whole decision: a known session cookie is accepted as it is; anything
/// else falls back to the Basic credentials.
pub open spec fn login_model(
    path_user: Seq<char>,
    cookie: Option<Seq<char>>,
    authorization: Option<Seq<char>>,
    token: Seq<char>,
    env: EnvironmentModel,
    users: Seq<UserModel>,
    sessions: Seq<SessionModel>,
) -> LoginModel {
    if cookie is Some && stored_session(sessions, cookie->0) is Some {
        LoginModel::Session(stored_session(sessions, cookie->0)->0)
    } else {
        basic_auth_check(path_user, authorization, token, env, users, sessions)
    }
}

/// The session store after an attempt: a session that was not there before
/// is appended, nothing else changes.
pub open spec fn sessions_after(outcome: LoginModel, before: Seq<SessionModel>) -> Seq<
    SessionModel,
> {
    match outcome {
        LoginModel::Session(s) => if stored_session(before, s.session_id) is None {
            before.push(s)
        } else {
            before
        },
        _ => before,
    }
}

/// Checks the digest of the supplied secret against the resolved identity and
/// issues a session under `token` where they agree.
pub fn issue_session(
    user: Option<User>,
    digest: &str,
    token: String,
    sessions: &mut SessionStore,
) -> (out: LoginOutcome)
    requires
        old(sessions).wf(),
    ensures
        final(sessions).wf(),
        out@ == store_check(
            match user {
                Some(u) => Some(u@),
                None => None,
            },
            digest@,
            token@,
            old(sessions)@,
        ),
        final(sessions)@ == sessions_after(out@, old(sessions)@),
{
    match user {
        None => LoginOutcome::Unauthorized(Refusal::UnknownIdentity),
        Some(u) => {
            let agrees = match &u.password {
                Some(stored) => same_text(stored.as_str(), digest),
                None => false,
            };
            if agrees {
                let session = Session::new(u.username, token);
                match sessions.insert_session(&session) {
                    Ok(_) => LoginOutcome::Session(session),
                    Err(_) => LoginOutcome::StoreFailure,
                }
            } else {
                LoginOutcome::Unauthorized(Refusal::WrongSecret)
            }
        },
    }
}

/// Decides one login attempt for the identity `username` named in the
/// request path, from the session cookie and the `Authorization` header that
/// the request carries. `token` is the fresh random identifier that a new
/// session gets.
pub fn login(
    username: &str,
    cookie: &Option<String>,
    authorization: &Option<String>,
    token: String,
    env: &EnvironmentService,
    users: &UserStore,
    sessions: &mut SessionStore,
) -> (out: LoginOutcome)
    requires
        users.wf(),
        old(sessions).wf(),
    ensures
        final(sessions).wf(),
        out@ == login_model(
            username@,
            text_of(*cookie),
            text_of(*authorization),
            token@,
            env@,
            users@,
            old(sessions)@,
        ),
        final(sessions)@ == sessions_after(out@, old(sessions)@),
{
    match cookie {
        Some(value) => match sessions.find_by_session_id(value.as_str()) {
            Some(session) => {
                proof {
                    lemma_stored_session_has_id(sessions@, value@);
                }
                return LoginOutcome::Session(session);
            },
            None => {},
        },
        None => {},
    }
    let header = match authorization {
        None => {
            return LoginOutcome::Unauthorized(Refusal::MissingHeader);
        },
        Some(header) => header,
    };
    let (claimed, secret) = match extract_basic_auth(header.as_str()) {
        Err(e) => {
            return LoginOutcome::Unauthorized(Refusal::BadHeader(e));
        },
        Ok(pair) => pair,
    };
    if !same_text(claimed.as_str(), username) {
        return LoginOutcome::Unauthorized(Refusal::IdentityMismatch);
    }
    if env.is_bootstrap_pair(claimed.as_str(), secret.as_str()) {
        return LoginOutcome::Bootstrap;
    }
    let user = User::find_by_username(claimed.as_str(), env, users);
    let digest = sha256_digest(secret.as_str());
    issue_session(user, digest.as_str(), token, sessions)
}

/// A session that is found under an identifier carries that identifier.
pub proof fn lemma_stored_session_has_id(rows: Seq<SessionModel>, id: Seq<char>)
    ensures
        stored_session(rows, id) is Some ==> stored_session(rows, id)->0.session_id == id,
{
}

/// A session appended under an identifier that was free is the one found
/// under that identifier afterwards.
pub proof fn lemma_appended_session_is_found(rows: Seq<SessionModel>, session: SessionModel)
    requires
        stored_session(rows, session.session_id) is None,
    ensures
        stored_session(rows.push(session), session.session_id) == Some(session),
{
    let after = rows.push(session);
    let id = session.session_id;
    assert(session_at(after, id, rows.len() as int));
    let c = choose|i: int| session_at(after, id, i);
    assert(session_at(after, id, c));
    if c < rows.len() {
        assert(session_at(rows, id, c));
    }
}

/// A login with the name and the secret of a stored identity, whose name the
/// bootstrap administrator does not shadow, is accepted with status 200 under
/// a new session that this identity owns, and that session is persisted. The
/// request names the identity in its path, carries no session cookie or an
/// unknown one, and the token is free.
pub proof fn lemma_right_secret_opens_session(
    identity: UserModel,
    secret: Seq<char>,
    cookie: Option<Seq<char>>,
    header: Seq<char>,
    token: Seq<char>,
    env: EnvironmentModel,
    users: Seq<UserModel>,
    sessions: Seq<SessionModel>,
)
    requires
        stored_user(users, identity.username) == Some(identity),
        !env.is_bootstrap_name(identity.username),
        identity.password == Some(sha256_hex(secret)),
        credentials(header) == Ok::<(Seq<char>, Seq<char>), CredentialError>(
            (identity.username, secret),
        ),
        cookie is None || stored_session(sessions, cookie->0) is None,
        stored_session(sessions, token) is None,
    ensures
        ({
            let outcome = login_model(
                identity.username,
                cookie,
                Some(header),
                token,
                env,
                users,
                sessions,
            );
            let session = SessionModel { username: identity.username, session_id: token };
            &&& outcome == LoginModel::Session(session)
            &&& outcome.status() == 200
            &&& sessions_after(outcome, sessions) == sessions.push(session)
        }),
{
}

/// A login with the name of a stored identity and a secret whose digest is
/// not the stored one is refused with status 401 and leaves the sessions as
/// they were, whatever the request path names. The request carries no session
/// cookie or an unknown one, and the bootstrap administrator does not shadow
/// the name.
pub proof fn lemma_wrong_secret_is_refused(
    identity: UserModel,
    secret: Seq<char>,
    path_user: Seq<char>,
    cookie: Option<Seq<char>>,
    header: Seq<char>,
    token: Seq<char>,
    env: EnvironmentModel,
    users: Seq<UserModel>,
    sessions: Seq<SessionModel>,
)
    requires
        stored_user(users, identity.username) == Some(identity),
        !env.is_bootstrap_name(identity.username),
        identity.password != Some(sha256_hex(secret)),
        credentials(header) == Ok::<(Seq<char>, Seq<char>), CredentialError>(
            (identity.username, secret),
        ),
        cookie is None || stored_session(sessions, cookie->0) is None,
    ensures
        ({
            let outcome = login_model(path_user, cookie, Some(header), token, env, users, sessions);
            &&& outcome == LoginModel::Unauthorized(
                if path_user == identity.username {
                    Refusal::WrongSecret
                } else {
                    Refusal::IdentityMismatch
                },
            )
            &&& outcome.status() == 401
            &&& sessions_after(outcome, sessions) == sessions
        }),
{
}

/// A request with a known session cookie is accepted under the very session
/// that the cookie names, whatever else it carries: the identifier that goes
/// out is the one that came in, and no session is added.
pub proof fn lemma_known_cookie_round_trips(
    path_user: Seq<char>,
    cookie: Seq<char>,
    authorization: Option<Seq<char>>,
    token: Seq<char>,
    env: EnvironmentModel,
    users: Seq<UserModel>,
    sessions: Seq<SessionModel>,
)
    requires
        stored_session(sessions, cookie) is Some,
    ensures
        ({
            let outcome = login_model(
                path_user,
                Some(cookie),
                authorization,
                token,
                env,
                users,
                sessions,
            );
            &&& outcome == LoginModel::Session(stored_session(sessions, cookie)->0)
            &&& outcome->Session_0.session_id == cookie
            &&& outcome.status() == 200
            &&& sessions_after(outcome, sessions) == sessions
        }),
{
    lemma_stored_session_has_id(sessions, cookie);
}

/// A session that one login issued and persisted is accepted by any later
/// request that presents its identifier as the cookie, under the same
/// identifier and owner.
pub proof fn lemma_issued_session_is_accepted_again(
    issued: SessionModel,
    path_user: Seq<char>,
    authorization: Option<Seq<char>>,
    token: Seq<char>,
    env: EnvironmentModel,
    users: Seq<UserModel>,
    sessions: Seq<SessionModel>,
)
    requires
        stored_session(sessions, issued.session_id) is None,
    ensures
        login_model(
            path_user,
            Some(issued.session_id),
            authorization,
            token,
            env,
            users,
            sessions_after(LoginModel::Session(issued), sessions),
        ) == LoginModel::Session(issued),
{
    lemma_appended_session_is_found(sessions, issued);
}

/// A session cookie that names no stored session decides nothing: the
/// request is judged by its Basic credentials, as if it had no cookie.
pub proof fn lemma_unknown_cookie_falls_back(
    path_user: Seq<char>,
    cookie: Seq<char>,
    authorization: Option<Seq<char>>,
    token: Seq<char>,
    env: EnvironmentModel,
    users: Seq<UserModel>,
    sessions: Seq<SessionModel>,
)
    requires
        stored_session(sessions, cookie) is None,
    ensures
        login_model(path_user, Some(cookie), authorization, token, env, users, sessions)
            == basic_auth_check(path_user, authorization, token, env, users, sessions),
        login_model(path_user, Some(cookie), authorization, token, env, users, sessions)
            == login_model(path_user, None, authorization, token, env, users, sessions),
{
}

/// Every refusal looks the same from outside: status 401, no session, and
/// the sessions as they were, whatever the reason.
pub proof fn lemma_refusals_look_alike(reason: Refusal, sessions: Seq<SessionModel>)
    ensures
        LoginModel::Unauthorized(reason).status() == 401,
        !(LoginModel::Unauthorized(reason) is Session),
        sessions_after(LoginModel::Unauthorized(reason), sessions) == sessions,
{
}

/// A session stays what it is across any login attempt: what was found under
/// an identifier before is found under it afterwards, with the same owner.
pub proof fn lemma_login_keeps_sessions(
    outcome: LoginModel,
    sessions: Seq<SessionModel>,
    id: Seq<char>,
)
    requires
        unique_ids(sessions),
        stored_session(sessions, id) is Some,
    ensures
        stored_session(sessions_after(outcome, sessions), id) == stored_session(sessions, id),
{
    if let LoginModel::Session(issued) = outcome {
        if stored_session(sessions, issued.session_id) is None {
            let after = sessions.push(issued);
            let i = choose|k: int| session_at(sessions, id, k);
            assert(session_at(after, id, i));
            let c = choose|k: int| session_at(after, id, k);
            assert(session_at(after, id, c));
            if c == sessions.len() {
                assert(session_at(sessions, issued.session_id, i));
            } else {
                assert(sessions[c].session_id == sessions[i].session_id);
            }
        }
    }
}

} // verus!
