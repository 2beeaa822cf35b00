use vstd::prelude::*;
use vstd::string::*;
use crate::text::same_text;
use crate::text::text_of;

verus! {

/// The process-wide configuration that the authentication gate reads: built
/// once at start and handed by reference to whoever needs it.
pub struct EnvironmentService {
    /// Name of the bootstrap administrator, if one is configured.
    pub username: Option<String>,
    /// Password of the bootstrap administrator, if one is configured.
    pub password: Option<String>,
    /// Whether Basic authentication by a trusted upstream is switched on.
    pub basic_auth: bool,
    /// Whether OIDC authentication by a trusted upstream is switched on.
    pub oidc_auth: bool,
}

/// The configuration as plain values.
pub struct EnvironmentModel {
    pub username: Option<Seq<char>>,
    pub password: Option<Seq<char>>,
    pub basic_auth: bool,
    pub oidc_auth: bool,
}

impl EnvironmentModel {
    /// Whether `name` is the configured bootstrap username.
    pub open spec fn is_bootstrap_name(self, name: Seq<char>) -> bool {
        self.username == Some(name)
    }

    /// Whether the pair is exactly the configured bootstrap username and
    /// password.
    pub open spec fn is_bootstrap_pair(self, name: Seq<char>, secret: Seq<char>) -> bool {
        self.username == Some(name) && self.password == Some(secret)
    }

    /// Whether requests carry an identity asserted by a trusted upstream.
    pub open spec fn delegated(self) -> bool {
        self.basic_auth || self.oidc_auth
    }
}

impl View for EnvironmentService {
    type V = EnvironmentModel;

    open spec fn view(&self) -> EnvironmentModel {
        EnvironmentModel {
            username: text_of(self.username),
            password: text_of(self.password),
            basic_auth: self.basic_auth,
            oidc_auth: self.oidc_auth,
        }
    }
}

impl EnvironmentService {
    /// A configuration with the given bootstrap pair and flags.
    pub fn new(
        username: Option<String>,
        password: Option<String>,
        basic_auth: bool,
        oidc_auth: bool,
    ) -> (out: Self)
        ensures
            out.username == username,
            out.password == password,
            out.basic_auth == basic_auth,
            out.oidc_auth == oidc_auth,
    {
        EnvironmentService { username, password, basic_auth, oidc_auth }
    }

    /// Whether `name` is the configured bootstrap username.
    pub fn is_bootstrap_name(&self, name: &str) -> (out: bool)
        ensures
            out == self@.is_bootstrap_name(name@),
    {
        match &self.username {
            Some(n) => same_text(n.as_str(), name),
            None => false,
        }
    }

    /// Whether the pair is exactly the configured bootstrap username and
    /// password.
    pub fn is_bootstrap_pair(&self, name: &str, secret: &str) -> (out: bool)
        ensures
            out == self@.is_bootstrap_pair(name@, secret@),
    {
        match (&self.username, &self.password) {
            (Some(n), Some(p)) => same_text(n.as_str(), name) && same_text(p.as_str(), secret),
            _ => false,
        }
    }

    /// Whether requests carry an identity asserted by a trusted upstream.
    pub fn delegated(&self) -> (out: bool)
        ensures
            out == self@.delegated(),
    {
        self.basic_auth || self.oidc_auth
    }
}

} // verus!
