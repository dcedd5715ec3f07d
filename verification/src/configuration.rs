use vstd::prelude::*;

verus! {

/// Authentication settings: whether authentication is enforced, the root credential
/// minted once at bootstrap, and the secret used both to sign the root
/// credential and to verify incoming credentials.
#[derive(Debug, Clone)]
pub struct Authentication {
    pub enabled: bool,
    pub root_token: String,
    pub secret_key: String,
}

/// Read-only service configuration, created once at process start.
#[derive(Debug, Clone)]
pub struct Configuration {
    pub authentication: Authentication,
}

impl Default for Authentication {
    fn default() -> (a: Self)
        ensures
            !a.enabled,
            a.root_token@ == Seq::<char>::empty(),
            a.secret_key@ == Seq::<char>::empty(),
    {
        Authentication { enabled: false, root_token: String::new(), secret_key: String::new() }
    }
}

impl Default for Configuration {
    fn default() -> (c: Self)
        ensures
            !c.authentication.enabled,
            c.authentication.root_token@ == Seq::<char>::empty(),
            c.authentication.secret_key@ == Seq::<char>::empty(),
    {
        Configuration { authentication: Authentication::default() }
    }
}

impl Configuration {
    /// A configuration with the authentication gate switched on, holding
    /// the given root credential and secret.
    pub fn new_with_enabled(root_token: String, secret_key: String) -> (c: Self)
        ensures
            c.authentication.enabled,
            c.authentication.root_token == root_token,
            c.authentication.secret_key == secret_key,
    {
        Configuration {
            authentication: Authentication { enabled: true, root_token, secret_key },
        }
    }
}

/// The structured payload of a credential: subject, issuer, issued-at and
/// expiry, the two timestamps in seconds since the epoch.
#[derive(Debug, Clone)]
pub struct Claims {
    pub sub: String,
    pub iss: String,
    pub iat: i64,
    pub exp: i64,
}

} // verus!
