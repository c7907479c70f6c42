use vstd::prelude::*;

verus! {

/// Where the server's current token comes from.
///
/// The one query answers "which token is valid right now, if any". An
/// implementation may refresh what it holds between calls, so nothing is
/// promised about two calls returning the same answer.
pub trait UserAuthStore: Send + Sync {
    fn get_authtoken(&self) -> Option<String>;
}

/// The default store: it never holds a token, so every request is refused.
#[derive(Debug)]
pub struct DemoAuthDetails {}

impl DemoAuthDetails {
    pub fn new() -> (r: Self)
        ensures
            r == (DemoAuthDetails {  }),
    {
        DemoAuthDetails {  }
    }
}

impl UserAuthStore for DemoAuthDetails {
    fn get_authtoken(&self) -> (r: Option<String>)
        ensures
            r is None,
    {
        None
    }
}

/// A store that holds one fixed token for the whole run.
#[derive(Debug)]
pub struct StaticAuthToken {
    token: String,
}

impl StaticAuthToken {
    pub fn new(token: String) -> (r: Self)
        ensures
            r.token()@ == token@,
    {
        StaticAuthToken { token }
    }

    pub closed spec fn token(&self) -> String {
        self.token
    }
}

impl UserAuthStore for StaticAuthToken {
    fn get_authtoken(&self) -> (r: Option<String>)
        ensures
            r is Some,
            r->0@ == self.token()@,
    {
        Some(self.token.clone())
    }
}

} // verus!
