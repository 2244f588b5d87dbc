use vstd::prelude::*;

use crate::api::API;
use crate::error::ConfigError;

verus! {

/// An account identifier and the bearer token that goes with it.
pub struct Auth {
    pub account_id: String,
    pub token: String,
}

impl Clone for Auth {
    fn clone(&self) -> (r: Self)
        ensures
            r.account_id@ == self.account_id@,
            r.token@ == self.token@,
    {
        Auth { account_id: self.account_id.clone(), token: self.token.clone() }
    }
}

impl From<(String, String)> for Auth {
    fn from(val: (String, String)) -> (r: Auth)
        ensures
            r.account_id@ == val.0@,
            r.token@ == val.1@,
    {
        Auth { account_id: val.0, token: val.1 }
    }
}

impl vstd::std_specs::convert::FromSpecImpl<(String, String)> for Auth {
    open spec fn obeys_from_spec() -> bool {
        true
    }

    open spec fn from_spec(v: (String, String)) -> Auth {
        Auth { account_id: v.0, token: v.1 }
    }
}

/// The stored configuration: the credentials.
pub struct Config {
    pub auth: Auth,
}

impl Config {
    pub fn new(auth: Auth) -> (r: Self)
        ensures
            r.auth == auth,
    {
        Config { auth }
    }

    /// An API handle for these credentials.
    pub fn into_api(self) -> (r: Result<API, ConfigError>)
        ensures
            API::new_result(self.auth.account_id@, self.auth.token@, r),
    {
        API::new(self.auth)
    }

    /// An API handle for a copy of these credentials.
    pub fn as_api(&self) -> (r: Result<API, ConfigError>)
        ensures
            API::new_result(self.auth.account_id@, self.auth.token@, r),
    {
        API::new(self.auth.clone())
    }
}

} // verus!
