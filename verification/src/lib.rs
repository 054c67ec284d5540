//! Typed bindings for the Plaid REST API, written so that the network is the
//! caller's business: the library builds requests and interprets replies.
//!
//! A call has two halves. An endpoint of [`PlaidClient`] (see [`traits`])
//! writes the request and hands out a [`traits::PendingCall`]; once the caller
//! has sent it, [`traits::PendingCall::complete`] reads what came back into an
//! [`Either`]: what Plaid answered when it accepted the request, or what it
//! answered when it rejected it. Only a fault of the transport, or a body that
//! cannot be written or read, is an error.
//!
//! The records of each endpoint are in [`model`], their JSON in [`json`]. The
//! phone number and the date of birth in [`model::link`] check their form when
//! they are made. [`server`] holds the decisions of a small backend that uses
//! these calls.

use vstd::prelude::*;
use vstd::string::StringExecFns;
use crate::error::PlaidError;
use crate::text::str_eq;

pub mod api;
pub mod error;
pub mod json;
pub mod model;
pub mod pattern;
pub mod server;
pub mod text;
pub mod time;
pub mod traits;

verus! {

/// What a call into this library comes to.
pub type PlaidResult<T> = Result<T, PlaidError>;

/// The Plaid environment a client talks to.
#[derive(Debug, Copy, Clone, PartialEq, Eq, Structural)]
pub enum PlaidEnv {
    Sandbox,
    Production,
}

impl PlaidEnv {
    /// The host of each environment, scheme included, without a trailing slash.
    pub open spec fn base_url(self) -> Seq<char> {
        match self {
            PlaidEnv::Sandbox => "https://sandbox.plaid.com"@,
            PlaidEnv::Production => "https://production.plaid.com"@,
        }
    }

    /// The environment that a selector names: `sandbox` is the sandbox, and
    /// every other text, `production` among them, is production.
    pub open spec fn selected(selector: Seq<char>) -> PlaidEnv {
        if selector == "sandbox"@ {
            PlaidEnv::Sandbox
        } else {
            PlaidEnv::Production
        }
    }

    pub fn get_base_url(&self) -> (url: &'static str)
        ensures
            url@ == self.base_url(),
    {
        match self {
            PlaidEnv::Sandbox => "https://sandbox.plaid.com",
            PlaidEnv::Production => "https://production.plaid.com",
        }
    }

    /// The selector that names each environment.
    pub open spec fn selector(self) -> Seq<char> {
        match self {
            PlaidEnv::Sandbox => "sandbox"@,
            PlaidEnv::Production => "production"@,
        }
    }

    /// The selector that names this environment, as a configuration spells it.
    pub fn to_string(&self) -> (selector: String)
        ensures
            selector@ == self.selector(),
    {
        match self {
            PlaidEnv::Sandbox => String::from_str("sandbox"),
            PlaidEnv::Production => String::from_str("production"),
        }
    }

    /// A selector names the environment it was taken from.
    pub proof fn lemma_selector_selects(self)
        ensures
            PlaidEnv::selected(self.selector()) == self,
    {
        reveal_strlit("sandbox");
        reveal_strlit("production");
        assert("sandbox"@.len() != "production"@.len());
    }
}

impl From<&str> for PlaidEnv {
    fn from(env: &str) -> (selected: PlaidEnv) {
        if str_eq(env, "sandbox") {
            PlaidEnv::Sandbox
        } else {
            PlaidEnv::Production
        }
    }
}

impl vstd::std_specs::convert::FromSpecImpl<&str> for PlaidEnv {
    open spec fn obeys_from_spec() -> bool {
        true
    }

    open spec fn from_spec(env: &str) -> PlaidEnv {
        PlaidEnv::selected(env@)
    }
}

/// How a call to Plaid ended once a reply was read: `Left` holds what Plaid
/// answered when it accepted the request, `Right` what it answered when it
/// rejected it. A `Right` is a reply like any other, not a failure of the call.
#[derive(Debug)]
pub enum Either<L, R> {
    Left(L),
    Right(R),
}

/// What a client is set up with once and keeps for all its calls.
pub struct PlaidClient {
    pub plaid_client_id: String,
    pub plaid_secret: String,
    pub plaid_env: PlaidEnv,
    pub plaid_redirect_uri: String,
    pub plaid_android_package_name: String,
}

impl PlaidClient {
    /// Keeps the four texts as given and resolves the environment selector.
    pub fn new(
        plaid_client_id: &str,
        plaid_secret: &str,
        plaid_env: &str,
        plaid_redirect_uri: &str,
        plaid_android_package_name: &str,
    ) -> (client: PlaidClient)
        ensures
            client.plaid_client_id@ == plaid_client_id@,
            client.plaid_secret@ == plaid_secret@,
            client.plaid_env == PlaidEnv::selected(plaid_env@),
            client.plaid_redirect_uri@ == plaid_redirect_uri@,
            client.plaid_android_package_name@ == plaid_android_package_name@,
    {
        PlaidClient {
            plaid_client_id: String::from_str(plaid_client_id),
            plaid_secret: String::from_str(plaid_secret),
            plaid_env: PlaidEnv::from(plaid_env),
            plaid_redirect_uri: String::from_str(plaid_redirect_uri),
            plaid_android_package_name: String::from_str(plaid_android_package_name),
        }
    }
}

} // verus!
