//! The client configuration that one call is made with: where the service is,
//! who is calling, and on behalf of which tenant.

use vstd::prelude::*;
use vstd::string::*;
use crate::text::optional_text;

verus! {

/// The user agent that every request carries.
pub const USER_AGENT: &'static str = "qiskit-ibm-runtime-rust-client";

/// The prefix that precedes an API key in the authorization value.
pub const API_KEY_PREFIX: &'static str = "apikey";

/// How the caller proves its identity to the service.
#[derive(Clone, Debug, PartialEq, Eq)]
pub enum Credential {
    /// An access token, sent as a bearer token.
    Bearer { token: String },
    /// An API key, sent behind its prefix.
    ApiKey { prefix: String, key: String },
}

/// What a `Credential` stands for in contracts.
pub enum CredentialModel {
    Bearer { token: Seq<char> },
    ApiKey { prefix: Seq<char>, key: Seq<char> },
}

impl View for Credential {
    type V = CredentialModel;

    open spec fn view(&self) -> CredentialModel {
        match *self {
            Credential::Bearer { token } => CredentialModel::Bearer { token: token@ },
            Credential::ApiKey { prefix, key } => CredentialModel::ApiKey {
                prefix: prefix@,
                key: key@,
            },
        }
    }
}

/// The value of the authorization header for a credential: the word `Bearer`
/// and the token, or the prefix and the key, separated by one space.
pub open spec fn authorization_value(credential: CredentialModel) -> Seq<char> {
    match credential {
        CredentialModel::Bearer { token } => "Bearer "@ + token,
        CredentialModel::ApiKey { prefix, key } => prefix + " "@ + key,
    }
}

impl Credential {
    /// The value to send in the authorization header.
    pub fn authorization(&self) -> (value: String)
        ensures
            value@ == authorization_value(self@),
    {
        match self {
            Credential::Bearer { token } => String::from_str("Bearer ").concat(token.as_str()),
            Credential::ApiKey { prefix, key } => prefix.clone().concat(" ").concat(key.as_str()),
        }
    }
}

/// Everything a call needs to know before it can address the service. A
/// configuration is built for one call and not changed afterwards.
#[derive(Clone, Debug, PartialEq, Eq)]
pub struct Configuration {
    pub base_url: String,
    pub credential: Credential,
    /// The tenant (service instance) that the call is scoped to.
    pub crn: Option<String>,
    pub user_agent: String,
}

/// What a `Configuration` stands for in contracts.
pub struct ConfigurationModel {
    pub base_url: Seq<char>,
    pub credential: CredentialModel,
    pub crn: Option<Seq<char>>,
    pub user_agent: Seq<char>,
}

impl View for Configuration {
    type V = ConfigurationModel;

    open spec fn view(&self) -> ConfigurationModel {
        ConfigurationModel {
            base_url: self.base_url@,
            credential: self.credential@,
            crn: optional_text(self.crn),
            user_agent: self.user_agent@,
        }
    }
}

/// The configuration of a call that authenticates with an API key on behalf of
/// a tenant.
pub open spec fn api_key_configuration(
    base_url: Seq<char>,
    token: Seq<char>,
    crn: Seq<char>,
) -> ConfigurationModel {
    ConfigurationModel {
        base_url,
        credential: CredentialModel::ApiKey { prefix: API_KEY_PREFIX@, key: token },
        crn: Some(crn),
        user_agent: USER_AGENT@,
    }
}

/// The configuration of a call that authenticates with a bearer token and names
/// no tenant.
pub open spec fn bearer_configuration(base_url: Seq<char>, token: Seq<char>) -> ConfigurationModel {
    ConfigurationModel {
        base_url,
        credential: CredentialModel::Bearer { token },
        crn: None,
        user_agent: USER_AGENT@,
    }
}

/// Builds the configuration for a call with an API key. Neither the address nor
/// the key is examined: a malformed one shows when the service is called.
pub fn make_config(base_url: &str, token: &str, crn: &str) -> (config: Configuration)
    ensures
        config@ == api_key_configuration(base_url@, token@, crn@),
{
    Configuration {
        base_url: String::from_str(base_url),
        credential: Credential::ApiKey {
            prefix: String::from_str(API_KEY_PREFIX),
            key: String::from_str(token),
        },
        crn: Some(String::from_str(crn)),
        user_agent: String::from_str(USER_AGENT),
    }
}

/// Builds the configuration for a call with a bearer token. Neither the address
/// nor the token is examined.
pub fn make_bearer_config(base_url: &str, token: &str) -> (config: Configuration)
    ensures
        config@ == bearer_configuration(base_url@, token@),
{
    Configuration {
        base_url: String::from_str(base_url),
        credential: Credential::Bearer { token: String::from_str(token) },
        crn: None,
        user_agent: String::from_str(USER_AGENT),
    }
}

} // verus!
