//! The settings record the service is started with. Loading it from a
//! configuration file is the caller's business; the library only consumes
//! the plain values.

use vstd::prelude::*;

verus! {

/// Bind address and TLS material paths for an endpoint.
#[derive(Clone)]
pub struct ServerConfig {
    pub host: String,
    pub port: u16,
    pub cert_path: String,
    pub key_path: String,
}

/// Expiry window applied when validating tokens.
#[derive(Clone)]
pub struct TokenConfig {
    pub max_age_secs: u64,
}

/// Pub/sub broker location for revocation fan-out.
#[derive(Clone)]
pub struct RedisConfig {
    pub url: String,
}

/// One identity provider's introspection endpoint and client credentials.
#[derive(Clone)]
pub struct IdpConfig {
    pub introspection_url: String,
    pub client_id: String,
    pub client_secret: String,
}

/// The provider registry: three named providers and the key of the one
/// used when a request names none.
#[derive(Clone)]
pub struct IdpProviders {
    pub default: String,
    pub azure: IdpConfig,
    pub okta: IdpConfig,
    pub auth0: IdpConfig,
}

/// Policy decision point location (reserved; not consulted by the core).
#[derive(Clone)]
pub struct PdpConfig {
    pub endpoint: String,
}

/// Everything the service reads from configuration.
#[derive(Clone)]
pub struct Settings {
    pub server: ServerConfig,
    pub token: TokenConfig,
    pub redis: RedisConfig,
    pub idp: IdpProviders,
    pub pdp: PdpConfig,
}

/// The mathematical content of a provider descriptor.
pub ghost struct IdpConfigView {
    pub introspection_url: Seq<char>,
    pub client_id: Seq<char>,
    pub client_secret: Seq<char>,
}

impl View for IdpConfig {
    type V = IdpConfigView;

    open spec fn view(&self) -> IdpConfigView {
        IdpConfigView {
            introspection_url: self.introspection_url@,
            client_id: self.client_id@,
            client_secret: self.client_secret@,
        }
    }
}

/// The mathematical content of the provider registry.
pub ghost struct IdpProvidersView {
    pub default: Seq<char>,
    pub azure: IdpConfigView,
    pub okta: IdpConfigView,
    pub auth0: IdpConfigView,
}

impl View for IdpProviders {
    type V = IdpProvidersView;

    open spec fn view(&self) -> IdpProvidersView {
        IdpProvidersView {
            default: self.default@,
            azure: self.azure@,
            okta: self.okta@,
            auth0: self.auth0@,
        }
    }
}

} // verus!
