//! API configuration: the settings the service runs with and their
//! defaults. Loading them from the environment happens at the edge.

use vstd::prelude::*;
use crate::text::{chars_eq_str, chars_of, trim_chars, trim_seq};

verus! {

/// Configuration of the standalone SagePAS API.
#[derive(Debug)]
pub struct AppConfig {
    pub database_url: String,
    /// Optional Redis endpoint for distributed policy locks.
    pub redis_url: String,
    pub storage_account_name: String,
    pub storage_container_name: String,
    /// Private key used only by explicitly enabled local-development auth.
    pub jwt_private_key: String,
    pub port: u16,
    pub node_env: String,
    /// Azure AI Search supplies configurable pricing factors.
    pub search_endpoint: String,
    /// Optional API-key fallback when managed identity is unavailable.
    pub search_key: String,
    /// Microsoft Entra ID token-validation boundary.
    pub azure_entra_tenant_id: String,
    pub azure_entra_audience: String,
    pub azure_entra_issuer: String,
    /// Explicit development-only opt-in for locally issued HS256 tokens;
    /// off unless set, leaving production authentication Entra-only.
    pub dev_local_auth_enabled: bool,
}

pub fn default_port() -> (r: u16)
    ensures
        r == 3000,
{
    3000
}

pub fn default_env() -> (r: String)
    ensures
        r@ == "production"@,
{
    String::from_str("production")
}

pub fn default_search_endpoint() -> (r: String)
    ensures
        r@ == "https://sageinsure-search.search.windows.net"@,
{
    String::from_str("https://sageinsure-search.search.windows.net")
}

pub fn default_storage_container() -> (r: String)
    ensures
        r@ == "policy-documents"@,
{
    String::from_str("policy-documents")
}

impl AppConfig {
    /// The service runs in production when `node_env` is exactly
    /// `production`.
    pub fn is_production(&self) -> (r: bool)
        ensures
            r == (self.node_env@ == "production"@),
    {
        chars_eq_str(&chars_of(self.node_env.as_str()), "production")
    }

    /// Entra validation is on when both the tenant and the audience are
    /// set to something other than whitespace.
    pub fn entra_configured(&self) -> (r: bool)
        ensures
            r == (trim_seq(self.azure_entra_tenant_id@).len() > 0 && trim_seq(
                self.azure_entra_audience@,
            ).len() > 0),
    {
        trim_chars(&chars_of(self.azure_entra_tenant_id.as_str())).len() > 0 && trim_chars(
            &chars_of(self.azure_entra_audience.as_str()),
        ).len() > 0
    }
}

} // verus!
