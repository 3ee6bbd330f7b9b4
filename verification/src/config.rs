//! The settings of a run, as they are handed to the library.

use vstd::prelude::*;

verus! {

/// The settings of a run: one part for the registry and one for each source.
#[derive(Debug, PartialEq, Eq)]
pub struct Settings {
    pub netbox: NetBoxConfig,
    pub azure: AzureConfig,
    pub fortigate: FortiGateConfig,
    pub nagiosxi: NagiosxiConfig,
}

/// Where the registry is, the token that it accepts, and how many requests
/// to it may be outstanding at once.
#[derive(Debug, PartialEq, Eq)]
pub struct NetBoxConfig {
    pub api_key: String,
    pub api_url: String,
    pub api_limit: usize,
}

/// Where the directory is and the credentials of the client that reads it.
#[derive(Debug, PartialEq, Eq)]
pub struct AzureConfig {
    pub client_id: String,
    pub client_secret: String,
    pub tenant_id: String,
    pub url: String,
}

/// Where the fabric controller is and the token that it accepts.
#[derive(Debug, PartialEq, Eq)]
pub struct FortiGateConfig {
    pub url: String,
    pub token: String,
}

/// Where the monitoring system is and the key that it accepts.
#[derive(Debug, PartialEq, Eq)]
pub struct NagiosxiConfig {
    pub api_key: String,
    pub url: String,
}

} // verus!
