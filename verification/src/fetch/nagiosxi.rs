//! Records of the monitoring system.

use crate::config::NagiosxiConfig;
use crate::netbox::api::{Method, Request, RequestView};
use vstd::prelude::*;

verus! {

/// The monitoring state of a host.
#[derive(Debug, PartialEq, Eq)]
pub struct HostStatus {
    pub host_object_id: String,
    pub host_name: String,
    pub display_name: String,
    pub address: String,
    pub status_update_time: String,
    pub output: String,
    pub current_state: String,
    pub last_check: String,
    pub next_check: String,
    pub last_time_up: String,
    pub last_time_down: String,
    pub last_time_unreachable: String,
    pub state_type: String,
}

/// The monitoring state of a service on a host.
#[derive(Debug, PartialEq, Eq)]
pub struct ServiceStatus {
    pub host_name: String,
    pub service_description: String,
    pub display_name: String,
    pub host_address: String,
    pub host_alias: String,
    pub output: String,
    pub current_state: String,
    pub last_check: String,
    pub next_check: String,
    pub last_time_ok: String,
    pub last_time_warning: String,
    pub last_time_unknown: String,
    pub last_time_critical: String,
}

/// The monitoring system's listing of hosts.
#[derive(Debug, PartialEq, Eq)]
pub struct HostsList {
    pub recordcount: usize,
    pub hoststatus: Vec<HostStatus>,
}

/// The monitoring system's listing of services.
#[derive(Debug, PartialEq, Eq)]
pub struct ServiceList {
    pub recordcount: usize,
    pub servicestatus: Vec<ServiceStatus>,
}

/// The monitoring system as requests see it.
#[derive(Debug, PartialEq, Eq)]
pub struct NagiosxiClient {
    pub api_key: String,
    pub url: String,
}

impl NagiosxiClient {
    /// The monitoring system at the configured address.
    pub fn new(config: &NagiosxiConfig) -> (client: Self)
        ensures
            client.api_key == config.api_key,
            client.url == config.url,
    {
        NagiosxiClient { api_key: config.api_key.clone(), url: config.url.clone() }
    }

    fn objects(&self, path: &str) -> (request: Request)
        ensures
            request@ == (RequestView {
                method: Method::Get,
                url: self.url@ + path@ + self.api_key@,
                query: None,
                authorization: None,
            }),
    {
        let mut url = self.url.clone();
        url.append(path);
        url.append(self.api_key.as_str());
        Request { method: Method::Get, url, query: None, authorization: None }
    }

    /// The request that lists the state of every host.
    pub fn get_hosts(&self) -> (request: Request)
        ensures
            request@ == (RequestView {
                method: Method::Get,
                url: self.url@ + "/objects/hoststatus?apikey="@ + self.api_key@,
                query: None,
                authorization: None,
            }),
    {
        self.objects("/objects/hoststatus?apikey=")
    }

    /// The request that lists the state of every service.
    pub fn get_services(&self) -> (request: Request)
        ensures
            request@ == (RequestView {
                method: Method::Get,
                url: self.url@ + "/objects/servicestatus?apikey="@ + self.api_key@,
                query: None,
                authorization: None,
            }),
    {
        self.objects("/objects/servicestatus?apikey=")
    }
}

} // verus!
