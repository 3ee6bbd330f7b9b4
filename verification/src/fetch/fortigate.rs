//! Records of the network-fabric controller.

use crate::config::FortiGateConfig;
use crate::netbox::api::{Method, Request, RequestView};
use vstd::prelude::*;

verus! {

/// A device as the fabric controller sees it on the network.
#[derive(Debug, PartialEq, Eq)]
pub struct FortiGateDevice {
    pub mac: String,
    pub is_online: bool,
    pub fortiswitch_id: Option<String>,
    pub fortiswitch_port_id: Option<usize>,
    pub ipv4_address: Option<String>,
    pub hardware_vendor: Option<String>,
    pub os_name: Option<String>,
    pub os_version: Option<String>,
    pub hostname: Option<String>,
    pub last_seen: usize,
    pub dhcp_lease_status: Option<String>,
    pub dhcp_lease_expire: Option<usize>,
    pub dhcp_lease_lease_reserved: Option<bool>,
    pub device_type: Option<String>,
    pub online_interfaces: Option<Vec<String>>,
    pub other_macs: Option<Vec<MacAddress>>,
}

/// A further hardware address of a device.
#[derive(Debug, PartialEq, Eq)]
pub struct MacAddress {
    pub ipv4_address: Option<String>,
    pub mac: String,
    pub last_seen: usize,
    pub is_online: bool,
    pub fortiswitch_id: String,
    pub fortiswitch_port_id: usize,
    pub dhcp_lease_status: Option<String>,
    pub dhcp_lease_expire: Option<usize>,
    pub dhcp_lease_lease_reserved: Option<bool>,
}

/// A virtual network as the controller names it.
#[derive(Debug, PartialEq, Eq)]
pub struct Vlan {
    pub name: String,
    pub prefix: String,
}

/// An address object of the controller.
#[derive(Debug, PartialEq, Eq)]
pub struct Ip {
    pub name: String,
}

/// The controller's answer to a device query.
#[derive(Debug, PartialEq, Eq)]
pub struct FortiGateResponse {
    pub results: Vec<FortiGateDevice>,
}

/// The fabric controller as requests see it.
#[derive(Debug, PartialEq, Eq)]
pub struct FortiGateClient {
    pub token: String,
    pub url: String,
}

/// The status with which the controller answers a query that it accepts.
pub const STATUS_OK: u16 = 200;

impl FortiGateClient {
    /// The controller at the configured address.
    pub fn new(config: &FortiGateConfig) -> (client: Self)
        ensures
            client.url == config.url,
            client.token == config.token,
    {
        FortiGateClient { url: config.url.clone(), token: config.token.clone() }
    }

    /// The request that queries the devices that the controller sees.
    pub fn fetch_devices(&self) -> (request: Request)
        ensures
            request@ == (RequestView {
                method: Method::Get,
                url: self.url@ + "/monitor/user/device/query"@,
                query: None,
                authorization: Some("Bearer "@ + self.token@),
            }),
    {
        let mut url = self.url.clone();
        url.append("/monitor/user/device/query");
        let mut bearer = String::from_str("Bearer ");
        bearer.append(self.token.as_str());
        Request { method: Method::Get, url, query: None, authorization: Some(bearer) }
    }

    /// The devices of an answer: those that it lists where its status is 200,
    /// none otherwise.
    pub fn read_devices(status: u16, answer: FortiGateResponse) -> (devices: Vec<FortiGateDevice>)
        ensures
            devices@ == if status == STATUS_OK {
                answer.results@
            } else {
                Seq::empty()
            },
    {
        if status == STATUS_OK {
            answer.results
        } else {
            Vec::new()
        }
    }
}

} // verus!
