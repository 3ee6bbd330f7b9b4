//! Devices as the registry lists them: every part present and identified.

use crate::netbox::api::{
    collection_url, token_header, ApiClient, CreateTable, Method, Request, RequestView,
};
use vstd::prelude::*;

verus! {

/// The path of the collection of devices.
pub const DEVICES_ENDPOINT: &'static str = "dcim/devices";

/// A device as the registry lists it.
#[derive(Debug, PartialEq, Eq)]
pub struct Device {
    pub name: String,
    pub id: u32,
    pub device_type: DeviceType,
    pub role: DeviceRole,
    pub site: Site,
    pub status: Status,
    pub serial: String,
    pub platform: Option<Platform>,
    pub primary_ip4: Option<NetBoxIp4>,
    pub tags: Option<Vec<Tag>>,
}

/// A tag as the registry lists it.
#[derive(Debug, PartialEq, Eq)]
pub struct Tag {
    pub id: u32,
    pub name: String,
    pub slug: String,
    pub color: String,
}

/// An address as the registry lists it.
#[derive(Debug, PartialEq, Eq)]
pub struct NetBoxIp4 {
    pub id: u32,
    pub address: String,
}

/// A platform as the registry lists it.
#[derive(Debug, PartialEq, Eq)]
pub struct Platform {
    pub id: u32,
    pub name: String,
    pub slug: String,
}

/// A status as the registry lists it: the value and its label.
#[derive(Debug, PartialEq, Eq)]
pub struct Status {
    pub value: String,
    pub label: String,
}

/// A site as the registry lists it.
#[derive(Debug, PartialEq, Eq)]
pub struct Site {
    pub id: u32,
    pub name: String,
    pub slug: String,
}

/// A device role as the registry lists it.
#[derive(Debug, PartialEq, Eq)]
pub struct DeviceRole {
    pub id: u32,
    pub name: String,
    pub slug: String,
}

/// A device type as the registry lists it.
#[derive(Debug, PartialEq, Eq)]
pub struct DeviceType {
    pub manufacturer: Manufacturer,
    pub id: u32,
    pub model: String,
    pub slug: String,
}

/// A manufacturer as the registry lists it.
#[derive(Debug, PartialEq, Eq)]
pub struct Manufacturer {
    pub id: u32,
    pub name: String,
    pub slug: String,
}

/// A listing of devices.
#[derive(Debug, PartialEq, Eq)]
pub struct DeviceList {
    pub count: i32,
    pub results: Vec<Device>,
}

/// The device collection of a registry.
#[derive(Debug, PartialEq, Eq)]
pub struct DcimApi {
    pub client: ApiClient,
}

impl DcimApi {
    /// The device collection of the given registry.
    pub fn new(client: ApiClient) -> (api: Self)
        ensures
            api.client == client,
    {
        DcimApi { client }
    }

    /// The request that opens the listing of all devices.
    pub fn get_devices(&self) -> (request: Request)
        ensures
            request@ == (RequestView {
                method: Method::Get,
                url: collection_url(self.client.api_url@, DEVICES_ENDPOINT@),
                query: None,
                authorization: Some(token_header(self.client.api_key@)),
            }),
    {
        self.client.get(DEVICES_ENDPOINT, None)
    }

    /// The request that creates a device.
    pub fn create_device(&self, body: &Device) -> (request: Request)
        ensures
            request@ == (RequestView {
                method: Method::Post,
                url: collection_url(self.client.api_url@, DEVICES_ENDPOINT@).push('/'),
                query: None,
                authorization: Some(token_header(self.client.api_key@)),
            }),
    {
        self.client.post(DEVICES_ENDPOINT)
    }
}

impl CreateTable for Device {
    open spec fn table() -> Seq<char> {
        DEVICES_ENDPOINT@
    }

    fn create(&self, api: &ApiClient) -> (request: Request) {
        api.post(DEVICES_ENDPOINT)
    }
}

} // verus!
