use netbox_ingester::cache::{
    LocalCache, Preloaded, RegistryReply, ResolveAction, ResolveError, ResolveState,
};
use netbox_ingester::compose::{Component, ComponentReply, ComponentRequest, DeviceTypeReply};
use netbox_ingester::consolidate::{consolidate, consolidate_as};
use netbox_ingester::fetch::azure::IntuneDevice;
use netbox_ingester::fetch::fortigate::FortiGateDevice;
use netbox_ingester::netbox::models::{
    Device, Entity, EntityKind, Manufacturer, NetBoxModel, PostDevice, Site, Status,
    StatusOptions, Tag,
};
use netbox_ingester::push::{summarize, PushError, PushReply, PushRequest, PushStage, RunSummary};

fn intune(name: &str, serial: &str, synced: &str) -> IntuneDevice {
    IntuneDevice {
        name: name.to_string(),
        enrolled: "2024-01-01T00:00:00Z".to_string(),
        synced: synced.to_string(),
        os: "Windows".to_string(),
        os_version: "10.0.19045".to_string(),
        management_agend: "mdm".to_string(),
        user: "ada@example.org".to_string(),
        model: "Latitude 5520".to_string(),
        manufacturer: "Dell".to_string(),
        serial: serial.to_string(),
        wifi_mac: "aabbcc001122".to_string(),
        total_storage: 512,
        free_storage: 128,
    }
}

fn fortigate(hostname: Option<&str>, mac: &str, online: bool) -> FortiGateDevice {
    FortiGateDevice {
        mac: mac.to_string(),
        is_online: online,
        fortiswitch_id: None,
        fortiswitch_port_id: None,
        ipv4_address: None,
        hardware_vendor: None,
        os_name: None,
        os_version: None,
        hostname: hostname.map(|h| h.to_string()),
        last_seen: 0,
        dhcp_lease_status: None,
        dhcp_lease_expire: None,
        dhcp_lease_lease_reserved: None,
        device_type: None,
        online_interfaces: None,
        other_macs: None,
    }
}

fn by_name(devices: Vec<Device>) -> Vec<Device> {
    let mut devices = devices;
    devices.sort_by(|a, b| a.name.to_lowercase().cmp(&b.name.to_lowercase()));
    devices
}

fn slugs(device: &Device) -> Vec<String> {
    let mut slugs: Vec<String> =
        device.tags.as_ref().map(|tags| tags.iter().map(|t| t.slug.clone()).collect()).unwrap_or_default();
    slugs.sort();
    slugs
}

fn active() -> Option<Status> {
    Some(Status::from_value(StatusOptions::Active))
}

#[test]
fn records_of_one_device_meet_in_one_draft() {
    let devices = consolidate_as(
        vec![(intune("HOST-1", "SN123", ""), None)],
        vec![fortigate(Some("host-1"), "AA:BB:CC:00:11:22", true)],
    );
    assert_eq!(devices.len(), 1);
    let device = &devices[0];
    assert_eq!(device.name, "HOST-1");
    assert_eq!(device.get_cache_key(), "host-1");
    assert_eq!(device.status, active());
    assert_eq!(device.serial, Some("SN123".to_string()));
    assert_eq!(slugs(device), vec!["aad".to_string(), "fortigate".to_string()]);
}

#[test]
fn every_identity_gives_one_draft() {
    let devices = by_name(consolidate_as(
        vec![
            (intune("alpha", "A1", ""), None),
            (intune("Bravo", "B1", ""), None),
            (intune("ALPHA", "A2", ""), Some(Status::from_value(StatusOptions::Offline))),
        ],
        vec![
            fortigate(Some("bravo"), "m1", false),
            fortigate(None, "AA:BB", true),
            fortigate(Some("charlie"), "m2", false),
            fortigate(None, "aa:bb", false),
        ],
    ));
    let names: Vec<&str> = devices.iter().map(|d| d.name.as_str()).collect();
    assert_eq!(names, vec!["AA:BB", "alpha", "Bravo", "charlie"]);
    assert_eq!(devices[1].serial, Some("A1".to_string()));
    assert_eq!(devices[1].status, active());
    assert_eq!(slugs(&devices[1]), vec!["aad".to_string()]);
    assert_eq!(slugs(&devices[2]), vec!["aad".to_string(), "fortigate".to_string()]);
    assert_eq!(devices[0].status, active());
    assert_eq!(devices[3].status, Some(Status::from_value(StatusOptions::Offline)));
    assert_eq!(devices[3].serial, None);
}

#[test]
fn identity_folds_ascii_case_only() {
    let devices = by_name(consolidate_as(
        vec![(intune("B\u{dc}RO-PC", "A1", ""), None)],
        vec![fortigate(Some("b\u{fc}ro-pc"), "m1", false), fortigate(Some("B\u{dc}RO-pc"), "m2", true)],
    ));
    assert_eq!(devices.len(), 2);
    let merged = devices.iter().find(|d| d.name == "B\u{dc}RO-PC").unwrap();
    assert_eq!(merged.get_cache_key(), "b\u{dc}ro-pc");
    assert_eq!(slugs(merged), vec!["aad".to_string(), "fortigate".to_string()]);
    assert_eq!(merged.status, active());
}

#[test]
fn no_records_give_no_drafts() {
    assert_eq!(consolidate_as(Vec::new(), Vec::new()), Vec::new());
    assert_eq!(consolidate(Vec::new(), Vec::new()), Vec::new());
}

#[test]
fn consolidate_judges_sync_times_by_the_clock() {
    let now = chrono::Utc::now().to_rfc3339();
    let devices = consolidate(
        vec![intune("host-1", "SN1", &now), intune("HOST-1", "SN2", &now)],
        vec![fortigate(Some("host-2"), "m", false)],
    );
    let devices = by_name(devices);
    assert_eq!(devices.len(), 2);
    assert_eq!(devices[0].serial, Some("SN1".to_string()));
    assert_eq!(devices[0].status, active());
    assert_eq!(devices[1].name, "host-2");
}

#[test]
fn preload_files_every_listing_under_its_keys() {
    let mut dell = Manufacturer::new("Dell".to_string());
    dell.set_id(1);
    let mut old = Tag::new("AAD".to_string());
    old.set_id(2);
    let mut new = Tag::new("AAD".to_string());
    new.set_id(3);
    let cache = LocalCache::preload(Preloaded {
        device_types: None,
        manufacturers: Some(vec![dell.clone()]),
        roles: Some(Vec::new()),
        sites: None,
        tags: Some(vec![old, new.clone()]),
        platforms: None,
        contacts: None,
        virtual_machines: None,
        devices: None,
    });
    assert!(cache.has_fallback_lookup());
    assert_eq!(cache.get(EntityKind::Manufacturer, "dell"), Some(Entity::Manufacturer(dell)));
    assert_eq!(cache.get(EntityKind::Tag, "aad"), Some(Entity::Tag(new)));
    assert_eq!(cache.get(EntityKind::Site, "tos"), None);
    assert_eq!(cache.get(EntityKind::DeviceRole, "desktop"), None);
    let mut draft = Manufacturer::new("DELL".to_string());
    let (state, action) = cache.ensure_manufacturer(&mut draft);
    assert_eq!(state, ResolveState::Resolved(1));
    assert_eq!(action, None);
}

#[test]
fn load_files_later_entries_over_earlier_ones() {
    let mut cache = LocalCache::new();
    let mut a = Site::new("TOS".to_string());
    a.set_id(1);
    let mut b = Site::new("TOS".to_string());
    b.set_id(2);
    cache.load(vec![a, b.clone()]);
    assert_eq!(cache.get(EntityKind::Site, "tos"), Some(Entity::Site(b)));
}

#[test]
fn summary_counts_successes_and_keeps_failures() {
    let summary = summarize(vec![
        ("host-1".to_string(), Ok(7)),
        ("host-2".to_string(), Err(PushError::SubmitFailed("400".to_string()))),
        ("host-3".to_string(), Ok(9)),
        ("host-4".to_string(), Err(PushError::Component(ResolveError::MalformedResponse))),
    ]);
    assert_eq!(
        summary,
        RunSummary {
            pushed: 2,
            failures: vec![
                ("host-2".to_string(), "Submitting device: 400".to_string()),
                (
                    "host-4".to_string(),
                    "While ensuring sub-objects: Created item has no ID".to_string()
                ),
            ],
        }
    );
    assert_eq!(summarize(Vec::new()), RunSummary { pushed: 0, failures: Vec::new() });
}

/// A registry for the end-to-end run: one entity per endpoint and slug.
struct Registry {
    next_id: u32,
    held: Vec<(String, String, u32)>,
    log: Vec<String>,
    devices: Vec<PostDevice>,
}

impl Registry {
    fn serve<T: NetBoxModel + Clone>(&mut self, draft: &T, action: ResolveAction) -> RegistryReply<T> {
        let endpoint = T::get_endpoint().to_string();
        let slug = draft.get_slug();
        let known = self.held.iter().find(|(e, s, _)| *e == endpoint && *s == slug).map(|h| h.2);
        match action {
            ResolveAction::Create => {
                self.log.push(format!("POST {}/ {}", endpoint, slug));
                match known {
                    Some(_) => RegistryReply::CreateRejected("exists".to_string()),
                    None => {
                        let id = self.next_id;
                        self.next_id += 1;
                        self.held.push((endpoint, slug, id));
                        let mut made = draft.clone();
                        made.set_id(id);
                        RegistryReply::Created(made)
                    }
                }
            }
            ResolveAction::Lookup => {
                self.log.push(format!("GET {}/?slug={}", endpoint, slug));
                RegistryReply::Matches(match known {
                    Some(id) => {
                        let mut found = draft.clone();
                        found.set_id(id);
                        vec![found]
                    }
                    None => Vec::new(),
                })
            }
        }
    }

    fn answer(&mut self, device: &Device, request: PushRequest) -> PushReply {
        match request {
            PushRequest::Component(ComponentRequest { component, action }) => {
                PushReply::Component(match component {
                    Component::Manufacturer => ComponentReply::DeviceType(DeviceTypeReply::Manufacturer(
                        self.serve(&device.device_type.as_ref().unwrap().manufacturer, action),
                    )),
                    Component::DeviceType => ComponentReply::DeviceType(DeviceTypeReply::DeviceType(
                        self.serve(device.device_type.as_ref().unwrap(), action),
                    )),
                    Component::Role => ComponentReply::Role(self.serve(device.role.as_ref().unwrap(), action)),
                    Component::Site => ComponentReply::Site(self.serve(device.site.as_ref().unwrap(), action)),
                    Component::Platform => {
                        ComponentReply::Platform(self.serve(device.platform.as_ref().unwrap(), action))
                    }
                    Component::Tag(place) => {
                        ComponentReply::Tag(place, self.serve(&device.tags.as_ref().unwrap()[place], action))
                    }
                })
            }
            PushRequest::Create(post) => {
                self.log.push(format!("POST dcim/devices/ {}", post.name));
                let id = self.next_id;
                self.next_id += 1;
                let mut made = device.clone();
                made.id = Some(id);
                self.devices.push(post);
                PushReply::Submitted(made)
            }
            PushRequest::Update(id, post) => {
                self.log.push(format!("PATCH dcim/devices/{}/ {}", id, post.name));
                let mut made = device.clone();
                made.id = Some(id);
                self.devices.push(post);
                PushReply::Submitted(made)
            }
        }
    }
}

#[test]
fn end_to_end_two_sources_one_device() {
    let now = chrono::Utc::now().to_rfc3339();
    let mut devices = consolidate(
        vec![intune("HOST-1", "SN123", &now)],
        vec![fortigate(Some("host-1"), "AA:BB:CC:00:11:22", true)],
    );
    assert_eq!(devices.len(), 1);
    let mut device = devices.remove(0);
    assert_eq!(device.get_cache_key(), "host-1");
    assert_eq!(device.status, active());
    assert_eq!(slugs(&device), vec!["aad".to_string(), "fortigate".to_string()]);

    let mut cache = LocalCache::preload(Preloaded {
        device_types: Some(Vec::new()),
        manufacturers: Some(Vec::new()),
        roles: Some(Vec::new()),
        sites: Some(Vec::new()),
        tags: Some(Vec::new()),
        platforms: Some(Vec::new()),
        contacts: None,
        virtual_machines: None,
        devices: Some(Vec::new()),
    });
    let mut registry = Registry { next_id: 1, held: Vec::new(), log: Vec::new(), devices: Vec::new() };
    let (mut state, mut queue) = device.push_to_netbox(&cache);
    while !queue.is_empty() {
        let request = queue.remove(0);
        let reply = registry.answer(&device, request);
        let step = device.push_reply(&mut cache, state, reply);
        state = step.0;
        queue.extend(step.1);
    }
    let id = match &state.stage {
        PushStage::Done(id) => *id,
        other => panic!("{:?}", other),
    };
    assert_eq!(device.id, Some(id));
    let submissions: Vec<&String> = registry
        .log
        .iter()
        .filter(|line| line.contains("dcim/devices/"))
        .collect();
    assert_eq!(submissions, vec!["POST dcim/devices/ HOST-1"]);
    let device_type = device.device_type.as_ref().unwrap();
    assert!(device_type.id.is_some());
    assert!(device_type.manufacturer.id.is_some());
    assert_eq!(device_type.manufacturer.name, "Dell");
    let post = &registry.devices[0];
    assert_eq!(post.status, StatusOptions::Active);
    assert_eq!(post.device_type, device_type.id.unwrap());
    assert_eq!(post.tags.len(), 2);
    assert_eq!(post.serial, Some("SN123".to_string()));
    let summary = summarize(vec![(device.get_cache_key(), state.result().unwrap())]);
    assert_eq!(summary, RunSummary { pushed: 1, failures: Vec::new() });
    assert!(matches!(cache.get(EntityKind::Device, "host-1"), Some(Entity::Device(_))));
}
