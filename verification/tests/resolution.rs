use netbox_ingester::cache::{
    LocalCache, RegistryReply, ResolveAction, ResolveError, ResolveState,
};
use netbox_ingester::compose::{
    Component, ComponentReply, ComponentRequest, DeviceTypeReply, DeviceTypeState,
};
use netbox_ingester::netbox::models::{
    Device, DeviceRole, DeviceType, Entity, EntityKind, Manufacturer, NetBoxModel, Platform,
    PostDevice, Site, Status, StatusOptions, Tag,
};
use netbox_ingester::push::{PushError, PushReply, PushRequest, PushStage, PushState};

/// A registry that holds one entity per slug and kind, and keeps a log of
/// what it was asked.
struct Registry {
    next_id: u32,
    manufacturers: Vec<Manufacturer>,
    device_types: Vec<DeviceType>,
    roles: Vec<DeviceRole>,
    sites: Vec<Site>,
    platforms: Vec<Platform>,
    tags: Vec<Tag>,
    devices: Vec<(u32, PostDevice)>,
    log: Vec<String>,
}

impl Registry {
    fn new() -> Self {
        Registry {
            next_id: 100,
            manufacturers: Vec::new(),
            device_types: Vec::new(),
            roles: Vec::new(),
            sites: Vec::new(),
            platforms: Vec::new(),
            tags: Vec::new(),
            devices: Vec::new(),
            log: Vec::new(),
        }
    }

    fn creates(&self) -> Vec<String> {
        self.log.iter().filter(|line| line.starts_with("POST")).cloned().collect()
    }
}

fn create<T: NetBoxModel + Clone>(
    store: &mut Vec<T>,
    next_id: &mut u32,
    log: &mut Vec<String>,
    draft: &T,
) -> RegistryReply<T> {
    log.push(format!("POST {} {}", T::get_endpoint(), draft.get_slug()));
    if store.iter().any(|held| held.get_slug() == draft.get_slug()) {
        return RegistryReply::CreateRejected(format!("{} already exists", draft.get_slug()));
    }
    let mut made = draft.clone();
    made.set_id(*next_id);
    *next_id += 1;
    store.push(made.clone());
    RegistryReply::Created(made)
}

fn lookup<T: NetBoxModel + Clone>(store: &Vec<T>, log: &mut Vec<String>, draft: &T) -> RegistryReply<T> {
    log.push(format!("GET {} {}", T::get_endpoint(), draft.get_slug()));
    RegistryReply::Matches(
        store.iter().filter(|held| held.get_slug() == draft.get_slug()).cloned().collect(),
    )
}

fn serve<T: NetBoxModel + Clone>(
    store: &mut Vec<T>,
    next_id: &mut u32,
    log: &mut Vec<String>,
    draft: &T,
    action: ResolveAction,
) -> RegistryReply<T> {
    match action {
        ResolveAction::Create => create(store, next_id, log, draft),
        ResolveAction::Lookup => lookup(store, log, draft),
    }
}

fn resolve_tag(cache: &mut LocalCache, registry: &mut Registry, tag: &mut Tag) -> ResolveState {
    let (mut state, mut action) = cache.ensure_cached(tag);
    while let Some(asked) = action {
        let reply = serve(&mut registry.tags, &mut registry.next_id, &mut registry.log, tag, asked);
        let step = cache.ensure_cached_reply(tag, state, reply);
        state = step.0;
        action = step.1;
    }
    state
}

fn registry_device(id: u32, post: &PostDevice) -> Device {
    Device {
        name: post.name.clone(),
        id: Some(id),
        device_type: None,
        role: None,
        site: None,
        status: Some(Status::from_value(post.status)),
        serial: post.serial.clone(),
        platform: None,
        primary_ip4: None,
        tags: None,
    }
}

fn answer(registry: &mut Registry, device: &Device, request: PushRequest) -> PushReply {
    match request {
        PushRequest::Component(ComponentRequest { component, action }) => {
            PushReply::Component(match component {
                Component::Manufacturer => ComponentReply::DeviceType(DeviceTypeReply::Manufacturer(serve(
                    &mut registry.manufacturers,
                    &mut registry.next_id,
                    &mut registry.log,
                    &device.device_type.as_ref().unwrap().manufacturer,
                    action,
                ))),
                Component::DeviceType => ComponentReply::DeviceType(DeviceTypeReply::DeviceType(serve(
                    &mut registry.device_types,
                    &mut registry.next_id,
                    &mut registry.log,
                    device.device_type.as_ref().unwrap(),
                    action,
                ))),
                Component::Role => ComponentReply::Role(serve(
                    &mut registry.roles,
                    &mut registry.next_id,
                    &mut registry.log,
                    device.role.as_ref().unwrap(),
                    action,
                )),
                Component::Site => ComponentReply::Site(serve(
                    &mut registry.sites,
                    &mut registry.next_id,
                    &mut registry.log,
                    device.site.as_ref().unwrap(),
                    action,
                )),
                Component::Platform => ComponentReply::Platform(serve(
                    &mut registry.platforms,
                    &mut registry.next_id,
                    &mut registry.log,
                    device.platform.as_ref().unwrap(),
                    action,
                )),
                Component::Tag(place) => ComponentReply::Tag(
                    place,
                    serve(
                        &mut registry.tags,
                        &mut registry.next_id,
                        &mut registry.log,
                        &device.tags.as_ref().unwrap()[place],
                        action,
                    ),
                ),
            })
        }
        PushRequest::Create(post) => {
            registry.log.push(format!("POST dcim/devices {}", post.name));
            let id = registry.next_id;
            registry.next_id += 1;
            let made = registry_device(id, &post);
            registry.devices.push((id, post));
            PushReply::Submitted(made)
        }
        PushRequest::Update(id, post) => {
            registry.log.push(format!("PATCH dcim/devices/{} {}", id, post.name));
            let made = registry_device(id, &post);
            registry.devices.push((id, post));
            PushReply::Submitted(made)
        }
    }
}

fn push(cache: &mut LocalCache, registry: &mut Registry, device: &mut Device) -> PushState {
    let (mut state, requests) = device.push_to_netbox(cache);
    let mut queue: Vec<PushRequest> = requests;
    while !queue.is_empty() {
        let request = queue.remove(0);
        let reply = answer(registry, device, request);
        let step = device.push_reply(cache, state, reply);
        state = step.0;
        if let Some(next) = step.1 {
            queue.push(next);
        }
    }
    state
}

fn draft_device(name: &str) -> Device {
    Device {
        name: name.to_string(),
        id: None,
        device_type: Some(DeviceType::new(
            Manufacturer::new("Dell".to_string()),
            "Latitude 5520".to_string(),
        )),
        role: Some(DeviceRole::new("Desktop".to_string())),
        site: Some(Site::new("TOS".to_string())),
        status: Some(Status::from_value(StatusOptions::Active)),
        serial: Some("SN123".to_string()),
        platform: Some(Platform::new("Windows".to_string())),
        primary_ip4: None,
        tags: Some(vec![Tag::new("AAD".to_string()), Tag::new("FortiGate".to_string())]),
    }
}

#[test]
fn cache_get_after_put() {
    let mut cache = LocalCache::new();
    assert_eq!(cache.get(EntityKind::Tag, "aad"), None);
    let mut tag = Tag::new("AAD".to_string());
    tag.set_id(5);
    cache.put("aad".to_string(), tag.clone());
    assert_eq!(cache.get(EntityKind::Tag, "aad"), Some(Entity::Tag(tag)));
    assert_eq!(cache.get(EntityKind::Tag, "other"), None);
    assert_eq!(cache.get(EntityKind::Site, "aad"), None);
}

#[test]
fn cache_put_overwrites() {
    let mut cache = LocalCache::new();
    let mut first = Tag::new("AAD".to_string());
    first.set_id(5);
    let mut second = Tag::new("AAD".to_string());
    second.set_id(6);
    cache.put("aad".to_string(), first);
    cache.put("aad".to_string(), second.clone());
    assert_eq!(cache.get(EntityKind::Tag, "aad"), Some(Entity::Tag(second)));
}

#[test]
fn resolution_is_idempotent() {
    let mut cache = LocalCache::new();
    let mut registry = Registry::new();
    let mut first = Tag::new("AAD".to_string());
    let mut second = Tag::new("AAD".to_string());
    let a = resolve_tag(&mut cache, &mut registry, &mut first);
    let b = resolve_tag(&mut cache, &mut registry, &mut second);
    assert_eq!(a, ResolveState::Resolved(100));
    assert_eq!(b, ResolveState::Resolved(100));
    assert_eq!(first.id, Some(100));
    assert_eq!(second.id, Some(100));
    assert_eq!(registry.log, vec!["POST extras/tags aad".to_string()]);
    assert_eq!(registry.tags.len(), 1);
}

#[test]
fn cache_hit_asks_nothing() {
    let mut cache = LocalCache::new();
    let mut known = Tag::new("AAD".to_string());
    known.set_id(42);
    cache.put(known.get_cache_key(), known);
    let mut draft = Tag::new("AAD".to_string());
    let (state, action) = cache.ensure_cached(&mut draft);
    assert_eq!(state, ResolveState::Resolved(42));
    assert_eq!(action, None);
    assert_eq!(draft.id, Some(42));
}

#[test]
fn cache_hit_without_identifier_is_a_miss() {
    let mut cache = LocalCache::new();
    cache.put("aad".to_string(), Tag::new("AAD".to_string()));
    let mut draft = Tag::new("AAD".to_string());
    let (state, action) = cache.ensure_cached(&mut draft);
    assert_eq!(state, ResolveState::Creating);
    assert_eq!(action, Some(ResolveAction::Create));
    assert_eq!(draft.id, None);
}

#[test]
fn draft_without_key_is_turned_away() {
    let mut cache = LocalCache::new();
    let mut registry = Registry::new();
    let mut nameless = Tag::new("!!!".to_string());
    assert_eq!(nameless.get_cache_key(), "");
    let (state, action) = cache.ensure_cached(&mut nameless);
    assert_eq!(state, ResolveState::Failed(ResolveError::InvalidKey));
    assert_eq!(action, None);
    assert_eq!(resolve_tag(&mut cache, &mut registry, &mut nameless).result(), Some(Err(ResolveError::InvalidKey)));
    assert!(registry.log.is_empty());
    assert_eq!(ResolveError::InvalidKey.message(), "Item has an empty natural key");
}

#[test]
fn device_without_name_is_not_pushed() {
    let mut cache = LocalCache::new();
    let mut registry = Registry::new();
    let mut device = draft_device("");
    let before = device.clone();
    let (state, requests) = device.push_to_netbox(&cache);
    assert_eq!(state.stage, PushStage::Failed(PushError::InvalidKey));
    assert!(requests.is_empty());
    assert_eq!(device, before);
    assert_eq!(PushError::InvalidKey.message(), "Device has an empty natural key");
    let mut device = draft_device("host-9");
    device.platform = Some(Platform::new(String::new()));
    let state = push(&mut cache, &mut registry, &mut device);
    assert_eq!(state.stage, PushStage::Failed(PushError::Component(ResolveError::InvalidKey)));
    assert!(registry.devices.is_empty());
}

#[test]
fn created_entity_is_adopted_and_cached() {
    let mut cache = LocalCache::new();
    let mut draft = Tag::new("AAD".to_string());
    let (state, _) = cache.ensure_cached(&mut draft);
    let mut made = Tag::new("AAD".to_string());
    made.set_id(9);
    made.color = Some("ff0000".to_string());
    let (state, action) = cache.ensure_cached_reply(&mut draft, state, RegistryReply::Created(made.clone()));
    assert_eq!(state, ResolveState::Resolved(9));
    assert_eq!(action, None);
    assert_eq!(draft.id, Some(9));
    assert_eq!(draft.color, None);
    assert_eq!(cache.get(EntityKind::Tag, "aad"), Some(Entity::Tag(made)));
}

#[test]
fn created_without_identifier_is_malformed() {
    let mut cache = LocalCache::new();
    let mut draft = Tag::new("AAD".to_string());
    let (state, _) = cache.ensure_cached(&mut draft);
    let (state, action) =
        cache.ensure_cached_reply(&mut draft, state, RegistryReply::Created(Tag::new("AAD".to_string())));
    assert_eq!(state, ResolveState::Failed(ResolveError::MalformedResponse));
    assert_eq!(action, None);
    assert_eq!(draft.id, None);
    assert_eq!(cache.get(EntityKind::Tag, "aad"), None);
    assert_eq!(ResolveError::MalformedResponse.message(), "Created item has no ID");
}

#[test]
fn rejected_creation_falls_back_to_lookup() {
    let mut cache = LocalCache::new();
    let mut draft = Tag::new("AAD".to_string());
    let (state, _) = cache.ensure_cached(&mut draft);
    let (state, action) = cache.ensure_cached_reply(
        &mut draft,
        state,
        RegistryReply::CreateRejected("slug already exists".to_string()),
    );
    assert_eq!(state, ResolveState::Searching("slug already exists".to_string()));
    assert_eq!(action, Some(ResolveAction::Lookup));
    let mut held = Tag::new("AAD".to_string());
    held.set_id(77);
    let (state, action) =
        cache.ensure_cached_reply(&mut draft, state, RegistryReply::Matches(vec![held.clone()]));
    assert_eq!(state, ResolveState::Resolved(77));
    assert_eq!(action, None);
    assert_eq!(draft.id, Some(77));
    assert_eq!(cache.get(EntityKind::Tag, "aad"), Some(Entity::Tag(held)));
}

#[test]
fn lookup_without_single_match_is_create_failed() {
    for found in [Vec::new(), vec![Tag::new("AAD".to_string()), Tag::new("AAD".to_string())]] {
        let mut cache = LocalCache::new();
        let mut draft = Tag::new("AAD".to_string());
        let (state, _) = cache.ensure_cached(&mut draft);
        let (state, _) = cache.ensure_cached_reply(
            &mut draft,
            state,
            RegistryReply::CreateRejected("validation failed".to_string()),
        );
        let (state, action) = cache.ensure_cached_reply(&mut draft, state, RegistryReply::Matches(found));
        assert_eq!(
            state,
            ResolveState::Failed(ResolveError::CreateFailed("validation failed".to_string()))
        );
        assert_eq!(action, None);
        assert_eq!(draft.id, None);
    }
}

#[test]
fn failed_lookup_is_create_failed() {
    let mut cache = LocalCache::new();
    let mut draft = Tag::new("AAD".to_string());
    let (state, _) = cache.ensure_cached(&mut draft);
    let (state, _) =
        cache.ensure_cached_reply(&mut draft, state, RegistryReply::CreateRejected("conflict".to_string()));
    let (state, _) =
        cache.ensure_cached_reply(&mut draft, state, RegistryReply::LookupFailed("timeout".to_string()));
    assert_eq!(state, ResolveState::Failed(ResolveError::CreateFailed("conflict".to_string())));
    assert_eq!(ResolveError::CreateFailed("conflict".to_string()).message(), "conflict");
}

#[test]
fn single_match_without_identifier_is_malformed() {
    let mut cache = LocalCache::new();
    let mut draft = Tag::new("AAD".to_string());
    let (state, _) = cache.ensure_cached(&mut draft);
    let (state, _) =
        cache.ensure_cached_reply(&mut draft, state, RegistryReply::CreateRejected("conflict".to_string()));
    let (state, _) = cache.ensure_cached_reply(
        &mut draft,
        state,
        RegistryReply::Matches(vec![Tag::new("AAD".to_string())]),
    );
    assert_eq!(state, ResolveState::Failed(ResolveError::MalformedResponse));
}

#[test]
fn simplified_protocol_gives_up_on_rejection() {
    let mut cache = LocalCache::new();
    assert!(cache.has_fallback_lookup());
    cache.set_fallback_lookup(false);
    assert!(!cache.has_fallback_lookup());
    let mut draft = Tag::new("AAD".to_string());
    let (state, _) = cache.ensure_cached(&mut draft);
    let (state, action) =
        cache.ensure_cached_reply(&mut draft, state, RegistryReply::CreateRejected("conflict".to_string()));
    assert_eq!(state, ResolveState::Failed(ResolveError::CreateFailed("conflict".to_string())));
    assert_eq!(action, None);
}

#[test]
fn unexpected_reply_changes_nothing() {
    let mut cache = LocalCache::new();
    let mut draft = Tag::new("AAD".to_string());
    let (state, _) = cache.ensure_cached(&mut draft);
    let (state, action) = cache.ensure_cached_reply(&mut draft, state, RegistryReply::Matches(Vec::new()));
    assert_eq!(state, ResolveState::Creating);
    assert_eq!(action, None);
    let (state, action) = cache.ensure_cached_reply(
        &mut draft,
        ResolveState::Resolved(3),
        RegistryReply::CreateRejected("late".to_string()),
    );
    assert_eq!(state, ResolveState::Resolved(3));
    assert_eq!(action, None);
    assert_eq!(state.result(), Some(Ok(3)));
    assert_eq!(ResolveState::Creating.result(), None);
    assert_eq!(ResolveState::Creating.action(), Some(ResolveAction::Create));
    assert_eq!(ResolveState::Searching(String::new()).action(), Some(ResolveAction::Lookup));
}

#[test]
fn racing_resolutions_converge() {
    let mut cache = LocalCache::new();
    let mut registry = Registry::new();
    let mut drafts = vec![
        Tag::new("AAD".to_string()),
        Tag::new("AAD".to_string()),
        Tag::new("AAD".to_string()),
    ];
    // All begin before any creation is served, so every one of them asks for it.
    let mut states = Vec::new();
    for draft in drafts.iter_mut() {
        let (state, action) = cache.ensure_cached(draft);
        assert_eq!(action, Some(ResolveAction::Create));
        states.push(state);
    }
    // The creations reach the registry in the order 2, 0, 1.
    let mut ended = vec![None, None, None];
    for i in [2usize, 0, 1] {
        let mut state = states[i].clone();
        let mut action = Some(ResolveAction::Create);
        while let Some(asked) = action {
            let reply = serve(
                &mut registry.tags,
                &mut registry.next_id,
                &mut registry.log,
                &drafts[i],
                asked,
            );
            let step = cache.ensure_cached_reply(&mut drafts[i], state, reply);
            state = step.0;
            action = step.1;
        }
        ended[i] = state.result();
    }
    assert_eq!(ended, vec![Some(Ok(100)), Some(Ok(100)), Some(Ok(100))]);
    assert!(drafts.iter().all(|draft| draft.id == Some(100)));
    assert_eq!(registry.tags.len(), 1);
    assert_eq!(registry.creates().len(), 3);
}

#[test]
fn device_type_waits_for_its_manufacturer() {
    let mut cache = LocalCache::new();
    let mut device_type =
        DeviceType::new(Manufacturer::new("Dell".to_string()), "Latitude 5520".to_string());
    let (state, request) = cache.ensure_device_type(&mut device_type);
    assert_eq!(
        state,
        DeviceTypeState { manufacturer: ResolveState::Creating, device_type: None }
    );
    assert_eq!(
        request,
        Some(ComponentRequest { component: Component::Manufacturer, action: ResolveAction::Create })
    );
    // A reply for the device type is dropped while the manufacturer is unresolved.
    let mut early = device_type.clone();
    early.set_id(1);
    let (state, request) = cache.ensure_device_type_reply(
        &mut device_type,
        state,
        DeviceTypeReply::DeviceType(RegistryReply::Created(early)),
    );
    assert_eq!(state.device_type, None);
    assert_eq!(request, None);
    assert_eq!(device_type.id, None);
    let mut maker = Manufacturer::new("Dell".to_string());
    maker.set_id(10);
    let (state, request) = cache.ensure_device_type_reply(
        &mut device_type,
        state,
        DeviceTypeReply::Manufacturer(RegistryReply::Created(maker)),
    );
    assert_eq!(
        state,
        DeviceTypeState {
            manufacturer: ResolveState::Resolved(10),
            device_type: Some(ResolveState::Creating)
        }
    );
    assert_eq!(
        request,
        Some(ComponentRequest { component: Component::DeviceType, action: ResolveAction::Create })
    );
    assert_eq!(device_type.manufacturer.id, Some(10));
    assert_eq!(state.result(), None);
    let mut made = device_type.clone();
    made.set_id(11);
    let (state, request) = cache.ensure_device_type_reply(
        &mut device_type,
        state,
        DeviceTypeReply::DeviceType(RegistryReply::Created(made)),
    );
    assert_eq!(request, None);
    assert_eq!(state.result(), Some(Ok(11)));
    assert_eq!(device_type.id, Some(11));
}

#[test]
fn manufacturer_failure_fails_the_device_type() {
    let mut cache = LocalCache::new();
    cache.set_fallback_lookup(false);
    let mut device_type =
        DeviceType::new(Manufacturer::new("Dell".to_string()), "Latitude 5520".to_string());
    let (state, _) = cache.ensure_device_type(&mut device_type);
    let (state, request) = cache.ensure_device_type_reply(
        &mut device_type,
        state,
        DeviceTypeReply::Manufacturer(RegistryReply::CreateRejected("no".to_string())),
    );
    assert_eq!(request, None);
    assert_eq!(state.result(), Some(Err(ResolveError::CreateFailed("no".to_string()))));
}

#[test]
fn components_open_side_by_side() {
    let cache = LocalCache::new();
    let mut device = draft_device("host-1");
    let (state, requests) = cache.ensure_device_components(&mut device);
    let create = ResolveAction::Create;
    assert_eq!(
        requests,
        vec![
            ComponentRequest { component: Component::Manufacturer, action: create },
            ComponentRequest { component: Component::Role, action: create },
            ComponentRequest { component: Component::Site, action: create },
            ComponentRequest { component: Component::Platform, action: create },
            ComponentRequest { component: Component::Tag(0), action: create },
            ComponentRequest { component: Component::Tag(1), action: create },
        ]
    );
    assert_eq!(state.result(), None);
    assert_eq!(state.tags.len(), 2);
}

#[test]
fn components_surface_the_first_failure_when_all_have_ended() {
    let mut cache = LocalCache::new();
    cache.set_fallback_lookup(false);
    let mut device = draft_device("host-1");
    device.device_type = None;
    device.platform = None;
    device.tags = None;
    let (state, requests) = cache.ensure_device_components(&mut device);
    assert_eq!(requests.len(), 2);
    let (state, _) = cache.ensure_device_components_reply(
        &mut device,
        state,
        ComponentReply::Site(RegistryReply::CreateRejected("site refused".to_string())),
    );
    assert_eq!(state.result(), None);
    let (state, _) = cache.ensure_device_components_reply(
        &mut device,
        state,
        ComponentReply::Role(RegistryReply::CreateRejected("role refused".to_string())),
    );
    assert_eq!(
        state.result(),
        Some(Err(ResolveError::CreateFailed("role refused".to_string())))
    );
}

#[test]
fn reply_for_a_missing_part_is_dropped() {
    let mut cache = LocalCache::new();
    let mut device = draft_device("host-1");
    device.platform = None;
    let (state, _) = cache.ensure_device_components(&mut device);
    let mut made = Platform::new("Windows".to_string());
    made.set_id(3);
    let before = device.clone();
    let (state, request) = cache.ensure_device_components_reply(
        &mut device,
        state,
        ComponentReply::Platform(RegistryReply::Created(made)),
    );
    assert_eq!(request, None);
    assert_eq!(state.platform, None);
    assert_eq!(device, before);
    let mut tag = Tag::new("AAD".to_string());
    tag.set_id(4);
    let (_, request) = cache.ensure_device_components_reply(
        &mut device,
        state,
        ComponentReply::Tag(9, RegistryReply::Created(tag)),
    );
    assert_eq!(request, None);
    assert_eq!(device, before);
}

#[test]
fn component_names_the_part() {
    let device = draft_device("host-1");
    let device_type = device.device_type.clone().unwrap();
    assert_eq!(
        device.component(Component::Manufacturer),
        Some(Entity::Manufacturer(device_type.manufacturer.clone()))
    );
    assert_eq!(device.component(Component::DeviceType), Some(Entity::DeviceType(device_type)));
    assert_eq!(device.component(Component::Role), Some(Entity::DeviceRole(device.role.clone().unwrap())));
    assert_eq!(device.component(Component::Site), Some(Entity::Site(device.site.clone().unwrap())));
    assert_eq!(
        device.component(Component::Platform),
        Some(Entity::Platform(device.platform.clone().unwrap()))
    );
    assert_eq!(
        device.component(Component::Tag(1)),
        Some(Entity::Tag(Tag::new("FortiGate".to_string())))
    );
    assert_eq!(device.component(Component::Tag(2)), None);
    let mut bare = draft_device("host-2");
    bare.device_type = None;
    bare.tags = None;
    assert_eq!(bare.component(Component::Manufacturer), None);
    assert_eq!(bare.component(Component::DeviceType), None);
    assert_eq!(bare.component(Component::Tag(0)), None);
}

#[test]
fn parents_are_created_before_children() {
    let mut cache = LocalCache::new();
    let mut registry = Registry::new();
    let mut device = draft_device("HOST-1");
    let state = push(&mut cache, &mut registry, &mut device);
    assert_eq!(state.stage, PushStage::Done(107));
    let creates = registry.creates();
    let place = |line: &str| creates.iter().position(|l| l == line).unwrap();
    let maker = place("POST dcim/manufacturers dell");
    let device_type = place("POST dcim/device-types latitude-5520");
    let pushed = place("POST dcim/devices HOST-1");
    assert!(maker < device_type);
    assert!(device_type < pushed);
    assert_eq!(pushed, creates.len() - 1);
    assert_eq!(registry.log.iter().filter(|line| line.contains("dcim/devices ")).count(), 1);
    assert_eq!(registry.log.last().unwrap(), "POST dcim/devices HOST-1");
    assert_eq!(creates.len(), 8);
    let (_, post) = &registry.devices[0];
    assert_eq!(post.device_type, device.device_type.as_ref().unwrap().id.unwrap());
    assert_eq!(registry.device_types[0].manufacturer.id, Some(registry.manufacturers[0].id.unwrap()));
}

#[test]
fn second_push_updates_and_creates_nothing() {
    let mut cache = LocalCache::new();
    let mut registry = Registry::new();
    let mut first = draft_device("HOST-1");
    let state = push(&mut cache, &mut registry, &mut first);
    let id = match state.stage {
        PushStage::Done(id) => id,
        other => panic!("{:?}", other),
    };
    let before = registry.log.len();
    let mut second = draft_device("host-1");
    let state = push(&mut cache, &mut registry, &mut second);
    assert_eq!(state.stage, PushStage::Done(id));
    assert_eq!(second.id, Some(id));
    assert_eq!(registry.log[before..].to_vec(), vec![format!("PATCH dcim/devices/{} host-1", id)]);
}

#[test]
fn update_ends_under_the_identifier_it_was_made_for() {
    let mut cache = LocalCache::new();
    let mut registry = Registry::new();
    let mut first = draft_device("HOST-1");
    let state = push(&mut cache, &mut registry, &mut first);
    let id = match state.stage {
        PushStage::Done(id) => id,
        other => panic!("{:?}", other),
    };
    let held = cache.get(EntityKind::Device, "host-1");
    // The registry accepts the update and answers without an identifier.
    let mut second = draft_device("host-1");
    let (state, requests) = second.push_to_netbox(&cache);
    assert_eq!(state.stage, PushStage::Submitting);
    assert!(matches!(requests[0], PushRequest::Update(_, _)));
    let mut answer = second.clone();
    answer.id = None;
    let (state, request) = second.push_reply(&mut cache, state, PushReply::Submitted(answer));
    assert_eq!(request, None);
    assert_eq!(state.stage, PushStage::Done(id));
    assert_eq!(second.id, Some(id));
    assert_eq!(cache.get(EntityKind::Device, "host-1"), held);
    // An answer that carries an identifier is written back.
    let mut third = draft_device("host-1");
    third.serial = Some("NEW".to_string());
    let (state, _) = third.push_to_netbox(&cache);
    let mut answer = third.clone();
    answer.id = Some(id);
    let (state, _) = third.push_reply(&mut cache, state, PushReply::Submitted(answer.clone()));
    assert_eq!(state.stage, PushStage::Done(id));
    assert_eq!(cache.get(EntityKind::Device, "host-1"), Some(Entity::Device(answer)));
}

#[test]
fn push_of_unpostable_device_fails() {
    let mut cache = LocalCache::new();
    let mut registry = Registry::new();
    let mut device = draft_device("host-1");
    device.site = None;
    let state = push(&mut cache, &mut registry, &mut device);
    assert_eq!(
        state.stage,
        PushStage::Failed(PushError::NotPostable(
            netbox_ingester::netbox::post::PostDeviceError::SiteUnresolved
        ))
    );
    assert!(registry.devices.is_empty());
    assert_eq!(
        PushError::NotPostable(netbox_ingester::netbox::post::PostDeviceError::SiteUnresolved)
            .message(),
        "Failed to build PostDevice: Site must be created first"
    );
}

#[test]
fn push_fails_with_the_failure_of_a_part() {
    let mut cache = LocalCache::new();
    cache.set_fallback_lookup(false);
    let mut device = draft_device("host-1");
    device.device_type = None;
    device.platform = None;
    device.tags = None;
    device.site = None;
    let (state, requests) = device.push_to_netbox(&cache);
    assert_eq!(requests.len(), 1);
    assert_eq!(state.stage, PushStage::Resolving);
    let (state, request) = device.push_reply(
        &mut cache,
        state,
        PushReply::Component(ComponentReply::Role(RegistryReply::CreateRejected("no".to_string()))),
    );
    assert_eq!(request, None);
    assert!(state.is_over());
    assert_eq!(
        state.result(),
        Some(Err(PushError::Component(ResolveError::CreateFailed("no".to_string()))))
    );
    assert_eq!(
        PushError::Component(ResolveError::CreateFailed("no".to_string())).message(),
        "While ensuring sub-objects: no"
    );
}

#[test]
fn refused_or_malformed_submission_fails_the_push() {
    let mut cache = LocalCache::new();
    let mut registry = Registry::new();
    let mut warm = draft_device("warm");
    push(&mut cache, &mut registry, &mut warm);
    let mut device = draft_device("host-2");
    let (state, requests) = device.push_to_netbox(&cache);
    assert_eq!(state.stage, PushStage::Submitting);
    assert_eq!(requests.len(), 1);
    assert!(matches!(requests[0], PushRequest::Create(_)));
    let (refused, request) = device.push_reply(
        &mut cache,
        state,
        PushReply::SubmitRejected("400 bad request".to_string()),
    );
    assert_eq!(request, None);
    assert_eq!(refused.stage, PushStage::Failed(PushError::SubmitFailed("400 bad request".to_string())));
    assert_eq!(
        PushError::SubmitFailed("400 bad request".to_string()).message(),
        "Submitting device: 400 bad request"
    );
    let mut device = draft_device("host-3");
    let (state, _) = device.push_to_netbox(&cache);
    let mut nameless = device.clone();
    nameless.id = None;
    let (malformed, _) = device.push_reply(&mut cache, state, PushReply::Submitted(nameless));
    assert_eq!(malformed.stage, PushStage::Failed(PushError::MalformedResponse));
    assert_eq!(cache.get(EntityKind::Device, "host-3"), None);
    assert_eq!(PushError::MalformedResponse.message(), "NetBox must return an ID");
}
