//! The registry's entities, their mathematical views, and the capability that
//! every entity kind offers to the resolver: a natural key, an endpoint and an
//! identifier that the registry assigns.

use crate::utils::{sanitize_slug, slug_of};
use vstd::prelude::*;

verus! {

/// The kinds of entity that the registry holds.
#[derive(Clone, Copy, Debug, PartialEq, Eq, Structural)]
pub enum EntityKind {
    Manufacturer,
    DeviceType,
    DeviceRole,
    Site,
    Platform,
    Tag,
    Contact,
    VirtualMachine,
    Device,
    Ip4,
}

/// The operational states that the registry knows for a device.
#[derive(Clone, Copy, Debug, PartialEq, Eq, Structural)]
pub enum StatusOptions {
    Active,
    Offline,
    Planned,
    Staged,
    Failed,
    Inventory,
    Decommissioning,
}

/// The operational state of a device.
#[derive(Clone, Copy, Debug, PartialEq, Eq, Structural)]
pub struct Status {
    pub value: StatusOptions,
}

impl Status {
    /// The status of the given value.
    pub fn from_value(value: StatusOptions) -> (status: Self)
        ensures
            status.value == value,
    {
        Status { value }
    }
}

/// The text of an optional string.
pub open spec fn text_of(text: Option<String>) -> Option<Seq<char>> {
    match text {
        Some(t) => Some(t@),
        None => None,
    }
}

fn clone_text(text: &Option<String>) -> (copy: Option<String>)
    ensures
        copy == *text,
{
    match text {
        Some(t) => Some(t.clone()),
        None => None,
    }
}

/// What a site, a platform, a device role or a manufacturer is: a name, the
/// slug kept with it, and the identifier once the registry has assigned one.
pub struct NamedView {
    pub id: Option<u32>,
    pub name: Seq<char>,
    pub slug: Seq<char>,
}

/// A named entity that the registry does not know yet, with the slug derived
/// from its name.
pub open spec fn named_draft(name: Seq<char>) -> NamedView {
    NamedView { id: None, name, slug: slug_of(name) }
}

/// What a tag is.
pub struct TagView {
    pub id: Option<u32>,
    pub name: Seq<char>,
    pub slug: Seq<char>,
    pub color: Option<Seq<char>>,
}

/// A tag that the registry does not know yet.
pub open spec fn tag_draft(name: Seq<char>) -> TagView {
    TagView { id: None, name, slug: slug_of(name), color: None }
}

/// What a device type is: a model of a manufacturer.
pub struct DeviceTypeView {
    pub manufacturer: NamedView,
    pub id: Option<u32>,
    pub model: Seq<char>,
    pub slug: Seq<char>,
}

/// A device type that the registry does not know yet, of a manufacturer that
/// it may know.
pub open spec fn device_type_draft(manufacturer: NamedView, model: Seq<char>) -> DeviceTypeView {
    DeviceTypeView { manufacturer, id: None, model, slug: slug_of(model) }
}

/// What an address is.
pub struct Ip4View {
    pub id: Option<u32>,
    pub address: Seq<char>,
}

/// What a contact is.
pub struct ContactView {
    pub id: Option<u32>,
    pub name: Seq<char>,
    pub email: Option<Seq<char>>,
    pub title: Option<Seq<char>>,
}

/// What a device is.
pub struct DeviceView {
    pub name: Seq<char>,
    pub id: Option<u32>,
    pub device_type: Option<DeviceTypeView>,
    pub role: Option<NamedView>,
    pub site: Option<NamedView>,
    pub status: Option<Status>,
    pub serial: Option<Seq<char>>,
    pub platform: Option<NamedView>,
    pub primary_ip4: Option<Ip4View>,
    pub tags: Option<Seq<TagView>>,
}

/// What a submission is.
pub struct PostDeviceView {
    pub name: Seq<char>,
    pub id: Option<u32>,
    pub device_type: u32,
    pub role: u32,
    pub site: u32,
    pub status: StatusOptions,
    pub serial: Option<Seq<char>>,
    pub platform: Option<u32>,
    pub tags: Seq<u32>,
}

/// What a virtual machine is.
pub struct VirtualMachineView {
    pub id: Option<u32>,
    pub name: Seq<char>,
    pub status: Seq<char>,
    pub site: usize,
    pub role: Option<NamedView>,
    pub serial: Option<Seq<char>>,
    pub platform: Option<Seq<char>>,
    pub vcpus: Option<usize>,
    pub memory: Option<usize>,
    pub disk: Option<usize>,
    pub tags: Option<Seq<TagView>>,
}

/// A label that devices carry.
#[derive(Debug, PartialEq, Eq)]
pub struct Tag {
    pub id: Option<u32>,
    pub name: String,
    pub slug: String,
    pub color: Option<String>,
}

impl View for Tag {
    type V = TagView;

    open spec fn view(&self) -> TagView {
        TagView { id: self.id, name: self.name@, slug: self.slug@, color: text_of(self.color) }
    }
}

impl DeepView for Tag {
    type V = TagView;

    open spec fn deep_view(&self) -> TagView {
        self@
    }
}

impl Clone for Tag {
    fn clone(&self) -> (copy: Self)
        ensures
            copy == *self,
    {
        Tag {
            id: self.id,
            name: self.name.clone(),
            slug: self.slug.clone(),
            color: clone_text(&self.color),
        }
    }
}

impl Tag {
    /// A tag of the given name that the registry does not know yet.
    pub fn new(name: String) -> (tag: Self)
        ensures
            tag@ == tag_draft(name@),
            tag.name == name,
    {
        Tag { id: None, slug: sanitize_slug(name.as_str()), name, color: None }
    }
}

/// A place at which devices stand.
#[derive(Debug, PartialEq, Eq)]
pub struct Site {
    pub id: Option<u32>,
    pub name: String,
    pub slug: String,
}

impl View for Site {
    type V = NamedView;

    open spec fn view(&self) -> NamedView {
        NamedView { id: self.id, name: self.name@, slug: self.slug@ }
    }
}

impl DeepView for Site {
    type V = NamedView;

    open spec fn deep_view(&self) -> NamedView {
        self@
    }
}

impl Clone for Site {
    fn clone(&self) -> (copy: Self)
        ensures
            copy == *self,
    {
        Site { id: self.id, name: self.name.clone(), slug: self.slug.clone() }
    }
}

impl Site {
    /// A site of the given name that the registry does not know yet.
    pub fn new(name: String) -> (site: Self)
        ensures
            site@ == named_draft(name@),
            site.name == name,
    {
        let slug = sanitize_slug(name.as_str());
        Site { id: None, name, slug }
    }
}

/// An IPv4 address.
#[derive(Debug, PartialEq, Eq)]
pub struct NetBoxIp4 {
    pub id: Option<u32>,
    pub address: String,
}

impl View for NetBoxIp4 {
    type V = Ip4View;

    open spec fn view(&self) -> Ip4View {
        Ip4View { id: self.id, address: self.address@ }
    }
}

impl DeepView for NetBoxIp4 {
    type V = Ip4View;

    open spec fn deep_view(&self) -> Ip4View {
        self@
    }
}

impl Clone for NetBoxIp4 {
    fn clone(&self) -> (copy: Self)
        ensures
            copy == *self,
    {
        NetBoxIp4 { id: self.id, address: self.address.clone() }
    }
}

impl NetBoxIp4 {
    /// The given address, not known to the registry yet.
    pub fn new(address: String) -> (ip: Self)
        ensures
            ip.id is None,
            ip.address == address,
    {
        NetBoxIp4 { id: None, address }
    }
}

/// The operating system that a device runs.
#[derive(Debug, PartialEq, Eq)]
pub struct Platform {
    pub id: Option<u32>,
    pub name: String,
    pub slug: String,
}

impl View for Platform {
    type V = NamedView;

    open spec fn view(&self) -> NamedView {
        NamedView { id: self.id, name: self.name@, slug: self.slug@ }
    }
}

impl DeepView for Platform {
    type V = NamedView;

    open spec fn deep_view(&self) -> NamedView {
        self@
    }
}

impl Clone for Platform {
    fn clone(&self) -> (copy: Self)
        ensures
            copy == *self,
    {
        Platform { id: self.id, name: self.name.clone(), slug: self.slug.clone() }
    }
}

impl Platform {
    /// A platform of the given name that the registry does not know yet.
    pub fn new(name: String) -> (platform: Self)
        ensures
            platform@ == named_draft(name@),
            platform.name == name,
    {
        Platform { id: None, slug: sanitize_slug(name.as_str()), name }
    }
}

/// What a device is used for.
#[derive(Debug, PartialEq, Eq)]
pub struct DeviceRole {
    pub id: Option<u32>,
    pub name: String,
    pub slug: String,
}

impl View for DeviceRole {
    type V = NamedView;

    open spec fn view(&self) -> NamedView {
        NamedView { id: self.id, name: self.name@, slug: self.slug@ }
    }
}

impl DeepView for DeviceRole {
    type V = NamedView;

    open spec fn deep_view(&self) -> NamedView {
        self@
    }
}

impl Clone for DeviceRole {
    fn clone(&self) -> (copy: Self)
        ensures
            copy == *self,
    {
        DeviceRole { id: self.id, name: self.name.clone(), slug: self.slug.clone() }
    }
}

impl DeviceRole {
    /// A role of the given name that the registry does not know yet.
    pub fn new(name: String) -> (role: Self)
        ensures
            role@ == named_draft(name@),
            role.name == name,
    {
        let slug = sanitize_slug(name.as_str());
        DeviceRole { name, slug, id: None }
    }
}

/// A maker of devices.
#[derive(Debug, PartialEq, Eq)]
pub struct Manufacturer {
    pub id: Option<u32>,
    pub name: String,
    pub slug: String,
}

impl View for Manufacturer {
    type V = NamedView;

    open spec fn view(&self) -> NamedView {
        NamedView { id: self.id, name: self.name@, slug: self.slug@ }
    }
}

impl DeepView for Manufacturer {
    type V = NamedView;

    open spec fn deep_view(&self) -> NamedView {
        self@
    }
}

impl Clone for Manufacturer {
    fn clone(&self) -> (copy: Self)
        ensures
            copy == *self,
    {
        Manufacturer { id: self.id, name: self.name.clone(), slug: self.slug.clone() }
    }
}

impl Manufacturer {
    /// A manufacturer of the given name that the registry does not know yet.
    pub fn new(name: String) -> (manufacturer: Self)
        ensures
            manufacturer@ == named_draft(name@),
            manufacturer.name == name,
    {
        let slug = sanitize_slug(name.as_str());
        Manufacturer { id: None, name, slug }
    }
}

/// A model of a manufacturer.
#[derive(Debug, PartialEq, Eq)]
pub struct DeviceType {
    pub manufacturer: Manufacturer,
    pub id: Option<u32>,
    pub model: String,
    pub slug: String,
}

impl View for DeviceType {
    type V = DeviceTypeView;

    open spec fn view(&self) -> DeviceTypeView {
        DeviceTypeView {
            manufacturer: self.manufacturer@,
            id: self.id,
            model: self.model@,
            slug: self.slug@,
        }
    }
}

impl DeepView for DeviceType {
    type V = DeviceTypeView;

    open spec fn deep_view(&self) -> DeviceTypeView {
        self@
    }
}

impl Clone for DeviceType {
    fn clone(&self) -> (copy: Self)
        ensures
            copy == *self,
    {
        DeviceType {
            manufacturer: self.manufacturer.clone(),
            id: self.id,
            model: self.model.clone(),
            slug: self.slug.clone(),
        }
    }
}

impl DeviceType {
    /// The given model of the given manufacturer, not known to the registry yet.
    pub fn new(manufacturer: Manufacturer, model: String) -> (device_type: Self)
        ensures
            device_type@ == device_type_draft(manufacturer@, model@),
            device_type.manufacturer == manufacturer,
            device_type.model == model,
    {
        let slug = sanitize_slug(model.as_str());
        DeviceType { id: None, manufacturer, model, slug }
    }
}

/// A person to turn to.
#[derive(Debug, PartialEq, Eq)]
pub struct Contact {
    pub id: Option<u32>,
    pub name: String,
    pub email: Option<String>,
    pub title: Option<String>,
}

impl View for Contact {
    type V = ContactView;

    open spec fn view(&self) -> ContactView {
        ContactView {
            id: self.id,
            name: self.name@,
            email: text_of(self.email),
            title: text_of(self.title),
        }
    }
}

impl DeepView for Contact {
    type V = ContactView;

    open spec fn deep_view(&self) -> ContactView {
        self@
    }
}

impl Clone for Contact {
    fn clone(&self) -> (copy: Self)
        ensures
            copy == *self,
    {
        Contact {
            id: self.id,
            name: self.name.clone(),
            email: clone_text(&self.email),
            title: clone_text(&self.title),
        }
    }
}

/// The views of a list of tags, in the list's order.
pub open spec fn tag_views(tags: Option<Vec<Tag>>) -> Option<Seq<TagView>> {
    match tags {
        Some(list) => Some(list.deep_view()),
        None => None,
    }
}

fn clone_tags(tags: &Vec<Tag>) -> (copy: Vec<Tag>)
    ensures
        copy@ == tags@,
{
    let mut copy: Vec<Tag> = Vec::new();
    let mut i: usize = 0;
    while i < tags.len()
        invariant
            i <= tags.len(),
            copy@ == tags@.take(i as int),
        decreases tags.len() - i,
    {
        copy.push(tags[i].clone());
        i += 1;
    }
    copy
}

/// A virtual machine.
#[derive(Debug, PartialEq, Eq)]
pub struct VirtualMachine {
    pub id: Option<u32>,
    pub name: String,
    pub status: String,
    pub site: usize,
    pub role: Option<DeviceRole>,
    pub serial: Option<String>,
    pub platform: Option<String>,
    pub vcpus: Option<usize>,
    pub memory: Option<usize>,
    pub disk: Option<usize>,
    pub tags: Option<Vec<Tag>>,
}

impl View for VirtualMachine {
    type V = VirtualMachineView;

    open spec fn view(&self) -> VirtualMachineView {
        VirtualMachineView {
            id: self.id,
            name: self.name@,
            status: self.status@,
            site: self.site,
            role: self.role.deep_view(),
            serial: text_of(self.serial),
            platform: text_of(self.platform),
            vcpus: self.vcpus,
            memory: self.memory,
            disk: self.disk,
            tags: tag_views(self.tags),
        }
    }
}

impl DeepView for VirtualMachine {
    type V = VirtualMachineView;

    open spec fn deep_view(&self) -> VirtualMachineView {
        self@
    }
}

impl Clone for VirtualMachine {
    fn clone(&self) -> (copy: Self)
        ensures
            copy@ == self@,
            copy.id == self.id,
    {
        VirtualMachine {
            id: self.id,
            name: self.name.clone(),
            status: self.status.clone(),
            site: self.site,
            role: match &self.role {
                Some(r) => Some(r.clone()),
                None => None,
            },
            serial: clone_text(&self.serial),
            platform: clone_text(&self.platform),
            vcpus: self.vcpus,
            memory: self.memory,
            disk: self.disk,
            tags: match &self.tags {
                Some(tags) => Some(clone_tags(tags)),
                None => None,
            },
        }
    }
}

/// A device as the sources describe it and as the registry returns it: its
/// reference data is held by value, each part with its own identifier.
#[derive(Debug, PartialEq, Eq)]
pub struct Device {
    pub name: String,
    pub id: Option<u32>,
    pub device_type: Option<DeviceType>,
    pub role: Option<DeviceRole>,
    pub site: Option<Site>,
    pub status: Option<Status>,
    pub serial: Option<String>,
    pub platform: Option<Platform>,
    pub primary_ip4: Option<NetBoxIp4>,
    pub tags: Option<Vec<Tag>>,
}

impl View for Device {
    type V = DeviceView;

    open spec fn view(&self) -> DeviceView {
        DeviceView {
            name: self.name@,
            id: self.id,
            device_type: self.device_type.deep_view(),
            role: self.role.deep_view(),
            site: self.site.deep_view(),
            status: self.status,
            serial: text_of(self.serial),
            platform: self.platform.deep_view(),
            primary_ip4: self.primary_ip4.deep_view(),
            tags: tag_views(self.tags),
        }
    }
}

impl DeepView for Device {
    type V = DeviceView;

    open spec fn deep_view(&self) -> DeviceView {
        self@
    }
}

impl Clone for Device {
    fn clone(&self) -> (copy: Self)
        ensures
            copy@ == self@,
            copy.id == self.id,
            copy.name == self.name,
    {
        Device {
            name: self.name.clone(),
            id: self.id,
            device_type: match &self.device_type {
                Some(t) => Some(t.clone()),
                None => None,
            },
            role: match &self.role {
                Some(r) => Some(r.clone()),
                None => None,
            },
            site: match &self.site {
                Some(s) => Some(s.clone()),
                None => None,
            },
            status: self.status,
            serial: clone_text(&self.serial),
            platform: match &self.platform {
                Some(p) => Some(p.clone()),
                None => None,
            },
            primary_ip4: match &self.primary_ip4 {
                Some(ip) => Some(ip.clone()),
                None => None,
            },
            tags: match &self.tags {
                Some(tags) => Some(clone_tags(tags)),
                None => None,
            },
        }
    }
}

/// A device as it is submitted to the registry: every reference replaced by
/// the identifier that the registry assigned to it.
#[derive(Debug, PartialEq, Eq)]
pub struct PostDevice {
    pub name: String,
    pub id: Option<u32>,
    pub device_type: u32,
    pub role: u32,
    pub site: u32,
    pub status: StatusOptions,
    pub serial: Option<String>,
    pub platform: Option<u32>,
    pub tags: Vec<u32>,
}

impl View for PostDevice {
    type V = PostDeviceView;

    open spec fn view(&self) -> PostDeviceView {
        PostDeviceView {
            name: self.name@,
            id: self.id,
            device_type: self.device_type,
            role: self.role,
            site: self.site,
            status: self.status,
            serial: text_of(self.serial),
            platform: self.platform,
            tags: self.tags@,
        }
    }
}

/// One page of a listing as the registry's older endpoints frame it.
#[derive(Debug)]
pub struct ListResponse<T> {
    pub count: u32,
    pub results: Vec<T>,
}

/// A listing of devices as the registry frames it.
#[derive(Debug)]
pub struct DeviceList {
    pub count: i32,
    pub results: Vec<Device>,
}

/// A listing of contacts as the registry frames it.
#[derive(Debug)]
pub struct ContactList {
    pub count: Option<String>,
    pub results: Option<Vec<Contact>>,
}

/// An address prefix with the network that it belongs to.
#[derive(Debug)]
pub struct Prefix {
    pub id: Option<u32>,
    pub prefix: String,
    pub status: Status,
    pub vlan: u32,
    pub description: Option<String>,
}

/// A virtual network.
#[derive(Debug)]
pub struct Vlan {
    pub vlan_id: u32,
    pub name: String,
    pub status: Status,
    pub description: Option<String>,
}

/// A virtual network together with its prefix.
#[derive(Debug)]
pub struct VlanPrefix {
    pub vlan: Vlan,
    pub prefix: Prefix,
}

/// Any entity, as the cache holds it.
#[derive(Debug, PartialEq, Eq)]
pub enum Entity {
    Manufacturer(Manufacturer),
    DeviceType(DeviceType),
    DeviceRole(DeviceRole),
    Site(Site),
    Platform(Platform),
    Tag(Tag),
    Contact(Contact),
    VirtualMachine(VirtualMachine),
    Device(Device),
    Ip4(NetBoxIp4),
}

/// What an entity is, whatever its kind.
pub enum EntityView {
    Manufacturer(NamedView),
    DeviceType(DeviceTypeView),
    DeviceRole(NamedView),
    Site(NamedView),
    Platform(NamedView),
    Tag(TagView),
    Contact(ContactView),
    VirtualMachine(VirtualMachineView),
    Device(DeviceView),
    Ip4(Ip4View),
}

impl View for Entity {
    type V = EntityView;

    open spec fn view(&self) -> EntityView {
        match *self {
            Entity::Manufacturer(e) => EntityView::Manufacturer(e@),
            Entity::DeviceType(e) => EntityView::DeviceType(e@),
            Entity::DeviceRole(e) => EntityView::DeviceRole(e@),
            Entity::Site(e) => EntityView::Site(e@),
            Entity::Platform(e) => EntityView::Platform(e@),
            Entity::Tag(e) => EntityView::Tag(e@),
            Entity::Contact(e) => EntityView::Contact(e@),
            Entity::VirtualMachine(e) => EntityView::VirtualMachine(e@),
            Entity::Device(e) => EntityView::Device(e@),
            Entity::Ip4(e) => EntityView::Ip4(e@),
        }
    }
}

impl EntityView {
    pub open spec fn kind_of(self) -> EntityKind {
        match self {
            EntityView::Manufacturer(_) => EntityKind::Manufacturer,
            EntityView::DeviceType(_) => EntityKind::DeviceType,
            EntityView::DeviceRole(_) => EntityKind::DeviceRole,
            EntityView::Site(_) => EntityKind::Site,
            EntityView::Platform(_) => EntityKind::Platform,
            EntityView::Tag(_) => EntityKind::Tag,
            EntityView::Contact(_) => EntityKind::Contact,
            EntityView::VirtualMachine(_) => EntityKind::VirtualMachine,
            EntityView::Device(_) => EntityKind::Device,
            EntityView::Ip4(_) => EntityKind::Ip4,
        }
    }

    /// The identifier that the entity carries, if the registry has assigned one.
    pub open spec fn id_of(self) -> Option<u32> {
        match self {
            EntityView::Manufacturer(e) => e.id,
            EntityView::DeviceType(e) => e.id,
            EntityView::DeviceRole(e) => e.id,
            EntityView::Site(e) => e.id,
            EntityView::Platform(e) => e.id,
            EntityView::Tag(e) => e.id,
            EntityView::Contact(e) => e.id,
            EntityView::VirtualMachine(e) => e.id,
            EntityView::Device(e) => e.id,
            EntityView::Ip4(e) => e.id,
        }
    }
}

impl Clone for Entity {
    fn clone(&self) -> (copy: Self)
        ensures
            copy@ == self@,
    {
        match self {
            Entity::Manufacturer(e) => Entity::Manufacturer(e.clone()),
            Entity::DeviceType(e) => Entity::DeviceType(e.clone()),
            Entity::DeviceRole(e) => Entity::DeviceRole(e.clone()),
            Entity::Site(e) => Entity::Site(e.clone()),
            Entity::Platform(e) => Entity::Platform(e.clone()),
            Entity::Tag(e) => Entity::Tag(e.clone()),
            Entity::Contact(e) => Entity::Contact(e.clone()),
            Entity::VirtualMachine(e) => Entity::VirtualMachine(e.clone()),
            Entity::Device(e) => Entity::Device(e.clone()),
            Entity::Ip4(e) => Entity::Ip4(e.clone()),
        }
    }
}

impl Entity {
    pub open spec fn kind_of(self) -> EntityKind {
        self@.kind_of()
    }

    /// The identifier that the entity carries, if the registry has assigned one.
    pub open spec fn id_of(self) -> Option<u32> {
        self@.id_of()
    }

    /// The kind of the entity.
    pub fn kind(&self) -> (kind: EntityKind)
        ensures
            kind == self.kind_of(),
    {
        match self {
            Entity::Manufacturer(_) => EntityKind::Manufacturer,
            Entity::DeviceType(_) => EntityKind::DeviceType,
            Entity::DeviceRole(_) => EntityKind::DeviceRole,
            Entity::Site(_) => EntityKind::Site,
            Entity::Platform(_) => EntityKind::Platform,
            Entity::Tag(_) => EntityKind::Tag,
            Entity::Contact(_) => EntityKind::Contact,
            Entity::VirtualMachine(_) => EntityKind::VirtualMachine,
            Entity::Device(_) => EntityKind::Device,
            Entity::Ip4(_) => EntityKind::Ip4,
        }
    }

    /// The identifier that the entity carries, if the registry has assigned one.
    pub fn get_id(&self) -> (id: Option<u32>)
        ensures
            id == self.id_of(),
    {
        match self {
            Entity::Manufacturer(e) => e.id,
            Entity::DeviceType(e) => e.id,
            Entity::DeviceRole(e) => e.id,
            Entity::Site(e) => e.id,
            Entity::Platform(e) => e.id,
            Entity::Tag(e) => e.id,
            Entity::Contact(e) => e.id,
            Entity::VirtualMachine(e) => e.id,
            Entity::Device(e) => e.id,
            Entity::Ip4(e) => e.id,
        }
    }
}

/// What every entity kind offers to the resolver: its natural key, the
/// endpoint that serves it, and its identifier.
pub trait NetBoxModel: Sized {
    /// The identifier, once the registry has assigned one.
    spec fn id_of(&self) -> Option<u32>;

    /// The slug under which the registry files the entity.
    spec fn slug(&self) -> Seq<char>;

    /// The natural key under which the cache files the entity.
    spec fn cache_key(&self) -> Seq<char>;

    /// The path of the collection that holds the entities of this kind.
    spec fn endpoint() -> Seq<char>;

    spec fn kind() -> EntityKind;

    /// The same entity carrying the given identifier.
    spec fn with_id(self, id: u32) -> Self;

    /// The entity as the cache holds it.
    spec fn as_entity(self) -> Entity;

    /// Assigning an identifier changes the identifier and neither key.
    proof fn lemma_with_id(self, id: u32)
        ensures
            self.with_id(id).id_of() == Some(id),
            self.with_id(id).slug() == self.slug(),
            self.with_id(id).cache_key() == self.cache_key(),
    ;

    /// The cache holds an entity under its own kind and with its own
    /// identifier.
    proof fn lemma_as_entity(self)
        ensures
            self.as_entity().kind_of() == Self::kind(),
            self.as_entity().id_of() == self.id_of(),
    ;

    fn get_id(&self) -> (id: Option<u32>)
        ensures
            id == self.id_of(),
    ;

    fn get_slug(&self) -> (slug: String)
        ensures
            slug@ == self.slug(),
    ;

    fn get_endpoint() -> (endpoint: &'static str)
        ensures
            endpoint@ == Self::endpoint(),
    ;

    fn set_id(&mut self, id: u32)
        ensures
            *final(self) == old(self).with_id(id),
    ;

    fn get_cache_key(&self) -> (key: String)
        ensures
            key@ == self.cache_key(),
    ;

    fn get_kind() -> (kind: EntityKind)
        ensures
            kind == Self::kind(),
    ;

    fn into_entity(self) -> (entity: Entity)
        ensures
            entity == self.as_entity(),
    ;
}

} // verus!
