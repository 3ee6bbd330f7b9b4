//! The natural keys, slugs and endpoints of each entity kind.

use crate::netbox::models::{
    Contact, Device, DeviceRole, DeviceType, Entity, EntityKind, Manufacturer, NetBoxIp4,
    NetBoxModel, Platform, Site, Tag, VirtualMachine,
};
use crate::utils::{lowercase_of, normalize_name, sanitize_slug, slug_of};
use vstd::prelude::*;

verus! {

impl NetBoxModel for Tag {
    open spec fn id_of(&self) -> Option<u32> {
        self.id
    }

    open spec fn slug(&self) -> Seq<char> {
        slug_of(self.slug@)
    }

    open spec fn cache_key(&self) -> Seq<char> {
        slug_of(self.slug@)
    }

    open spec fn endpoint() -> Seq<char> {
        "extras/tags"@
    }

    open spec fn kind() -> EntityKind {
        EntityKind::Tag
    }

    open spec fn with_id(self, id: u32) -> Self {
        Tag { id: Some(id), ..self }
    }

    open spec fn as_entity(self) -> Entity {
        Entity::Tag(self)
    }

    proof fn lemma_with_id(self, id: u32) {
    }

    proof fn lemma_as_entity(self) {
    }

    fn get_id(&self) -> (id: Option<u32>) {
        self.id
    }

    fn get_slug(&self) -> (slug: String) {
        sanitize_slug(self.slug.as_str())
    }

    fn get_endpoint() -> (endpoint: &'static str) {
        "extras/tags"
    }

    fn set_id(&mut self, id: u32) {
        self.id = Some(id);
    }

    fn get_cache_key(&self) -> (key: String) {
        self.get_slug()
    }

    fn get_kind() -> (kind: EntityKind) {
        EntityKind::Tag
    }

    fn into_entity(self) -> (entity: Entity) {
        Entity::Tag(self)
    }
}

impl NetBoxModel for Site {
    open spec fn id_of(&self) -> Option<u32> {
        self.id
    }

    open spec fn slug(&self) -> Seq<char> {
        self.slug@
    }

    open spec fn cache_key(&self) -> Seq<char> {
        self.slug@
    }

    open spec fn endpoint() -> Seq<char> {
        "dcim/sites"@
    }

    open spec fn kind() -> EntityKind {
        EntityKind::Site
    }

    open spec fn with_id(self, id: u32) -> Self {
        Site { id: Some(id), ..self }
    }

    open spec fn as_entity(self) -> Entity {
        Entity::Site(self)
    }

    proof fn lemma_with_id(self, id: u32) {
    }

    proof fn lemma_as_entity(self) {
    }

    fn get_id(&self) -> (id: Option<u32>) {
        self.id
    }

    fn get_slug(&self) -> (slug: String) {
        self.slug.clone()
    }

    fn get_endpoint() -> (endpoint: &'static str) {
        "dcim/sites"
    }

    fn set_id(&mut self, id: u32) {
        self.id = Some(id);
    }

    fn get_cache_key(&self) -> (key: String) {
        self.get_slug()
    }

    fn get_kind() -> (kind: EntityKind) {
        EntityKind::Site
    }

    fn into_entity(self) -> (entity: Entity) {
        Entity::Site(self)
    }
}

impl NetBoxModel for NetBoxIp4 {
    open spec fn id_of(&self) -> Option<u32> {
        self.id
    }

    open spec fn slug(&self) -> Seq<char> {
        slug_of(self.address@)
    }

    open spec fn cache_key(&self) -> Seq<char> {
        slug_of(self.address@)
    }

    open spec fn endpoint() -> Seq<char> {
        "ipam/ip-addresses"@
    }

    open spec fn kind() -> EntityKind {
        EntityKind::Ip4
    }

    open spec fn with_id(self, id: u32) -> Self {
        NetBoxIp4 { id: Some(id), ..self }
    }

    open spec fn as_entity(self) -> Entity {
        Entity::Ip4(self)
    }

    proof fn lemma_with_id(self, id: u32) {
    }

    proof fn lemma_as_entity(self) {
    }

    fn get_id(&self) -> (id: Option<u32>) {
        self.id
    }

    fn get_slug(&self) -> (slug: String) {
        sanitize_slug(self.address.as_str())
    }

    fn get_endpoint() -> (endpoint: &'static str) {
        "ipam/ip-addresses"
    }

    fn set_id(&mut self, id: u32) {
        self.id = Some(id);
    }

    fn get_cache_key(&self) -> (key: String) {
        self.get_slug()
    }

    fn get_kind() -> (kind: EntityKind) {
        EntityKind::Ip4
    }

    fn into_entity(self) -> (entity: Entity) {
        Entity::Ip4(self)
    }
}

impl NetBoxModel for Device {
    open spec fn id_of(&self) -> Option<u32> {
        self.id
    }

    open spec fn slug(&self) -> Seq<char> {
        lowercase_of(self.name@)
    }

    open spec fn cache_key(&self) -> Seq<char> {
        lowercase_of(self.name@)
    }

    open spec fn endpoint() -> Seq<char> {
        "dcim/devices"@
    }

    open spec fn kind() -> EntityKind {
        EntityKind::Device
    }

    open spec fn with_id(self, id: u32) -> Self {
        Device { id: Some(id), ..self }
    }

    open spec fn as_entity(self) -> Entity {
        Entity::Device(self)
    }

    proof fn lemma_with_id(self, id: u32) {
    }

    proof fn lemma_as_entity(self) {
    }

    fn get_id(&self) -> (id: Option<u32>) {
        self.id
    }

    fn get_slug(&self) -> (slug: String) {
        normalize_name(self.name.as_str())
    }

    fn get_endpoint() -> (endpoint: &'static str) {
        "dcim/devices"
    }

    fn set_id(&mut self, id: u32) {
        self.id = Some(id);
    }

    fn get_cache_key(&self) -> (key: String) {
        self.get_slug()
    }

    fn get_kind() -> (kind: EntityKind) {
        EntityKind::Device
    }

    fn into_entity(self) -> (entity: Entity) {
        Entity::Device(self)
    }
}

impl NetBoxModel for Platform {
    open spec fn id_of(&self) -> Option<u32> {
        self.id
    }

    open spec fn slug(&self) -> Seq<char> {
        slug_of(self.slug@)
    }

    open spec fn cache_key(&self) -> Seq<char> {
        lowercase_of(self.name@)
    }

    open spec fn endpoint() -> Seq<char> {
        "dcim/platforms"@
    }

    open spec fn kind() -> EntityKind {
        EntityKind::Platform
    }

    open spec fn with_id(self, id: u32) -> Self {
        Platform { id: Some(id), ..self }
    }

    open spec fn as_entity(self) -> Entity {
        Entity::Platform(self)
    }

    proof fn lemma_with_id(self, id: u32) {
    }

    proof fn lemma_as_entity(self) {
    }

    fn get_id(&self) -> (id: Option<u32>) {
        self.id
    }

    fn get_slug(&self) -> (slug: String) {
        sanitize_slug(self.slug.as_str())
    }

    fn get_endpoint() -> (endpoint: &'static str) {
        "dcim/platforms"
    }

    fn set_id(&mut self, id: u32) {
        self.id = Some(id);
    }

    fn get_cache_key(&self) -> (key: String) {
        normalize_name(self.name.as_str())
    }

    fn get_kind() -> (kind: EntityKind) {
        EntityKind::Platform
    }

    fn into_entity(self) -> (entity: Entity) {
        Entity::Platform(self)
    }
}

impl NetBoxModel for DeviceRole {
    open spec fn id_of(&self) -> Option<u32> {
        self.id
    }

    open spec fn slug(&self) -> Seq<char> {
        self.slug@
    }

    open spec fn cache_key(&self) -> Seq<char> {
        self.slug@
    }

    open spec fn endpoint() -> Seq<char> {
        "dcim/device-roles"@
    }

    open spec fn kind() -> EntityKind {
        EntityKind::DeviceRole
    }

    open spec fn with_id(self, id: u32) -> Self {
        DeviceRole { id: Some(id), ..self }
    }

    open spec fn as_entity(self) -> Entity {
        Entity::DeviceRole(self)
    }

    proof fn lemma_with_id(self, id: u32) {
    }

    proof fn lemma_as_entity(self) {
    }

    fn get_id(&self) -> (id: Option<u32>) {
        self.id
    }

    fn get_slug(&self) -> (slug: String) {
        self.slug.clone()
    }

    fn get_endpoint() -> (endpoint: &'static str) {
        "dcim/device-roles"
    }

    fn set_id(&mut self, id: u32) {
        self.id = Some(id);
    }

    fn get_cache_key(&self) -> (key: String) {
        self.get_slug()
    }

    fn get_kind() -> (kind: EntityKind) {
        EntityKind::DeviceRole
    }

    fn into_entity(self) -> (entity: Entity) {
        Entity::DeviceRole(self)
    }
}

impl NetBoxModel for DeviceType {
    open spec fn id_of(&self) -> Option<u32> {
        self.id
    }

    open spec fn slug(&self) -> Seq<char> {
        slug_of(self.slug@)
    }

    open spec fn cache_key(&self) -> Seq<char> {
        self.manufacturer.slug().push('-').push('-') + slug_of(self.model@)
    }

    open spec fn endpoint() -> Seq<char> {
        "dcim/device-types"@
    }

    open spec fn kind() -> EntityKind {
        EntityKind::DeviceType
    }

    open spec fn with_id(self, id: u32) -> Self {
        DeviceType { id: Some(id), ..self }
    }

    open spec fn as_entity(self) -> Entity {
        Entity::DeviceType(self)
    }

    proof fn lemma_with_id(self, id: u32) {
    }

    proof fn lemma_as_entity(self) {
    }

    fn get_id(&self) -> (id: Option<u32>) {
        self.id
    }

    fn get_slug(&self) -> (slug: String) {
        sanitize_slug(self.slug.as_str())
    }

    fn get_endpoint() -> (endpoint: &'static str) {
        "dcim/device-types"
    }

    fn set_id(&mut self, id: u32) {
        self.id = Some(id);
    }

    fn get_cache_key(&self) -> (key: String) {
        let mut key = self.manufacturer.get_slug();
        key.push('-');
        key.push('-');
        let model = sanitize_slug(self.model.as_str());
        key.append(model.as_str());
        key
    }

    fn get_kind() -> (kind: EntityKind) {
        EntityKind::DeviceType
    }

    fn into_entity(self) -> (entity: Entity) {
        Entity::DeviceType(self)
    }
}

impl NetBoxModel for Manufacturer {
    open spec fn id_of(&self) -> Option<u32> {
        self.id
    }

    open spec fn slug(&self) -> Seq<char> {
        slug_of(self.slug@)
    }

    open spec fn cache_key(&self) -> Seq<char> {
        slug_of(self.slug@)
    }

    open spec fn endpoint() -> Seq<char> {
        "dcim/manufacturers"@
    }

    open spec fn kind() -> EntityKind {
        EntityKind::Manufacturer
    }

    open spec fn with_id(self, id: u32) -> Self {
        Manufacturer { id: Some(id), ..self }
    }

    open spec fn as_entity(self) -> Entity {
        Entity::Manufacturer(self)
    }

    proof fn lemma_with_id(self, id: u32) {
    }

    proof fn lemma_as_entity(self) {
    }

    fn get_id(&self) -> (id: Option<u32>) {
        self.id
    }

    fn get_slug(&self) -> (slug: String) {
        sanitize_slug(self.slug.as_str())
    }

    fn get_endpoint() -> (endpoint: &'static str) {
        "dcim/manufacturers"
    }

    fn set_id(&mut self, id: u32) {
        self.id = Some(id);
    }

    fn get_cache_key(&self) -> (key: String) {
        self.get_slug()
    }

    fn get_kind() -> (kind: EntityKind) {
        EntityKind::Manufacturer
    }

    fn into_entity(self) -> (entity: Entity) {
        Entity::Manufacturer(self)
    }
}

impl NetBoxModel for Contact {
    open spec fn id_of(&self) -> Option<u32> {
        self.id
    }

    open spec fn slug(&self) -> Seq<char> {
        slug_of(self.name@)
    }

    open spec fn cache_key(&self) -> Seq<char> {
        match self.email {
            Some(mail) => lowercase_of(mail@),
            None => slug_of(self.name@),
        }
    }

    open spec fn endpoint() -> Seq<char> {
        "tenancy/contacts"@
    }

    open spec fn kind() -> EntityKind {
        EntityKind::Contact
    }

    open spec fn with_id(self, id: u32) -> Self {
        Contact { id: Some(id), ..self }
    }

    open spec fn as_entity(self) -> Entity {
        Entity::Contact(self)
    }

    proof fn lemma_with_id(self, id: u32) {
    }

    proof fn lemma_as_entity(self) {
    }

    fn get_id(&self) -> (id: Option<u32>) {
        self.id
    }

    fn get_slug(&self) -> (slug: String) {
        sanitize_slug(self.name.as_str())
    }

    fn get_endpoint() -> (endpoint: &'static str) {
        "tenancy/contacts"
    }

    fn set_id(&mut self, id: u32) {
        self.id = Some(id);
    }

    fn get_cache_key(&self) -> (key: String) {
        match &self.email {
            Some(mail) => normalize_name(mail.as_str()),
            None => self.get_slug(),
        }
    }

    fn get_kind() -> (kind: EntityKind) {
        EntityKind::Contact
    }

    fn into_entity(self) -> (entity: Entity) {
        Entity::Contact(self)
    }
}

impl NetBoxModel for VirtualMachine {
    open spec fn id_of(&self) -> Option<u32> {
        self.id
    }

    open spec fn slug(&self) -> Seq<char> {
        slug_of(self.name@)
    }

    open spec fn cache_key(&self) -> Seq<char> {
        slug_of(self.name@)
    }

    open spec fn endpoint() -> Seq<char> {
        "virtualization/virtual-machines"@
    }

    open spec fn kind() -> EntityKind {
        EntityKind::VirtualMachine
    }

    open spec fn with_id(self, id: u32) -> Self {
        VirtualMachine { id: Some(id), ..self }
    }

    open spec fn as_entity(self) -> Entity {
        Entity::VirtualMachine(self)
    }

    proof fn lemma_with_id(self, id: u32) {
    }

    proof fn lemma_as_entity(self) {
    }

    fn get_id(&self) -> (id: Option<u32>) {
        self.id
    }

    fn get_slug(&self) -> (slug: String) {
        sanitize_slug(self.name.as_str())
    }

    fn get_endpoint() -> (endpoint: &'static str) {
        "virtualization/virtual-machines"
    }

    fn set_id(&mut self, id: u32) {
        self.id = Some(id);
    }

    fn get_cache_key(&self) -> (key: String) {
        self.get_slug()
    }

    fn get_kind() -> (kind: EntityKind) {
        EntityKind::VirtualMachine
    }

    fn into_entity(self) -> (entity: Entity) {
        Entity::VirtualMachine(self)
    }
}

} // verus!
