//! The entity cache and the find-or-create protocol that is run against the
//! registry through it.

use crate::netbox::models::{
    Contact, Device, DeviceRole, DeviceType, Entity, EntityKind, Manufacturer, NetBoxModel,
    Platform, Site, Tag, VirtualMachine,
};
use dashmap::DashMap;
use std::collections::hash_map::RandomState;
use vstd::prelude::*;

verus! {

/// The concurrent hash map in which each table of the cache is kept.
#[verifier::external_type_specification]
#[verifier::external_body]
#[verifier::reject_recursive_types(K)]
#[verifier::reject_recursive_types(V)]
#[verifier::reject_recursive_types(S)]
pub struct ExDashMap<K, V, S>(DashMap<K, V, S>);

/// What a table holds: the entity filed under each key.
pub uninterp spec fn table_entries(table: DashMap<String, Entity, RandomState>) -> Map<
    Seq<char>,
    Entity,
>;

/// `DashMap::new` makes a map that holds nothing.
#[verifier::external_body]
pub(crate) fn table_new() -> (table: DashMap<String, Entity, RandomState>)
    ensures
        table_entries(table) =~= Map::empty(),
{
    DashMap::new()
}

/// `DashMap::get` finds the entry filed under the key, if there is one. The
/// reference into the map is dropped before the call returns: the caller is
/// handed a copy of the entry, which is the same entity to look at.
#[verifier::external_body]
pub(crate) fn table_get(table: &DashMap<String, Entity, RandomState>, key: &str) -> (found: Option<
    Entity,
>)
    ensures
        found is Some <==> table_entries(*table).contains_key(key@),
        found matches Some(entity) ==> entity@ == table_entries(*table)[key@]@,
{
    table.get(key).map(|entry| entry.value().clone())
}

/// `DashMap::insert` files the value under the key, in place of what was
/// filed there, and leaves every other entry as it is.
#[verifier::external_body]
pub(crate) fn table_insert(
    table: &mut DashMap<String, Entity, RandomState>,
    key: String,
    value: Entity,
)
    ensures
        table_entries(*final(table)) == table_entries(*old(table)).insert(key@, value),
{
    table.insert(key, value);
}

/// `DashMap::into_iter` hands out every entry of the map once, in an order of
/// which nothing is said.
#[verifier::external_body]
pub(crate) fn table_into_entries(table: DashMap<String, Entity, RandomState>) -> (listed: Vec<
    (String, Entity),
>)
    ensures
        forall|i: int|
            0 <= i < listed@.len() ==> table_entries(table).contains_key(
                (#[trigger] listed@[i]).0@,
            ) && table_entries(table)[listed@[i].0@] == listed@[i].1,
        forall|i: int, j: int|
            0 <= i < j < listed@.len() ==> (#[trigger] listed@[i]).0@ != (#[trigger] listed@[j]).0@,
        forall|key: Seq<char>| #[trigger]
            table_entries(table).contains_key(key) ==> exists|i: int|
                0 <= i < listed@.len() && (#[trigger] listed@[i]).0@ == key,
{
    table.into_iter().collect()
}

/// The run-scoped cache: one table per entity kind, each keyed by natural key
/// and holding the entity as the registry last returned it.
///
/// A step of a resolution reads and writes the cache while it decides and
/// never while a request is under way, so that resolutions which share one
/// cache take turns at it, one step at a time, in whatever order their
/// replies arrive.
pub struct LocalCache {
    devices: DashMap<String, Entity, RandomState>,
    contacts: DashMap<String, Entity, RandomState>,
    manufacturers: DashMap<String, Entity, RandomState>,
    device_types: DashMap<String, Entity, RandomState>,
    roles: DashMap<String, Entity, RandomState>,
    sites: DashMap<String, Entity, RandomState>,
    tags: DashMap<String, Entity, RandomState>,
    platforms: DashMap<String, Entity, RandomState>,
    virtual_machines: DashMap<String, Entity, RandomState>,
    ipv4: DashMap<String, Entity, RandomState>,
    fallback: bool,
}

/// The tables of a cache, by kind.
pub type Tables = Map<EntityKind, Map<Seq<char>, Entity>>;

/// The tables after an entity has been filed under a key in the table of a
/// kind.
pub open spec fn filed(tables: Tables, kind: EntityKind, key: Seq<char>, entity: Entity) -> Tables {
    tables.insert(kind, tables[kind].insert(key, entity))
}

/// Tables that hold nothing.
pub open spec fn no_entries() -> Tables {
    Map::new(|kind: EntityKind| true, |kind: EntityKind| Map::empty())
}

/// Every entity is filed in the table of its own kind.
pub open spec fn kinds_agree(tables: Tables) -> bool {
    forall|kind: EntityKind, key: Seq<char>| #[trigger]
        tables[kind].contains_key(key) ==> tables[kind][key].kind_of() == kind
}

impl View for LocalCache {
    type V = Tables;

    open spec fn view(&self) -> Tables {
        Map::new(|kind: EntityKind| true, |kind: EntityKind| self.table(kind))
    }
}

impl LocalCache {
    /// The table of a kind: the entity filed under each natural key.
    pub closed spec fn table(self, kind: EntityKind) -> Map<Seq<char>, Entity> {
        match kind {
            EntityKind::Manufacturer => table_entries(self.manufacturers),
            EntityKind::DeviceType => table_entries(self.device_types),
            EntityKind::DeviceRole => table_entries(self.roles),
            EntityKind::Site => table_entries(self.sites),
            EntityKind::Platform => table_entries(self.platforms),
            EntityKind::Tag => table_entries(self.tags),
            EntityKind::Contact => table_entries(self.contacts),
            EntityKind::VirtualMachine => table_entries(self.virtual_machines),
            EntityKind::Device => table_entries(self.devices),
            EntityKind::Ip4 => table_entries(self.ipv4),
        }
    }

    /// The table of a kind: the entity filed under each natural key.
    pub open spec fn entries(self, kind: EntityKind) -> Map<Seq<char>, Entity> {
        self@[kind]
    }

    /// Whether a failed creation is followed by a lookup of the same natural
    /// key, which makes racing resolutions converge.
    pub closed spec fn fallback_lookup(self) -> bool {
        self.fallback
    }

    /// Every entity is filed in the table of its own kind.
    pub open spec fn wf(self) -> bool {
        kinds_agree(self@)
    }

    /// An empty cache whose resolutions fall back to a lookup.
    pub fn new() -> (cache: Self)
        ensures
            cache@ == no_entries(),
            cache.fallback_lookup(),
            cache.wf(),
    {
        LocalCache {
            devices: table_new(),
            contacts: table_new(),
            manufacturers: table_new(),
            device_types: table_new(),
            roles: table_new(),
            sites: table_new(),
            tags: table_new(),
            platforms: table_new(),
            virtual_machines: table_new(),
            ipv4: table_new(),
            fallback: true,
        }
    }

    /// Chooses between the race-safe protocol and the simplified one that
    /// gives up when a creation fails.
    pub fn set_fallback_lookup(&mut self, on: bool)
        ensures
            final(self).fallback_lookup() == on,
            final(self)@ == old(self)@,
    {
        self.fallback = on;
    }

    /// Whether a failed creation is followed by a lookup.
    pub fn has_fallback_lookup(&self) -> (on: bool)
        ensures
            on == self.fallback_lookup(),
    {
        self.fallback
    }

    /// A copy of the entity filed under the key in the table of the kind.
    pub fn get(&self, kind: EntityKind, key: &str) -> (found: Option<Entity>)
        ensures
            found is Some <==> self.entries(kind).contains_key(key@),
            found matches Some(entity) ==> entity@ == self.entries(kind)[key@]@,
    {
        match kind {
            EntityKind::Manufacturer => table_get(&self.manufacturers, key),
            EntityKind::DeviceType => table_get(&self.device_types, key),
            EntityKind::DeviceRole => table_get(&self.roles, key),
            EntityKind::Site => table_get(&self.sites, key),
            EntityKind::Platform => table_get(&self.platforms, key),
            EntityKind::Tag => table_get(&self.tags, key),
            EntityKind::Contact => table_get(&self.contacts, key),
            EntityKind::VirtualMachine => table_get(&self.virtual_machines, key),
            EntityKind::Device => table_get(&self.devices, key),
            EntityKind::Ip4 => table_get(&self.ipv4, key),
        }
    }

    /// Files the entity under the key in the table of its kind; what was
    /// filed there before is overwritten.
    pub fn put<T: NetBoxModel>(&mut self, key: String, value: T)
        ensures
            final(self)@ == filed(old(self)@, T::kind(), key@, value.as_entity()),
            final(self).fallback_lookup() == old(self).fallback_lookup(),
            old(self).wf() ==> final(self).wf(),
    {
        proof {
            value.lemma_as_entity();
        }
        let entity = value.into_entity();
        match T::get_kind() {
            EntityKind::Manufacturer => table_insert(&mut self.manufacturers, key, entity),
            EntityKind::DeviceType => table_insert(&mut self.device_types, key, entity),
            EntityKind::DeviceRole => table_insert(&mut self.roles, key, entity),
            EntityKind::Site => table_insert(&mut self.sites, key, entity),
            EntityKind::Platform => table_insert(&mut self.platforms, key, entity),
            EntityKind::Tag => table_insert(&mut self.tags, key, entity),
            EntityKind::Contact => table_insert(&mut self.contacts, key, entity),
            EntityKind::VirtualMachine => table_insert(&mut self.virtual_machines, key, entity),
            EntityKind::Device => table_insert(&mut self.devices, key, entity),
            EntityKind::Ip4 => table_insert(&mut self.ipv4, key, entity),
        }
        proof {
            let before = old(self)@;
            let after = self@;
            if kinds_agree(before) {
                assert forall|kind: EntityKind, slot: Seq<char>| #[trigger]
                    after[kind].contains_key(slot) implies after[kind][slot].kind_of() == kind by {
                    if kind != T::kind() || slot != key@ {
                        assert(before[kind].contains_key(slot));
                    }
                }
            }
        }
    }
}

/// Why an entity could not be resolved.
#[derive(Debug, PartialEq, Eq)]
pub enum ResolveError {
    /// The draft has an empty natural key, under which nothing can be filed
    /// or found.
    InvalidKey,
    /// The registry answered without an identifier.
    MalformedResponse,
    /// The registry refused to create the entity, for the cause given, and a
    /// lookup by natural key did not single one out.
    CreateFailed(String),
}

impl ResolveError {
    /// The error in words.
    pub open spec fn text(self) -> Seq<char> {
        match self {
            ResolveError::InvalidKey => "Item has an empty natural key"@,
            ResolveError::MalformedResponse => "Created item has no ID"@,
            ResolveError::CreateFailed(cause) => cause@,
        }
    }

    pub fn message(&self) -> (text: String)
        ensures
            text@ == self.text(),
    {
        match self {
            ResolveError::InvalidKey => String::from_str("Item has an empty natural key"),
            ResolveError::MalformedResponse => String::from_str("Created item has no ID"),
            ResolveError::CreateFailed(cause) => cause.clone(),
        }
    }
}

impl Clone for ResolveError {
    fn clone(&self) -> (copy: Self)
        ensures
            copy == *self,
    {
        match self {
            ResolveError::InvalidKey => ResolveError::InvalidKey,
            ResolveError::MalformedResponse => ResolveError::MalformedResponse,
            ResolveError::CreateFailed(cause) => ResolveError::CreateFailed(cause.clone()),
        }
    }
}

/// What the registry is asked next on behalf of a resolution.
#[derive(Clone, Copy, Debug, PartialEq, Eq, Structural)]
pub enum ResolveAction {
    /// Create the draft at its endpoint.
    Create,
    /// List the endpoint, filtered by the draft's slug.
    Lookup,
}

/// Where the resolution of one draft stands.
#[derive(Debug, PartialEq, Eq)]
pub enum ResolveState {
    /// The cache did not know the draft; its creation has been asked for.
    Creating,
    /// The creation failed for the cause held; a lookup has been asked for.
    Searching(String),
    /// The draft carries this identifier.
    Resolved(u32),
    Failed(ResolveError),
}

impl Clone for ResolveState {
    fn clone(&self) -> (copy: Self)
        ensures
            copy == *self,
    {
        match self {
            ResolveState::Creating => ResolveState::Creating,
            ResolveState::Searching(cause) => ResolveState::Searching(cause.clone()),
            ResolveState::Resolved(id) => ResolveState::Resolved(*id),
            ResolveState::Failed(error) => ResolveState::Failed(error.clone()),
        }
    }
}

impl ResolveState {
    /// The request whose answer the resolution waits for, if it waits.
    pub open spec fn awaits(self) -> Option<ResolveAction> {
        match self {
            ResolveState::Creating => Some(ResolveAction::Create),
            ResolveState::Searching(_) => Some(ResolveAction::Lookup),
            _ => None,
        }
    }

    /// How the resolution ended, if it has.
    pub open spec fn outcome(self) -> Option<Result<u32, ResolveError>> {
        match self {
            ResolveState::Resolved(id) => Some(Ok(id)),
            ResolveState::Failed(error) => Some(Err(error)),
            _ => None,
        }
    }

    /// The request whose answer the resolution waits for, if it waits.
    pub fn action(&self) -> (action: Option<ResolveAction>)
        ensures
            action == self.awaits(),
    {
        match self {
            ResolveState::Creating => Some(ResolveAction::Create),
            ResolveState::Searching(_) => Some(ResolveAction::Lookup),
            _ => None,
        }
    }

    /// How the resolution ended, if it has.
    pub fn result(&self) -> (result: Option<Result<u32, ResolveError>>)
        ensures
            result == self.outcome(),
    {
        match self {
            ResolveState::Resolved(id) => Some(Ok(*id)),
            ResolveState::Failed(error) => Some(Err(error.clone())),
            _ => None,
        }
    }
}

/// What came back from the registry for a request made on behalf of a
/// resolution.
#[derive(Debug, PartialEq, Eq)]
pub enum RegistryReply<T> {
    /// The creation succeeded; this is the entity as the registry holds it.
    Created(T),
    /// The creation failed, for this cause.
    CreateRejected(String),
    /// The lookup by natural key returned these entities.
    Matches(Vec<T>),
    /// The lookup itself failed.
    LookupFailed(String),
}

/// The identifier that a table knows for a natural key.
pub open spec fn cached_id(table: Map<Seq<char>, Entity>, key: Seq<char>) -> Option<u32> {
    if table.contains_key(key) {
        table[key].id_of()
    } else {
        None
    }
}

/// The first step of a resolution: a draft without a natural key fails; a
/// draft whose key the table knows with an identifier takes that identifier
/// and is done; any other draft is to be created.
pub open spec fn begun<T: NetBoxModel>(table: Map<Seq<char>, Entity>, item: T) -> (
    T,
    ResolveState,
) {
    if item.cache_key().len() == 0 {
        (item, ResolveState::Failed(ResolveError::InvalidKey))
    } else {
        match cached_id(table, item.cache_key()) {
            Some(id) => (item.with_id(id), ResolveState::Resolved(id)),
            None => (item, ResolveState::Creating),
        }
    }
}

/// What becomes of a draft for which the registry has named one entity: with
/// an identifier, the draft takes it and the entity is filed under the draft's
/// key; without one, the resolution fails.
pub open spec fn adopted<T: NetBoxModel>(table: Map<Seq<char>, Entity>, item: T, found: T) -> (
    T,
    Map<Seq<char>, Entity>,
    ResolveState,
) {
    match found.id_of() {
        Some(id) => (
            item.with_id(id),
            table.insert(item.cache_key(), found.as_entity()),
            ResolveState::Resolved(id),
        ),
        None => (item, table, ResolveState::Failed(ResolveError::MalformedResponse)),
    }
}

/// One step of a resolution: the draft, the table and the state after the
/// registry's reply.
///
/// A created entity is adopted. A failed creation is followed by a lookup,
/// or ends the resolution where the fallback is switched off. A lookup that
/// singles out one entity has it adopted; any other lookup ends the resolution
/// with the cause of the failed creation. A reply that the state does not wait
/// for changes nothing.
pub open spec fn advanced<T: NetBoxModel>(
    table: Map<Seq<char>, Entity>,
    item: T,
    state: ResolveState,
    reply: RegistryReply<T>,
    fallback: bool,
) -> (T, Map<Seq<char>, Entity>, ResolveState) {
    match (state, reply) {
        (ResolveState::Creating, RegistryReply::Created(found)) => adopted(table, item, found),
        (ResolveState::Creating, RegistryReply::CreateRejected(cause)) => if fallback {
            (item, table, ResolveState::Searching(cause))
        } else {
            (item, table, ResolveState::Failed(ResolveError::CreateFailed(cause)))
        },
        (ResolveState::Searching(cause), RegistryReply::Matches(found)) => if found@.len() == 1 {
            adopted(table, item, found@[0])
        } else {
            (item, table, ResolveState::Failed(ResolveError::CreateFailed(cause)))
        },
        (ResolveState::Searching(cause), RegistryReply::LookupFailed(_)) => (
            item,
            table,
            ResolveState::Failed(ResolveError::CreateFailed(cause)),
        ),
        _ => (item, table, state),
    }
}

/// The request that a step gives rise to: the creation when a resolution
/// begins without a cache hit, the lookup when a creation has failed. A step
/// that leaves the resolution waiting as before asks nothing anew.
pub open spec fn asked(before: Option<ResolveState>, after: ResolveState) -> Option<ResolveAction> {
    match (before, after) {
        (None, ResolveState::Creating) => Some(ResolveAction::Create),
        (Some(ResolveState::Creating), ResolveState::Searching(_)) => Some(ResolveAction::Lookup),
        _ => None,
    }
}

/// The first step of a resolution against the tables of a cache.
pub open spec fn begun_in<T: NetBoxModel>(tables: Tables, item: T) -> (T, ResolveState) {
    begun(tables[T::kind()], item)
}

/// One step of a resolution against the tables of a cache.
pub open spec fn advanced_in<T: NetBoxModel>(
    tables: Tables,
    item: T,
    state: ResolveState,
    reply: RegistryReply<T>,
    fallback: bool,
) -> (T, Tables, ResolveState) {
    let (after, table, next) = advanced(tables[T::kind()], item, state, reply, fallback);
    (after, tables.insert(T::kind(), table), next)
}

impl LocalCache {
    fn adopt<T: NetBoxModel>(&mut self, item: &mut T, found: T) -> (state: ResolveState)
        ensures
            *final(item) == adopted(old(self)@[T::kind()], *old(item), found).0,
            final(self)@ == old(self)@.insert(
                T::kind(),
                adopted(old(self)@[T::kind()], *old(item), found).1,
            ),
            state == adopted(old(self)@[T::kind()], *old(item), found).2,
            final(self).fallback_lookup() == old(self).fallback_lookup(),
            old(self).wf() ==> final(self).wf(),
    {
        match found.get_id() {
            Some(id) => {
                let key = item.get_cache_key();
                item.set_id(id);
                self.put(key, found);
                ResolveState::Resolved(id)
            },
            None => {
                ResolveState::Failed(ResolveError::MalformedResponse)
            },
        }
    }

    /// Begins the resolution of a draft: looks its natural key up in the
    /// cache. On a hit that carries an identifier the draft takes it and
    /// nothing is asked of the registry; otherwise the draft is to be created.
    /// A draft whose natural key is empty is not resolved at all.
    pub fn ensure_cached<T: NetBoxModel>(&self, item: &mut T) -> (step: (
        ResolveState,
        Option<ResolveAction>,
    ))
        ensures
            (*final(item), step.0) == begun_in(self@, *old(item)),
            step.1 == asked(None, step.0),
    {
        let key = item.get_cache_key();
        if key.as_str().is_empty() {
            return (ResolveState::Failed(ResolveError::InvalidKey), None);
        }
        let cached = match self.get(T::get_kind(), key.as_str()) {
            Some(entity) => entity.get_id(),
            None => None,
        };
        match cached {
            Some(id) => {
                item.set_id(id);
                (ResolveState::Resolved(id), None)
            },
            None => (ResolveState::Creating, Some(ResolveAction::Create)),
        }
    }

    /// Takes a resolution one step further with what the registry replied,
    /// and says what is to be asked of the registry next, if anything.
    pub fn ensure_cached_reply<T: NetBoxModel>(
        &mut self,
        item: &mut T,
        state: ResolveState,
        reply: RegistryReply<T>,
    ) -> (step: (ResolveState, Option<ResolveAction>))
        ensures
            (*final(item), final(self)@, step.0) == advanced_in(
                old(self)@,
                *old(item),
                state,
                reply,
                old(self).fallback_lookup(),
            ),
            step.1 == asked(Some(state), step.0),
            final(self).fallback_lookup() == old(self).fallback_lookup(),
            old(self).wf() ==> final(self).wf(),
    {
        let lookup = match (&state, &reply) {
            (ResolveState::Creating, RegistryReply::CreateRejected(_)) => self.fallback,
            _ => false,
        };
        let next = self.advance(item, state, reply);
        (
            next,
            if lookup {
                Some(ResolveAction::Lookup)
            } else {
                None
            },
        )
    }

    fn advance<T: NetBoxModel>(
        &mut self,
        item: &mut T,
        state: ResolveState,
        reply: RegistryReply<T>,
    ) -> (next: ResolveState)
        ensures
            (*final(item), final(self)@, next) == advanced_in(
                old(self)@,
                *old(item),
                state,
                reply,
                old(self).fallback_lookup(),
            ),
            final(self).fallback_lookup() == old(self).fallback_lookup(),
            old(self).wf() ==> final(self).wf(),
    {
        match state {
            ResolveState::Creating => match reply {
                RegistryReply::Created(found) => self.adopt(item, found),
                RegistryReply::CreateRejected(cause) => if self.fallback {
                    ResolveState::Searching(cause)
                } else {
                    ResolveState::Failed(ResolveError::CreateFailed(cause))
                },
                _ => ResolveState::Creating,
            },
            ResolveState::Searching(cause) => match reply {
                RegistryReply::Matches(found) => {
                    let mut found = found;
                    if found.len() == 1 {
                        let single = found.pop();
                        match single {
                            Some(entity) => self.adopt(item, entity),
                            None => ResolveState::Failed(ResolveError::CreateFailed(cause)),
                        }
                    } else {
                        ResolveState::Failed(ResolveError::CreateFailed(cause))
                    }
                },
                RegistryReply::LookupFailed(_) => ResolveState::Failed(
                    ResolveError::CreateFailed(cause),
                ),
                _ => ResolveState::Searching(cause),
            },
            other => other,
        }
    }
}

/// A resolution that ends with an identifier leaves the draft carrying it and
/// the cache knowing it under the draft's key.
pub proof fn lemma_resolved_is_cached<T: NetBoxModel>(
    table: Map<Seq<char>, Entity>,
    item: T,
    state: ResolveState,
    reply: RegistryReply<T>,
    fallback: bool,
)
    requires
        state.awaits() is Some,
    ensures
        ({
            let (after, filed, next) = advanced(table, item, state, reply, fallback);
            &&& next matches ResolveState::Resolved(id) ==> after.id_of() == Some(id) && cached_id(
                filed,
                item.cache_key(),
            ) == Some(id) && after.cache_key() == item.cache_key()
            &&& !(next is Resolved) ==> after == item && filed == table
        }),
{
    let (after, filed, next) = advanced(table, item, state, reply, fallback);
    match next {
        ResolveState::Resolved(id) => {
            item.lemma_with_id(id);
            match (state, reply) {
                (ResolveState::Creating, RegistryReply::Created(found)) => {
                    found.lemma_as_entity();
                },
                (ResolveState::Searching(_), RegistryReply::Matches(found)) => {
                    found@[0].lemma_as_entity();
                },
                _ => {},
            }
        },
        _ => {},
    }
}

/// A draft without a natural key is turned away before anything is asked of
/// the registry or filed in the cache.
pub proof fn lemma_empty_key_is_invalid<T: NetBoxModel>(table: Map<Seq<char>, Entity>, item: T)
    requires
        item.cache_key().len() == 0,
    ensures
        begun(table, item) == (item, ResolveState::Failed(ResolveError::InvalidKey)),
        asked(None, begun(table, item).1) is None,
{
}

/// A resolution asks for a creation at most once, when it begins: no reply
/// makes it ask for another.
pub proof fn lemma_one_creation_per_resolution<T: NetBoxModel>(
    table: Map<Seq<char>, Entity>,
    item: T,
    state: ResolveState,
    reply: RegistryReply<T>,
    fallback: bool,
)
    ensures
        asked(Some(state), advanced(table, item, state, reply, fallback).2) != Some(
            ResolveAction::Create,
        ),
        asked(Some(state), advanced(table, item, state, reply, fallback).2) is Some ==> state
            is Creating && reply is CreateRejected && fallback,
{
}

/// A draft whose key the cache knows with an identifier is resolved without
/// a word to the registry.
pub proof fn lemma_cache_hit_asks_nothing<T: NetBoxModel>(table: Map<Seq<char>, Entity>, item: T)
    requires
        item.cache_key().len() > 0,
    ensures
        cached_id(table, item.cache_key()) matches Some(id) ==> begun(table, item).1
            == ResolveState::Resolved(id) && begun(table, item).0.id_of() == Some(id) && begun(
            table,
            item,
        ).1.awaits() is None,
        cached_id(table, item.cache_key()) is None ==> begun(table, item) == (
            item,
            ResolveState::Creating,
        ),
{
    match cached_id(table, item.cache_key()) {
        Some(id) => {
            item.lemma_with_id(id);
        },
        None => {},
    }
}

/// Resolution is idempotent: once a draft has been resolved through the
/// registry, a second draft of the same kind and natural key is resolved from
/// the cache alone, with no request to the registry, and both carry the same
/// identifier.
pub proof fn lemma_resolution_idempotent<T: NetBoxModel>(
    table: Map<Seq<char>, Entity>,
    first: T,
    second: T,
    state: ResolveState,
    reply: RegistryReply<T>,
    fallback: bool,
)
    requires
        first.cache_key() == second.cache_key(),
        first.cache_key().len() > 0,
        state.awaits() is Some,
        advanced(table, first, state, reply, fallback).2 is Resolved,
    ensures
        ({
            let (resolved, filed, _) = advanced(table, first, state, reply, fallback);
            let (again, ended) = begun(filed, second);
            &&& ended.awaits() is None
            &&& ended is Resolved
            &&& again.id_of() == resolved.id_of()
            &&& again.id_of() is Some
        }),
{
    lemma_resolved_is_cached(table, first, state, reply, fallback);
    let (resolved, filed, _) = advanced(table, first, state, reply, fallback);
    lemma_cache_hit_asks_nothing(filed, second);
}

/// A draft that the cache resolved leaves the cache as it was, so that a
/// second draft of the same key is resolved from it in the same way.
pub proof fn lemma_cache_hit_repeats<T: NetBoxModel>(
    table: Map<Seq<char>, Entity>,
    first: T,
    second: T,
)
    requires
        first.cache_key() == second.cache_key(),
        first.cache_key().len() > 0,
    ensures
        begun(table, first).1 == begun(table, second).1,
        begun(table, first).1 is Resolved ==> begun(table, first).0.id_of() == begun(
            table,
            second,
        ).0.id_of(),
{
    lemma_cache_hit_asks_nothing(table, first);
    lemma_cache_hit_asks_nothing(table, second);
}

/// What the registry listed of each kind before the run; nothing for a kind
/// whose listing failed.
#[derive(Debug, PartialEq, Eq)]
pub struct Preloaded {
    pub device_types: Option<Vec<DeviceType>>,
    pub manufacturers: Option<Vec<Manufacturer>>,
    pub roles: Option<Vec<DeviceRole>>,
    pub sites: Option<Vec<Site>>,
    pub tags: Option<Vec<Tag>>,
    pub platforms: Option<Vec<Platform>>,
    pub contacts: Option<Vec<Contact>>,
    pub virtual_machines: Option<Vec<VirtualMachine>>,
    pub devices: Option<Vec<Device>>,
}

/// A table after the entities have been filed in it, each under its natural
/// key, the first of them first: of two entities with one key the later
/// stays.
pub open spec fn loaded<T: NetBoxModel>(table: Map<Seq<char>, Entity>, items: Seq<T>) -> Map<
    Seq<char>,
    Entity,
>
    decreases items.len(),
{
    if items.len() == 0 {
        table
    } else {
        loaded(table, items.drop_last()).insert(
            items.last().cache_key(),
            items.last().as_entity(),
        )
    }
}

/// The table that a listing fills; empty where the listing failed.
pub open spec fn listed<T: NetBoxModel>(items: Option<Vec<T>>) -> Map<Seq<char>, Entity> {
    match items {
        Some(items) => loaded(Map::empty(), items@),
        None => Map::empty(),
    }
}

/// The tables of a cache warmed with what the registry listed.
pub open spec fn preloaded(fetched: Preloaded) -> Tables {
    Map::new(
        |kind: EntityKind| true,
        |kind: EntityKind|
            match kind {
                EntityKind::Manufacturer => listed(fetched.manufacturers),
                EntityKind::DeviceType => listed(fetched.device_types),
                EntityKind::DeviceRole => listed(fetched.roles),
                EntityKind::Site => listed(fetched.sites),
                EntityKind::Platform => listed(fetched.platforms),
                EntityKind::Tag => listed(fetched.tags),
                EntityKind::Contact => listed(fetched.contacts),
                EntityKind::VirtualMachine => listed(fetched.virtual_machines),
                EntityKind::Device => listed(fetched.devices),
                EntityKind::Ip4 => Map::empty(),
            },
    )
}

impl LocalCache {
    /// Files every entity of a listing under its natural key.
    pub fn load<T: NetBoxModel>(&mut self, items: Vec<T>)
        ensures
            final(self)@ == old(self)@.insert(T::kind(), loaded(old(self)@[T::kind()], items@)),
            final(self).fallback_lookup() == old(self).fallback_lookup(),
            old(self).wf() ==> final(self).wf(),
    {
        let ghost mut seen: Seq<T> = Seq::empty();
        for item in it: items
            invariant
                it.seq() == items@,
                seen == it.history(),
                self@ == old(self)@.insert(T::kind(), loaded(old(self)@[T::kind()], seen)),
                self.fallback_lookup() == old(self).fallback_lookup(),
                old(self).wf() ==> self.wf(),
        {
            proof {
                assert(seen.push(item).drop_last() =~= seen);
                seen = seen.push(item);
            }
            let key = item.get_cache_key();
            self.put(key, item);
        }
        proof {
            assert(seen =~= items@);
        }
    }

    fn load_listing<T: NetBoxModel>(&mut self, items: Option<Vec<T>>)
        requires
            old(self)@[T::kind()] == Map::<Seq<char>, Entity>::empty(),
        ensures
            final(self)@ == old(self)@.insert(T::kind(), listed(items)),
            final(self).fallback_lookup() == old(self).fallback_lookup(),
            old(self).wf() ==> final(self).wf(),
    {
        match items {
            Some(items) => {
                self.load(items);
            },
            None => {},
        }
    }

    /// A cache warmed with what the registry listed of each kind. A kind
    /// whose listing failed begins empty, which costs creations that the
    /// fallback lookup turns into adoptions, and nothing else.
    pub fn preload(fetched: Preloaded) -> (cache: Self)
        ensures
            cache@ == preloaded(fetched),
            cache.fallback_lookup(),
            cache.wf(),
    {
        let mut cache = Self::new();
        let Preloaded {
            device_types,
            manufacturers,
            roles,
            sites,
            tags,
            platforms,
            contacts,
            virtual_machines,
            devices,
        } = fetched;
        cache.load_listing(device_types);
        cache.load_listing(manufacturers);
        cache.load_listing(roles);
        cache.load_listing(sites);
        cache.load_listing(tags);
        cache.load_listing(platforms);
        cache.load_listing(contacts);
        cache.load_listing(virtual_machines);
        cache.load_listing(devices);
        cache
    }
}

/// A warmed cache knows what was listed: the identifier of an entity of the
/// listing is the one that the cache knows for its key, unless a later entity
/// of the listing has the same key.
pub proof fn lemma_loaded_is_known<T: NetBoxModel>(
    table: Map<Seq<char>, Entity>,
    items: Seq<T>,
    place: int,
)
    requires
        0 <= place < items.len(),
        forall|later: int|
            place < later < items.len() ==> (#[trigger] items[later]).cache_key()
                != items[place].cache_key(),
    ensures
        cached_id(loaded(table, items), items[place].cache_key()) == items[place].id_of(),
    decreases items.len(),
{
    items[place].lemma_as_entity();
    if place < items.len() - 1 {
        let before = items.drop_last();
        lemma_loaded_is_known(table, before, place);
    }
}

} // verus!
