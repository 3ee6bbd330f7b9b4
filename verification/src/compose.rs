//! The dependency composer: resolves the parts that a device refers to, each
//! parent before the child that embeds its identifier, the independent parts
//! side by side.

use crate::cache::{
    advanced_in, asked, begun_in, LocalCache, RegistryReply, ResolveAction, ResolveError,
    ResolveState, Tables,
};
use crate::netbox::models::{
    Device, DeviceRole, DeviceType, DeviceView, Entity, EntityView, Manufacturer, NetBoxModel,
    Platform, Site, Tag,
};
use vstd::prelude::*;

verus! {

/// A part of a device that the registry must know before the device.
#[derive(Clone, Copy, Debug, PartialEq, Eq, Structural)]
pub enum Component {
    Manufacturer,
    DeviceType,
    Role,
    Site,
    Platform,
    /// The tag at this place among the device's tags.
    Tag(usize),
}

/// A request to be made to the registry on behalf of a part.
#[derive(Clone, Copy, Debug, PartialEq, Eq, Structural)]
pub struct ComponentRequest {
    pub component: Component,
    pub action: ResolveAction,
}

/// The request for a part, where something is to be asked for it.
pub open spec fn request_for(component: Component, action: Option<ResolveAction>) -> Option<
    ComponentRequest,
> {
    match action {
        Some(action) => Some(ComponentRequest { component, action }),
        None => None,
    }
}

fn make_request(component: Component, action: Option<ResolveAction>) -> (request: Option<
    ComponentRequest,
>)
    ensures
        request == request_for(component, action),
{
    match action {
        Some(action) => Some(ComponentRequest { component, action }),
        None => None,
    }
}

/// Where the resolution of a device type stands: that of its manufacturer,
/// and its own once it has begun.
#[derive(Debug, PartialEq, Eq)]
pub struct DeviceTypeState {
    pub manufacturer: ResolveState,
    pub device_type: Option<ResolveState>,
}

/// A reply of the registry to a request made for a device type or for its
/// manufacturer.
#[derive(Debug, PartialEq, Eq)]
pub enum DeviceTypeReply {
    Manufacturer(RegistryReply<Manufacturer>),
    DeviceType(RegistryReply<DeviceType>),
}

impl DeviceTypeState {
    /// How the resolution ended, if it has: with the manufacturer's failure,
    /// or as the device type's own resolution ended.
    pub open spec fn outcome(self) -> Option<Result<u32, ResolveError>> {
        match self.manufacturer {
            ResolveState::Failed(error) => Some(Err(error)),
            ResolveState::Resolved(_) => match self.device_type {
                Some(own) => own.outcome(),
                None => None,
            },
            _ => None,
        }
    }

    /// The device type's own resolution has begun exactly if its
    /// manufacturer is resolved, and the manufacturer then carries its
    /// identifier.
    pub open spec fn ordered(self, item: DeviceType) -> bool {
        &&& self.device_type is Some <==> self.manufacturer is Resolved
        &&& self.manufacturer matches ResolveState::Resolved(id) ==> item.manufacturer.id == Some(
            id,
        )
    }

    /// How the resolution ended, if it has.
    pub fn result(&self) -> (result: Option<Result<u32, ResolveError>>)
        ensures
            result == self.outcome(),
    {
        match &self.manufacturer {
            ResolveState::Failed(error) => Some(Err(error.clone())),
            ResolveState::Resolved(_) => match &self.device_type {
                Some(own) => own.result(),
                None => None,
            },
            _ => None,
        }
    }
}

/// The first step for a device type: its manufacturer's resolution begins,
/// and its own only if the cache resolved the manufacturer at once.
pub open spec fn device_type_begun(tables: Tables, item: DeviceType) -> (
    DeviceType,
    DeviceTypeState,
) {
    let (maker, making) = begun_in(tables, item.manufacturer);
    let held = DeviceType { manufacturer: maker, ..item };
    if making is Resolved {
        let (own, state) = begun_in(tables, held);
        (own, DeviceTypeState { manufacturer: making, device_type: Some(state) })
    } else {
        (held, DeviceTypeState { manufacturer: making, device_type: None })
    }
}

/// One step for a device type. A reply for the manufacturer advances the
/// manufacturer's resolution, and begins the device type's own when the
/// manufacturer is thereby resolved. A reply for the device type advances its
/// own resolution, and is dropped where that has not begun.
pub open spec fn device_type_advanced(
    tables: Tables,
    item: DeviceType,
    state: DeviceTypeState,
    reply: DeviceTypeReply,
    fallback: bool,
) -> (DeviceType, Tables, DeviceTypeState) {
    match reply {
        DeviceTypeReply::Manufacturer(reply) => {
            let (maker, filed, making) = advanced_in(
                tables,
                item.manufacturer,
                state.manufacturer,
                reply,
                fallback,
            );
            let held = DeviceType { manufacturer: maker, ..item };
            if making is Resolved && state.device_type is None {
                let (own, begun) = begun_in(filed, held);
                (own, filed, DeviceTypeState { manufacturer: making, device_type: Some(begun) })
            } else {
                (held, filed, DeviceTypeState { manufacturer: making, ..state })
            }
        },
        DeviceTypeReply::DeviceType(reply) => match state.device_type {
            Some(own) => {
                let (after, filed, next) = advanced_in(tables, item, own, reply, fallback);
                (after, filed, DeviceTypeState { device_type: Some(next), ..state })
            },
            None => (item, tables, state),
        },
    }
}

/// The request that a step for a device type gives rise to.
pub open spec fn device_type_asked(before: Option<DeviceTypeState>, after: DeviceTypeState) -> Option<
    ComponentRequest,
> {
    let making = asked(
        match before {
            Some(state) => Some(state.manufacturer),
            None => None,
        },
        after.manufacturer,
    );
    let own = match after.device_type {
        Some(state) => asked(
            match before {
                Some(state) => state.device_type,
                None => None,
            },
            state,
        ),
        None => None,
    };
    if making is Some {
        request_for(Component::Manufacturer, making)
    } else {
        request_for(Component::DeviceType, own)
    }
}

/// Parents before children, at the beginning: the device type's own
/// resolution begins only with a manufacturer that carries its identifier.
pub proof fn lemma_device_type_begins_ordered(tables: Tables, item: DeviceType)
    ensures
        device_type_begun(tables, item).1.ordered(device_type_begun(tables, item).0),
{
}

/// Parents before children, at every step.
pub proof fn lemma_device_type_stays_ordered(
    tables: Tables,
    item: DeviceType,
    state: DeviceTypeState,
    reply: DeviceTypeReply,
    fallback: bool,
)
    requires
        state.ordered(item),
    ensures
        device_type_advanced(tables, item, state, reply, fallback).2.ordered(
            device_type_advanced(tables, item, state, reply, fallback).0,
        ),
{
}

/// Parents before children, in what is asked of the registry: nothing is
/// asked for a device type unless its manufacturer carries its identifier, and
/// nothing for both at once.
pub proof fn lemma_device_type_asked_after_manufacturer(
    before: Option<DeviceTypeState>,
    after: DeviceTypeState,
    item: DeviceType,
)
    requires
        after.ordered(item),
    ensures
        device_type_asked(before, after) matches Some(request) ==> (request.component
            == Component::DeviceType ==> item.manufacturer.id is Some && after.manufacturer
            is Resolved) && (request.component == Component::Manufacturer ==> after.device_type
            is None) && (request.component == Component::DeviceType || request.component
            == Component::Manufacturer),
{
}

impl LocalCache {
    /// Begins the resolution of a tag.
    pub fn ensure_tag(&self, tag: &mut Tag) -> (step: (ResolveState, Option<ResolveAction>))
        ensures
            (*final(tag), step.0) == begun_in(self@, *old(tag)),
            step.1 == asked(None, step.0),
    {
        self.ensure_cached(tag)
    }

    /// Begins the resolution of a manufacturer.
    pub fn ensure_manufacturer(&self, m: &mut Manufacturer) -> (step: (
        ResolveState,
        Option<ResolveAction>,
    ))
        ensures
            (*final(m), step.0) == begun_in(self@, *old(m)),
            step.1 == asked(None, step.0),
    {
        self.ensure_cached(m)
    }

    /// Begins the resolution of a platform.
    pub fn ensure_platform(&self, p: &mut Platform) -> (step: (
        ResolveState,
        Option<ResolveAction>,
    ))
        ensures
            (*final(p), step.0) == begun_in(self@, *old(p)),
            step.1 == asked(None, step.0),
    {
        self.ensure_cached(p)
    }

    /// Begins the resolution of a device role.
    pub fn ensure_role(&self, r: &mut DeviceRole) -> (step: (ResolveState, Option<ResolveAction>))
        ensures
            (*final(r), step.0) == begun_in(self@, *old(r)),
            step.1 == asked(None, step.0),
    {
        self.ensure_cached(r)
    }

    /// Begins the resolution of a site.
    pub fn ensure_site(&self, s: &mut Site) -> (step: (ResolveState, Option<ResolveAction>))
        ensures
            (*final(s), step.0) == begun_in(self@, *old(s)),
            step.1 == asked(None, step.0),
    {
        self.ensure_cached(s)
    }

    /// Begins the resolution of a device type: first its manufacturer, whose
    /// identifier the device type's own submission embeds.
    pub fn ensure_device_type(&self, d: &mut DeviceType) -> (step: (
        DeviceTypeState,
        Option<ComponentRequest>,
    ))
        ensures
            (*final(d), step.0) == device_type_begun(self@, *old(d)),
            step.1 == device_type_asked(None, step.0),
            step.0.ordered(*final(d)),
    {
        let (making, ask) = self.ensure_manufacturer(&mut d.manufacturer);
        match making {
            ResolveState::Resolved(id) => {
                let (own, ask) = self.ensure_cached(d);
                (
                    DeviceTypeState { manufacturer: making, device_type: Some(own) },
                    make_request(Component::DeviceType, ask),
                )
            },
            _ => (
                DeviceTypeState { manufacturer: making, device_type: None },
                make_request(Component::Manufacturer, ask),
            ),
        }
    }

    /// Takes the resolution of a device type one step further.
    pub fn ensure_device_type_reply(
        &mut self,
        d: &mut DeviceType,
        state: DeviceTypeState,
        reply: DeviceTypeReply,
    ) -> (step: (DeviceTypeState, Option<ComponentRequest>))
        ensures
            (*final(d), final(self)@, step.0) == device_type_advanced(
                old(self)@,
                *old(d),
                state,
                reply,
                old(self).fallback_lookup(),
            ),
            step.1 == device_type_asked(Some(state), step.0),
            state.ordered(*old(d)) ==> step.0.ordered(*final(d)),
            final(self).fallback_lookup() == old(self).fallback_lookup(),
            old(self).wf() ==> final(self).wf(),
    {
        let DeviceTypeState { manufacturer, device_type } = state;
        match reply {
            DeviceTypeReply::Manufacturer(reply) => {
                let (making, ask) = self.ensure_cached_reply(
                    &mut d.manufacturer,
                    manufacturer,
                    reply,
                );
                let begin = match (&making, &device_type) {
                    (ResolveState::Resolved(_), None) => true,
                    _ => false,
                };
                if begin {
                    let (own, ask) = self.ensure_cached(d);
                    (
                        DeviceTypeState { manufacturer: making, device_type: Some(own) },
                        make_request(Component::DeviceType, ask),
                    )
                } else {
                    (
                        DeviceTypeState { manufacturer: making, device_type },
                        make_request(Component::Manufacturer, ask),
                    )
                }
            },
            DeviceTypeReply::DeviceType(reply) => match device_type {
                Some(own) => {
                    let (next, ask) = self.ensure_cached_reply(d, own, reply);
                    (
                        DeviceTypeState { manufacturer, device_type: Some(next) },
                        make_request(Component::DeviceType, ask),
                    )
                },
                None => (DeviceTypeState { manufacturer, device_type: None }, None),
            },
        }
    }
}

/// The parts of a device that the registry must know before the device
/// itself.
pub struct DeviceParts {
    pub device_type: Option<DeviceType>,
    pub role: Option<DeviceRole>,
    pub site: Option<Site>,
    pub platform: Option<Platform>,
    pub tags: Option<Seq<Tag>>,
}

/// The parts of a device.
pub open spec fn parts_of(device: Device) -> DeviceParts {
    DeviceParts {
        device_type: device.device_type,
        role: device.role,
        site: device.site,
        platform: device.platform,
        tags: match device.tags {
            Some(tags) => Some(tags@),
            None => None,
        },
    }
}

/// The part of a device that a component names, if the device has it.
pub open spec fn component_of(device: DeviceView, component: Component) -> Option<EntityView> {
    match component {
        Component::Manufacturer => match device.device_type {
            Some(item) => Some(EntityView::Manufacturer(item.manufacturer)),
            None => None,
        },
        Component::DeviceType => match device.device_type {
            Some(item) => Some(EntityView::DeviceType(item)),
            None => None,
        },
        Component::Role => match device.role {
            Some(item) => Some(EntityView::DeviceRole(item)),
            None => None,
        },
        Component::Site => match device.site {
            Some(item) => Some(EntityView::Site(item)),
            None => None,
        },
        Component::Platform => match device.platform {
            Some(item) => Some(EntityView::Platform(item)),
            None => None,
        },
        Component::Tag(place) => match device.tags {
            Some(tags) => if place < tags.len() {
                Some(EntityView::Tag(tags[place as int]))
            } else {
                None
            },
            None => None,
        },
    }
}

/// What was found, as what it says.
pub open spec fn part_view(part: Option<Entity>) -> Option<EntityView> {
    match part {
        Some(entity) => Some(entity@),
        None => None,
    }
}

impl Device {
    /// A copy of the part of the device that a component names, to be sent to
    /// the registry on the part's behalf.
    pub fn component(&self, component: Component) -> (part: Option<Entity>)
        ensures
            part_view(part) == component_of(self@, component),
    {
        match component {
            Component::Manufacturer => match &self.device_type {
                Some(item) => Some(Entity::Manufacturer(item.manufacturer.clone())),
                None => None,
            },
            Component::DeviceType => match &self.device_type {
                Some(item) => Some(Entity::DeviceType(item.clone())),
                None => None,
            },
            Component::Role => match &self.role {
                Some(item) => Some(Entity::DeviceRole(item.clone())),
                None => None,
            },
            Component::Site => match &self.site {
                Some(item) => Some(Entity::Site(item.clone())),
                None => None,
            },
            Component::Platform => match &self.platform {
                Some(item) => Some(Entity::Platform(item.clone())),
                None => None,
            },
            Component::Tag(place) => match &self.tags {
                Some(tags) => if place < tags.len() {
                    Some(Entity::Tag(tags[place].clone()))
                } else {
                    None
                },
                None => None,
            },
        }
    }
}

/// Two devices agree in all that is not a part to be resolved.
pub open spec fn same_core(a: Device, b: Device) -> bool {
    &&& a.name == b.name
    &&& a.id == b.id
    &&& a.status == b.status
    &&& a.serial == b.serial
    &&& a.primary_ip4 == b.primary_ip4
}

/// Where the resolution of a device's parts stands: one state for each part
/// that the device has, and one for each of its tags.
#[derive(Debug, PartialEq, Eq)]
pub struct ComponentsState {
    pub device_type: Option<DeviceTypeState>,
    pub role: Option<ResolveState>,
    pub site: Option<ResolveState>,
    pub platform: Option<ResolveState>,
    pub tags: Vec<ResolveState>,
}

/// Where the resolution of a device's parts stands, with the states of the
/// tags as a sequence.
pub struct ComponentsView {
    pub device_type: Option<DeviceTypeState>,
    pub role: Option<ResolveState>,
    pub site: Option<ResolveState>,
    pub platform: Option<ResolveState>,
    pub tags: Seq<ResolveState>,
}

impl View for ComponentsState {
    type V = ComponentsView;

    open spec fn view(&self) -> ComponentsView {
        ComponentsView {
            device_type: self.device_type,
            role: self.role,
            site: self.site,
            platform: self.platform,
            tags: self.tags@,
        }
    }
}

/// A reply of the registry to a request made for a part of a device.
#[derive(Debug, PartialEq, Eq)]
pub enum ComponentReply {
    DeviceType(DeviceTypeReply),
    Role(RegistryReply<DeviceRole>),
    Site(RegistryReply<Site>),
    Platform(RegistryReply<Platform>),
    /// For the tag at this place among the device's tags.
    Tag(usize, RegistryReply<Tag>),
}

/// The first step for a part that a device may lack.
pub open spec fn part_begun<T: NetBoxModel>(tables: Tables, part: Option<T>) -> (
    Option<T>,
    Option<ResolveState>,
) {
    match part {
        Some(item) => {
            let (after, state) = begun_in(tables, item);
            (Some(after), Some(state))
        },
        None => (None, None),
    }
}

/// The first step for the parts of a device: every part begins its
/// resolution against the same cache, none waiting for another.
pub open spec fn components_begun(tables: Tables, parts: DeviceParts) -> (
    DeviceParts,
    ComponentsView,
) {
    let (device_type, typing) = match parts.device_type {
        Some(item) => {
            let (after, state) = device_type_begun(tables, item);
            (Some(after), Some(state))
        },
        None => (None, None),
    };
    let (role, roling) = part_begun(tables, parts.role);
    let (site, siting) = part_begun(tables, parts.site);
    let (platform, running) = part_begun(tables, parts.platform);
    let (tags, tagging) = match parts.tags {
        Some(tags) => (
            Some(Seq::new(tags.len(), |i: int| begun_in(tables, tags[i]).0)),
            Seq::new(tags.len(), |i: int| begun_in(tables, tags[i]).1),
        ),
        None => (None, Seq::empty()),
    };
    (
        DeviceParts { device_type, role, site, platform, tags },
        ComponentsView {
            device_type: typing,
            role: roling,
            site: siting,
            platform: running,
            tags: tagging,
        },
    )
}

/// The one request, or none, as a list.
pub open spec fn listed(request: Option<ComponentRequest>) -> Seq<ComponentRequest> {
    match request {
        Some(request) => seq![request],
        None => Seq::empty(),
    }
}

/// The request with which a part opens, if the cache did not resolve it.
pub open spec fn part_opening(component: Component, state: Option<ResolveState>) -> Option<
    ComponentRequest,
> {
    match state {
        Some(state) => request_for(component, asked(None, state)),
        None => None,
    }
}

/// The requests with which the tags open, in the tags' order.
pub open spec fn tags_opening(states: Seq<ResolveState>) -> Seq<ComponentRequest>
    decreases states.len(),
{
    if states.len() == 0 {
        Seq::empty()
    } else {
        tags_opening(states.drop_last()) + listed(
            request_for(
                Component::Tag((states.len() - 1) as usize),
                asked(None, states.last()),
            ),
        )
    }
}

/// The requests with which the resolution of a device's parts opens: one for
/// each part that the cache did not resolve, to be made side by side.
pub open spec fn components_opening(state: ComponentsView) -> Seq<ComponentRequest> {
    listed(
        match state.device_type {
            Some(state) => device_type_asked(None, state),
            None => None,
        },
    ) + listed(part_opening(Component::Role, state.role)) + listed(
        part_opening(Component::Site, state.site),
    ) + listed(part_opening(Component::Platform, state.platform)) + tags_opening(state.tags)
}

/// One step for a part that a device may lack; a reply for a part that the
/// device lacks is dropped.
pub open spec fn part_advanced<T: NetBoxModel>(
    tables: Tables,
    part: Option<T>,
    state: Option<ResolveState>,
    reply: RegistryReply<T>,
    fallback: bool,
) -> (Option<T>, Tables, Option<ResolveState>) {
    match (part, state) {
        (Some(item), Some(held)) => {
            let (after, filed, next) = advanced_in(tables, item, held, reply, fallback);
            (Some(after), filed, Some(next))
        },
        _ => (part, tables, state),
    }
}

/// One step for the parts of a device: the reply goes to the part that it
/// names and to no other.
pub open spec fn components_advanced(
    tables: Tables,
    parts: DeviceParts,
    state: ComponentsView,
    reply: ComponentReply,
    fallback: bool,
) -> (DeviceParts, Tables, ComponentsView) {
    match reply {
        ComponentReply::DeviceType(reply) => match (parts.device_type, state.device_type) {
            (Some(item), Some(held)) => {
                let (after, filed, next) = device_type_advanced(
                    tables,
                    item,
                    held,
                    reply,
                    fallback,
                );
                (
                    DeviceParts { device_type: Some(after), ..parts },
                    filed,
                    ComponentsView { device_type: Some(next), ..state },
                )
            },
            _ => (parts, tables, state),
        },
        ComponentReply::Role(reply) => {
            let (after, filed, next) = part_advanced(
                tables,
                parts.role,
                state.role,
                reply,
                fallback,
            );
            (DeviceParts { role: after, ..parts }, filed, ComponentsView { role: next, ..state })
        },
        ComponentReply::Site(reply) => {
            let (after, filed, next) = part_advanced(
                tables,
                parts.site,
                state.site,
                reply,
                fallback,
            );
            (DeviceParts { site: after, ..parts }, filed, ComponentsView { site: next, ..state })
        },
        ComponentReply::Platform(reply) => {
            let (after, filed, next) = part_advanced(
                tables,
                parts.platform,
                state.platform,
                reply,
                fallback,
            );
            (
                DeviceParts { platform: after, ..parts },
                filed,
                ComponentsView { platform: next, ..state },
            )
        },
        ComponentReply::Tag(place, reply) => match parts.tags {
            Some(tags) => if place < tags.len() && place < state.tags.len() {
                let (after, filed, next) = advanced_in(
                    tables,
                    tags[place as int],
                    state.tags[place as int],
                    reply,
                    fallback,
                );
                (
                    DeviceParts { tags: Some(tags.update(place as int, after)), ..parts },
                    filed,
                    ComponentsView { tags: state.tags.update(place as int, next), ..state },
                )
            } else {
                (parts, tables, state)
            },
            None => (parts, tables, state),
        },
    }
}

/// The request that a part's step gives rise to.
pub open spec fn part_asked(
    component: Component,
    before: Option<ResolveState>,
    after: Option<ResolveState>,
) -> Option<ComponentRequest> {
    match (before, after) {
        (Some(before), Some(after)) => request_for(component, asked(Some(before), after)),
        _ => None,
    }
}

/// The request that a step for the parts of a device gives rise to: what the
/// part that the reply names asks next, if anything.
pub open spec fn components_asked(
    before: ComponentsView,
    after: ComponentsView,
    reply: ComponentReply,
) -> Option<ComponentRequest> {
    match reply {
        ComponentReply::DeviceType(_) => match (before.device_type, after.device_type) {
            (Some(before), Some(after)) => device_type_asked(Some(before), after),
            _ => None,
        },
        ComponentReply::Role(_) => part_asked(Component::Role, before.role, after.role),
        ComponentReply::Site(_) => part_asked(Component::Site, before.site, after.site),
        ComponentReply::Platform(_) => part_asked(
            Component::Platform,
            before.platform,
            after.platform,
        ),
        ComponentReply::Tag(place, _) => if place < before.tags.len() && place
            < after.tags.len() {
            request_for(
                Component::Tag(place),
                asked(Some(before.tags[place as int]), after.tags[place as int]),
            )
        } else {
            None
        },
    }
}

/// How each part's resolution ended, if it has, in the order device type,
/// role, site, platform, tags.
pub open spec fn branch_outcomes(state: ComponentsView) -> Seq<Option<Result<u32, ResolveError>>> {
    (match state.device_type {
        Some(state) => seq![state.outcome()],
        None => Seq::empty(),
    }) + (match state.role {
        Some(state) => seq![state.outcome()],
        None => Seq::empty(),
    }) + (match state.site {
        Some(state) => seq![state.outcome()],
        None => Seq::empty(),
    }) + (match state.platform {
        Some(state) => seq![state.outcome()],
        None => Seq::empty(),
    }) + Seq::new(state.tags.len(), |i: int| state.tags[i].outcome())
}

/// The error of the first part, in the parts' order, that failed.
pub open spec fn first_error(outcomes: Seq<Option<Result<u32, ResolveError>>>) -> Option<
    ResolveError,
>
    decreases outcomes.len(),
{
    if outcomes.len() == 0 {
        None
    } else {
        match first_error(outcomes.drop_last()) {
            Some(error) => Some(error),
            None => match outcomes.last() {
                Some(Err(error)) => Some(error),
                _ => None,
            },
        }
    }
}

/// Whether some part still waits for the registry.
pub open spec fn any_pending(outcomes: Seq<Option<Result<u32, ResolveError>>>) -> bool {
    exists|i: int| 0 <= i < outcomes.len() && #[trigger] outcomes[i] is None
}

/// The parts taken together: nothing while any part still waits; then the
/// first failure in the parts' order, or success where none failed.
pub open spec fn joined(outcomes: Seq<Option<Result<u32, ResolveError>>>) -> Option<
    Result<(), ResolveError>,
> {
    if any_pending(outcomes) {
        None
    } else {
        match first_error(outcomes) {
            Some(error) => Some(Err(error)),
            None => Some(Ok(())),
        }
    }
}

/// Whether the parts are resolved in dependency order.
pub open spec fn components_ordered(state: ComponentsView, parts: DeviceParts) -> bool {
    match (state.device_type, parts.device_type) {
        (Some(state), Some(item)) => state.ordered(item),
        _ => true,
    }
}

fn join(outcomes: &Vec<Option<Result<u32, ResolveError>>>) -> (result: Option<
    Result<(), ResolveError>,
>)
    ensures
        result == joined(outcomes@),
{
    let mut first: Option<ResolveError> = None;
    let mut i: usize = 0;
    while i < outcomes.len()
        invariant
            i <= outcomes.len(),
            !any_pending(outcomes@.take(i as int)),
            first == first_error(outcomes@.take(i as int)),
        decreases outcomes.len() - i,
    {
        proof {
            assert(outcomes@.take(i + 1).drop_last() =~= outcomes@.take(i as int));
        }
        match &outcomes[i] {
            None => {
                return None;
            },
            Some(Err(error)) => {
                if first.is_none() {
                    first = Some(error.clone());
                }
            },
            Some(Ok(_)) => {},
        }
        i += 1;
    }
    proof {
        assert(outcomes@.take(i as int) =~= outcomes@);
    }
    match first {
        Some(error) => Some(Err(error)),
        None => Some(Ok(())),
    }
}

impl ComponentsState {
    /// How the resolution of the parts ended, if it has.
    pub fn result(&self) -> (result: Option<Result<(), ResolveError>>)
        ensures
            result == joined(branch_outcomes(self@)),
    {
        let mut outcomes: Vec<Option<Result<u32, ResolveError>>> = Vec::new();
        match &self.device_type {
            Some(state) => {
                outcomes.push(state.result());
            },
            None => {},
        }
        match &self.role {
            Some(state) => {
                outcomes.push(state.result());
            },
            None => {},
        }
        match &self.site {
            Some(state) => {
                outcomes.push(state.result());
            },
            None => {},
        }
        match &self.platform {
            Some(state) => {
                outcomes.push(state.result());
            },
            None => {},
        }
        let ghost fixed = outcomes@;
        let mut i: usize = 0;
        while i < self.tags.len()
            invariant
                i <= self.tags.len(),
                outcomes@ == fixed + Seq::new(i as nat, |k: int| self.tags@[k].outcome()),
            decreases self.tags.len() - i,
        {
            outcomes.push(self.tags[i].result());
            i += 1;
        }
        proof {
            assert(outcomes@ =~= branch_outcomes(self@));
        }
        join(&outcomes)
    }
}

fn push_request(requests: &mut Vec<ComponentRequest>, request: Option<ComponentRequest>)
    ensures
        final(requests)@ == old(requests)@ + listed(request),
{
    match request {
        Some(request) => {
            requests.push(request);
        },
        None => {},
    }
}

impl LocalCache {
    fn ensure_tags(&self, tags: &mut Vec<Tag>, requests: &mut Vec<ComponentRequest>) -> (states:
        Vec<ResolveState>)
        ensures
            final(tags)@ == Seq::new(old(tags)@.len(), |i: int| begun_in(self@, old(tags)@[i]).0),
            states@ == Seq::new(old(tags)@.len(), |i: int| begun_in(self@, old(tags)@[i]).1),
            final(requests)@ == old(requests)@ + tags_opening(states@),
    {
        let mut states: Vec<ResolveState> = Vec::new();
        let mut i: usize = 0;
        while i < tags.len()
            invariant
                i <= tags.len(),
                tags@.len() == old(tags)@.len(),
                states@.len() == i,
                forall|k: int| 0 <= k < i ==> #[trigger] tags@[k] == begun_in(self@, old(tags)@[k]).0,
                forall|k: int| i <= k < tags@.len() ==> #[trigger] tags@[k] == old(tags)@[k],
                forall|k: int| 0 <= k < i ==> #[trigger] states@[k] == begun_in(self@, old(tags)@[k]).1,
                requests@ == old(requests)@ + tags_opening(states@),
            decreases tags.len() - i,
        {
            let ghost before = states@;
            let (state, ask) = self.ensure_tag(&mut tags[i]);
            states.push(state);
            proof {
                assert(states@.drop_last() =~= before);
            }
            push_request(requests, make_request(Component::Tag(i), ask));
            proof {
                assert(requests@ =~= old(requests)@ + tags_opening(states@));
            }
            i += 1;
        }
        states
    }

    /// Begins the resolution of everything that a device refers to: device
    /// type, role, site, platform and tags, none waiting for another. The
    /// requests returned are to be made side by side.
    pub fn ensure_device_components(&self, device: &mut Device) -> (step: (
        ComponentsState,
        Vec<ComponentRequest>,
    ))
        ensures
            (parts_of(*final(device)), step.0@) == components_begun(self@, parts_of(*old(device))),
            same_core(*final(device), *old(device)),
            step.1@ == components_opening(step.0@),
            components_ordered(step.0@, parts_of(*final(device))),
    {
        let mut requests: Vec<ComponentRequest> = Vec::new();
        let device_type = match &mut device.device_type {
            Some(item) => {
                let (state, ask) = self.ensure_device_type(item);
                push_request(&mut requests, ask);
                Some(state)
            },
            None => None,
        };
        let role = match &mut device.role {
            Some(item) => {
                let (state, ask) = self.ensure_role(item);
                push_request(&mut requests, make_request(Component::Role, ask));
                Some(state)
            },
            None => None,
        };
        let site = match &mut device.site {
            Some(item) => {
                let (state, ask) = self.ensure_site(item);
                push_request(&mut requests, make_request(Component::Site, ask));
                Some(state)
            },
            None => None,
        };
        let platform = match &mut device.platform {
            Some(item) => {
                let (state, ask) = self.ensure_platform(item);
                push_request(&mut requests, make_request(Component::Platform, ask));
                Some(state)
            },
            None => None,
        };
        let tags = match &mut device.tags {
            Some(tags) => self.ensure_tags(tags, &mut requests),
            None => Vec::new(),
        };
        let state = ComponentsState { device_type, role, site, platform, tags };
        (state, requests)
    }

    /// Takes the resolution of a device's parts one step further with a reply
    /// of the registry for one of them.
    pub fn ensure_device_components_reply(
        &mut self,
        device: &mut Device,
        state: ComponentsState,
        reply: ComponentReply,
    ) -> (step: (ComponentsState, Option<ComponentRequest>))
        ensures
            (parts_of(*final(device)), final(self)@, step.0@) == components_advanced(
                old(self)@,
                parts_of(*old(device)),
                state@,
                reply,
                old(self).fallback_lookup(),
            ),
            same_core(*final(device), *old(device)),
            step.1 == components_asked(state@, step.0@, reply),
            components_ordered(state@, parts_of(*old(device))) ==> components_ordered(
                step.0@,
                parts_of(*final(device)),
            ),
            final(self).fallback_lookup() == old(self).fallback_lookup(),
            old(self).wf() ==> final(self).wf(),
    {
        let ComponentsState { device_type, role, site, platform, tags } = state;
        let mut tags = tags;
        match reply {
            ComponentReply::DeviceType(reply) => match (&mut device.device_type, device_type) {
                (Some(item), Some(held)) => {
                    let (next, ask) = self.ensure_device_type_reply(item, held, reply);
                    (ComponentsState { device_type: Some(next), role, site, platform, tags }, ask)
                },
                (_, device_type) => (
                    ComponentsState { device_type, role, site, platform, tags },
                    None,
                ),
            },
            ComponentReply::Role(reply) => match (&mut device.role, role) {
                (Some(item), Some(held)) => {
                    let (next, ask) = self.ensure_cached_reply(item, held, reply);
                    (
                        ComponentsState { device_type, role: Some(next), site, platform, tags },
                        make_request(Component::Role, ask),
                    )
                },
                (_, role) => (ComponentsState { device_type, role, site, platform, tags }, None),
            },
            ComponentReply::Site(reply) => match (&mut device.site, site) {
                (Some(item), Some(held)) => {
                    let (next, ask) = self.ensure_cached_reply(item, held, reply);
                    (
                        ComponentsState { device_type, role, site: Some(next), platform, tags },
                        make_request(Component::Site, ask),
                    )
                },
                (_, site) => (ComponentsState { device_type, role, site, platform, tags }, None),
            },
            ComponentReply::Platform(reply) => match (&mut device.platform, platform) {
                (Some(item), Some(held)) => {
                    let (next, ask) = self.ensure_cached_reply(item, held, reply);
                    (
                        ComponentsState { device_type, role, site, platform: Some(next), tags },
                        make_request(Component::Platform, ask),
                    )
                },
                (_, platform) => (
                    ComponentsState { device_type, role, site, platform, tags },
                    None,
                ),
            },
            ComponentReply::Tag(place, reply) => {
                let ask = match &mut device.tags {
                    Some(list) => {
                        if place < list.len() && place < tags.len() {
                            let held = tags[place].clone();
                            let (next, ask) = self.ensure_cached_reply(
                                &mut list[place],
                                held,
                                reply,
                            );
                            tags.set(place, next);
                            make_request(Component::Tag(place), ask)
                        } else {
                            None
                        }
                    },
                    None => None,
                };
                (ComponentsState { device_type, role, site, platform, tags }, ask)
            },
        }
    }
}

/// A part and its state belong together: the part is there exactly if it
/// has a state, and a part whose resolution ended with an identifier carries
/// it.
pub open spec fn part_sound<T: NetBoxModel>(state: Option<ResolveState>, part: Option<T>) -> bool {
    &&& state is Some <==> part is Some
    &&& state matches Some(ResolveState::Resolved(id)) ==> part->0.id_of() == Some(id)
}

/// The parts of a device and their states belong together, and the device
/// type is resolved after its manufacturer.
pub open spec fn components_sound(state: ComponentsView, parts: DeviceParts) -> bool {
    &&& state.device_type is Some <==> parts.device_type is Some
    &&& state.device_type matches Some(held) ==> held.ordered(parts.device_type->0) && (
    held.device_type matches Some(ResolveState::Resolved(id)) ==> parts.device_type->0.id == Some(
        id,
    ))
    &&& part_sound(state.role, parts.role)
    &&& part_sound(state.site, parts.site)
    &&& part_sound(state.platform, parts.platform)
    &&& match parts.tags {
        Some(tags) => state.tags.len() == tags.len() && forall|i: int|
            0 <= i < tags.len() ==> ((#[trigger] state.tags[i]) matches ResolveState::Resolved(id)
                ==> tags[i].id == Some(id)),
        None => state.tags.len() == 0,
    }
}

/// The parts of a device and their states belong together from the first
/// step on.
pub proof fn lemma_components_begin_sound(tables: Tables, parts: DeviceParts)
    ensures
        components_sound(components_begun(tables, parts).1, components_begun(tables, parts).0),
{
}

/// Every step keeps the parts of a device and their states together.
pub proof fn lemma_components_stay_sound(
    tables: Tables,
    parts: DeviceParts,
    state: ComponentsView,
    reply: ComponentReply,
    fallback: bool,
)
    requires
        components_sound(state, parts),
    ensures
        components_sound(
            components_advanced(tables, parts, state, reply, fallback).2,
            components_advanced(tables, parts, state, reply, fallback).0,
        ),
{
}

/// Once the parts have all ended well, every part that the device has
/// carries its identifier: the device type with its manufacturer, the role,
/// the site, the platform and every tag.
pub proof fn lemma_joined_parts_are_resolved(state: ComponentsView, parts: DeviceParts)
    requires
        components_sound(state, parts),
        joined(branch_outcomes(state)) == Some(Ok::<(), ResolveError>(())),
    ensures
        parts.device_type matches Some(item) ==> item.id is Some && item.manufacturer.id is Some,
        parts.role matches Some(item) ==> item.id is Some,
        parts.site matches Some(item) ==> item.id is Some,
        parts.platform matches Some(item) ==> item.id is Some,
        parts.tags matches Some(tags) ==> forall|i: int|
            0 <= i < tags.len() ==> (#[trigger] tags[i]).id is Some,
{
    let outcomes = branch_outcomes(state);
    let a: Seq<Option<Result<u32, ResolveError>>> = match state.device_type {
        Some(held) => seq![held.outcome()],
        None => Seq::empty(),
    };
    let b: Seq<Option<Result<u32, ResolveError>>> = match state.role {
        Some(held) => seq![held.outcome()],
        None => Seq::empty(),
    };
    let c: Seq<Option<Result<u32, ResolveError>>> = match state.site {
        Some(held) => seq![held.outcome()],
        None => Seq::empty(),
    };
    let d: Seq<Option<Result<u32, ResolveError>>> = match state.platform {
        Some(held) => seq![held.outcome()],
        None => Seq::empty(),
    };
    let e = Seq::new(state.tags.len(), |i: int| state.tags[i].outcome());
    assert(outcomes == a + b + c + d + e);
    assert forall|k: int| 0 <= k < outcomes.len() implies (#[trigger] outcomes[k]) matches Some(
        Ok(_),
    ) by {
        lemma_no_error_no_failure(outcomes, k);
    }
    if state.site is Some {
        assert(outcomes[(a.len() + b.len()) as int] == c[0]);
    }
    if state.platform is Some {
        assert(outcomes[(a.len() + b.len() + c.len()) as int] == d[0]);
    }
    match parts.tags {
        Some(tags) => {
            assert forall|i: int| 0 <= i < tags.len() implies (#[trigger] tags[i]).id is Some by {
                let at = (a.len() + b.len() + c.len() + d.len()) as int + i;
                assert(outcomes[at] == e[i]);
            }
        },
        None => {},
    }
}

/// Where no part failed, no outcome is a failure.
proof fn lemma_no_error_no_failure(outcomes: Seq<Option<Result<u32, ResolveError>>>, k: int)
    requires
        first_error(outcomes) is None,
        0 <= k < outcomes.len(),
    ensures
        !(outcomes[k] matches Some(Err(_))),
    decreases outcomes.len(),
{
    if k < outcomes.len() - 1 {
        lemma_no_error_no_failure(outcomes.drop_last(), k);
    }
}

} // verus!
