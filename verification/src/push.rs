//! Pushing one device to the registry: its parts first, then the device
//! itself, created where it is new and updated where the cache knows it.

use crate::cache::{cached_id, filed, LocalCache, ResolveError, Tables};
use crate::compose::{
    branch_outcomes, components_advanced, components_asked, components_begun, components_opening,
    components_ordered, components_sound, joined, lemma_joined_parts_are_resolved, parts_of,
    ComponentReply, ComponentRequest, ComponentsState, ComponentsView,
};
use crate::netbox::models::{
    Device, Entity, EntityKind, NetBoxModel, PostDevice, PostDeviceView,
};
use crate::netbox::post::{components_resolved, postable, PostDeviceError};
use crate::utils::lowercase_of;
use vstd::prelude::*;

verus! {

/// Why a device was not pushed.
#[derive(Debug, PartialEq, Eq)]
pub enum PushError {
    /// The device has no name to go by.
    InvalidKey,
    /// A part of the device could not be resolved.
    Component(ResolveError),
    /// The parts were resolved, and still the device cannot be submitted.
    NotPostable(PostDeviceError),
    /// The registry refused the device, for this cause.
    SubmitFailed(String),
    /// The registry created the device and answered without an identifier.
    MalformedResponse,
}

impl PushError {
    /// The error in words: what was being done, then the cause.
    pub open spec fn text(self) -> Seq<char> {
        match self {
            PushError::InvalidKey => "Device has an empty natural key"@,
            PushError::Component(error) => "While ensuring sub-objects: "@ + error.text(),
            PushError::NotPostable(error) => "Failed to build PostDevice: "@ + error.text(),
            PushError::SubmitFailed(cause) => "Submitting device: "@ + cause@,
            PushError::MalformedResponse => "NetBox must return an ID"@,
        }
    }

    pub fn message(&self) -> (text: String)
        ensures
            text@ == self.text(),
    {
        match self {
            PushError::InvalidKey => String::from_str("Device has an empty natural key"),
            PushError::Component(error) => {
                let mut text = String::from_str("While ensuring sub-objects: ");
                text.append(error.message().as_str());
                text
            },
            PushError::NotPostable(error) => {
                let mut text = String::from_str("Failed to build PostDevice: ");
                text.append(error.message().as_str());
                text
            },
            PushError::SubmitFailed(cause) => {
                let mut text = String::from_str("Submitting device: ");
                text.append(cause.as_str());
                text
            },
            PushError::MalformedResponse => String::from_str("NetBox must return an ID"),
        }
    }
}

/// How far the push of a device has come.
#[derive(Debug, PartialEq, Eq)]
pub enum PushStage {
    /// Parts of the device still wait for the registry.
    Resolving,
    /// The device has been submitted and the answer is awaited.
    Submitting,
    /// The registry holds the device under this identifier.
    Done(u32),
    Failed(PushError),
}

/// Where the push of a device stands.
#[derive(Debug, PartialEq, Eq)]
pub struct PushState {
    pub stage: PushStage,
    pub components: ComponentsState,
}

/// Where the push of a device stands, with the states of the tags as a
/// sequence.
pub struct PushView {
    pub stage: PushStage,
    pub components: ComponentsView,
}

impl PushState {
    /// How the push ended, if it has.
    pub open spec fn outcome(self) -> Option<Result<u32, PushError>> {
        match self.stage {
            PushStage::Done(id) => Some(Ok(id)),
            PushStage::Failed(error) => Some(Err(error)),
            _ => None,
        }
    }

    /// How the push ended, if it has.
    pub fn result(self) -> (result: Option<Result<u32, PushError>>)
        ensures
            result == self.outcome(),
    {
        match self.stage {
            PushStage::Done(id) => Some(Ok(id)),
            PushStage::Failed(error) => Some(Err(error)),
            _ => None,
        }
    }

    /// Whether the push has ended.
    pub fn is_over(&self) -> (over: bool)
        ensures
            over == self.outcome() is Some,
    {
        match &self.stage {
            PushStage::Done(_) => true,
            PushStage::Failed(_) => true,
            _ => false,
        }
    }
}

impl View for PushState {
    type V = PushView;

    open spec fn view(&self) -> PushView {
        PushView { stage: self.stage, components: self.components@ }
    }
}

/// A reply of the registry to a request made on behalf of a push.
#[derive(Debug, PartialEq, Eq)]
pub enum PushReply {
    Component(ComponentReply),
    /// The registry accepted the device; this is the device as it holds it.
    Submitted(Device),
    /// The registry refused the device, for this cause.
    SubmitRejected(String),
}

/// A request to be made to the registry on behalf of a push.
#[derive(Debug, PartialEq, Eq)]
pub enum PushRequest {
    Component(ComponentRequest),
    /// Create the device.
    Create(PostDevice),
    /// Update the device that the registry holds under this identifier.
    Update(u32, PostDevice),
}

/// A request of a push, with the submission as what it says.
pub enum PushRequestView {
    Component(ComponentRequest),
    Create(PostDeviceView),
    Update(u32, PostDeviceView),
}

impl View for PushRequest {
    type V = PushRequestView;

    open spec fn view(&self) -> PushRequestView {
        match *self {
            PushRequest::Component(request) => PushRequestView::Component(request),
            PushRequest::Create(post) => PushRequestView::Create(post@),
            PushRequest::Update(id, post) => PushRequestView::Update(id, post@),
        }
    }
}

impl DeepView for PushRequest {
    type V = PushRequestView;

    open spec fn deep_view(&self) -> PushRequestView {
        self@
    }
}

/// What is to be done with a device given where its parts stand: wait while
/// a part waits; fail with the first part's failure; otherwise submit the
/// device, as an update where it carries an identifier and as a creation where
/// it does not, or fail where it cannot be submitted.
pub open spec fn settled(device: Device, components: ComponentsView) -> (
    PushStage,
    Option<PushRequestView>,
) {
    match joined(branch_outcomes(components)) {
        None => (PushStage::Resolving, None),
        Some(Err(error)) => (PushStage::Failed(PushError::Component(error)), None),
        Some(Ok(_)) => match postable(device@) {
            Err(missing) => (PushStage::Failed(PushError::NotPostable(missing)), None),
            Ok(post) => (
                PushStage::Submitting,
                Some(
                    match device.id {
                        Some(id) => PushRequestView::Update(id, post),
                        None => PushRequestView::Create(post),
                    },
                ),
            ),
        },
    }
}

/// The requests for the parts, as requests of the push.
pub open spec fn for_parts(requests: Seq<ComponentRequest>) -> Seq<PushRequestView> {
    Seq::new(requests.len(), |i: int| PushRequestView::Component(requests[i]))
}

/// The one request, or none, as a list.
pub open spec fn submitted(request: Option<PushRequestView>) -> Seq<PushRequestView> {
    match request {
        Some(request) => seq![request],
        None => Seq::empty(),
    }
}

/// The identifier with which a push begins: the one that the cache knows for
/// the device's name, else the one that the device carries.
pub open spec fn known_id(tables: Tables, device: Device) -> Option<u32> {
    match cached_id(tables[EntityKind::Device], lowercase_of(device.name@)) {
        Some(id) => Some(id),
        None => device.id,
    }
}

/// The states of the parts of a device of which none has begun.
pub open spec fn no_components() -> ComponentsView {
    ComponentsView { device_type: None, role: None, site: None, platform: None, tags: Seq::empty() }
}

/// The first step of a push relates the device before and after, the state
/// and the requests to be made.
///
/// A device without a name fails at once, untouched. Any other device takes
/// the identifier that the cache knows for it; its parts begin their
/// resolution; and if the cache resolved every part, the device is submitted
/// at once.
pub open spec fn push_begun(
    tables: Tables,
    before: Device,
    after: Device,
    state: PushView,
    requests: Seq<PushRequestView>,
) -> bool {
    if lowercase_of(before.name@).len() == 0 {
        &&& after == before
        &&& state.stage == PushStage::Failed(PushError::InvalidKey)
        &&& state.components == no_components()
        &&& requests.len() == 0
    } else {
        &&& after.name == before.name
        &&& after.status == before.status
        &&& after.serial == before.serial
        &&& after.primary_ip4 == before.primary_ip4
        &&& after.id == known_id(tables, before)
        &&& (parts_of(after), state.components) == components_begun(tables, parts_of(before))
        &&& state.stage == settled(after, state.components).0
        &&& requests == for_parts(components_opening(state.components)) + submitted(
            settled(after, state.components).1,
        )
    }
}

/// The tables after the device that the registry answered with has been
/// filed under the key of the device that was submitted.
pub open spec fn written_back(tables: Tables, submitted: Device, found: Device) -> Tables {
    filed(tables, EntityKind::Device, lowercase_of(submitted.name@), Entity::Device(found))
}

/// One step of a push relates the device and the cache before and after, the
/// state before and after, and the request to be made.
///
/// While parts are being resolved, a reply for a part advances that part,
/// and the device is submitted once the last part is resolved.
///
/// While the answer to the submission is awaited, the device that the
/// registry answers with ends the push. Where the submission was an update,
/// made for a device that carries its identifier, the push is done under that
/// identifier whatever the answer holds. Where it was a creation, the device
/// takes the identifier of the answer, and an answer without one fails the
/// push. An answer that carries an identifier is filed in the cache under the
/// device's key; one that carries none is not, so that the cache holds
/// identified entities only. A refusal fails the push. Any other reply changes
/// nothing.
pub open spec fn push_advanced(
    tables: Tables,
    filed_tables: Tables,
    before: Device,
    after: Device,
    state: PushView,
    reply: PushReply,
    next: PushView,
    request: Option<PushRequestView>,
    fallback: bool,
) -> bool {
    &&& after.name == before.name
    &&& after.status == before.status
    &&& after.serial == before.serial
    &&& after.primary_ip4 == before.primary_ip4
    &&& match (state.stage, reply) {
        (PushStage::Resolving, PushReply::Component(reply)) => {
            &&& after.id == before.id
            &&& (parts_of(after), filed_tables, next.components) == components_advanced(
                tables,
                parts_of(before),
                state.components,
                reply,
                fallback,
            )
            &&& next.stage == settled(after, next.components).0
            &&& request == if next.stage is Resolving {
                match components_asked(state.components, next.components, reply) {
                    Some(asked) => Some(PushRequestView::Component(asked)),
                    None => None,
                }
            } else {
                settled(after, next.components).1
            }
        },
        (PushStage::Submitting, PushReply::Submitted(found)) => {
            &&& parts_of(after) == parts_of(before)
            &&& next.components == state.components
            &&& request is None
            &&& match (before.id, found.id) {
                (Some(held), _) => {
                    &&& after.id == Some(held)
                    &&& filed_tables == if found.id is Some {
                        written_back(tables, before, found)
                    } else {
                        tables
                    }
                    &&& next.stage == PushStage::Done(held)
                },
                (None, Some(id)) => {
                    &&& after.id == Some(id)
                    &&& filed_tables == written_back(tables, before, found)
                    &&& next.stage == PushStage::Done(id)
                },
                (None, None) => {
                    &&& after.id == None::<u32>
                    &&& filed_tables == tables
                    &&& next.stage == PushStage::Failed(PushError::MalformedResponse)
                },
            }
        },
        (PushStage::Submitting, PushReply::SubmitRejected(cause)) => {
            &&& after == before
            &&& filed_tables == tables
            &&& next.components == state.components
            &&& request is None
            &&& next.stage == PushStage::Failed(PushError::SubmitFailed(cause))
        },
        _ => {
            &&& after == before
            &&& filed_tables == tables
            &&& next == state
            &&& request is None
        },
    }
}

impl Device {
    fn settle(&self, components: &ComponentsState) -> (step: (PushStage, Option<PushRequest>))
        ensures
            step.0 == settled(*self, components@).0,
            match step.1 {
                Some(request) => Some(request@),
                None => None,
            } == settled(*self, components@).1,
    {
        match components.result() {
            None => (PushStage::Resolving, None),
            Some(Err(error)) => (PushStage::Failed(PushError::Component(error)), None),
            Some(Ok(_)) => match PostDevice::try_from(self.clone()) {
                Err(missing) => (PushStage::Failed(PushError::NotPostable(missing)), None),
                Ok(post) => (
                    PushStage::Submitting,
                    Some(
                        match self.id {
                            Some(id) => PushRequest::Update(id, post),
                            None => PushRequest::Create(post),
                        },
                    ),
                ),
            },
        }
    }

    /// Begins the push of the device: takes the identifier that the cache
    /// knows for it, begins the resolution of its parts, and submits the
    /// device at once where the cache resolved them all. The requests
    /// returned are to be made side by side.
    pub fn push_to_netbox(&mut self, cache: &LocalCache) -> (step: (PushState, Vec<PushRequest>))
        ensures
            push_begun(cache@, *old(self), *final(self), step.0@, step.1.deep_view()),
            components_ordered(step.0@.components, parts_of(*final(self))),
    {
        let key = self.get_cache_key();
        if key.as_str().is_empty() {
            return (
                PushState {
                    stage: PushStage::Failed(PushError::InvalidKey),
                    components: ComponentsState {
                        device_type: None,
                        role: None,
                        site: None,
                        platform: None,
                        tags: Vec::new(),
                    },
                },
                Vec::new(),
            );
        }
        match cache.get(EntityKind::Device, key.as_str()) {
            Some(cached) => match cached.get_id() {
                Some(id) => {
                    self.id = Some(id);
                },
                None => {},
            },
            None => {},
        }
        let (components, asks) = cache.ensure_device_components(self);
        let mut requests: Vec<PushRequest> = Vec::new();
        let mut i: usize = 0;
        while i < asks.len()
            invariant
                i <= asks.len(),
                requests@.len() == i,
                requests.deep_view() == for_parts(asks@.take(i as int)),
            decreases asks.len() - i,
        {
            requests.push(PushRequest::Component(asks[i]));
            proof {
                let now = requests.deep_view();
                let goal = for_parts(asks@.take(i + 1));
                assert forall|k: int| 0 <= k < now.len() implies now[k] == goal[k] by {
                    if k < i {
                        assert(for_parts(asks@.take(i as int))[k] == PushRequestView::Component(
                            asks@[k],
                        ));
                    }
                }
            }
            i += 1;
        }
        proof {
            assert(asks@.take(i as int) =~= asks@);
        }
        let (stage, submit) = self.settle(&components);
        let ghost parts = requests.deep_view();
        match submit {
            Some(request) => {
                requests.push(request);
                proof {
                    assert(requests.deep_view() =~= parts + submitted(Some(request@)));
                }
            },
            None => {},
        }
        (PushState { stage, components }, requests)
    }

    /// Takes the push of the device one step further with a reply of the
    /// registry, and says what is to be asked of the registry next, if
    /// anything.
    pub fn push_reply(&mut self, cache: &mut LocalCache, state: PushState, reply: PushReply) -> (step:
        (PushState, Option<PushRequest>))
        ensures
            push_advanced(
                old(cache)@,
                final(cache)@,
                *old(self),
                *final(self),
                state@,
                reply,
                step.0@,
                match step.1 {
                    Some(request) => Some(request@),
                    None => None,
                },
                old(cache).fallback_lookup(),
            ),
            components_ordered(state@.components, parts_of(*old(self))) ==> components_ordered(
                step.0@.components,
                parts_of(*final(self)),
            ),
            final(cache).fallback_lookup() == old(cache).fallback_lookup(),
            old(cache).wf() ==> final(cache).wf(),
    {
        let PushState { stage, components } = state;
        match (stage, reply) {
            (PushStage::Resolving, PushReply::Component(reply)) => {
                let (components, ask) = cache.ensure_device_components_reply(
                    self,
                    components,
                    reply,
                );
                let (stage, submit) = self.settle(&components);
                let request = match &stage {
                    PushStage::Resolving => match ask {
                        Some(ask) => Some(PushRequest::Component(ask)),
                        None => None,
                    },
                    _ => submit,
                };
                (PushState { stage, components }, request)
            },
            (PushStage::Submitting, PushReply::Submitted(found)) => match (self.id, found.id) {
                (Some(held), answered) => {
                    if answered.is_some() {
                        let key = self.get_cache_key();
                        cache.put(key, found);
                    }
                    (PushState { stage: PushStage::Done(held), components }, None)
                },
                (None, Some(id)) => {
                    let key = self.get_cache_key();
                    self.id = Some(id);
                    cache.put(key, found);
                    (PushState { stage: PushStage::Done(id), components }, None)
                },
                (None, None) => (
                    PushState { stage: PushStage::Failed(PushError::MalformedResponse), components },
                    None,
                ),
            },
            (PushStage::Submitting, PushReply::SubmitRejected(cause)) => (
                PushState { stage: PushStage::Failed(PushError::SubmitFailed(cause)), components },
                None,
            ),
            (stage, _) => (PushState { stage, components }, None),
        }
    }
}

/// Parents before children: a device is submitted only when every part that
/// it refers to carries its identifier, which are its device type, its role,
/// its site, its platform if it has one and every tag; and the submission is
/// what `postable` makes of the device, which names them all.
pub proof fn lemma_submitted_after_parts(device: Device, components: ComponentsView)
    ensures
        settled(device, components).1 matches Some(request) ==> {
            &&& joined(branch_outcomes(components)) == Some(Ok::<(), ResolveError>(()))
            &&& components_resolved(device@)
            &&& settled(device, components).0 is Submitting
            &&& match request {
                PushRequestView::Create(post) => device.id is None && Ok::<
                    PostDeviceView,
                    PostDeviceError,
                >(post) == postable(device@),
                PushRequestView::Update(id, post) => device.id == Some(id) && Ok::<
                    PostDeviceView,
                    PostDeviceError,
                >(post) == postable(device@),
                PushRequestView::Component(_) => false,
            }
        },
{
}

/// Success is owed to a complete device: once the parts of a device that has
/// a device type, a role, a site and a status have all ended well, the device
/// is submitted.
pub proof fn lemma_complete_device_is_submitted(device: Device, components: ComponentsView)
    requires
        components_sound(components, parts_of(device)),
        joined(branch_outcomes(components)) == Some(Ok::<(), ResolveError>(())),
        device.device_type is Some,
        device.role is Some,
        device.site is Some,
        device.status is Some,
    ensures
        settled(device, components).0 is Submitting,
        settled(device, components).1 is Some,
{
    lemma_joined_parts_are_resolved(components, parts_of(device));
}

/// What a run did: how many devices the registry holds as a result, and for
/// each device that failed its key and the failure in words, in the order in
/// which the outcomes came in.
#[derive(Debug, PartialEq, Eq)]
pub struct RunSummary {
    pub pushed: usize,
    pub failures: Vec<(String, String)>,
}

/// The number of outcomes that are successes.
pub open spec fn count_pushed(outcomes: Seq<(String, Result<u32, PushError>)>) -> nat
    decreases outcomes.len(),
{
    if outcomes.len() == 0 {
        0
    } else {
        count_pushed(outcomes.drop_last()) + if outcomes.last().1 is Ok {
            1nat
        } else {
            0nat
        }
    }
}

/// The failures among the outcomes, in their order.
pub open spec fn failed_pushes(outcomes: Seq<(String, Result<u32, PushError>)>) -> Seq<
    (String, PushError),
>
    decreases outcomes.len(),
{
    if outcomes.len() == 0 {
        Seq::empty()
    } else {
        let before = failed_pushes(outcomes.drop_last());
        match outcomes.last().1 {
            Err(error) => before.push((outcomes.last().0, error)),
            Ok(_) => before,
        }
    }
}

/// Gathers the outcomes of a run. No failure keeps another device from being
/// counted.
pub fn summarize(outcomes: Vec<(String, Result<u32, PushError>)>) -> (summary: RunSummary)
    ensures
        summary.pushed == count_pushed(outcomes@),
        summary.failures@.len() == failed_pushes(outcomes@).len(),
        summary.pushed + summary.failures@.len() == outcomes@.len(),
        forall|i: int|
            0 <= i < summary.failures@.len() ==> (#[trigger] summary.failures@[i]).0
                == failed_pushes(outcomes@)[i].0 && summary.failures@[i].1@ == failed_pushes(
                outcomes@,
            )[i].1.text(),
{
    let total = outcomes.len();
    let mut pushed: usize = 0;
    let mut failures: Vec<(String, String)> = Vec::new();
    let ghost mut seen: Seq<(String, Result<u32, PushError>)> = Seq::empty();
    for outcome in it: outcomes
        invariant
            it.seq() == outcomes@,
            seen == it.history(),
            seen.len() <= outcomes@.len(),
            outcomes@.len() == total,
            pushed == count_pushed(seen),
            failures@.len() == failed_pushes(seen).len(),
            pushed + failures@.len() == seen.len(),
            forall|i: int|
                0 <= i < failures@.len() ==> (#[trigger] failures@[i]).0 == failed_pushes(seen)[i].0
                    && failures@[i].1@ == failed_pushes(seen)[i].1.text(),
    {
        proof {
            assert(seen.push(outcome).drop_last() =~= seen);
            seen = seen.push(outcome);
        }
        let (key, result) = outcome;
        match result {
            Ok(_) => {
                pushed = pushed + 1;
            },
            Err(error) => {
                failures.push((key, error.message()));
            },
        }
    }
    proof {
        assert(seen =~= outcomes@);
    }
    RunSummary { pushed, failures }
}

} // verus!
