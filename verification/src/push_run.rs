//! The whole run of a push, from its first step to any later moment: what
//! holds of all the requests that it has made, taken together.

use crate::cache::{ResolveState, Tables};
use crate::compose::{
    components_opening, components_sound, device_type_asked, lemma_components_begin_sound,
    lemma_components_stay_sound, listed, part_opening, parts_of, tags_opening, Component,
    ComponentsView,
};
use crate::netbox::models::Device;
use crate::netbox::post::{components_resolved, postable};
use crate::push::{
    for_parts, known_id, push_advanced, push_begun, settled, submitted, PushError, PushReply,
    PushRequestView, PushStage, PushView,
};
use crate::utils::lowercase_of;
use vstd::prelude::*;

verus! {

/// A push as it went: the draft that it began with; for each step the cache
/// as the step found it and as it left it, the device and the state after it;
/// the replies that the steps after the first took; and the requests that the
/// steps made.
pub struct PushRun {
    pub start: Device,
    pub seen: Seq<Tables>,
    pub left: Seq<Tables>,
    pub devices: Seq<Device>,
    pub states: Seq<PushView>,
    /// The reply at a place is taken by the step after that place.
    pub replies: Seq<PushReply>,
    /// The requests that the first step made.
    pub opening: Seq<PushRequestView>,
    /// The request at a place is made by the step after that place.
    pub asked: Seq<Option<PushRequestView>>,
    pub fallback: bool,
}

/// Whether the run is one of a push: its first step is the beginning of the
/// push, and every later step takes a reply as the push takes it. Between the
/// steps the cache may change in any way, as other pushes use it.
pub open spec fn is_push_run(run: PushRun) -> bool {
    &&& run.states.len() >= 1
    &&& run.devices.len() == run.states.len()
    &&& run.seen.len() == run.states.len()
    &&& run.left.len() == run.states.len()
    &&& run.replies.len() == run.states.len() - 1
    &&& run.asked.len() == run.states.len() - 1
    &&& push_begun(run.seen[0], run.start, run.devices[0], run.states[0], run.opening)
    &&& forall|k: int|
        0 <= k < run.states.len() - 1 ==> push_advanced(
            run.seen[k + 1],
            run.left[k + 1],
            run.devices[k],
            run.devices[k + 1],
            run.states[k],
            #[trigger] run.replies[k],
            run.states[k + 1],
            run.asked[k],
            run.fallback,
        )
}

/// All the requests that a run has made up to a moment, in the order in which
/// they were made.
pub open spec fn requests_until(run: PushRun, moment: int) -> Seq<PushRequestView>
    decreases moment,
{
    if moment <= 0 {
        run.opening
    } else {
        requests_until(run, moment - 1) + submitted(run.asked[moment - 1])
    }
}

/// Whether a request is the one for the device itself.
pub open spec fn is_submission(request: PushRequestView) -> bool {
    request is Create || request is Update
}

/// Whether a request is made for the given part.
pub open spec fn asks_for(request: PushRequestView, component: Component) -> bool {
    request matches PushRequestView::Component(asked) && asked.component == component
}

/// No request for the device itself is among the requests.
pub open spec fn no_submission(made: Seq<PushRequestView>) -> bool {
    forall|i: int| 0 <= i < made.len() ==> !is_submission(#[trigger] made[i])
}

/// The last of the requests is the one for the device itself, and it is the
/// only one.
pub open spec fn ends_in_submission(made: Seq<PushRequestView>) -> bool {
    &&& made.len() > 0
    &&& is_submission(made.last())
    &&& no_submission(made.drop_last())
}

/// No request for the manufacturer comes after one for the device type.
pub open spec fn parents_first(made: Seq<PushRequestView>) -> bool {
    forall|i: int, j: int|
        0 <= i < j < made.len() ==> !(asks_for(#[trigger] made[i], Component::DeviceType)
            && asks_for(#[trigger] made[j], Component::Manufacturer))
}

/// A request for the device type is among the requests.
pub open spec fn asked_for_type(made: Seq<PushRequestView>) -> bool {
    exists|i: int| 0 <= i < made.len() && asks_for(#[trigger] made[i], Component::DeviceType)
}

/// The device type's own resolution has begun.
pub open spec fn type_begun(components: ComponentsView) -> bool {
    components.device_type matches Some(held) && held.device_type is Some
}

/// The request is the submission of the device as it stands: an update under
/// the identifier that the device carries, or a creation where it carries
/// none, of what `postable` makes of the device.
pub open spec fn submission_of(device: Device, request: PushRequestView) -> bool {
    postable(device@) matches Ok(post) && request == match device.id {
        Some(id) => PushRequestView::Update(id, post),
        None => PushRequestView::Create(post),
    }
}

/// The request for the device is an update under the identifier that was
/// known for it when the push began, or a creation where none was known.
pub open spec fn submission_as_known(known: Option<u32>, request: PushRequestView) -> bool {
    match known {
        Some(id) => request matches PushRequestView::Update(under, _) && under == id,
        None => request is Create,
    }
}

/// What holds at every moment of a push, of the device, the state and the
/// requests made so far, given the identifier that was known for the device
/// when the push began.
pub open spec fn push_sound(
    known: Option<u32>,
    device: Device,
    state: PushView,
    made: Seq<PushRequestView>,
) -> bool {
    &&& parents_first(made)
    &&& match state.stage {
        PushStage::Resolving => {
            &&& no_submission(made)
            &&& device.id == known
            &&& components_sound(state.components, parts_of(device))
            &&& asked_for_type(made) ==> type_begun(state.components)
        },
        PushStage::Submitting => {
            &&& ends_in_submission(made)
            &&& device.id == known
            &&& components_sound(state.components, parts_of(device))
            &&& submission_of(device, made.last())
            &&& submission_as_known(known, made.last())
        },
        PushStage::Done(id) => {
            &&& ends_in_submission(made)
            &&& device.id == Some(id)
            &&& submission_as_known(known, made.last())
            &&& known matches Some(held) ==> held == id
        },
        PushStage::Failed(_) => no_submission(made) || (ends_in_submission(made)
            && submission_as_known(known, made.last())),
    }
}

/// The requests with which tags open are requests for tags.
proof fn lemma_tags_open_for_tags(states: Seq<ResolveState>, i: int)
    requires
        0 <= i < tags_opening(states).len(),
    ensures
        tags_opening(states)[i].component is Tag,
    decreases states.len(),
{
    if states.len() > 0 {
        let before = tags_opening(states.drop_last());
        if i < before.len() {
            lemma_tags_open_for_tags(states.drop_last(), i);
        }
    }
}

/// Of the requests with which the parts open, only the first can be for the
/// device type or its manufacturer, and it is for the device type only if the
/// device type's own resolution has begun.
proof fn lemma_opening_shape(components: ComponentsView)
    ensures
        forall|i: int|
            0 <= i < components_opening(components).len() ==> {
                let asked = #[trigger] components_opening(components)[i];
                &&& (asked.component == Component::Manufacturer || asked.component
                    == Component::DeviceType) ==> i == 0
                &&& asked.component == Component::DeviceType ==> type_begun(components)
            },
{
    let first = listed(
        match components.device_type {
            Some(state) => device_type_asked(None, state),
            None => None,
        },
    );
    let role = listed(part_opening(Component::Role, components.role));
    let site = listed(part_opening(Component::Site, components.site));
    let platform = listed(part_opening(Component::Platform, components.platform));
    let tags = tags_opening(components.tags);
    let all = components_opening(components);
    assert(all == first + role + site + platform + tags);
    assert forall|i: int| 0 <= i < all.len() implies {
        let asked = #[trigger] all[i];
        &&& (asked.component == Component::Manufacturer || asked.component
            == Component::DeviceType) ==> i == 0
        &&& asked.component == Component::DeviceType ==> type_begun(components)
    } by {
        let fixed = first.len() + role.len() + site.len() + platform.len();
        if i >= fixed {
            lemma_tags_open_for_tags(components.tags, i - fixed);
            assert(all[i] == tags[i - fixed]);
        }
    }
}

/// A push begins sound.
pub proof fn lemma_push_begins_sound(
    tables: Tables,
    start: Device,
    device: Device,
    state: PushView,
    opening: Seq<PushRequestView>,
)
    requires
        push_begun(tables, start, device, state, opening),
    ensures
        push_sound(
            if lowercase_of(start.name@).len() == 0 {
                start.id
            } else {
                known_id(tables, start)
            },
            device,
            state,
            opening,
        ),
{
    if lowercase_of(start.name@).len() > 0 {
        let components = state.components;
        lemma_components_begin_sound(tables, parts_of(start));
        lemma_opening_shape(components);
        let parts = for_parts(components_opening(components));
        let last = submitted(settled(device, components).1);
        assert(opening == parts + last);
        assert forall|i: int| 0 <= i < parts.len() implies !is_submission(#[trigger] parts[i]) by {}
        assert forall|i: int, j: int| 0 <= i < j < opening.len() implies !(asks_for(
            #[trigger] opening[i],
            Component::DeviceType,
        ) && asks_for(#[trigger] opening[j], Component::Manufacturer)) by {
            if j < parts.len() {
                assert(opening[j] == parts[j]);
                assert(parts[j] == PushRequestView::Component(components_opening(components)[j]));
            }
        }
        if asked_for_type(opening) {
            let i = choose|i: int|
                0 <= i < opening.len() && asks_for(#[trigger] opening[i], Component::DeviceType);
            if i < parts.len() {
                assert(opening[i] == parts[i]);
                assert(parts[i] == PushRequestView::Component(components_opening(components)[i]));
            }
        }
        if last.len() > 0 {
            assert(opening.drop_last() =~= parts);
            assert(opening.last() == last[0]);
        } else {
            assert(opening =~= parts);
        }
    }
}

/// Every step of a push keeps it sound.
pub proof fn lemma_push_stays_sound(
    known: Option<u32>,
    tables: Tables,
    filed_tables: Tables,
    before: Device,
    after: Device,
    state: PushView,
    reply: PushReply,
    next: PushView,
    request: Option<PushRequestView>,
    fallback: bool,
    made: Seq<PushRequestView>,
)
    requires
        push_sound(known, before, state, made),
        push_advanced(tables, filed_tables, before, after, state, reply, next, request, fallback),
    ensures
        push_sound(known, after, next, made + submitted(request)),
{
    let all = made + submitted(request);
    match (state.stage, reply) {
        (PushStage::Resolving, PushReply::Component(reply)) => {
            lemma_components_stay_sound(
                tables,
                parts_of(before),
                state.components,
                reply,
                fallback,
            );
            match request {
                Some(asked) => {
                    assert(all.drop_last() =~= made);
                    assert(all.last() == asked);
                    assert forall|i: int, j: int| 0 <= i < j < all.len() implies !(asks_for(
                        #[trigger] all[i],
                        Component::DeviceType,
                    ) && asks_for(#[trigger] all[j], Component::Manufacturer)) by {
                        if j < made.len() {
                            assert(all[i] == made[i] && all[j] == made[j]);
                        } else {
                            assert(all[i] == made[i]);
                            if asks_for(asked, Component::Manufacturer) && asks_for(
                                made[i],
                                Component::DeviceType,
                            ) {
                                assert(asked_for_type(made));
                            }
                        }
                    }
                    if next.stage is Resolving {
                        assert forall|i: int| 0 <= i < all.len() implies !is_submission(
                            #[trigger] all[i],
                        ) by {
                            if i < made.len() {
                                assert(all[i] == made[i]);
                            }
                        }
                        if asked_for_type(all) {
                            let i = choose|i: int|
                                0 <= i < all.len() && asks_for(
                                    #[trigger] all[i],
                                    Component::DeviceType,
                                );
                            if i < made.len() {
                                assert(all[i] == made[i]);
                                assert(asked_for_type(made));
                            }
                        }
                    }
                },
                None => {
                    assert(all =~= made);
                },
            }
        },
        _ => {
            assert(all =~= made);
        },
    }
}

/// A push is sound at every moment of its run.
pub proof fn lemma_push_run_is_sound(run: PushRun, moment: int)
    requires
        is_push_run(run),
        0 <= moment < run.states.len(),
    ensures
        push_sound(
            if lowercase_of(run.start.name@).len() == 0 {
                run.start.id
            } else {
                known_id(run.seen[0], run.start)
            },
            run.devices[moment],
            run.states[moment],
            requests_until(run, moment),
        ),
    decreases moment,
{
    let known = if lowercase_of(run.start.name@).len() == 0 {
        run.start.id
    } else {
        known_id(run.seen[0], run.start)
    };
    if moment == 0 {
        lemma_push_begins_sound(
            run.seen[0],
            run.start,
            run.devices[0],
            run.states[0],
            run.opening,
        );
    } else {
        lemma_push_run_is_sound(run, moment - 1);
        let k = moment - 1;
        assert(push_advanced(
            run.seen[k + 1],
            run.left[k + 1],
            run.devices[k],
            run.devices[k + 1],
            run.states[k],
            run.replies[k],
            run.states[k + 1],
            run.asked[k],
            run.fallback,
        ));
        lemma_push_stays_sound(
            known,
            run.seen[k + 1],
            run.left[k + 1],
            run.devices[k],
            run.devices[k + 1],
            run.states[k],
            run.replies[k],
            run.states[k + 1],
            run.asked[k],
            run.fallback,
            requests_until(run, k),
        );
    }
}

/// Parts first, the device last, and the device once: at every moment of a
/// push, of all the requests that it has made,
///
/// - none for the manufacturer comes after one for the device type;
/// - at most one is for the device itself, and nothing is asked after it;
/// - the push is done only if that request has been made;
/// - that request is an update under the identifier that the cache knew for
///   the device when the push began, or that the draft carried, and a creation
///   where there was none;
/// - when it is made, every part that the device refers to carries its
///   identifier, and the request names them all.
pub proof fn lemma_push_run_in_order(run: PushRun, moment: int)
    requires
        is_push_run(run),
        0 <= moment < run.states.len(),
        lowercase_of(run.start.name@).len() > 0,
    ensures
        ({
            let made = requests_until(run, moment);
            let known = known_id(run.seen[0], run.start);
            &&& parents_first(made)
            &&& no_submission(made) || ends_in_submission(made)
            &&& run.states[moment].stage is Done ==> ends_in_submission(made)
            &&& ends_in_submission(made) ==> submission_as_known(known, made.last())
            &&& run.states[moment].stage is Submitting ==> submission_of(
                run.devices[moment],
                made.last(),
            ) && components_resolved(run.devices[moment]@)
        }),
{
    lemma_push_run_is_sound(run, moment);
}

/// A device without a name asks nothing of the registry, at no moment.
pub proof fn lemma_nameless_push_asks_nothing(run: PushRun, moment: int)
    requires
        is_push_run(run),
        0 <= moment < run.states.len(),
        lowercase_of(run.start.name@).len() == 0,
    ensures
        requests_until(run, moment).len() == 0,
        run.states[moment].stage == PushStage::Failed(PushError::InvalidKey),
    decreases moment,
{
    if moment > 0 {
        lemma_nameless_push_asks_nothing(run, moment - 1);
        let k = moment - 1;
        assert(push_advanced(
            run.seen[k + 1],
            run.left[k + 1],
            run.devices[k],
            run.devices[k + 1],
            run.states[k],
            run.replies[k],
            run.states[k + 1],
            run.asked[k],
            run.fallback,
        ));
    }
}

} // verus!
