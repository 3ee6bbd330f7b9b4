//! Racing resolutions: a model of any number of resolutions of one natural
//! key that run side by side against one cache and one registry, and the proof
//! that they converge and that they end.
//!
//! The registry of the model holds at most one entity per natural key: it
//! creates the entity for the first creation that reaches it, refuses every
//! later one, and answers a lookup with the entity that it holds. The
//! resolutions are those of the cache module, with the fallback lookup
//! switched on; their steps may interleave in any order.

use crate::cache::{advanced, begun, cached_id, RegistryReply, ResolveAction, ResolveState};
use crate::netbox::models::{Entity, NetBoxModel};
use vstd::prelude::*;

verus! {

/// One resolution in a race: its draft, where it stands (nothing before it
/// has begun), and the reply that the registry has sent and that the
/// resolution has not taken yet.
pub struct Run<T> {
    pub item: T,
    pub state: Option<ResolveState>,
    pub inbox: Option<RegistryReply<T>>,
}

/// A race for one natural key: the entity that the registry holds for the
/// key, the cache's table of the kind, the resolutions, and the number of
/// creations that the registry has carried out since the race began.
pub struct Race<T> {
    pub key: Seq<char>,
    pub registry: Option<T>,
    pub table: Map<Seq<char>, Entity>,
    pub runs: Seq<Run<T>>,
    pub creations: nat,
}

/// A step of a race.
pub enum RaceStep<T> {
    /// The resolution at this place begins.
    Begin(int),
    /// The registry serves the request of the resolution at this place. It is
    /// given the entity that it makes if it creates one, the cause that it
    /// names if it refuses, and the list in which it answers a lookup.
    Serve(int, T, String, Vec<T>),
    /// The resolution at this place takes the reply that was sent to it.
    Deliver(int),
}

/// The race before any resolution has begun: every draft is of the race's
/// key, which is not empty, and what the cache knows for the key is what the
/// registry holds.
pub open spec fn race_init<T: NetBoxModel>(race: Race<T>) -> bool {
    &&& race.key.len() > 0
    &&& race.creations == 0
    &&& forall|i: int|
        0 <= i < race.runs.len() ==> (#[trigger] race.runs[i]).item.cache_key() == race.key
            && race.runs[i].state is None && race.runs[i].inbox is None
    &&& race.registry matches Some(held) ==> held.id_of() is Some
    &&& cached_id(race.table, race.key) matches Some(id) ==> race.registry is Some
        && race.registry->0.id_of() == Some(id)
}

/// What the registry sends for a request, and what it holds afterwards.
///
/// A creation is carried out where the registry holds nothing for the key,
/// with an identifier, and refused where it holds something. A lookup is
/// answered with what the registry holds.
pub open spec fn served<T: NetBoxModel>(
    registry: Option<T>,
    action: ResolveAction,
    made: T,
    cause: String,
    found: Vec<T>,
    holds: Option<T>,
    reply: RegistryReply<T>,
) -> bool {
    match action {
        ResolveAction::Create => match registry {
            None => made.id_of() is Some && holds == Some(made) && reply == RegistryReply::Created(
                made,
            ),
            Some(_) => holds == registry && reply == RegistryReply::<T>::CreateRejected(cause),
        },
        ResolveAction::Lookup => holds == registry && reply == RegistryReply::Matches(found)
            && found@ == match registry {
            Some(held) => seq![held],
            None => Seq::empty(),
        },
    }
}

/// One step of a race: exactly one resolution or the registry moves, and
/// nothing else changes.
pub open spec fn race_next<T: NetBoxModel>(before: Race<T>, after: Race<T>, step: RaceStep<T>) -> bool {
    &&& after.key == before.key
    &&& after.runs.len() == before.runs.len()
    &&& match step {
        RaceStep::Begin(i) => {
            &&& 0 <= i < before.runs.len()
            &&& before.runs[i].state is None
            &&& after.runs == before.runs.update(
                i,
                Run {
                    item: begun(before.table, before.runs[i].item).0,
                    state: Some(begun(before.table, before.runs[i].item).1),
                    inbox: None,
                },
            )
            &&& after.table == before.table
            &&& after.registry == before.registry
            &&& after.creations == before.creations
        },
        RaceStep::Serve(i, made, cause, found) => {
            &&& 0 <= i < before.runs.len()
            &&& before.runs[i].inbox is None
            &&& before.runs[i].state is Some
            &&& before.runs[i].state->0.awaits() matches Some(action)
            &&& after.runs[i].inbox is Some
            &&& served(
                before.registry,
                action,
                made,
                cause,
                found,
                after.registry,
                after.runs[i].inbox->0,
            )
            &&& after.runs == before.runs.update(
                i,
                Run { inbox: after.runs[i].inbox, ..before.runs[i] },
            )
            &&& after.table == before.table
            &&& after.creations == before.creations + if action == ResolveAction::Create
                && before.registry is None {
                1nat
            } else {
                0nat
            }
        },
        RaceStep::Deliver(i) => {
            &&& 0 <= i < before.runs.len()
            &&& before.runs[i].inbox is Some
            &&& before.runs[i].state is Some
            &&& ({
                let (item, table, state) = advanced(
                    before.table,
                    before.runs[i].item,
                    before.runs[i].state->0,
                    before.runs[i].inbox->0,
                    true,
                );
                &&& after.runs == before.runs.update(
                    i,
                    Run { item, state: Some(state), inbox: None },
                )
                &&& after.table == table
            })
            &&& after.registry == before.registry
            &&& after.creations == before.creations
        },
    }
}

/// What holds of one resolution throughout a race.
pub open spec fn run_inv<T: NetBoxModel>(race: Race<T>, run: Run<T>) -> bool {
    &&& run.item.cache_key() == race.key
    &&& race.key.len() > 0
    &&& run.state is None ==> run.inbox is None
    &&& run.state matches Some(state) ==> match state {
        ResolveState::Creating => match run.inbox {
            None => true,
            Some(RegistryReply::Created(made)) => race.registry == Some(made),
            Some(RegistryReply::CreateRejected(_)) => race.registry is Some,
            Some(_) => false,
        },
        ResolveState::Searching(_) => race.registry is Some && match run.inbox {
            None => true,
            Some(RegistryReply::Matches(found)) => found@ == seq![race.registry->0],
            Some(_) => false,
        },
        ResolveState::Resolved(id) => run.inbox is None && race.registry is Some
            && race.registry->0.id_of() == Some(id) && run.item.id_of() == Some(id) && cached_id(
            race.table,
            race.key,
        ) == Some(id),
        ResolveState::Failed(_) => false,
    }
}

/// What holds throughout a race: the registry has created at most once and
/// holds an entity with an identifier if it has; whatever the cache knows for
/// the key is what the registry holds; and every resolution is sound.
pub open spec fn race_inv<T: NetBoxModel>(race: Race<T>) -> bool {
    &&& race.creations <= 1
    &&& race.creations == 1 ==> race.registry is Some
    &&& race.registry matches Some(held) ==> held.id_of() is Some
    &&& cached_id(race.table, race.key) matches Some(id) ==> race.registry is Some
        && race.registry->0.id_of() == Some(id)
    &&& forall|i: int| 0 <= i < race.runs.len() ==> run_inv(race, #[trigger] race.runs[i])
}

/// The identifier with which a resolution has ended, if it has ended with
/// one.
pub open spec fn ended_with<T>(run: Run<T>) -> Option<u32> {
    match run.state {
        Some(ResolveState::Resolved(id)) => Some(id),
        _ => None,
    }
}

/// Whether a resolution has failed.
pub open spec fn has_failed<T>(run: Run<T>) -> bool {
    run.state matches Some(ResolveState::Failed(_))
}

/// Convergence: at most one creation has been carried out, no resolution
/// has failed, and all resolutions that have ended carry one and the same
/// identifier, the one under which the registry holds the entity and which
/// the cache knows for the key.
pub open spec fn converged<T: NetBoxModel>(race: Race<T>) -> bool {
    &&& race.creations <= 1
    &&& forall|i: int| 0 <= i < race.runs.len() ==> !has_failed(#[trigger] race.runs[i])
    &&& forall|i: int|
        0 <= i < race.runs.len() && ended_with(#[trigger] race.runs[i]) is Some
            ==> race.runs[i].item.id_of() == ended_with(race.runs[i]) && race.registry is Some
            && race.registry->0.id_of() == ended_with(race.runs[i]) && cached_id(
            race.table,
            race.key,
        ) == ended_with(race.runs[i])
    &&& forall|i: int, j: int|
        0 <= i < race.runs.len() && 0 <= j < race.runs.len() && ended_with(
            #[trigger] race.runs[i],
        ) is Some && ended_with(#[trigger] race.runs[j]) is Some ==> ended_with(race.runs[i])
            == ended_with(race.runs[j])
}

/// A race begins sound.
pub proof fn lemma_race_begins_sound<T: NetBoxModel>(race: Race<T>)
    requires
        race_init(race),
    ensures
        race_inv(race),
{
}

/// Every step of a race keeps it sound.
pub proof fn lemma_race_stays_sound<T: NetBoxModel>(
    before: Race<T>,
    after: Race<T>,
    step: RaceStep<T>,
)
    requires
        race_inv(before),
        race_next(before, after, step),
    ensures
        race_inv(after),
{
    match step {
        RaceStep::Begin(i) => {
            let run = before.runs[i];
            match cached_id(before.table, run.item.cache_key()) {
                Some(id) => {
                    run.item.lemma_with_id(id);
                },
                None => {},
            }
        },
        RaceStep::Serve(_, _, _, _) => {},
        RaceStep::Deliver(i) => {
            let run = before.runs[i];
            match (run.state->0, run.inbox->0) {
                (ResolveState::Creating, RegistryReply::Created(made)) => {
                    made.lemma_as_entity();
                    run.item.lemma_with_id(made.id_of()->0);
                },
                (ResolveState::Searching(_), RegistryReply::Matches(found)) => {
                    found@[0].lemma_as_entity();
                    run.item.lemma_with_id(found@[0].id_of()->0);
                },
                _ => {},
            }
        },
    }
}

/// A sound race has converged.
pub proof fn lemma_sound_race_converged<T: NetBoxModel>(race: Race<T>)
    requires
        race_inv(race),
    ensures
        converged(race),
{
}

/// Whether the states are a race from its beginning, each the step after the
/// one before it.
pub open spec fn is_race<T: NetBoxModel>(states: Seq<Race<T>>, steps: Seq<RaceStep<T>>) -> bool {
    &&& states.len() == steps.len() + 1
    &&& race_init(states[0])
    &&& forall|k: int|
        0 <= k < steps.len() ==> race_next(states[k], states[k + 1], #[trigger] steps[k])
}

/// Race convergence: however the steps of any number of resolutions of one
/// natural key interleave, at every moment the registry has carried out at
/// most one creation, no resolution has failed, and all resolutions that have
/// ended carry the same identifier.
pub proof fn lemma_race_converges<T: NetBoxModel>(
    states: Seq<Race<T>>,
    steps: Seq<RaceStep<T>>,
    moment: int,
)
    requires
        is_race(states, steps),
        0 <= moment < states.len(),
    ensures
        race_inv(states[moment]),
        converged(states[moment]),
    decreases moment,
{
    if moment == 0 {
        lemma_race_begins_sound(states[0]);
    } else {
        lemma_race_converges(states, steps, moment - 1);
        lemma_race_stays_sound(states[moment - 1], states[moment], steps[moment - 1]);
    }
    lemma_sound_race_converged(states[moment]);
}

/// The steps that a resolution has before it at most: five before it has
/// begun, then one fewer with each request served and each reply taken.
pub open spec fn run_rank<T>(run: Run<T>) -> nat {
    match run.state {
        None => 5,
        Some(ResolveState::Creating) => if run.inbox is None {
            4
        } else {
            3
        },
        Some(ResolveState::Searching(_)) => if run.inbox is None {
            2
        } else {
            1
        },
        Some(_) => 0,
    }
}

/// The steps that the resolutions have before them at most, taken together.
pub open spec fn race_rank<T>(runs: Seq<Run<T>>) -> nat
    decreases runs.len(),
{
    if runs.len() == 0 {
        0
    } else {
        race_rank(runs.drop_last()) + run_rank(runs.last())
    }
}

/// No resolution has more than five steps before it.
proof fn lemma_rank_is_bounded<T>(runs: Seq<Run<T>>)
    ensures
        race_rank(runs) <= 5 * runs.len(),
    decreases runs.len(),
{
    if runs.len() > 0 {
        lemma_rank_is_bounded(runs.drop_last());
    }
}

/// What a step of one resolution changes in the steps that all have before
/// them.
proof fn lemma_rank_of_update<T>(runs: Seq<Run<T>>, i: int, run: Run<T>)
    requires
        0 <= i < runs.len(),
    ensures
        race_rank(runs.update(i, run)) + run_rank(runs[i]) == race_rank(runs) + run_rank(run),
    decreases runs.len(),
{
    let after = runs.update(i, run);
    if i == runs.len() - 1 {
        assert(after.drop_last() =~= runs.drop_last());
    } else {
        lemma_rank_of_update(runs.drop_last(), i, run);
        assert(after.drop_last() =~= runs.drop_last().update(i, run));
    }
}

/// Every step of a race takes one of the resolutions nearer to its end, and
/// none further from it.
pub proof fn lemma_race_step_makes_progress<T: NetBoxModel>(
    before: Race<T>,
    after: Race<T>,
    step: RaceStep<T>,
)
    requires
        race_inv(before),
        race_next(before, after, step),
    ensures
        race_rank(after.runs) < race_rank(before.runs),
{
    let i = match step {
        RaceStep::Begin(i) => i,
        RaceStep::Serve(i, _, _, _) => i,
        RaceStep::Deliver(i) => i,
    };
    assert(run_inv(before, before.runs[i]));
    lemma_race_stays_sound(before, after, step);
    assert(run_inv(after, after.runs[i]));
    lemma_rank_of_update(before.runs, i, after.runs[i]);
    assert(after.runs =~= before.runs.update(i, after.runs[i]));
}

/// A race ends: however its steps interleave, it has taken at most five
/// steps for each resolution, a beginning and at most two requests with their
/// replies.
pub proof fn lemma_race_ends<T: NetBoxModel>(
    states: Seq<Race<T>>,
    steps: Seq<RaceStep<T>>,
    moment: int,
)
    requires
        is_race(states, steps),
        0 <= moment < states.len(),
    ensures
        states[moment].runs.len() == states[0].runs.len(),
        moment + race_rank(states[moment].runs) <= 5 * states[0].runs.len(),
    decreases moment,
{
    if moment == 0 {
        lemma_rank_is_bounded(states[0].runs);
    } else {
        lemma_race_ends(states, steps, moment - 1);
        lemma_race_converges(states, steps, moment - 1);
        assert(race_next(states[moment - 1], states[moment - 1 + 1], steps[moment - 1]));
        lemma_race_step_makes_progress(states[moment - 1], states[moment], steps[moment - 1]);
    }
}

/// Whether nothing is left to do in a race: every resolution has begun, no
/// request waits to be served and no reply to be taken.
pub open spec fn race_is_quiet<T>(race: Race<T>) -> bool {
    forall|i: int|
        0 <= i < race.runs.len() ==> (#[trigger] race.runs[i]).state is Some
            && race.runs[i].inbox is None && race.runs[i].state->0.awaits() is None
}

/// When nothing is left to do, every resolution has ended with the
/// identifier under which the registry holds the entity, every draft carries
/// it, and the cache knows it for the key.
pub proof fn lemma_quiet_race_is_done<T: NetBoxModel>(race: Race<T>)
    requires
        race_inv(race),
        race_is_quiet(race),
    ensures
        forall|i: int|
            0 <= i < race.runs.len() ==> ended_with(#[trigger] race.runs[i]) is Some
                && race.runs[i].item.id_of() == ended_with(race.runs[i]) && race.registry is Some
                && race.registry->0.id_of() == ended_with(race.runs[i]) && cached_id(
                race.table,
                race.key,
            ) == ended_with(race.runs[i]),
        converged(race),
{
    lemma_sound_race_converged(race);
    assert forall|i: int| 0 <= i < race.runs.len() implies ended_with(#[trigger] race.runs[i])
        is Some && race.runs[i].item.id_of() == ended_with(race.runs[i]) && race.registry is Some
        && race.registry->0.id_of() == ended_with(race.runs[i]) && cached_id(race.table, race.key)
        == ended_with(race.runs[i]) by {
        assert(run_inv(race, race.runs[i]));
    }
}

/// A race does not stall: a resolution that has not ended can always take a
/// step, so that every resolution of a race that is run to its end has ended
/// with the identifier.
pub proof fn lemma_race_can_move<T: NetBoxModel>(race: Race<T>, i: int)
    requires
        race_inv(race),
        0 <= i < race.runs.len(),
    ensures
        race.runs[i].state is None || race.runs[i].inbox is Some || race.runs[i].state->0.awaits()
            is Some || race.runs[i].state->0 is Resolved,
{
}

} // verus!
