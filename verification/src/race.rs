//! Registrations that run at the same time.
//!
//! A registration is three steps on the registry: claim it, store the
//! finder, mark it complete. Each step is atomic, and between the steps of
//! one registration any number of steps of others may fall. The model here
//! runs several registrations by a schedule that names, step by step, who
//! moves next; the laws hold of every schedule.

use crate::custom::RegistryState;
use vstd::prelude::*;

verus! {

/// How far a registration has come.
pub enum Phase {
    /// It has not touched the registry.
    Idle,
    /// It claimed the registry before any other.
    Claimed,
    /// It stored its finder.
    Stored,
    /// It marked the registry complete and returned success.
    Accepted,
    /// It found the registry claimed and returned the error.
    Rejected,
}

impl Phase {
    /// Whether the registration owns the registry.
    pub open spec fn owns(self) -> bool {
        self is Claimed || self is Stored || self is Accepted
    }

    /// Whether the registration has returned.
    pub open spec fn returned(self) -> bool {
        self is Accepted || self is Rejected
    }
}

/// Several registrations under way on one registry.
pub struct Race<F> {
    /// The registry that they share.
    pub registry: RegistryState<F>,
    /// How far each has come.
    pub phases: Seq<Phase>,
    /// The registration that claimed the registry first, once one has.
    pub winner: Option<int>,
}

/// The race of `count` registrations before any has moved.
pub open spec fn start<F>(count: nat) -> Race<F> {
    Race {
        registry: RegistryState::empty(),
        phases: Seq::new(count, |i: int| Phase::Idle),
        winner: None,
    }
}

/// The race after registration `who` has taken its next step. `finders[who]`
/// is the finder that it offers. A registration that has returned, or that
/// does not exist, moves nothing.
pub open spec fn advance<F>(race: Race<F>, finders: Seq<F>, who: int) -> Race<F> {
    if 0 <= who < race.phases.len() {
        match race.phases[who] {
            Phase::Idle => {
                let (registry, won) = race.registry.claim();
                if won {
                    Race {
                        registry,
                        phases: race.phases.update(who, Phase::Claimed),
                        winner: Some(who),
                    }
                } else {
                    Race { registry, phases: race.phases.update(who, Phase::Rejected), ..race }
                }
            },
            Phase::Claimed => Race {
                registry: race.registry.store(finders[who]),
                phases: race.phases.update(who, Phase::Stored),
                ..race
            },
            Phase::Stored => Race {
                registry: race.registry.complete(),
                phases: race.phases.update(who, Phase::Accepted),
                ..race
            },
            Phase::Accepted | Phase::Rejected => race,
        }
    } else {
        race
    }
}

/// The race of one registration for each of `finders`, after the steps
/// that `schedule` names in turn.
pub open spec fn run<F>(finders: Seq<F>, schedule: Seq<int>) -> Race<F>
    decreases schedule.len(),
{
    if schedule.len() == 0 {
        start(finders.len())
    } else {
        advance(run(finders, schedule.drop_last()), finders, schedule.last())
    }
}

/// What holds of a race at every moment: the registry is untouched until a
/// registration has won it; after that, the winner alone owns it, and the
/// registry holds exactly what the winner's steps have put there.
pub open spec fn coherent<F>(race: Race<F>, finders: Seq<F>) -> bool {
    &&& race.phases.len() == finders.len()
    &&& match race.winner {
        None => {
            &&& race.registry == RegistryState::<F>::empty()
            &&& forall|i: int| 0 <= i < race.phases.len() ==> race.phases[i] is Idle
        },
        Some(winner) => {
            &&& 0 <= winner < race.phases.len()
            &&& race.registry.started
            &&& race.phases[winner].owns()
            &&& forall|i: int|
                0 <= i < race.phases.len() && i != winner ==> race.phases[i] is Idle
                    || race.phases[i] is Rejected
            &&& race.registry.completed <==> race.phases[winner] is Accepted
            &&& race.registry.finder == if race.phases[winner] is Claimed {
                None
            } else {
                Some(finders[winner])
            }
        },
    }
}

/// A step keeps a race coherent.
proof fn lemma_advance_coherent<F>(race: Race<F>, finders: Seq<F>, who: int)
    requires
        coherent(race, finders),
    ensures
        coherent(advance(race, finders, who), finders),
{
}

/// Every schedule leaves the race coherent.
pub proof fn lemma_run_coherent<F>(finders: Seq<F>, schedule: Seq<int>)
    ensures
        coherent(run(finders, schedule), finders),
    decreases schedule.len(),
{
    if schedule.len() > 0 {
        lemma_run_coherent(finders, schedule.drop_last());
        lemma_advance_coherent(run(finders, schedule.drop_last()), finders, schedule.last());
    }
}

/// At most one registration succeeds: whatever the schedule, two
/// registrations that own the registry are one and the same, and so are two
/// that returned success.
pub proof fn lemma_single_registration<F>(finders: Seq<F>, schedule: Seq<int>, i: int, j: int)
    requires
        0 <= i < finders.len(),
        0 <= j < finders.len(),
        run(finders, schedule).phases[i].owns(),
        run(finders, schedule).phases[j].owns(),
    ensures
        i == j,
        run(finders, schedule).winner == Some(i),
{
    lemma_run_coherent(finders, schedule);
}

/// A lookup never sees a registration under way: whatever the schedule, the
/// registry shows no finder until a registration has returned success, and
/// then it shows the finder of that registration and no other.
pub proof fn lemma_lookup_sees_accepted_finder<F>(finders: Seq<F>, schedule: Seq<int>)
    ensures
        run(finders, schedule).registry.wf(),
        match run(finders, schedule).registry.observed() {
            Some(finder) => {
                &&& run(finders, schedule).winner matches Some(winner)
                &&& 0 <= winner < finders.len()
                &&& run(finders, schedule).phases[winner] is Accepted
                &&& finder == finders[winner]
            },
            None => forall|i: int|
                0 <= i < finders.len() ==> !(run(finders, schedule).phases[i] is Accepted),
        },
{
    lemma_run_coherent(finders, schedule);
}

/// Once every registration has returned, exactly one has succeeded: the
/// winner returned success, every other returned the error, and lookups see
/// the winner's finder.
pub proof fn lemma_exactly_one_succeeds<F>(finders: Seq<F>, schedule: Seq<int>)
    requires
        finders.len() > 0,
        forall|i: int| 0 <= i < finders.len() ==> run(finders, schedule).phases[i].returned(),
    ensures
        run(finders, schedule).winner matches Some(winner) && {
            &&& 0 <= winner < finders.len()
            &&& run(finders, schedule).registry.observed() == Some(finders[winner])
            &&& forall|i: int|
                0 <= i < finders.len() ==> (run(finders, schedule).phases[i] is Accepted <==> i
                    == winner)
            &&& forall|i: int|
                0 <= i < finders.len() ==> (run(finders, schedule).phases[i] is Rejected <==> i
                    != winner)
        },
{
    lemma_run_coherent(finders, schedule);
    let race = run(finders, schedule);
    assert(race.phases[0].returned());
}

/// A registration that takes its three steps with no other step between
/// them does what a whole registration does: it leaves the registry as
/// [`RegistryState::register`] says, and returns success if and only if the
/// registry had not been claimed.
pub proof fn lemma_uninterrupted_registration<F>(race: Race<F>, finders: Seq<F>, who: int)
    requires
        coherent(race, finders),
        0 <= who < finders.len(),
        race.phases[who] is Idle,
    ensures
        ({
            let after = advance(advance(advance(race, finders, who), finders, who), finders, who);
            &&& after.registry == race.registry.register(finders[who])
            &&& after.phases[who] is Accepted <==> !race.registry.started
            &&& after.phases[who] is Rejected <==> race.registry.started
        }),
{
}

/// Registrations that run one after another: the registry after them is the
/// one that whole registrations, in that order, leave behind.
pub open spec fn one_by_one<F>(finders: Seq<F>, upto: int) -> RegistryState<F>
    decreases upto,
{
    if upto <= 0 {
        RegistryState::empty()
    } else {
        one_by_one(finders, upto - 1).register(finders[upto - 1])
    }
}

/// Of registrations that run one after another the first succeeds and every
/// later one fails: after the first, the registry is claimed and shows the
/// first finder, whatever is offered later.
pub proof fn lemma_first_registration_stays<F>(finders: Seq<F>, upto: int)
    requires
        0 < upto <= finders.len(),
    ensures
        one_by_one(finders, upto).started,
        one_by_one(finders, upto).observed() == Some(finders[0]),
        one_by_one(finders, upto).wf(),
        !one_by_one(finders, 0).started,
    decreases upto,
{
    if upto > 1 {
        lemma_first_registration_stays(finders, upto - 1);
    } else {
        assert(one_by_one(finders, 0) == RegistryState::<F>::empty());
    }
}

} // verus!
