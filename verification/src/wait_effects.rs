//! What each operation of a wait set does, wait by wait and field by field: when it answers what,
//! what it changes, and what it leaves alone.

use vstd::prelude::*;
use std::time::Duration;
use crate::ids::{ascending, lists, sorted};
use crate::text::{decimal_chars, law_numbers_are_written_apart};
use crate::wait_laws::{
    deltas, law_a_snapshot_registers_what_it_lists, law_the_annotation_is_every_delta_in_order,
    law_the_last_listing_stands, WaitSetOp,
};
use crate::wait_model::{waits_by_id, WaitSetModel};
use crate::wait_set::{is_marker_list, UnwrittenAnnotationError};
use crate::waits::{
    ExternalStreamReadyResult, ExternalStreamRunStatus, ExternalWaitState, ExternalWaitStatus,
    ParkResolution, ParkStartOutcome, ParkTrigger, ReadinessOutcome, RunStreamStatus,
    UNPARKED_WAKE_GENERATION,
};

verus! {

/// A status holds the task in each of its values but `Parked`, and the generation of an unparked
/// wake is 0.
pub proof fn law_what_a_status_holds()
    ensures
        ExternalWaitStatus::BlockedWftOpen.holds_task(),
        ExternalWaitStatus::Ready.holds_task(),
        ExternalWaitStatus::Parking.holds_task(),
        !ExternalWaitStatus::Parked.holds_task(),
        UNPARKED_WAKE_GENERATION == 0,
{
}

/// A new set has nothing: no snapshot, no waits, nothing pending, no park, no task, no annotation.
pub proof fn law_a_new_set_has_nothing(wait_id: u32)
    ensures
        WaitSetModel::initial().quiescence_generation == 0,
        !WaitSetModel::initial().waits.contains_key(wait_id),
        !WaitSetModel::initial().ready.contains(wait_id),
        WaitSetModel::initial().idle_timeout is None,
        WaitSetModel::initial().park_generation is None,
        !WaitSetModel::initial().wft_open,
        WaitSetModel::initial().annotation.len() == 0,
{
}

/// A set is well formed exactly if it has finitely many waits, each under its own id, readiness
/// pending only for registered ones, and none at all before its first snapshot.
pub proof fn law_what_is_well_formed(s: WaitSetModel)
    ensures
        s.well_formed() <==> {
            &&& s.waits.dom().finite()
            &&& forall|id: u32| #[trigger]
                s.waits.contains_key(id) ==> s.waits[id].wait_id == id
            &&& forall|id: u32| #[trigger] s.ready.contains(id) ==> s.waits.contains_key(id)
            &&& s.quiescence_generation == 0 ==> forall|id: u32|
                !#[trigger] s.waits.contains_key(id)
        },
{
    lemma_emptiness(s);
    assert(s.ready.subset_of(s.waits.dom()) <==> forall|id: u32| #[trigger]
        s.ready.contains(id) ==> s.waits.contains_key(id));
}

proof fn lemma_emptiness(s: WaitSetModel)
    ensures
        s.waits.is_empty() <==> forall|id: u32| !#[trigger] s.waits.contains_key(id),
{
    if s.waits.is_empty() {
        assert(s.waits =~= Map::empty());
    }
    if forall|id: u32| !#[trigger] s.waits.contains_key(id) {
        assert(s.waits =~= Map::empty());
    }
}

/// Every new snapshot opens a new generation with its Workflow Task open, no park, and nothing
/// pending, whatever the set was before; it keeps the annotation, and registers exactly the waits
/// it lists, each as it was last listed.
pub proof fn law_what_a_snapshot_does(
    s: WaitSetModel,
    listed: Seq<ExternalWaitState>,
    idle_timeout: Duration,
    wait_id: u32,
    i: int,
)
    requires
        s.quiescence_generation < u64::MAX,
    ensures
        ({
            let t = s.quiescent(listed, idle_timeout);
            &&& t.quiescence_generation == s.quiescence_generation + 1
            &&& t.wft_open
            &&& t.park_generation is None
            &&& t.idle_timeout == Some(idle_timeout)
            &&& !t.ready.contains(wait_id)
            &&& t.annotation == s.annotation
            &&& t.waits.contains_key(wait_id) <==> exists|k: int|
                0 <= k < listed.len() && (#[trigger] listed[k]).wait_id == wait_id
            &&& (0 <= i < listed.len() && forall|j: int|
                i < j < listed.len() ==> (#[trigger] listed[j]).wait_id != listed[i].wait_id)
                ==> t.waits.contains_key(listed[i].wait_id) && t.waits[listed[i].wait_id]
                == listed[i]
        }),
{
    law_a_snapshot_registers_what_it_lists(listed, wait_id);
    if 0 <= i < listed.len() && forall|j: int|
        i < j < listed.len() ==> (#[trigger] listed[j]).wait_id != listed[i].wait_id {
        law_the_last_listing_stands(listed, i);
        law_a_snapshot_registers_what_it_lists(listed, listed[i].wait_id);
    }
}

/// A snapshot of waits that have just blocked retains its task, whatever the set was before, a
/// parked one included: the probe reports it open, and readiness for a listed wait at its
/// generation is accepted and pending.
pub proof fn law_a_fresh_snapshot_takes_readiness(
    s: WaitSetModel,
    listed: Seq<ExternalWaitState>,
    idle_timeout: Duration,
    i: int,
)
    requires
        s.quiescence_generation < u64::MAX,
        forall|k: int|
            0 <= k < listed.len() ==> (#[trigger] listed[k]).status
                == ExternalWaitStatus::BlockedWftOpen,
        0 <= i < listed.len(),
        forall|j: int| i < j < listed.len() ==> (#[trigger] listed[j]).wait_id != listed[i].wait_id,
    ensures
        ({
            let t = s.quiescent(listed, idle_timeout);
            let w = listed[i];
            &&& t.run_status() == RunStreamStatus::WftOpen
            &&& t.retains_wft()
            &&& t.readiness(w.wait_id, w.wait_generation) == ReadinessOutcome::Accepted
            &&& t.notified(w.wait_id, w.wait_generation).ready.contains(w.wait_id)
        }),
{
    let t = s.quiescent(listed, idle_timeout);
    law_what_a_snapshot_does(s, listed, idle_timeout, listed[i].wait_id, i);
    assert(t.waits.contains_key(listed[i].wait_id));
}

/// When a readiness notification is answered what: nothing but the named wait and whether the task
/// is open counts, and of the wait's status only whether it is parked.
pub proof fn law_when_readiness_is_answered_what(
    s: WaitSetModel,
    wait_id: u32,
    wait_generation: u64,
)
    ensures
        ({
            let r = s.readiness(wait_id, wait_generation);
            let known = s.waits.contains_key(wait_id);
            let current = s.waits[wait_id].wait_generation == wait_generation;
            let parked = s.waits[wait_id].status == ExternalWaitStatus::Parked;
            &&& r == ReadinessOutcome::Accepted <==> known && current && !parked && s.wft_open
            &&& r == ReadinessOutcome::Parked <==> known && current && parked
            &&& r == ReadinessOutcome::Stale <==> known && !current
            &&& r == ReadinessOutcome::NoOpenWorkflowTask <==> !known || (current && !parked
                && !s.wft_open)
        }),
{
}

/// Every accepted notification leaves its wait ready and pending, whatever its status was before,
/// and touches no other wait and nothing else. Any other notification changes nothing.
pub proof fn law_what_readiness_does(
    s: WaitSetModel,
    wait_id: u32,
    wait_generation: u64,
    other: u32,
)
    ensures
        ({
            let t = s.notified(wait_id, wait_generation);
            let accepted = s.waits.contains_key(wait_id) && s.waits[wait_id].wait_generation
                == wait_generation && s.waits[wait_id].status != ExternalWaitStatus::Parked
                && s.wft_open;
            &&& accepted ==> t.waits[wait_id].status == ExternalWaitStatus::Ready
            &&& accepted ==> t.ready == s.ready.insert(wait_id)
            &&& !accepted ==> t == s
            &&& t.waits.contains_key(other) <==> s.waits.contains_key(other)
            &&& other != wait_id ==> t.waits[other] == s.waits[other]
            &&& t.waits[wait_id].wait_id == s.waits[wait_id].wait_id
            &&& t.waits[wait_id].wait_generation == s.waits[wait_id].wait_generation
            &&& t.waits[wait_id].immediately_parkable == s.waits[wait_id].immediately_parkable
            &&& t.quiescence_generation == s.quiescence_generation
            &&& t.idle_timeout == s.idle_timeout
            &&& t.park_generation == s.park_generation
            &&& t.wft_open == s.wft_open
            &&& t.annotation == s.annotation
        }),
{
}

/// Readiness that arrives after the wait's earlier readiness was shipped is accepted again and is
/// pending again, to be shipped next time.
pub proof fn law_readiness_after_shipping_is_pending_again(
    s: WaitSetModel,
    wait_id: u32,
    wait_generation: u64,
)
    requires
        s.readiness(wait_id, wait_generation) == ReadinessOutcome::Accepted,
    ensures
        ({
            let notified = s.notified(wait_id, wait_generation);
            let shipped = WaitSetModel { ready: Set::empty(), ..notified };
            let again = shipped.notified(wait_id, wait_generation);
            &&& notified.ready == s.ready.insert(wait_id)
            &&& shipped.readiness(wait_id, wait_generation) == ReadinessOutcome::Accepted
            &&& again.ready == Set::<u32>::empty().insert(wait_id)
            &&& again.waits[wait_id].status == ExternalWaitStatus::Ready
        }),
{
    let notified = s.notified(wait_id, wait_generation);
    let shipped = WaitSetModel { ready: Set::empty(), ..notified };
    law_when_readiness_is_answered_what(s, wait_id, wait_generation);
    law_when_readiness_is_answered_what(shipped, wait_id, wait_generation);
    law_what_readiness_does(s, wait_id, wait_generation, wait_id);
    law_what_readiness_does(shipped, wait_id, wait_generation, wait_id);
}

/// Two sets that agree on the named wait and on whether the task is open answer readiness alike.
pub proof fn law_readiness_depends_on_its_wait_alone(
    s: WaitSetModel,
    t: WaitSetModel,
    wait_id: u32,
    wait_generation: u64,
)
    requires
        s.waits.contains_key(wait_id) == t.waits.contains_key(wait_id),
        s.waits[wait_id] == t.waits[wait_id],
        s.wft_open == t.wft_open,
    ensures
        s.readiness(wait_id, wait_generation) == t.readiness(wait_id, wait_generation),
{
}

/// Parking starts whenever it may: for the current generation, where there is a wait and none is
/// ready. Neither what triggered it nor any fence is asked for.
pub proof fn law_when_parking_starts(
    s: WaitSetModel,
    quiescence_generation: u64,
    trigger: ParkTrigger,
)
    ensures
        ({
            let r = s.park_start(quiescence_generation, trigger);
            let current = quiescence_generation == s.quiescence_generation;
            let some = exists|id: u32| #[trigger] s.waits.contains_key(id);
            let ready = exists|id: u32| #[trigger]
                s.waits.contains_key(id) && s.waits[id].status == ExternalWaitStatus::Ready;
            &&& r == ParkStartOutcome::Started(trigger) <==> current && some && !ready
            &&& r is Started <==> current && some && !ready
            &&& r == ParkStartOutcome::StaleGeneration <==> !current || !some
            &&& r == ParkStartOutcome::AlreadyReady <==> current && ready
        }),
{
    lemma_emptiness(s);
}

/// Where parking starts every wait moves to `Parking` and is otherwise as it was; where it does
/// not, no wait moves. Nothing else changes either way.
pub proof fn law_what_starting_to_park_does(
    s: WaitSetModel,
    quiescence_generation: u64,
    trigger: ParkTrigger,
    wait_id: u32,
)
    ensures
        ({
            let t = s.parking_started(quiescence_generation, trigger);
            let starts = quiescence_generation == s.quiescence_generation && (exists|id: u32|
                #[trigger] s.waits.contains_key(id)) && forall|id: u32| #[trigger]
                s.waits.contains_key(id) ==> s.waits[id].status != ExternalWaitStatus::Ready;
            &&& t.waits.contains_key(wait_id) <==> s.waits.contains_key(wait_id)
            &&& starts && s.waits.contains_key(wait_id) ==> t.waits[wait_id] == (
            ExternalWaitState { status: ExternalWaitStatus::Parking, ..s.waits[wait_id] })
            &&& !starts ==> t == s
            &&& t.quiescence_generation == s.quiescence_generation
            &&& t.ready == s.ready
            &&& t.idle_timeout == s.idle_timeout
            &&& t.park_generation == s.park_generation
            &&& t.wft_open == s.wft_open
            &&& t.annotation == s.annotation
        }),
{
    lemma_emptiness(s);
}

/// What triggers a park has no say in whether it starts, and neither have the waits' fences and
/// generations: two sets of the same generation that agree on which waits there are and on their
/// statuses are answered alike.
pub proof fn law_neither_trigger_nor_fence_decides_parking(
    s: WaitSetModel,
    t: WaitSetModel,
    quiescence_generation: u64,
    trigger: ParkTrigger,
    other: ParkTrigger,
)
    requires
        s.quiescence_generation == t.quiescence_generation,
        s.waits.dom() == t.waits.dom(),
        forall|id: u32| #[trigger]
            s.waits.contains_key(id) ==> s.waits[id].status == t.waits[id].status,
    ensures
        s.park_start(quiescence_generation, trigger) is Started <==> t.park_start(
            quiescence_generation,
            other,
        ) is Started,
        s.park_start(quiescence_generation, trigger) is AlreadyReady <==> t.park_start(
            quiescence_generation,
            other,
        ) is AlreadyReady,
{
    law_when_parking_starts(s, quiescence_generation, trigger);
    law_when_parking_starts(t, quiescence_generation, other);
    assert forall|id: u32| s.waits.contains_key(id) == #[trigger] t.waits.contains_key(id) by {
        assert(s.waits.dom().contains(id) == t.waits.dom().contains(id));
    }
    if s.park_start(quiescence_generation, trigger) is AlreadyReady {
        let id = choose|id: u32| #[trigger]
            s.waits.contains_key(id) && s.waits[id].status == ExternalWaitStatus::Ready;
        assert(t.waits.contains_key(id) && t.waits[id].status == ExternalWaitStatus::Ready);
    }
    if t.park_start(quiescence_generation, other) is AlreadyReady {
        let id = choose|id: u32| #[trigger]
            t.waits.contains_key(id) && t.waits[id].status == ExternalWaitStatus::Ready;
        assert(s.waits.contains_key(id) && s.waits[id].status == ExternalWaitStatus::Ready);
    }
    if exists|id: u32| #[trigger] s.waits.contains_key(id) {
        let id = choose|id: u32| #[trigger] s.waits.contains_key(id);
        assert(t.waits.contains_key(id));
    }
    if exists|id: u32| #[trigger] t.waits.contains_key(id) {
        let id = choose|id: u32| #[trigger] t.waits.contains_key(id);
        assert(s.waits.contains_key(id));
    }
}

/// An answer for a real, current generation with every wait in `Parking` is taken at its word: it
/// confirms the park exactly if it says so, and aborts it exactly if it does not. Any other answer
/// is stale.
pub proof fn law_when_a_park_is_confirmed(
    s: WaitSetModel,
    quiescence_generation: u64,
    confirmed: bool,
)
    ensures
        ({
            let r = s.park_resolution(quiescence_generation, confirmed);
            let parking = quiescence_generation == s.quiescence_generation
                && quiescence_generation != 0 && forall|id: u32| #[trigger]
                s.waits.contains_key(id) ==> s.waits[id].status == ExternalWaitStatus::Parking;
            &&& r == ParkResolution::Confirmed <==> parking && confirmed
            &&& r == ParkResolution::Aborted <==> parking && !confirmed
            &&& r == ParkResolution::StaleGeneration <==> !parking
        }),
{
}

/// The two answers lang can give are each other's opposite: wherever one would confirm the other
/// would abort, and where one is stale so is the other.
pub proof fn law_the_two_answers_are_opposites(s: WaitSetModel, quiescence_generation: u64)
    ensures
        s.park_resolution(quiescence_generation, true) is Confirmed <==> s.park_resolution(
            quiescence_generation,
            false,
        ) is Aborted,
        s.park_resolution(quiescence_generation, true) is StaleGeneration <==> s.park_resolution(
            quiescence_generation,
            false,
        ) is StaleGeneration,
        !(s.park_resolution(quiescence_generation, true) is Aborted),
        !(s.park_resolution(quiescence_generation, false) is Confirmed),
{
}

/// What an answer does. Confirmed, it parks every wait, records the generation and gives up the
/// task. Not confirmed, it blocks every wait again one generation on and sets no park. Stale, it
/// changes nothing. Pending readiness, the idle timeout and the annotation are left alone.
pub proof fn law_what_an_answer_does(
    s: WaitSetModel,
    quiescence_generation: u64,
    confirmed: bool,
    wait_id: u32,
)
    ensures
        ({
            let t = s.park_resolved(quiescence_generation, confirmed);
            let w = s.waits[wait_id];
            let parking = quiescence_generation == s.quiescence_generation
                && quiescence_generation != 0 && forall|id: u32| #[trigger]
                s.waits.contains_key(id) ==> s.waits[id].status == ExternalWaitStatus::Parking;
            &&& t.waits.contains_key(wait_id) <==> s.waits.contains_key(wait_id)
            &&& parking && confirmed && s.waits.contains_key(wait_id) ==> t.waits[wait_id] == (
            ExternalWaitState { status: ExternalWaitStatus::Parked, ..w })
            &&& parking && !confirmed && s.waits.contains_key(wait_id) ==> {
                &&& t.waits[wait_id].status == ExternalWaitStatus::BlockedWftOpen
                &&& w.wait_generation < u64::MAX ==> t.waits[wait_id].wait_generation
                    == w.wait_generation + 1
                &&& t.waits[wait_id].wait_id == w.wait_id
                &&& t.waits[wait_id].immediately_parkable == w.immediately_parkable
            }
            &&& !parking ==> t == s
            &&& t.park_generation == if parking && confirmed {
                Some(quiescence_generation)
            } else {
                s.park_generation
            }
            &&& t.wft_open == (s.wft_open && !(parking && confirmed))
            &&& t.quiescence_generation == s.quiescence_generation
            &&& t.ready == s.ready
            &&& t.idle_timeout == s.idle_timeout
            &&& t.annotation == s.annotation
        }),
{
    law_when_a_park_is_confirmed(s, quiescence_generation, confirmed);
}

/// An answer that does not confirm parks nothing: it sets no park generation, gives up no task, and
/// no wait is parked after it that was not before. One that is aborted leaves no wait parked.
pub proof fn law_a_refusal_parks_nothing(s: WaitSetModel, quiescence_generation: u64, wait_id: u32)
    ensures
        ({
            let t = s.park_resolved(quiescence_generation, false);
            &&& t.park_generation == s.park_generation
            &&& t.wft_open == s.wft_open
            &&& t.waits.contains_key(wait_id) && t.waits[wait_id].status
                == ExternalWaitStatus::Parked ==> s.waits[wait_id].status
                == ExternalWaitStatus::Parked
            &&& s.park_resolution(quiescence_generation, false) is Aborted
                && t.waits.contains_key(wait_id) ==> t.waits[wait_id].status
                != ExternalWaitStatus::Parked
        }),
{
    law_when_a_park_is_confirmed(s, quiescence_generation, false);
    law_what_an_answer_does(s, quiescence_generation, false, wait_id);
}

/// Aborting blocks exactly the parking waits again, one generation on, and leaves every other wait
/// and everything else alone. There is room for it exactly if no parking wait is at the last
/// generation.
pub proof fn law_what_aborting_does(s: WaitSetModel, wait_id: u32)
    ensures
        s.can_unpark() <==> forall|id: u32| #[trigger]
            s.waits.contains_key(id) ==> s.waits[id].status != ExternalWaitStatus::Parking
                || s.waits[id].wait_generation < u64::MAX,
        s.can_unpark() ==> ({
            let t = s.parking_aborted();
            let w = s.waits[wait_id];
            &&& t.waits.contains_key(wait_id) <==> s.waits.contains_key(wait_id)
            &&& s.waits.contains_key(wait_id) && w.status != ExternalWaitStatus::Parking
                ==> t.waits[wait_id] == w
            &&& s.waits.contains_key(wait_id) && w.status == ExternalWaitStatus::Parking ==> {
                &&& t.waits[wait_id].status == ExternalWaitStatus::BlockedWftOpen
                &&& t.waits[wait_id].wait_generation == w.wait_generation + 1
                &&& t.waits[wait_id].wait_id == w.wait_id
                &&& t.waits[wait_id].immediately_parkable == w.immediately_parkable
            }
            &&& t.quiescence_generation == s.quiescence_generation
            &&& t.ready == s.ready
            &&& t.idle_timeout == s.idle_timeout
            &&& t.park_generation == s.park_generation
            &&& t.wft_open == s.wft_open
            &&& t.annotation == s.annotation
        }),
{
}

/// A park that is injected parks every wait at the generation given and gives up the task; the
/// rest of the set is left alone.
pub proof fn law_what_an_injected_park_does(s: WaitSetModel, park_generation: u64, wait_id: u32)
    ensures
        ({
            let t = s.parked_at(park_generation);
            &&& t.waits.contains_key(wait_id) <==> s.waits.contains_key(wait_id)
            &&& s.waits.contains_key(wait_id) ==> t.waits[wait_id] == (ExternalWaitState {
                status: ExternalWaitStatus::Parked,
                ..s.waits[wait_id]
            })
            &&& t.park_generation == Some(park_generation)
            &&& !t.wft_open
            &&& t.quiescence_generation == s.quiescence_generation
            &&& t.ready == s.ready
            &&& t.idle_timeout == s.idle_timeout
            &&& t.annotation == s.annotation
        }),
{
}

/// The task is retained exactly if some wait is not parked.
pub proof fn law_when_the_task_is_retained(s: WaitSetModel)
    ensures
        s.retains_wft() <==> exists|id: u32| #[trigger]
            s.waits.contains_key(id) && s.waits[id].status != ExternalWaitStatus::Parked,
{
}

/// The set is parkable at once exactly if it has waits and every one of them is fenced.
pub proof fn law_when_the_set_is_parkable_at_once(s: WaitSetModel)
    ensures
        s.all_immediately_parkable() <==> (exists|id: u32| #[trigger] s.waits.contains_key(id))
            && forall|id: u32| #[trigger]
            s.waits.contains_key(id) ==> s.waits[id].immediately_parkable,
{
    lemma_emptiness(s);
}

/// When the probe answers what.
pub proof fn law_when_the_probe_answers_what(s: WaitSetModel)
    ensures
        ({
            let held = exists|id: u32| #[trigger]
                s.waits.contains_key(id) && s.waits[id].status != ExternalWaitStatus::Parked;
            &&& s.run_status() == RunStreamStatus::Parked <==> s.park_generation is Some && !held
            &&& s.run_status() == RunStreamStatus::WftOpen <==> s.wft_open && held
            &&& s.run_status() == RunStreamStatus::NoOpenWorkflowTask <==> if held {
                !s.wft_open
            } else {
                s.park_generation is None
            }
        }),
{
}

/// A wake is accepted exactly if it names generation 0 or the confirmed park's.
pub proof fn law_when_a_wake_is_accepted(s: WaitSetModel, park_generation: u64)
    ensures
        s.accepts_wake(park_generation) <==> park_generation == 0 || (s.park_generation matches Some(
            g,
        ) && g == park_generation),
{
}

/// Taking the annotation fails exactly when no Workflow Task is open and the annotation is not
/// empty. Nothing else about the set has a say in it.
pub proof fn law_when_taking_the_annotation_fails(s: WaitSetModel, t: WaitSetModel)
    ensures
        s.annotation_unwritten() <==> !s.wft_open && s.annotation.len() > 0,
        s.wft_open == t.wft_open && s.annotation.len() == t.annotation.len() ==> (
        s.annotation_unwritten() <==> t.annotation_unwritten()),
{
}

/// The error names the bytes that are waiting: two of them read the same only if as many are.
pub proof fn law_an_unwritten_annotation_is_counted(
    a: UnwrittenAnnotationError,
    b: UnwrittenAnnotationError,
)
    ensures
        a.text() == "external stream annotation of "@ + decimal_chars(a.0 as nat)
            + " byte(s) is non-empty with no Workflow Task open; an accumulated, unwritten annotation exists only while a Workflow Task is open"@,
        a.text() == b.text() <==> a.0 == b.0,
{
    let front = "external stream annotation of "@;
    let back =
        " byte(s) is non-empty with no Workflow Task open; an accumulated, unwritten annotation exists only while a Workflow Task is open"@;
    let da = decimal_chars(a.0 as nat);
    let db = decimal_chars(b.0 as nat);
    law_numbers_are_written_apart(a.0 as nat, b.0 as nat);
    if a.text() == b.text() {
        assert(a.text().len() == front.len() + da.len() + back.len());
        assert(da =~= a.text().subrange(front.len() as int, (front.len() + da.len()) as int));
        assert(db =~= b.text().subrange(front.len() as int, (front.len() + db.len()) as int));
    }
}

/// Whatever is done to a set after its annotation was last taken, with a Workflow Task open at the
/// end the annotation can be taken, and is every delta accumulated since, in order.
pub proof fn law_an_open_task_takes_every_delta(s: WaitSetModel, ops: Seq<WaitSetOp>)
    requires
        s.annotation.len() == 0,
        forall|i: int| 0 <= i < ops.len() ==> !((#[trigger] ops[i]) is TakeAnnotation),
        s.run(ops).wft_open,
    ensures
        !s.run(ops).annotation_unwritten(),
        s.run(ops).annotation == deltas(ops),
        s.run(ops).apply(WaitSetOp::TakeAnnotation).annotation.len() == 0,
{
    law_the_annotation_is_every_delta_in_order(s, ops);
    assert(s.run(ops).annotation =~= deltas(ops));
}

/// What the deltas of a sequence are: those of its parts put together, and for one operation what
/// it accumulates.
pub proof fn law_what_deltas_are(a: Seq<WaitSetOp>, b: Seq<WaitSetOp>, op: WaitSetOp)
    ensures
        deltas(a + b) == deltas(a) + deltas(b),
        deltas(seq![op]) == match op {
            WaitSetOp::AccumulateAnnotation { delta } => delta,
            _ => Seq::empty(),
        },
    decreases b.len(),
{
    assert(seq![op].drop_last() =~= Seq::empty());
    assert(deltas(seq![op].drop_last()) =~= Seq::empty());
    assert(deltas(seq![op]) =~= match op {
        WaitSetOp::AccumulateAnnotation { delta } => delta,
        _ => Seq::empty(),
    });
    if b.len() == 0 {
        assert(a + b =~= a);
        assert(deltas(a) + deltas(b) =~= deltas(a));
    } else {
        assert((a + b).drop_last() =~= a + b.drop_last());
        assert((a + b).last() == b.last());
        law_what_deltas_are(a, b.drop_last(), op);
        assert(deltas(a + b) =~= deltas(a) + deltas(b));
    }
}

/// What it is to list a set: each id smaller than all that follow, and named exactly if it is a
/// member.
pub proof fn law_what_a_list_of_ids_is(listed: Seq<u32>, ids: Set<u32>)
    ensures
        lists(listed, ids) <==> {
            &&& forall|i: int, j: int| 0 <= i < j < listed.len() ==> listed[i] < listed[j]
            &&& forall|id: u32| #[trigger]
                ids.contains(id) <==> exists|i: int| 0 <= i < listed.len() && listed[i] == id
        },
        ascending(listed) <==> forall|i: int, j: int|
            0 <= i < j < listed.len() ==> listed[i] < listed[j],
        sorted(listed) <==> forall|i: int, j: int|
            0 <= i < j < listed.len() ==> listed[i] <= listed[j],
{
    if lists(listed, ids) {
        assert forall|id: u32| #[trigger]
            ids.contains(id) <==> exists|i: int| 0 <= i < listed.len() && listed[i] == id by {
            assert(ids.contains(id) == listed.to_set().contains(id));
        }
    }
    if forall|id: u32| #[trigger]
        ids.contains(id) <==> exists|i: int| 0 <= i < listed.len() && listed[i] == id {
        assert forall|id: u32| ids.contains(id) == #[trigger] listed.to_set().contains(id) by {}
        assert(listed.to_set() =~= ids);
    }
}

/// The marker's wait list names each registered wait and no other, by ascending id, each with the
/// generation that wait is at.
pub proof fn law_what_the_marker_list_is(
    out: Seq<(u32, u64)>,
    waits: Map<u32, ExternalWaitState>,
    wait_id: u32,
)
    requires
        is_marker_list(out, waits),
    ensures
        forall|i: int, j: int| 0 <= i < j < out.len() ==> (#[trigger] out[i]).0 < (#[trigger] out[j]).0,
        forall|i: int|
            0 <= i < out.len() ==> waits.contains_key((#[trigger] out[i]).0) && out[i].1
                == waits[out[i].0].wait_generation,
        waits.contains_key(wait_id) ==> exists|i: int|
            0 <= i < out.len() && (#[trigger] out[i]) == (wait_id, waits[wait_id].wait_generation),
{
    let id = |p: (u32, u64)| p.0;
    let named = out.map_values(id);
    law_what_a_list_of_ids_is(named, waits.dom());
    assert forall|i: int, j: int| 0 <= i < j < out.len() implies (#[trigger] out[i]).0 < (
    #[trigger] out[j]).0 by {
        assert(named[i] < named[j]);
    }
    assert forall|i: int| 0 <= i < out.len() implies waits.contains_key((#[trigger] out[i]).0)
        && out[i].1 == waits[out[i].0].wait_generation by {
        assert(named[i] == out[i].0);
        assert(waits.dom().contains(named[i]));
    }
    if waits.contains_key(wait_id) {
        assert(waits.dom().contains(wait_id));
        let i = choose|i: int| 0 <= i < named.len() && named[i] == wait_id;
        assert(out[i].0 == wait_id);
        assert(out[i] == (wait_id, waits[wait_id].wait_generation));
    }
}

/// A watcher and a probe are told their Run's own answer, and of a missing Run that it is missing.
pub proof fn law_what_is_told_of_a_run()
    ensures
        ExternalStreamReadyResult::of_run(Some(ReadinessOutcome::Accepted))
            == ExternalStreamReadyResult::Accepted,
        ExternalStreamReadyResult::of_run(Some(ReadinessOutcome::Stale))
            == ExternalStreamReadyResult::Stale,
        ExternalStreamReadyResult::of_run(Some(ReadinessOutcome::Parked))
            == ExternalStreamReadyResult::Parked,
        ExternalStreamReadyResult::of_run(Some(ReadinessOutcome::NoOpenWorkflowTask))
            == ExternalStreamReadyResult::NoOpenWorkflowTask,
        ExternalStreamReadyResult::of_run(None) == ExternalStreamReadyResult::RunNotFound,
        ExternalStreamRunStatus::of_run(Some(RunStreamStatus::WftOpen))
            == ExternalStreamRunStatus::WftOpen,
        ExternalStreamRunStatus::of_run(Some(RunStreamStatus::Parked))
            == ExternalStreamRunStatus::Parked,
        ExternalStreamRunStatus::of_run(Some(RunStreamStatus::NoOpenWorkflowTask))
            == ExternalStreamRunStatus::NoOpenWorkflowTask,
        ExternalStreamRunStatus::of_run(None) == ExternalStreamRunStatus::RunNotFound,
{
}

/// Of a snapshot's waits, those listed before a point and those listed after it are registered
/// together, and a later listing of an id replaces an earlier one.
pub proof fn law_snapshots_are_listed_in_order(
    first: Seq<ExternalWaitState>,
    then_listed: Seq<ExternalWaitState>,
    wait_id: u32,
)
    ensures
        waits_by_id(first + then_listed).contains_key(wait_id) <==> waits_by_id(first).contains_key(
            wait_id,
        ) || waits_by_id(then_listed).contains_key(wait_id),
        waits_by_id(first + then_listed).contains_key(wait_id) ==> waits_by_id(
            first + then_listed,
        )[wait_id] == if waits_by_id(then_listed).contains_key(wait_id) {
            waits_by_id(then_listed)[wait_id]
        } else {
            waits_by_id(first)[wait_id]
        },
    decreases then_listed.len(),
{
    if then_listed.len() == 0 {
        assert(first + then_listed =~= first);
    } else {
        assert((first + then_listed).drop_last() =~= first + then_listed.drop_last());
        assert((first + then_listed).last() == then_listed.last());
        law_snapshots_are_listed_in_order(first, then_listed.drop_last(), wait_id);
    }
}

} // verus!
