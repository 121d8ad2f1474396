//! What holds of a wait set across its operations.

use vstd::prelude::*;
use std::time::Duration;
use crate::ids::lemma_list_is_unique;
use crate::wait_model::{waits_by_id, WaitSetModel};
use crate::wait_set::is_marker_list;
use crate::waits::{
    ExternalStreamReadyResult, ExternalStreamRunStatus, ExternalWaitState, ExternalWaitStatus,
    ParkResolution, ParkStartOutcome, ParkTrigger, ReadinessOutcome, RunStreamStatus,
    UNPARKED_WAKE_GENERATION,
};

verus! {

/// One operation on a wait set in live use.
pub enum WaitSetOp {
    BecomeQuiescent { listed: Seq<ExternalWaitState>, idle_timeout: Duration },
    NotifyReady { wait_id: u32, wait_generation: u64 },
    StartParking { quiescence_generation: u64, trigger: ParkTrigger },
    ResolvePark { quiescence_generation: u64, confirmed: bool },
    AbortParking,
    TakeReadyWaitIds,
    SetWftOpen { open: bool },
    AccumulateAnnotation { delta: Seq<u8> },
    TakeAnnotation,
}

impl WaitSetModel {
    /// The counters the operation moves have room for it.
    pub open spec fn allows(self, op: WaitSetOp) -> bool {
        match op {
            WaitSetOp::BecomeQuiescent { .. } => self.quiescence_generation < u64::MAX,
            WaitSetOp::ResolvePark { quiescence_generation, confirmed } => self.park_resolution(
                quiescence_generation,
                confirmed,
            ) is Aborted ==> self.can_unpark(),
            WaitSetOp::AbortParking => self.can_unpark(),
            _ => true,
        }
    }

    /// The set after the operation.
    pub open spec fn apply(self, op: WaitSetOp) -> Self {
        match op {
            WaitSetOp::BecomeQuiescent { listed, idle_timeout } => self.quiescent(
                listed,
                idle_timeout,
            ),
            WaitSetOp::NotifyReady { wait_id, wait_generation } => self.notified(
                wait_id,
                wait_generation,
            ),
            WaitSetOp::StartParking { quiescence_generation, trigger } => self.parking_started(
                quiescence_generation,
                trigger,
            ),
            WaitSetOp::ResolvePark { quiescence_generation, confirmed } => self.park_resolved(
                quiescence_generation,
                confirmed,
            ),
            WaitSetOp::AbortParking => self.parking_aborted(),
            WaitSetOp::TakeReadyWaitIds => WaitSetModel { ready: Set::empty(), ..self },
            WaitSetOp::SetWftOpen { open } => WaitSetModel { wft_open: open, ..self },
            WaitSetOp::AccumulateAnnotation { delta } => WaitSetModel {
                annotation: self.annotation + delta,
                ..self
            },
            WaitSetOp::TakeAnnotation => if self.annotation_unwritten() {
                self
            } else {
                WaitSetModel { annotation: Seq::empty(), ..self }
            },
        }
    }

    /// The set after a sequence of operations.
    pub open spec fn run(self, ops: Seq<WaitSetOp>) -> Self
        decreases ops.len(),
    {
        if ops.len() == 0 {
            self
        } else {
            self.run(ops.drop_last()).apply(ops.last())
        }
    }

    /// Every operation of the sequence is allowed where it comes.
    pub open spec fn allows_all(self, ops: Seq<WaitSetOp>) -> bool
        decreases ops.len(),
    {
        ops.len() == 0 || (self.allows_all(ops.drop_last()) && self.run(ops.drop_last()).allows(
            ops.last(),
        ))
    }

    /// What a set in live use always is: well formed, with pending readiness only for waits in
    /// `Ready`, and with no park but one of the current snapshot, which is a real one.
    pub open spec fn consistent(self) -> bool {
        &&& self.well_formed()
        &&& forall|id: u32| #[trigger]
            self.ready.contains(id) ==> self.waits[id].status == ExternalWaitStatus::Ready
        &&& self.park_generation matches Some(g) ==> g == self.quiescence_generation && g
            != UNPARKED_WAKE_GENERATION
    }
}

proof fn lemma_waits_by_id_is_keyed(listed: Seq<ExternalWaitState>)
    ensures
        waits_by_id(listed).dom().finite(),
        forall|id: u32| #[trigger]
            waits_by_id(listed).contains_key(id) ==> waits_by_id(listed)[id].wait_id == id,
    decreases listed.len(),
{
    if listed.len() > 0 {
        lemma_waits_by_id_is_keyed(listed.drop_last());
    }
}

/// A snapshot registers exactly the waits it lists; any other is dropped.
pub proof fn law_a_snapshot_registers_what_it_lists(listed: Seq<ExternalWaitState>, wait_id: u32)
    ensures
        waits_by_id(listed).contains_key(wait_id) <==> exists|i: int|
            0 <= i < listed.len() && (#[trigger] listed[i]).wait_id == wait_id,
    decreases listed.len(),
{
    if listed.len() > 0 {
        let rest = listed.drop_last();
        law_a_snapshot_registers_what_it_lists(rest, wait_id);
        if waits_by_id(rest).contains_key(wait_id) {
            let i = choose|i: int|
                0 <= i < rest.len() && (#[trigger] rest[i]).wait_id == wait_id;
            assert(listed[i].wait_id == wait_id);
        }
        if listed.last().wait_id == wait_id {
            assert(listed[listed.len() - 1].wait_id == wait_id);
        } else if exists|i: int| 0 <= i < listed.len() && (#[trigger] listed[i]).wait_id == wait_id {
            let i = choose|i: int|
                0 <= i < listed.len() && (#[trigger] listed[i]).wait_id == wait_id;
            assert(rest[i].wait_id == wait_id);
        }
    }
}

/// Of several waits that a snapshot lists under one id, the last one stands.
pub proof fn law_the_last_listing_stands(listed: Seq<ExternalWaitState>, i: int)
    requires
        0 <= i < listed.len(),
        forall|j: int| i < j < listed.len() ==> (#[trigger] listed[j]).wait_id != listed[i].wait_id,
    ensures
        waits_by_id(listed)[listed[i].wait_id] == listed[i],
    decreases listed.len(),
{
    if i < listed.len() - 1 {
        let rest = listed.drop_last();
        assert(listed[listed.len() - 1].wait_id != listed[i].wait_id);
        assert forall|j: int| i < j < rest.len() implies (#[trigger] rest[j]).wait_id
            != rest[i].wait_id by {
            assert(rest[j] == listed[j]);
        }
        law_the_last_listing_stands(rest, i);
    }
}

/// Every operation keeps a set consistent.
pub proof fn law_every_operation_keeps_the_set_consistent(s: WaitSetModel, op: WaitSetOp)
    requires
        s.consistent(),
        s.allows(op),
    ensures
        s.apply(op).consistent(),
{
    let t = s.apply(op);
    assert(t.waits.dom().finite() && forall|id: u32| #[trigger]
        t.waits.contains_key(id) ==> t.waits[id].wait_id == id) by {
        if let WaitSetOp::BecomeQuiescent { listed, .. } = op {
            lemma_waits_by_id_is_keyed(listed);
        } else {
            assert(t.waits.dom() =~= s.waits.dom());
        }
    }
    if !(op is BecomeQuiescent) {
        assert(t.waits.dom() =~= s.waits.dom());
        if s.waits.is_empty() {
            assert(t.waits =~= Map::empty());
        }
        assert forall|id: u32| #[trigger] t.ready.contains(id) implies t.waits[id].status
            == ExternalWaitStatus::Ready by {
            if s.ready.contains(id) {
                assert(s.waits.contains_key(id));
                assert(s.any_in(ExternalWaitStatus::Ready));
            }
        }
    }
}

/// A set that was used only through its operations, from the start, is consistent.
pub proof fn law_a_set_in_use_is_consistent(ops: Seq<WaitSetOp>)
    requires
        WaitSetModel::initial().allows_all(ops),
    ensures
        WaitSetModel::initial().run(ops).consistent(),
    decreases ops.len(),
{
    if ops.len() > 0 {
        law_a_set_in_use_is_consistent(ops.drop_last());
        law_every_operation_keeps_the_set_consistent(
            WaitSetModel::initial().run(ops.drop_last()),
            ops.last(),
        );
    }
}

/// While accepted readiness is waiting to be shipped, no park can be started and none can be
/// confirmed or aborted: the ready wait's record is never left behind a parked Workflow Task.
pub proof fn law_pending_readiness_is_never_parked(
    s: WaitSetModel,
    quiescence_generation: u64,
    trigger: ParkTrigger,
    confirmed: bool,
)
    requires
        s.consistent(),
        !s.ready.is_empty(),
    ensures
        !(s.park_start(quiescence_generation, trigger) is Started),
        s.parking_started(quiescence_generation, trigger) == s,
        s.park_resolution(quiescence_generation, confirmed) is StaleGeneration,
        s.park_resolved(quiescence_generation, confirmed) == s,
{
    let id = choose|id: u32| s.ready.contains(id);
    assert(s.ready.contains(id)) by {
        if forall|x: u32| !s.ready.contains(x) {
            assert(s.ready =~= Set::empty());
        }
    }
    assert(s.waits.contains_key(id));
    assert(s.waits[id].status == ExternalWaitStatus::Ready);
}

/// Quiescence generations count up by one from 1, so that none is ever the reserved generation of
/// an unparked wake.
pub proof fn law_quiescence_generations_count_up(
    s: WaitSetModel,
    listed: Seq<ExternalWaitState>,
    idle_timeout: Duration,
)
    requires
        s.quiescence_generation < u64::MAX,
    ensures
        s.quiescent(listed, idle_timeout).quiescence_generation == s.quiescence_generation + 1,
        s.quiescent(listed, idle_timeout).quiescence_generation != UNPARKED_WAKE_GENERATION,
        WaitSetModel::initial().quiescent(listed, idle_timeout).quiescence_generation == 1,
{
}

/// The quiescence generation moves when the Workflow becomes quiescent again, by one, and at no
/// other time.
pub proof fn law_what_moves_the_quiescence_generation(s: WaitSetModel, op: WaitSetOp)
    requires
        s.allows(op),
    ensures
        s.apply(op).quiescence_generation == s.quiescence_generation + if op is BecomeQuiescent {
            1int
        } else {
            0int
        },
{
}

/// The park generation is set when a park is confirmed, to the quiescence generation that was
/// parked, and cleared when the Workflow becomes quiescent again. Nothing else moves it.
pub proof fn law_what_moves_the_park_generation(s: WaitSetModel, op: WaitSetOp)
    requires
        s.allows(op),
    ensures
        s.apply(op).park_generation == match op {
            WaitSetOp::BecomeQuiescent { .. } => None,
            WaitSetOp::ResolvePark { quiescence_generation, confirmed } => if s.park_resolution(
                quiescence_generation,
                confirmed,
            ) is Confirmed {
                Some(s.quiescence_generation)
            } else {
                s.park_generation
            },
            _ => s.park_generation,
        },
{
}

/// A confirmed park never bears the reserved generation of an unparked wake.
pub proof fn law_a_park_is_told_from_an_unparked_wake(s: WaitSetModel)
    requires
        s.consistent(),
    ensures
        s.park_generation != Some(UNPARKED_WAKE_GENERATION),
{
}

/// A set that was never quiescent is never parked: no park of it starts, and an answer to one,
/// for whatever generation, is stale and changes nothing.
pub proof fn law_a_set_never_quiescent_is_never_parked(
    s: WaitSetModel,
    quiescence_generation: u64,
    trigger: ParkTrigger,
    confirmed: bool,
)
    requires
        s.well_formed(),
        s.quiescence_generation == 0,
    ensures
        s.park_start(quiescence_generation, trigger) is StaleGeneration,
        s.parking_started(quiescence_generation, trigger) == s,
        s.park_resolution(quiescence_generation, confirmed) is StaleGeneration,
        s.park_resolved(quiescence_generation, confirmed) == s,
{
}

/// Every wait of the list has just blocked.
pub open spec fn all_blocked(listed: Seq<ExternalWaitState>) -> bool {
    forall|i: int|
        0 <= i < listed.len() ==> (#[trigger] listed[i]).status
            == ExternalWaitStatus::BlockedWftOpen
}

/// Every snapshot of the sequence lists only waits that have just blocked.
pub open spec fn snapshots_are_fresh(ops: Seq<WaitSetOp>) -> bool {
    forall|i: int|
        0 <= i < ops.len() ==> ((#[trigger] ops[i]) matches WaitSetOp::BecomeQuiescent {
            listed,
            ..
        } ==> all_blocked(listed))
}

proof fn lemma_fresh_waits_are_blocked(listed: Seq<ExternalWaitState>)
    requires
        all_blocked(listed),
    ensures
        forall|id: u32| #[trigger]
            waits_by_id(listed).contains_key(id) ==> waits_by_id(listed)[id].status
                == ExternalWaitStatus::BlockedWftOpen,
    decreases listed.len(),
{
    if listed.len() > 0 {
        let rest = listed.drop_last();
        assert(all_blocked(rest)) by {
            assert forall|i: int| 0 <= i < rest.len() implies (#[trigger] rest[i]).status
                == ExternalWaitStatus::BlockedWftOpen by {
                assert(rest[i] == listed[i]);
            }
        }
        lemma_fresh_waits_are_blocked(rest);
        assert(listed[listed.len() - 1].status == ExternalWaitStatus::BlockedWftOpen);
    }
}

/// Where snapshots list only waits that have just blocked, a parked wait means a confirmed park:
/// as long as any wait is `Parked`, and so wherever readiness is answered `Parked`, a park
/// generation exists.
pub proof fn law_a_parked_wait_means_a_confirmed_park(
    ops: Seq<WaitSetOp>,
    wait_id: u32,
    wait_generation: u64,
)
    requires
        WaitSetModel::initial().allows_all(ops),
        snapshots_are_fresh(ops),
    ensures
        ({
            let s = WaitSetModel::initial().run(ops);
            &&& s.any_in(ExternalWaitStatus::Parked) ==> s.park_generation is Some
            &&& s.readiness(wait_id, wait_generation) is Parked ==> s.park_generation is Some
        }),
    decreases ops.len(),
{
    let s = WaitSetModel::initial().run(ops);
    if ops.len() > 0 {
        let rest = ops.drop_last();
        let op = ops.last();
        let before = WaitSetModel::initial().run(rest);
        assert(snapshots_are_fresh(rest)) by {
            assert forall|i: int| 0 <= i < rest.len() implies ((
            #[trigger] rest[i]) matches WaitSetOp::BecomeQuiescent { listed, .. } ==> all_blocked(
                listed,
            )) by {
                assert(rest[i] == ops[i]);
            }
        }
        law_a_parked_wait_means_a_confirmed_park(rest, wait_id, wait_generation);
        assert(ops[ops.len() - 1] == op);
        if let WaitSetOp::BecomeQuiescent { listed, .. } = op {
            lemma_fresh_waits_are_blocked(listed);
        } else if s.any_in(ExternalWaitStatus::Parked) && s.park_generation is None {
            let id = choose|id: u32| #[trigger]
                s.waits.contains_key(id) && s.waits[id].status == ExternalWaitStatus::Parked;
            assert(before.waits.contains_key(id));
            assert(before.waits[id].status == ExternalWaitStatus::Parked);
        }
    }
}

/// What each answer to a readiness notification means. In particular a wait that is not registered
/// is never reported stale, and nothing is accepted with no Workflow Task open.
pub proof fn law_readiness_answers(s: WaitSetModel, wait_id: u32, wait_generation: u64)
    ensures
        s.readiness(wait_id, wait_generation) is Stale <==> (s.waits.contains_key(wait_id)
            && s.waits[wait_id].wait_generation != wait_generation),
        s.readiness(wait_id, wait_generation) is Parked <==> (s.waits.contains_key(wait_id)
            && s.waits[wait_id].wait_generation == wait_generation && s.waits[wait_id].status
            == ExternalWaitStatus::Parked),
        s.readiness(wait_id, wait_generation) is Accepted <==> (s.waits.contains_key(wait_id)
            && s.waits[wait_id].wait_generation == wait_generation
            && s.waits[wait_id].status.holds_task() && s.wft_open),
        !(s.readiness(wait_id, wait_generation) is Accepted) ==> s.notified(
            wait_id,
            wait_generation,
        ) == s,
{
}

/// Readiness that lands while a park handshake is in flight wins: whatever answer the handshake
/// brings, for whatever generation, is stale and changes nothing, and the task stays retained.
pub proof fn law_readiness_before_confirmation_wins(
    s: WaitSetModel,
    parked: u64,
    trigger: ParkTrigger,
    wait_id: u32,
    wait_generation: u64,
    answered: u64,
    confirmed: bool,
)
    requires
        s.park_start(parked, trigger) is Started,
        s.parking_started(parked, trigger).readiness(wait_id, wait_generation) is Accepted,
    ensures
        ({
            let ready = s.parking_started(parked, trigger).notified(wait_id, wait_generation);
            &&& ready.ready.contains(wait_id)
            &&& ready.park_resolution(answered, confirmed) is StaleGeneration
            &&& ready.park_resolved(answered, confirmed) == ready
            &&& ready.park_generation == s.park_generation
            &&& ready.retains_wft()
        }),
{
    let ready = s.parking_started(parked, trigger).notified(wait_id, wait_generation);
    assert(ready.waits.contains_key(wait_id));
    assert(ready.waits[wait_id].status == ExternalWaitStatus::Ready);
}

/// Short of a new snapshot a ready wait stays ready, whatever else happens to the set, and though
/// its readiness has been shipped. So long no park starts, every answer to a handshake is stale,
/// the task stays retained, and the park generation is what it was.
pub proof fn law_a_ready_wait_stays_ready(
    s: WaitSetModel,
    wait_id: u32,
    ops: Seq<WaitSetOp>,
    answered: u64,
    confirmed: bool,
    trigger: ParkTrigger,
)
    requires
        s.waits.contains_key(wait_id),
        s.waits[wait_id].status == ExternalWaitStatus::Ready,
        forall|i: int| 0 <= i < ops.len() ==> !((#[trigger] ops[i]) is BecomeQuiescent),
    ensures
        ({
            let t = s.run(ops);
            &&& t.waits.contains_key(wait_id)
            &&& t.waits[wait_id].status == ExternalWaitStatus::Ready
            &&& t.waits[wait_id].wait_generation == s.waits[wait_id].wait_generation
            &&& !(t.park_start(answered, trigger) is Started)
            &&& t.park_resolution(answered, confirmed) is StaleGeneration
            &&& t.park_resolved(answered, confirmed) == t
            &&& t.retains_wft()
            &&& t.park_generation == s.park_generation
        }),
    decreases ops.len(),
{
    if ops.len() > 0 {
        let rest = ops.drop_last();
        assert forall|i: int| 0 <= i < rest.len() implies !((
        #[trigger] rest[i]) is BecomeQuiescent) by {
            assert(rest[i] == ops[i]);
        }
        law_a_ready_wait_stays_ready(s, wait_id, rest, answered, confirmed, trigger);
        let before = s.run(rest);
        assert(before.waits.contains_key(wait_id));
        assert(ops[ops.len() - 1] == ops.last());
    }
    let t = s.run(ops);
    assert(t.waits.contains_key(wait_id));
}

/// Once readiness has been accepted, a confirmation that names the generation it was accepted in
/// is stale for good: however late it comes and whatever came between, a new snapshot and the
/// shipping of that readiness included.
pub proof fn law_accepted_readiness_makes_later_confirmations_stale(
    s: WaitSetModel,
    wait_id: u32,
    wait_generation: u64,
    ops: Seq<WaitSetOp>,
    confirmed: bool,
)
    requires
        s.readiness(wait_id, wait_generation) is Accepted,
        s.notified(wait_id, wait_generation).allows_all(ops),
    ensures
        ({
            let t = s.notified(wait_id, wait_generation).run(ops);
            &&& t.park_resolution(s.quiescence_generation, confirmed) is StaleGeneration
            &&& t.park_resolved(s.quiescence_generation, confirmed) == t
        }),
{
    lemma_ready_or_superseded(s.notified(wait_id, wait_generation), wait_id, ops);
}

/// After any operations a ready wait is still ready, or the snapshot it belonged to has been
/// superseded.
proof fn lemma_ready_or_superseded(s: WaitSetModel, wait_id: u32, ops: Seq<WaitSetOp>)
    requires
        s.waits.contains_key(wait_id),
        s.waits[wait_id].status == ExternalWaitStatus::Ready,
        s.allows_all(ops),
    ensures
        ({
            let t = s.run(ops);
            ||| t.quiescence_generation > s.quiescence_generation
            ||| {
                &&& t.quiescence_generation == s.quiescence_generation
                &&& t.waits.contains_key(wait_id)
                &&& t.waits[wait_id].status == ExternalWaitStatus::Ready
            }
        }),
    decreases ops.len(),
{
    if ops.len() > 0 {
        let rest = ops.drop_last();
        lemma_ready_or_superseded(s, wait_id, rest);
        law_what_moves_the_quiescence_generation(s.run(rest), ops.last());
    }
}

/// While a handshake is in flight, readiness at a wait's generation is accepted as long as the
/// Workflow Task is open.
pub proof fn law_readiness_is_accepted_while_parking(
    s: WaitSetModel,
    parked: u64,
    trigger: ParkTrigger,
    wait_id: u32,
)
    requires
        s.park_start(parked, trigger) is Started,
        s.waits.contains_key(wait_id),
        s.wft_open,
    ensures
        s.parking_started(parked, trigger).readiness(wait_id, s.waits[wait_id].wait_generation)
            is Accepted,
{
}

/// A confirmation that lands first wins: the whole set is parked at the generation that was
/// confirmed, the task is released, and readiness after it reports `Parked` and changes nothing.
pub proof fn law_confirmation_before_readiness_wins(s: WaitSetModel, parked: u64, wait_id: u32)
    requires
        s.park_resolution(parked, true) is Confirmed,
    ensures
        ({
            let t = s.park_resolved(parked, true);
            &&& t.park_generation == Some(parked)
            &&& parked == s.quiescence_generation
            &&& t.all_in(ExternalWaitStatus::Parked)
            &&& !t.retains_wft()
            &&& !t.wft_open
            &&& t.run_status() is Parked
            &&& t.accepts_wake(parked)
            &&& s.waits.contains_key(wait_id) ==> t.readiness(
                wait_id,
                s.waits[wait_id].wait_generation,
            ) is Parked
            &&& forall|g: u64|
                !(#[trigger] t.readiness(wait_id, g) is Accepted) && t.notified(wait_id, g) == t
        }),
{
}

/// Once a new snapshot has been taken, an answer to a handshake for any earlier generation is
/// discarded, and so is any park there was.
pub proof fn law_an_old_confirmation_is_discarded(
    s: WaitSetModel,
    listed: Seq<ExternalWaitState>,
    idle_timeout: Duration,
    answered: u64,
    confirmed: bool,
)
    requires
        s.quiescence_generation < u64::MAX,
        answered <= s.quiescence_generation,
    ensures
        ({
            let t = s.quiescent(listed, idle_timeout);
            &&& t.park_resolution(answered, confirmed) is StaleGeneration
            &&& t.park_resolved(answered, confirmed) == t
            &&& t.park_start(answered, ParkTrigger::IdleTimeout) is StaleGeneration
            &&& t.park_start(answered, ParkTrigger::AllWriteFenced) is StaleGeneration
            &&& t.park_generation is None
        }),
{
}

/// An aborted park blocks every wait again one generation on, so readiness issued for the
/// abandoned attempt is stale, and readiness at the new generation is accepted if the task is open.
pub proof fn law_an_aborted_park_bumps_generations(s: WaitSetModel, answered: u64, wait_id: u32)
    requires
        s.park_resolution(answered, false) is Aborted,
        s.can_unpark(),
        s.waits.contains_key(wait_id),
    ensures
        ({
            let t = s.park_resolved(answered, false);
            let attempted = s.waits[wait_id].wait_generation;
            &&& t.all_in(ExternalWaitStatus::BlockedWftOpen)
            &&& t.waits.dom() == s.waits.dom()
            &&& t.waits[wait_id].wait_generation == attempted + 1
            &&& t.readiness(wait_id, attempted) is Stale
            &&& t.readiness(wait_id, (attempted + 1) as u64) == if s.wft_open {
                ReadinessOutcome::Accepted
            } else {
                ReadinessOutcome::NoOpenWorkflowTask
            }
        }),
{
    let t = s.park_resolved(answered, false);
    assert(t.waits.dom() =~= s.waits.dom());
}

/// Parking is all or nothing: either every wait moves or none does.
pub proof fn law_parking_is_all_or_nothing(
    s: WaitSetModel,
    quiescence_generation: u64,
    trigger: ParkTrigger,
    confirmed: bool,
)
    requires
        s.park_resolution(quiescence_generation, confirmed) is Aborted ==> s.can_unpark(),
    ensures
        match s.park_start(quiescence_generation, trigger) {
            ParkStartOutcome::Started(t) => t == trigger && s.parking_started(
                quiescence_generation,
                trigger,
            ).all_in(ExternalWaitStatus::Parking),
            _ => s.parking_started(quiescence_generation, trigger) == s,
        },
        match s.park_resolution(quiescence_generation, confirmed) {
            ParkResolution::Confirmed => s.park_resolved(quiescence_generation, confirmed).all_in(
                ExternalWaitStatus::Parked,
            ),
            ParkResolution::Aborted => s.park_resolved(quiescence_generation, confirmed).all_in(
                ExternalWaitStatus::BlockedWftOpen,
            ),
            ParkResolution::StaleGeneration => s.park_resolved(quiescence_generation, confirmed)
                == s,
        },
{
}

/// A repeated notification says nothing new: it is answered alike and leaves the set as it was.
pub proof fn law_repeated_readiness_coalesces(s: WaitSetModel, wait_id: u32, wait_generation: u64)
    ensures
        ({
            let t = s.notified(wait_id, wait_generation);
            &&& t.readiness(wait_id, wait_generation) == s.readiness(wait_id, wait_generation)
            &&& t.notified(wait_id, wait_generation) == t
        }),
{
    let t = s.notified(wait_id, wait_generation);
    if s.readiness(wait_id, wait_generation) is Accepted {
        assert(t.notified(wait_id, wait_generation).waits =~= t.waits);
        assert(t.notified(wait_id, wait_generation).ready =~= t.ready);
    }
}

/// Of two notifications neither depends on which comes first.
pub proof fn law_readiness_order_does_not_matter(s: WaitSetModel, a: u32, ga: u64, b: u32, gb: u64)
    ensures
        s.notified(a, ga).readiness(b, gb) == s.readiness(b, gb),
        s.notified(a, ga).notified(b, gb) == s.notified(b, gb).notified(a, ga),
{
    let ab = s.notified(a, ga).notified(b, gb);
    let ba = s.notified(b, gb).notified(a, ga);
    assert(ab.waits =~= ba.waits);
    assert(ab.ready =~= ba.ready);
}

/// Accepted readiness stays pending until it is taken or a new snapshot is recorded.
pub proof fn law_accepted_readiness_stays_pending(s: WaitSetModel, wait_id: u32, op: WaitSetOp)
    requires
        s.ready.contains(wait_id),
        s.allows(op),
        !(op is TakeReadyWaitIds),
        !(op is BecomeQuiescent),
    ensures
        s.apply(op).ready.contains(wait_id),
{
}

/// Readiness that was accepted keeps the set from being parked at its generation.
pub proof fn law_a_ready_wait_refuses_parking(
    s: WaitSetModel,
    wait_id: u32,
    wait_generation: u64,
    trigger: ParkTrigger,
)
    requires
        s.readiness(wait_id, wait_generation) is Accepted,
    ensures
        s.notified(wait_id, wait_generation).park_start(s.quiescence_generation, trigger)
            is AlreadyReady,
        s.notified(wait_id, wait_generation).parking_started(s.quiescence_generation, trigger)
            == s.notified(wait_id, wait_generation),
{
    let t = s.notified(wait_id, wait_generation);
    assert(t.waits.contains_key(wait_id));
    assert(t.waits[wait_id].status == ExternalWaitStatus::Ready);
}

/// The task is retained exactly while some wait is not parked: an empty set retains nothing, and
/// one parked member does not release what another still holds.
pub proof fn law_retention(s: WaitSetModel, wait_id: u32)
    ensures
        s.retains_wft() <==> !s.all_in(ExternalWaitStatus::Parked),
        s.waits.is_empty() ==> !s.retains_wft(),
        s.waits.contains_key(wait_id) && s.waits[wait_id].status != ExternalWaitStatus::Parked
            ==> s.retains_wft(),
{
}

/// One wait that is not fenced keeps the set from parking early, and so does having no waits.
pub proof fn law_one_fence_is_not_enough(s: WaitSetModel, wait_id: u32)
    ensures
        s.waits.contains_key(wait_id) && !s.waits[wait_id].immediately_parkable
            ==> !s.all_immediately_parkable(),
        s.waits.is_empty() ==> !s.all_immediately_parkable(),
{
}

/// What the status probe's answers mean. A parked set is never also reported open.
pub proof fn law_status_answers(s: WaitSetModel)
    ensures
        s.run_status() is Parked <==> (s.park_generation is Some && !s.retains_wft()),
        s.run_status() is WftOpen <==> (s.wft_open && s.retains_wft()),
{
    law_retention(s, 0);
}

/// Readiness is accepted only where the probe would report the task open.
pub proof fn law_accepted_readiness_means_an_open_task(
    s: WaitSetModel,
    wait_id: u32,
    wait_generation: u64,
)
    requires
        s.readiness(wait_id, wait_generation) is Accepted,
    ensures
        s.run_status() is WftOpen,
        s.notified(wait_id, wait_generation).run_status() is WftOpen,
{
    let t = s.notified(wait_id, wait_generation);
    assert(s.waits.contains_key(wait_id));
    assert(t.waits.contains_key(wait_id));
    law_status_answers(s);
    law_status_answers(t);
    law_retention(s, wait_id);
    law_retention(t, wait_id);
}

/// An unparked wake is always accepted, and a wake that names a generation only if that is the
/// confirmed park's. A new snapshot recognizes no park.
pub proof fn law_wake_generations(
    s: WaitSetModel,
    park_generation: u64,
    listed: Seq<ExternalWaitState>,
    idle_timeout: Duration,
)
    ensures
        s.accepts_wake(UNPARKED_WAKE_GENERATION),
        park_generation != UNPARKED_WAKE_GENERATION ==> (s.accepts_wake(park_generation)
            <==> s.park_generation == Some(park_generation)),
        s.quiescent(listed, idle_timeout).accepts_wake(park_generation) <==> park_generation
            == UNPARKED_WAKE_GENERATION,
        s.parked_at(park_generation).accepts_wake(park_generation),
{
}

/// A task that is closed and replaced finds its wait set as its predecessor left it: readiness
/// issued before is answered the same after.
pub proof fn law_a_replaced_task_keeps_the_set(s: WaitSetModel)
    requires
        s.wft_open,
    ensures
        s.apply(WaitSetOp::SetWftOpen { open: false }).apply(WaitSetOp::SetWftOpen { open: true })
            == s,
{
}

/// A watcher or a probe is told that there is no such Run exactly if there is none: a Run cached
/// between Workflow Tasks is never reported missing.
pub proof fn law_only_a_missing_run_is_not_found(
    answer: Option<ReadinessOutcome>,
    status: Option<RunStreamStatus>,
)
    ensures
        ExternalStreamReadyResult::of_run(answer) is RunNotFound <==> answer is None,
        ExternalStreamRunStatus::of_run(status) is RunNotFound <==> status is None,
{
}

/// Short of a new snapshot the set keeps its waits, and a wait's generation moves when that wait
/// enters the blocked state again, by one, and at no other time.
pub proof fn law_what_moves_a_wait_generation(s: WaitSetModel, op: WaitSetOp, wait_id: u32)
    requires
        s.allows(op),
        !(op is BecomeQuiescent),
    ensures
        s.apply(op).waits.dom() == s.waits.dom(),
        s.waits.contains_key(wait_id) ==> ({
            let before = s.waits[wait_id];
            let after = s.apply(op).waits[wait_id];
            let blocks_again = before.status != ExternalWaitStatus::BlockedWftOpen && after.status
                == ExternalWaitStatus::BlockedWftOpen;
            after.wait_generation == before.wait_generation + if blocks_again {
                1int
            } else {
                0int
            }
        }),
{
    assert(s.apply(op).waits.dom() =~= s.waits.dom());
}

/// The set is blind to its annotation: whatever bytes it holds, every question is answered alike.
pub proof fn law_no_answer_depends_on_the_annotation(
    s: WaitSetModel,
    annotation: Seq<u8>,
    wait_id: u32,
    generation: u64,
    trigger: ParkTrigger,
    confirmed: bool,
)
    ensures
        ({
            let t = WaitSetModel { annotation, ..s };
            &&& t.readiness(wait_id, generation) == s.readiness(wait_id, generation)
            &&& t.run_status() == s.run_status()
            &&& t.retains_wft() == s.retains_wft()
            &&& t.all_immediately_parkable() == s.all_immediately_parkable()
            &&& t.park_start(generation, trigger) == s.park_start(generation, trigger)
            &&& t.park_resolution(generation, confirmed) == s.park_resolution(
                generation,
                confirmed,
            )
            &&& t.accepts_wake(generation) == s.accepts_wake(generation)
        }),
{
}

/// The deltas a sequence of operations accumulates, concatenated in order.
pub open spec fn deltas(ops: Seq<WaitSetOp>) -> Seq<u8>
    decreases ops.len(),
{
    if ops.len() == 0 {
        Seq::empty()
    } else {
        match ops.last() {
            WaitSetOp::AccumulateAnnotation { delta } => deltas(ops.drop_last()) + delta,
            _ => deltas(ops.drop_last()),
        }
    }
}

/// Until it is taken, the annotation is every delta in order, whatever else happens to the set
/// meanwhile: new snapshots, parks and rollovers leave it alone.
pub proof fn law_the_annotation_is_every_delta_in_order(s: WaitSetModel, ops: Seq<WaitSetOp>)
    requires
        forall|i: int| 0 <= i < ops.len() ==> !((#[trigger] ops[i]) is TakeAnnotation),
    ensures
        s.run(ops).annotation == s.annotation + deltas(ops),
    decreases ops.len(),
{
    if ops.len() > 0 {
        let rest = ops.drop_last();
        assert forall|i: int| 0 <= i < rest.len() implies !((#[trigger] rest[i]) is TakeAnnotation) by {
            assert(rest[i] == ops[i]);
        }
        law_the_annotation_is_every_delta_in_order(s, rest);
        assert(ops[ops.len() - 1] == ops.last());
        assert(s.run(ops).annotation =~= s.annotation + deltas(ops));
    } else {
        assert(s.annotation + deltas(ops) =~= s.annotation);
    }
}

/// The annotation is taken once: after it has been, there is nothing unwritten, and a second take
/// gives nothing. Taking it leaves the rest of the set alone.
pub proof fn law_the_annotation_is_taken_once(s: WaitSetModel)
    requires
        !s.annotation_unwritten(),
    ensures
        ({
            let t = s.apply(WaitSetOp::TakeAnnotation);
            &&& t.annotation == Seq::<u8>::empty()
            &&& !t.annotation_unwritten()
            &&& t.apply(WaitSetOp::TakeAnnotation) == t
            &&& t == (WaitSetModel { annotation: t.annotation, ..s })
        }),
{
}

/// The marker's wait list is fixed by the waits: there is only one.
pub proof fn law_the_marker_list_is_unique(
    a: Seq<(u32, u64)>,
    b: Seq<(u32, u64)>,
    waits: Map<u32, ExternalWaitState>,
)
    requires
        is_marker_list(a, waits),
        is_marker_list(b, waits),
    ensures
        a == b,
{
    let id = |p: (u32, u64)| p.0;
    lemma_list_is_unique(a.map_values(id), b.map_values(id), waits.dom());
    assert(a.len() == a.map_values(id).len());
    assert(b.len() == b.map_values(id).len());
    assert forall|i: int| 0 <= i < a.len() implies a[i] == b[i] by {
        assert(a.map_values(id)[i] == b.map_values(id)[i]);
    }
    assert(a =~= b);
}

} // verus!
