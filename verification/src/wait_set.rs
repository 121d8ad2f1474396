//! A Run's complete external stream wait set: the transitions that decide whether a readiness
//! notification, a park confirmation, or a timer expiry is acted on or discarded as stale.
//!
//! Nothing here starts a timer or issues an activation. Each transition is a function of the set
//! and its arguments, so both orderings of the park/readiness race come out of the same code.

use vstd::prelude::*;
use std::collections::{HashMap, HashSet};
use std::time::Duration;
use crate::ids::{list_distinct, lists};
use crate::text::{decimal, decimal_chars};
use crate::wait_model::{waits_by_id, WaitSetModel};
use crate::waits::{
    ExternalWaitState, ExternalWaitStatus, ParkResolution, ParkStartOutcome, ParkTrigger,
    ReadinessOutcome, RunStreamStatus, UNPARKED_WAKE_GENERATION,
};

verus! {

/// An accumulated annotation of this many bytes is waiting with no Workflow Task open.
#[derive(Debug, PartialEq, Eq, Structural)]
pub struct UnwrittenAnnotationError(pub usize);

impl UnwrittenAnnotationError {
    /// The rule that was broken, and by how many bytes.
    pub open spec fn text(self) -> Seq<char> {
        "external stream annotation of "@ + decimal_chars(self.0 as nat)
            + " byte(s) is non-empty with no Workflow Task open; an accumulated, unwritten annotation exists only while a Workflow Task is open"@
    }

    pub fn message(&self) -> (res: String)
        ensures
            res@ == self.text(),
    {
        let mut res = "external stream annotation of ".to_string();
        res.append(decimal(self.0 as u64).as_str());
        res.append(
            " byte(s) is non-empty with no Workflow Task open; an accumulated, unwritten annotation exists only while a Workflow Task is open",
        );
        res
    }
}

/// A Run's complete external stream wait set.
///
/// The set is annotation-blind: `replay_annotation` is an opaque byte buffer it appends to and
/// hands back, and no method here parses any of it.
#[derive(Debug)]
pub struct ExternalWaitSet {
    /// Identifies the current complete blocked snapshot. Starts at 0 meaning "never quiescent";
    /// the first snapshot is 1, which is why `UNPARKED_WAKE_GENERATION` can be 0.
    quiescence_generation: u64,
    waits: HashMap<u32, ExternalWaitState>,
    /// Wait ids known ready but not yet shipped in an activation. Coalescing lives here so
    /// several notifications arriving while an activation is outstanding become one next time.
    ready_wait_ids: HashSet<u32>,
    idle_timeout: Option<Duration>,
    /// Set when a park is confirmed; cleared when the set becomes quiescent again.
    park_generation: Option<u64>,
    /// True while a Workflow Task is open for this Run.
    wft_open: bool,
    /// The accumulated, unwritten replay annotation for the current Workflow Task.
    replay_annotation: Vec<u8>,
}

impl View for ExternalWaitSet {
    type V = WaitSetModel;

    closed spec fn view(&self) -> WaitSetModel {
        WaitSetModel {
            quiescence_generation: self.quiescence_generation,
            waits: self.waits@,
            ready: self.ready_wait_ids@,
            idle_timeout: self.idle_timeout,
            park_generation: self.park_generation,
            wft_open: self.wft_open,
            annotation: self.replay_annotation@,
        }
    }
}

impl Default for ExternalWaitSet {
    fn default() -> (res: Self)
        ensures
            res@ == WaitSetModel::initial(),
            res@.well_formed(),
    {
        ExternalWaitSet {
            quiescence_generation: 0,
            waits: HashMap::new(),
            ready_wait_ids: HashSet::new(),
            idle_timeout: None,
            park_generation: None,
            wft_open: false,
            replay_annotation: Vec::new(),
        }
    }
}

/// `out` is the marker's wait list: every wait once, by ascending id, with its generation.
pub open spec fn is_marker_list(out: Seq<(u32, u64)>, waits: Map<u32, ExternalWaitState>) -> bool {
    &&& lists(out.map_values(|p: (u32, u64)| p.0), waits.dom())
    &&& forall|i: int| 0 <= i < out.len() ==> (#[trigger] out[i]).1 == waits[out[i].0].wait_generation
}

impl ExternalWaitSet {
    pub fn new() -> (res: Self)
        ensures
            res@ == WaitSetModel::initial(),
            res@.well_formed(),
    {
        ExternalWaitSet::default()
    }

    pub fn is_empty(&self) -> (res: bool)
        ensures
            res == self@.waits.is_empty(),
    {
        self.waits.is_empty()
    }

    pub fn quiescence_generation(&self) -> (res: u64)
        ensures
            res == self@.quiescence_generation,
    {
        self.quiescence_generation
    }

    pub fn park_generation(&self) -> (res: Option<u64>)
        ensures
            res == self@.park_generation,
    {
        self.park_generation
    }

    pub fn idle_timeout(&self) -> (res: Option<Duration>)
        ensures
            res == self@.idle_timeout,
    {
        self.idle_timeout
    }

    pub fn replay_annotation(&self) -> (res: &[u8])
        ensures
            res@ == self@.annotation,
    {
        self.replay_annotation.as_slice()
    }

    pub fn wait(&self, wait_id: u32) -> (res: Option<&ExternalWaitState>)
        ensures
            match res {
                Some(w) => self@.waits.contains_key(wait_id) && *w == self@.waits[wait_id],
                None => !self@.waits.contains_key(wait_id),
            },
    {
        self.waits.get(&wait_id)
    }

    /// The wait ids whose readiness was accepted and not yet shipped, in ascending order. They
    /// count as shipped from here on.
    pub fn take_ready_wait_ids(&mut self) -> (ids: Vec<u32>)
        ensures
            lists(ids@, old(self)@.ready),
            final(self)@ == (WaitSetModel { ready: Set::empty(), ..old(self)@ }),
            old(self)@.well_formed() ==> final(self)@.well_formed(),
    {
        let mut pending: Vec<u32> = Vec::new();
        let ready = self.ready_wait_ids.iter();
        let ghost listed = vstd::std_specs::iter::IteratorSpec::remaining(&ready);
        for id in it: ready
            invariant
                it.seq() == listed,
                pending@ == listed.unref().take(it.index()),
        {
            pending.push(*id);
        }
        assert(pending@ == listed.unref());
        self.ready_wait_ids.clear();
        list_distinct(&pending)
    }

    pub fn has_pending_readiness(&self) -> (res: bool)
        ensures
            res == !self@.ready.is_empty(),
    {
        !self.ready_wait_ids.is_empty()
    }

    /// Whether this set holds the current Workflow Task open.
    ///
    /// A set with no waits retains nothing; a set every member of which is `Parked` retains
    /// nothing either. The task must not be completed merely because *one* member went idle.
    pub fn retains_wft(&self) -> (res: bool)
        ensures
            res == self@.retains_wft(),
    {
        let ids = self.wait_ids();
        for i in 0..ids.len()
            invariant
                ids@.to_set() == self@.waits.dom(),
                forall|k: int| 0 <= k < i ==> !self@.waits[#[trigger] ids[k]].status.holds_task(),
        {
            assert(ids@.to_set().contains(ids[i as int]));
            assert(self@.waits.contains_key(ids[i as int]));
            if let Some(w) = self.waits.get(&ids[i]) {
                if w.status.retains_wft() {
                    return true;
                }
            }
        }
        assert forall|id: u32| #[trigger] self@.waits.contains_key(id) implies
            !self@.waits[id].status.holds_task() by {
            assert(ids@.to_set().contains(id));
        }
        false
    }

    /// Whether the whole set is parkable without waiting out the idle timeout.
    ///
    /// A fence on one stream alone does not qualify: the Workflow Task parks early only when
    /// *every* active wait is immediately parkable.
    pub fn all_immediately_parkable(&self) -> (res: bool)
        ensures
            res == self@.all_immediately_parkable(),
    {
        if self.waits.is_empty() {
            return false;
        }
        let ids = self.wait_ids();
        for i in 0..ids.len()
            invariant
                ids@.to_set() == self@.waits.dom(),
                forall|k: int| 0 <= k < i ==> self@.waits[#[trigger] ids[k]].immediately_parkable,
        {
            assert(ids@.to_set().contains(ids[i as int]));
            if let Some(w) = self.waits.get(&ids[i]) {
                if !w.immediately_parkable {
                    return false;
                }
            }
        }
        assert forall|id: u32| #[trigger] self@.waits.contains_key(id) implies
            self@.waits[id].immediately_parkable by {
            assert(ids@.to_set().contains(id));
        }
        true
    }

    pub fn set_wft_open(&mut self, open: bool)
        ensures
            final(self)@ == (WaitSetModel { wft_open: open, ..old(self)@ }),
            old(self)@.well_formed() ==> final(self)@.well_formed(),
    {
        self.wft_open = open;
    }

    /// Records a complete quiescent snapshot, starting a new `quiescence_generation`.
    ///
    /// The waits given are the complete set the Workflow is blocked on. Any wait not listed is
    /// dropped: the subscription was cancelled or the Workflow is no longer blocked on it.
    ///
    /// Readiness that is still pending goes with the snapshot it was accepted for. A caller that
    /// owes an activation for it takes it first, with `take_ready_wait_ids`.
    pub fn become_quiescent(
        &mut self,
        waits: Vec<ExternalWaitState>,
        idle_timeout: Duration,
    ) -> (res: u64)
        requires
            old(self)@.quiescence_generation < u64::MAX,
        ensures
            final(self)@ == old(self)@.quiescent(waits@, idle_timeout),
            res == old(self)@.quiescence_generation + 1,
            final(self)@.well_formed(),
    {
        self.quiescence_generation = self.quiescence_generation + 1;
        let mut by_id: HashMap<u32, ExternalWaitState> = HashMap::new();
        for i in 0..waits.len()
            invariant
                by_id@ == waits_by_id(waits@.take(i as int)),
                forall|id: u32| #[trigger] by_id@.contains_key(id) ==> by_id@[id].wait_id == id,
        {
            let w = waits[i];
            by_id.insert(w.wait_id, w);
            assert(waits@.take(i + 1).drop_last() == waits@.take(i as int));
        }
        assert(waits@.take(waits.len() as int) == waits@);
        self.waits = by_id;
        self.ready_wait_ids.clear();
        self.idle_timeout = Some(idle_timeout);
        // A new quiescent snapshot supersedes any earlier park: the Workflow ran again, so
        // whatever generation a producer may still be holding is no longer the live one.
        self.park_generation = None;
        self.wft_open = true;
        self.quiescence_generation
    }

    /// Applies a readiness notification, resolving the park/readiness race.
    ///
    /// Readiness accepted *before* a park is confirmed wins, and the confirmation for that
    /// generation is then stale; a confirmation that lands first wins, and readiness after it
    /// reports `Parked` so the watcher sends a wake Signal instead of expecting an activation.
    pub fn notify_ready(&mut self, wait_id: u32, wait_generation: u64) -> (res: ReadinessOutcome)
        ensures
            res == old(self)@.readiness(wait_id, wait_generation),
            final(self)@ == old(self)@.notified(wait_id, wait_generation),
            old(self)@.well_formed() ==> final(self)@.well_formed(),
    {
        let mut wait = match self.waits.get(&wait_id) {
            // The wait is not registered on this Run at all. That is not "stale": there is
            // nothing here whose generation could have moved on.
            None => return ReadinessOutcome::NoOpenWorkflowTask,
            Some(w) => *w,
        };

        if wait_generation != wait.wait_generation {
            return ReadinessOutcome::Stale;
        }

        match wait.status {
            // A confirmed park is the one state local readiness cannot be delivered into: the
            // Workflow Task is gone and a producer's wake Signal is the only way back.
            ExternalWaitStatus::Parked => ReadinessOutcome::Parked,
            ExternalWaitStatus::BlockedWftOpen
            | ExternalWaitStatus::Ready
            | ExternalWaitStatus::Parking => {
                if !self.wft_open {
                    return ReadinessOutcome::NoOpenWorkflowTask;
                }
                // Readiness during `Parking` aborts that parking generation: `resolve_park` will
                // report the later confirmation as stale.
                wait.status = ExternalWaitStatus::Ready;
                self.waits.insert(wait_id, wait);
                self.ready_wait_ids.insert(wait_id);
                ReadinessOutcome::Accepted
            },
        }
    }

    /// The read-only status probe.
    pub fn run_status(&self) -> (res: RunStreamStatus)
        ensures
            res == self@.run_status(),
    {
        if self.park_generation.is_some() && self.all_in(ExternalWaitStatus::Parked) {
            RunStreamStatus::Parked
        } else if self.wft_open && self.retains_wft() {
            RunStreamStatus::WftOpen
        } else {
            RunStreamStatus::NoOpenWorkflowTask
        }
    }

    /// Moves the complete set into `Parking` so `PrepareExternalStreamPark` can be issued.
    pub fn start_parking(&mut self, quiescence_generation: u64, trigger: ParkTrigger) -> (res:
        ParkStartOutcome)
        ensures
            res == old(self)@.park_start(quiescence_generation, trigger),
            final(self)@ == old(self)@.parking_started(quiescence_generation, trigger),
            old(self)@.well_formed() ==> final(self)@.well_formed(),
    {
        if quiescence_generation != self.quiescence_generation || self.waits.is_empty() {
            return ParkStartOutcome::StaleGeneration;
        }
        if self.any_in(ExternalWaitStatus::Ready) {
            return ParkStartOutcome::AlreadyReady;
        }
        self.move_all_to(ExternalWaitStatus::Parking);
        ParkStartOutcome::Started(trigger)
    }

    /// Applies lang's answer to `PrepareExternalStreamPark`.
    pub fn resolve_park(&mut self, quiescence_generation: u64, confirmed: bool) -> (res:
        ParkResolution)
        requires
            old(self)@.park_resolution(quiescence_generation, confirmed) is Aborted ==> old(
                self,
            )@.can_unpark(),
        ensures
            res == old(self)@.park_resolution(quiescence_generation, confirmed),
            final(self)@ == old(self)@.park_resolved(quiescence_generation, confirmed),
            old(self)@.well_formed() ==> final(self)@.well_formed(),
    {
        // The generation of a set that was never quiescent is the reserved one, which stands for no
        // park at all, so an answer that names it confirms nothing.
        if quiescence_generation != self.quiescence_generation || quiescence_generation
            == UNPARKED_WAKE_GENERATION {
            return ParkResolution::StaleGeneration;
        }
        // Parking is all-or-nothing across the complete set, so readiness accepted while the
        // handshake was in flight makes this confirmation stale even though it names the current
        // generation, and even if it moved only *one* wait out of `Parking`. Asking for any wait
        // in `Parking` instead of all of them would confirm a park for a set with a ready wait in
        // it, losing that wait's record until a producer happened to signal.
        if !self.all_in(ExternalWaitStatus::Parking) {
            return ParkResolution::StaleGeneration;
        }

        if confirmed {
            self.move_all_to(ExternalWaitStatus::Parked);
            // A park generation *is* the quiescence generation that was parked, not a counter of
            // its own, which is what lets a wake Signal carry one number to be matched.
            self.park_generation = Some(quiescence_generation);
            self.wft_open = false;
            ParkResolution::Confirmed
        } else {
            self.abort_parking();
            ParkResolution::Aborted
        }
    }

    /// Returns every wait in `Parking` to `BlockedWftOpen`, bumping each `wait_generation`.
    ///
    /// Bumping is what makes an in-flight readiness notification for the aborted attempt stale
    /// rather than resolving against the new block.
    pub fn abort_parking(&mut self)
        requires
            old(self)@.can_unpark(),
        ensures
            final(self)@ == old(self)@.parking_aborted(),
            old(self)@.well_formed() ==> final(self)@.well_formed(),
    {
        let ids = self.wait_ids();
        let ghost before = self@;
        let ghost target = before.waits_unparked();
        for i in 0..ids.len()
            invariant
                before == old(self)@,
                before.can_unpark(),
                target == before.waits_unparked(),
                ids@.no_duplicates(),
                ids@.to_set() == before.waits.dom(),
                self@ == (WaitSetModel { waits: self@.waits, ..before }),
                self@.waits.dom() == before.waits.dom(),
                forall|k: int| 0 <= k < i ==> self@.waits[#[trigger] ids[k]] == target[ids[k]],
                forall|k: int|
                    i <= k < ids.len() ==> self@.waits[#[trigger] ids[k]] == before.waits[ids[k]],
        {
            let id: u32 = ids[i];
            assert(ids@.to_set().contains(id));
            assert(before.waits.contains_key(id));
            let found: Option<ExternalWaitState> = match self.waits.get(&id) {
                Some(w) => Some(*w),
                None => None,
            };
            if let Some(mut w) = found {
                if w.status == ExternalWaitStatus::Parking {
                    w.status = ExternalWaitStatus::BlockedWftOpen;
                    w.wait_generation = w.wait_generation + 1;
                    self.waits.insert(id, w);
                }
            }
            assert(self@.waits.dom() =~= before.waits.dom());
        }
        assert forall|id: u32| #[trigger] before.waits.contains_key(id) implies self@.waits[id]
            == target[id] by {
            assert(ids@.to_set().contains(id));
        }
        assert(self@.waits =~= target);
    }

    /// Validates a wake Signal's `park_generation` against this Run.
    ///
    /// `park_generation = 0` is the unparked wake and is always accepted as a recheck request:
    /// the runtime rechecks every active subscription on wakeup regardless, so an unnecessary one
    /// costs at most one empty Workflow Task. A *non-zero* generation the Run does not recognize
    /// is a claim that turned out to be wrong, and is ignored as stale.
    pub fn accepts_wake_generation(&self, park_generation: u64) -> (res: bool)
        ensures
            res == self@.accepts_wake(park_generation),
    {
        if park_generation == UNPARKED_WAKE_GENERATION {
            return true;
        }
        match self.park_generation {
            Some(confirmed) => confirmed == park_generation,
            None => false,
        }
    }

    /// Injects a confirmed park generation directly, without the live park handshake.
    ///
    /// This seeds a state and is not part of live use. The generation is taken as given: it may be
    /// the reserved one or differ from the quiescence generation, and readiness that was pending
    /// stays so, so that afterwards the set is well formed but need not be
    /// [`consistent`](WaitSetModel::consistent).
    pub fn force_parked(&mut self, park_generation: u64)
        ensures
            final(self)@ == old(self)@.parked_at(park_generation),
            old(self)@.well_formed() ==> final(self)@.well_formed(),
    {
        self.move_all_to(ExternalWaitStatus::Parked);
        self.park_generation = Some(park_generation);
        self.wft_open = false;
    }

    /// Appends an opaque observation delta.
    pub fn accumulate_annotation(&mut self, delta: &[u8])
        ensures
            final(self)@ == (WaitSetModel {
                annotation: old(self)@.annotation + delta@,
                ..old(self)@
            }),
            old(self)@.well_formed() ==> final(self)@.well_formed(),
    {
        self.replay_annotation.extend_from_slice(delta);
        assert(self@.annotation =~= old(self)@.annotation + delta@);
    }

    /// Takes the accumulated annotation, holding it to the rule that an unwritten annotation
    /// exists only while a Workflow Task is open.
    ///
    /// Deltas arrive only on activation completions, activations exist only under a Workflow
    /// Task, and every completion path writes the accumulated annotation as exactly one marker
    /// and clears it. So a non-empty annotation with no Workflow Task open is a bug in one of
    /// those paths, not a state to recover from.
    pub fn take_annotation(&mut self) -> (res: Result<Vec<u8>, UnwrittenAnnotationError>)
        ensures
            res is Err <==> old(self)@.annotation_unwritten(),
            match res {
                Ok(taken) => {
                    &&& taken@ == old(self)@.annotation
                    &&& final(self)@ == (WaitSetModel { annotation: Seq::empty(), ..old(self)@ })
                },
                Err(e) => {
                    &&& e.0 == old(self)@.annotation.len()
                    &&& final(self)@ == old(self)@
                },
            },
            old(self)@.well_formed() ==> final(self)@.well_formed(),
    {
        if !self.wft_open && !self.replay_annotation.is_empty() {
            return Err(UnwrittenAnnotationError(self.replay_annotation.len()));
        }
        let mut taken: Vec<u8> = Vec::new();
        std::mem::swap(&mut taken, &mut self.replay_annotation);
        Ok(taken)
    }

    /// The marker's wait list: every wait and the generation it was at.
    pub fn marker_waits(&self) -> (out: Vec<(u32, u64)>)
        ensures
            is_marker_list(out@, self@.waits),
    {
        let ids = list_distinct(&self.wait_ids());
        let mut out: Vec<(u32, u64)> = Vec::new();
        for i in 0..ids.len()
            invariant
                lists(ids@, self@.waits.dom()),
                out.len() == i,
                forall|k: int|
                    0 <= k < i ==> (#[trigger] out[k]) == (
                        ids[k],
                        self@.waits[ids[k]].wait_generation,
                    ),
        {
            let id: u32 = ids[i];
            assert(ids@.to_set().contains(id));
            if let Some(w) = self.waits.get(&id) {
                out.push((id, w.wait_generation));
            }
        }
        assert(out@.map_values(|p: (u32, u64)| p.0) =~= ids@);
        out
    }

    /// The registered wait ids, in no particular order.
    fn wait_ids(&self) -> (ids: Vec<u32>)
        ensures
            ids@.no_duplicates(),
            ids@.to_set() == self@.waits.dom(),
    {
        let mut ids: Vec<u32> = Vec::new();
        let keys = self.waits.keys();
        let ghost listed = vstd::std_specs::iter::IteratorSpec::remaining(&keys);
        for id in it: keys
            invariant
                it.seq() == listed,
                ids@ == listed.unref().take(it.index()),
        {
            ids.push(*id);
        }
        assert(ids@ == listed.unref());
        ids
    }

    fn all_in(&self, status: ExternalWaitStatus) -> (res: bool)
        ensures
            res == self@.all_in(status),
    {
        let ids = self.wait_ids();
        for i in 0..ids.len()
            invariant
                ids@.to_set() == self@.waits.dom(),
                forall|k: int| 0 <= k < i ==> self@.waits[#[trigger] ids[k]].status == status,
        {
            assert(ids@.to_set().contains(ids[i as int]));
            assert(self@.waits.contains_key(ids[i as int]));
            if let Some(w) = self.waits.get(&ids[i]) {
                if w.status != status {
                    return false;
                }
            }
        }
        assert forall|id: u32| #[trigger] self@.waits.contains_key(id) implies
            self@.waits[id].status == status by {
            assert(ids@.to_set().contains(id));
        }
        true
    }

    fn any_in(&self, status: ExternalWaitStatus) -> (res: bool)
        ensures
            res == self@.any_in(status),
    {
        let ids = self.wait_ids();
        for i in 0..ids.len()
            invariant
                ids@.to_set() == self@.waits.dom(),
                forall|k: int| 0 <= k < i ==> self@.waits[#[trigger] ids[k]].status != status,
        {
            assert(ids@.to_set().contains(ids[i as int]));
            assert(self@.waits.contains_key(ids[i as int]));
            if let Some(w) = self.waits.get(&ids[i]) {
                if w.status == status {
                    return true;
                }
            }
        }
        assert forall|id: u32| #[trigger] self@.waits.contains_key(id) implies
            self@.waits[id].status != status by {
            assert(ids@.to_set().contains(id));
        }
        false
    }

    /// Moves every wait to `status`.
    fn move_all_to(&mut self, status: ExternalWaitStatus)
        ensures
            final(self)@ == (WaitSetModel { waits: old(self)@.waits_in(status), ..old(self)@ }),
    {
        let ids = self.wait_ids();
        let ghost before = self@;
        let ghost target = before.waits_in(status);
        for i in 0..ids.len()
            invariant
                before == old(self)@,
                target == before.waits_in(status),
                ids@.no_duplicates(),
                ids@.to_set() == before.waits.dom(),
                self@ == (WaitSetModel { waits: self@.waits, ..before }),
                self@.waits.dom() == before.waits.dom(),
                forall|k: int| 0 <= k < i ==> self@.waits[#[trigger] ids[k]] == target[ids[k]],
                forall|k: int|
                    i <= k < ids.len() ==> self@.waits[#[trigger] ids[k]] == before.waits[ids[k]],
        {
            let id: u32 = ids[i];
            assert(ids@.to_set().contains(id));
            assert(before.waits.contains_key(id));
            let found: Option<ExternalWaitState> = match self.waits.get(&id) {
                Some(w) => Some(*w),
                None => None,
            };
            if let Some(mut w) = found {
                w.status = status;
                self.waits.insert(id, w);
            }
            assert(self@.waits.dom() =~= before.waits.dom());
        }
        assert forall|id: u32| #[trigger] before.waits.contains_key(id) implies self@.waits[id]
            == target[id] by {
            assert(ids@.to_set().contains(id));
        }
        assert(self@.waits =~= target);
    }
}

} // verus!
