//! The mathematical model of a wait set, and what each transition does to it.

use vstd::prelude::*;
use std::time::Duration;
use crate::waits::{
    ExternalWaitState, ExternalWaitStatus, ParkResolution, ParkStartOutcome, ParkTrigger,
    ReadinessOutcome, RunStreamStatus, UNPARKED_WAKE_GENERATION,
};

verus! {

/// The waits of a complete snapshot, by wait id. Of two waits listed under one id the later one
/// stands.
pub open spec fn waits_by_id(listed: Seq<ExternalWaitState>) -> Map<u32, ExternalWaitState>
    decreases listed.len(),
{
    if listed.len() == 0 {
        Map::empty()
    } else {
        waits_by_id(listed.drop_last()).insert(listed.last().wait_id, listed.last())
    }
}

/// What a wait set is: its waits by id, the ids whose readiness has not been shipped, and the
/// state of the Run's Workflow Task.
#[verifier::ext_equal]
pub struct WaitSetModel {
    /// 0 while the Run has never been quiescent.
    pub quiescence_generation: u64,
    pub waits: Map<u32, ExternalWaitState>,
    pub ready: Set<u32>,
    pub idle_timeout: Option<Duration>,
    pub park_generation: Option<u64>,
    pub wft_open: bool,
    pub annotation: Seq<u8>,
}

impl WaitSetModel {
    /// The set of a Run that has never been quiescent.
    pub open spec fn initial() -> Self {
        WaitSetModel {
            quiescence_generation: 0,
            waits: Map::empty(),
            ready: Set::empty(),
            idle_timeout: None,
            park_generation: None,
            wft_open: false,
            annotation: Seq::empty(),
        }
    }

    /// What every operation keeps: each wait is filed under its own id, readiness is pending only
    /// for registered waits, and a set that was never quiescent has no waits.
    pub open spec fn well_formed(self) -> bool {
        &&& self.waits.dom().finite()
        &&& forall|id: u32| #[trigger] self.waits.contains_key(id) ==> self.waits[id].wait_id == id
        &&& self.ready.subset_of(self.waits.dom())
        &&& self.quiescence_generation == 0 ==> self.waits.is_empty()
    }

    pub open spec fn all_in(self, status: ExternalWaitStatus) -> bool {
        forall|id: u32| #[trigger] self.waits.contains_key(id) ==> self.waits[id].status == status
    }

    pub open spec fn any_in(self, status: ExternalWaitStatus) -> bool {
        exists|id: u32| #[trigger] self.waits.contains_key(id) && self.waits[id].status == status
    }

    /// Some wait still holds the Workflow Task.
    pub open spec fn retains_wft(self) -> bool {
        exists|id: u32| #[trigger]
            self.waits.contains_key(id) && self.waits[id].status.holds_task()
    }

    /// There are waits, and every one of them may be parked at once.
    pub open spec fn all_immediately_parkable(self) -> bool {
        &&& !self.waits.is_empty()
        &&& forall|id: u32| #[trigger]
            self.waits.contains_key(id) ==> self.waits[id].immediately_parkable
    }

    /// The same waits, each in `status`.
    pub open spec fn waits_in(self, status: ExternalWaitStatus) -> Map<u32, ExternalWaitState> {
        self.waits.map_values(|w: ExternalWaitState| ExternalWaitState { status, ..w })
    }

    /// A complete quiescent snapshot replaces the waits and supersedes any park.
    pub open spec fn quiescent(
        self,
        listed: Seq<ExternalWaitState>,
        idle_timeout: Duration,
    ) -> Self {
        WaitSetModel {
            quiescence_generation: (self.quiescence_generation + 1) as u64,
            waits: waits_by_id(listed),
            ready: Set::empty(),
            idle_timeout: Some(idle_timeout),
            park_generation: None,
            wft_open: true,
            annotation: self.annotation,
        }
    }

    /// What a readiness notification is answered.
    pub open spec fn readiness(self, wait_id: u32, wait_generation: u64) -> ReadinessOutcome {
        if !self.waits.contains_key(wait_id) {
            ReadinessOutcome::NoOpenWorkflowTask
        } else if self.waits[wait_id].wait_generation != wait_generation {
            ReadinessOutcome::Stale
        } else if self.waits[wait_id].status == ExternalWaitStatus::Parked {
            ReadinessOutcome::Parked
        } else if !self.wft_open {
            ReadinessOutcome::NoOpenWorkflowTask
        } else {
            ReadinessOutcome::Accepted
        }
    }

    /// An accepted notification makes the wait ready and remembers it; any other changes nothing.
    pub open spec fn notified(self, wait_id: u32, wait_generation: u64) -> Self {
        if self.readiness(wait_id, wait_generation) == ReadinessOutcome::Accepted {
            WaitSetModel {
                waits: self.waits.insert(
                    wait_id,
                    ExternalWaitState {
                        status: ExternalWaitStatus::Ready,
                        ..self.waits[wait_id]
                    },
                ),
                ready: self.ready.insert(wait_id),
                ..self
            }
        } else {
            self
        }
    }

    /// What the status probe answers.
    pub open spec fn run_status(self) -> RunStreamStatus {
        if self.park_generation is Some && self.all_in(ExternalWaitStatus::Parked) {
            RunStreamStatus::Parked
        } else if self.wft_open && self.retains_wft() {
            RunStreamStatus::WftOpen
        } else {
            RunStreamStatus::NoOpenWorkflowTask
        }
    }

    /// What a request to begin parking is answered.
    pub open spec fn park_start(
        self,
        quiescence_generation: u64,
        trigger: ParkTrigger,
    ) -> ParkStartOutcome {
        if quiescence_generation != self.quiescence_generation || self.waits.is_empty() {
            ParkStartOutcome::StaleGeneration
        } else if self.any_in(ExternalWaitStatus::Ready) {
            ParkStartOutcome::AlreadyReady
        } else {
            ParkStartOutcome::Started(trigger)
        }
    }

    /// Parking starts for the complete set or not at all.
    pub open spec fn parking_started(self, quiescence_generation: u64, trigger: ParkTrigger) -> Self {
        if self.park_start(quiescence_generation, trigger) is Started {
            WaitSetModel { waits: self.waits_in(ExternalWaitStatus::Parking), ..self }
        } else {
            self
        }
    }

    /// What lang's answer to the park handshake comes to. The reserved generation of a set that was
    /// never quiescent is never parked, so an answer that names it is stale.
    pub open spec fn park_resolution(
        self,
        quiescence_generation: u64,
        confirmed: bool,
    ) -> ParkResolution {
        if quiescence_generation != self.quiescence_generation || self.quiescence_generation
            == UNPARKED_WAKE_GENERATION || !self.all_in(ExternalWaitStatus::Parking) {
            ParkResolution::StaleGeneration
        } else if confirmed {
            ParkResolution::Confirmed
        } else {
            ParkResolution::Aborted
        }
    }

    /// The waits after a park attempt is given up: those that were parking block again, one
    /// generation on.
    pub open spec fn waits_unparked(self) -> Map<u32, ExternalWaitState> {
        self.waits.map_values(
            |w: ExternalWaitState|
                if w.status == ExternalWaitStatus::Parking {
                    ExternalWaitState {
                        status: ExternalWaitStatus::BlockedWftOpen,
                        wait_generation: (w.wait_generation + 1) as u64,
                        ..w
                    }
                } else {
                    w
                },
        )
    }

    /// No parking wait is at the last generation that can be counted.
    pub open spec fn can_unpark(self) -> bool {
        forall|id: u32| #[trigger]
            self.waits.contains_key(id) && self.waits[id].status == ExternalWaitStatus::Parking
                ==> self.waits[id].wait_generation < u64::MAX
    }

    pub open spec fn parking_aborted(self) -> Self {
        WaitSetModel { waits: self.waits_unparked(), ..self }
    }

    /// Every wait parked at `park_generation`, with the Workflow Task given up.
    pub open spec fn parked_at(self, park_generation: u64) -> Self {
        WaitSetModel {
            waits: self.waits_in(ExternalWaitStatus::Parked),
            park_generation: Some(park_generation),
            wft_open: false,
            ..self
        }
    }

    pub open spec fn park_resolved(self, quiescence_generation: u64, confirmed: bool) -> Self {
        match self.park_resolution(quiescence_generation, confirmed) {
            ParkResolution::Confirmed => self.parked_at(quiescence_generation),
            ParkResolution::Aborted => self.parking_aborted(),
            ParkResolution::StaleGeneration => self,
        }
    }

    /// The unparked wake is always accepted; any other only if it names the confirmed park.
    pub open spec fn accepts_wake(self, park_generation: u64) -> bool {
        ||| park_generation == UNPARKED_WAKE_GENERATION
        ||| self.park_generation == Some(park_generation)
    }

    /// The annotation is there to be written, and no Workflow Task is open to write it under.
    pub open spec fn annotation_unwritten(self) -> bool {
        !self.wft_open && self.annotation.len() > 0
    }
}

} // verus!
