use external_streams::wait_set::{ExternalWaitSet, UnwrittenAnnotationError};
use external_streams::waits::{
    ExternalStreamReadyResult, ExternalStreamRunStatus, ExternalWaitState, ExternalWaitStatus,
    ParkResolution, ParkStartOutcome, ParkTrigger, ReadinessOutcome, RunStreamStatus,
    UNPARKED_WAKE_GENERATION,
};
use std::time::Duration;

const IDLE: Duration = Duration::from_secs(1);

fn quiescent_set(wait_ids: &[u32]) -> ExternalWaitSet {
    let mut set = ExternalWaitSet::new();
    set.become_quiescent(
        wait_ids
            .iter()
            .map(|id| ExternalWaitState::new(*id, 0, false))
            .collect(),
        IDLE,
    );
    set
}

#[test]
fn quiescence_generations_start_at_one() {
    // 0 is reserved as the unparked-wake sentinel, so a real generation must never be 0.
    let set = quiescent_set(&[1]);
    assert_eq!(set.quiescence_generation(), 1);
    assert_ne!(set.quiescence_generation(), UNPARKED_WAKE_GENERATION);
}

#[test]
fn readiness_at_the_current_generation_is_accepted() {
    let mut set = quiescent_set(&[1, 2]);

    assert_eq!(set.notify_ready(1, 0), ReadinessOutcome::Accepted);
    assert_eq!(set.wait(1).unwrap().status, ExternalWaitStatus::Ready);
    assert_eq!(set.take_ready_wait_ids(), vec![1]);
}

#[test]
fn a_stale_wait_generation_is_rejected() {
    let mut set = quiescent_set(&[1]);

    assert_eq!(set.notify_ready(1, 7), ReadinessOutcome::Stale);
    assert_eq!(
        set.wait(1).unwrap().status,
        ExternalWaitStatus::BlockedWftOpen
    );
    assert!(!set.has_pending_readiness());
}

#[test]
fn readiness_for_an_unregistered_wait_is_not_reported_as_stale() {
    // "Stale" tells the watcher to re-probe. There is nothing here to re-probe against, and
    // reporting it as stale would spin the watcher forever.
    let mut set = quiescent_set(&[1]);
    assert_eq!(
        set.notify_ready(99, 0),
        ReadinessOutcome::NoOpenWorkflowTask
    );
}

#[test]
fn readiness_with_no_open_workflow_task_reports_the_healthy_state() {
    let mut set = quiescent_set(&[1]);
    set.set_wft_open(false);

    assert_eq!(set.notify_ready(1, 0), ReadinessOutcome::NoOpenWorkflowTask);
    // Not `Parked`: there is no confirmed park generation, so a producer has nothing to
    // observe and the watcher must send an *unparked* wake.
    assert_eq!(set.park_generation(), None);
}

#[test]
fn readiness_coalesces_until_taken() {
    let mut set = quiescent_set(&[1, 2, 3]);

    set.notify_ready(3, 0);
    set.notify_ready(1, 0);
    set.notify_ready(1, 0);

    assert_eq!(set.take_ready_wait_ids(), vec![1, 3]);
    assert!(!set.has_pending_readiness());
}

// --- the park/readiness race, both orderings ---------------------------

#[test]
fn readiness_before_confirmation_wins_and_the_confirmation_is_stale() {
    let mut set = quiescent_set(&[1, 2]);
    let quiesc = set.quiescence_generation();

    assert_eq!(
        set.start_parking(quiesc, ParkTrigger::IdleTimeout),
        ParkStartOutcome::Started(ParkTrigger::IdleTimeout)
    );
    // Readiness lands while the handshake is in flight.
    assert_eq!(set.notify_ready(1, 0), ReadinessOutcome::Accepted);

    // The confirmation names the current generation but no wait is `Parking` any more.
    assert_eq!(
        set.resolve_park(quiesc, true),
        ParkResolution::StaleGeneration
    );
    assert_eq!(set.park_generation(), None);
    assert!(set.retains_wft());
}

#[test]
fn confirmation_before_readiness_wins_and_readiness_reports_parked() {
    let mut set = quiescent_set(&[1, 2]);
    let quiesc = set.quiescence_generation();

    set.start_parking(quiesc, ParkTrigger::IdleTimeout);
    assert_eq!(set.resolve_park(quiesc, true), ParkResolution::Confirmed);

    assert_eq!(set.notify_ready(1, 0), ReadinessOutcome::Parked);
    assert_eq!(set.park_generation(), Some(quiesc));
    assert!(!set.retains_wft());
}

#[test]
fn a_confirmation_for_an_old_generation_is_discarded() {
    let mut set = quiescent_set(&[1]);
    let first = set.quiescence_generation();
    set.start_parking(first, ParkTrigger::IdleTimeout);

    // The Workflow ran again and became quiescent at a new snapshot.
    set.become_quiescent(vec![ExternalWaitState::new(1, 1, false)], IDLE);

    assert_eq!(
        set.resolve_park(first, true),
        ParkResolution::StaleGeneration
    );
    assert_eq!(set.park_generation(), None);
}

#[test]
fn an_aborted_park_bumps_wait_generations() {
    // Otherwise a readiness notification issued for the aborted attempt would resolve
    // against the new block and deliver twice.
    let mut set = quiescent_set(&[1, 2]);
    let quiesc = set.quiescence_generation();
    set.start_parking(quiesc, ParkTrigger::IdleTimeout);

    assert_eq!(set.resolve_park(quiesc, false), ParkResolution::Aborted);

    assert_eq!(set.wait(1).unwrap().wait_generation, 1);
    assert_eq!(set.notify_ready(1, 0), ReadinessOutcome::Stale);
    assert_eq!(set.notify_ready(1, 1), ReadinessOutcome::Accepted);
}

#[test]
fn parking_a_set_with_a_ready_wait_is_refused() {
    let mut set = quiescent_set(&[1, 2]);
    let quiesc = set.quiescence_generation();
    set.notify_ready(2, 0);

    assert_eq!(
        set.start_parking(quiesc, ParkTrigger::IdleTimeout),
        ParkStartOutcome::AlreadyReady
    );
}

#[test]
fn parking_a_stale_generation_is_refused() {
    let mut set = quiescent_set(&[1]);
    let quiesc = set.quiescence_generation();

    assert_eq!(
        set.start_parking(quiesc + 1, ParkTrigger::IdleTimeout),
        ParkStartOutcome::StaleGeneration
    );
}

// --- retention ---------------------------------------------------------

#[test]
fn an_empty_set_retains_nothing() {
    let set = ExternalWaitSet::new();
    assert!(!set.retains_wft());
    assert!(!set.all_immediately_parkable());
}

#[test]
fn one_parked_member_does_not_release_the_task() {
    let mut parked = ExternalWaitState::new(1, 0, false);
    parked.status = ExternalWaitStatus::Parked;
    let mut set = ExternalWaitSet::new();
    set.become_quiescent(vec![parked, ExternalWaitState::new(2, 0, false)], IDLE);

    assert!(set.retains_wft());
}

#[test]
fn one_fenced_stream_does_not_make_the_set_parkable() {
    let mut set = ExternalWaitSet::new();
    set.become_quiescent(
        vec![
            ExternalWaitState::new(1, 0, true),
            ExternalWaitState::new(2, 0, false),
        ],
        IDLE,
    );

    assert!(!set.all_immediately_parkable());

    let mut second = *set.wait(2).unwrap();
    second.immediately_parkable = true;
    set.become_quiescent(vec![*set.wait(1).unwrap(), second], IDLE);
    assert!(set.all_immediately_parkable());
}

// --- the read-only status probe ----------------------------------------

#[test]
fn the_status_probe_leaves_the_set_untouched() {
    let mut set = quiescent_set(&[1, 2]);
    set.notify_ready(1, 0);
    let before = set.marker_waits();
    let ready_before = set.has_pending_readiness();

    assert_eq!(set.run_status(), RunStreamStatus::WftOpen);
    assert_eq!(set.run_status(), RunStreamStatus::WftOpen);

    assert_eq!(set.marker_waits(), before);
    assert_eq!(set.has_pending_readiness(), ready_before);
    assert_eq!(set.wait(1).unwrap().status, ExternalWaitStatus::Ready);
}

#[test]
fn status_distinguishes_parked_from_no_open_task() {
    let mut set = quiescent_set(&[1]);
    let quiesc = set.quiescence_generation();

    set.set_wft_open(false);
    assert_eq!(set.run_status(), RunStreamStatus::NoOpenWorkflowTask);

    set.set_wft_open(true);
    set.start_parking(quiesc, ParkTrigger::IdleTimeout);
    set.resolve_park(quiesc, true);
    assert_eq!(set.run_status(), RunStreamStatus::Parked);
}

// --- wake generations --------------------------------------------------

#[test]
fn an_unparked_wake_is_always_accepted() {
    let set = quiescent_set(&[1]);
    assert!(set.accepts_wake_generation(UNPARKED_WAKE_GENERATION));
}

#[test]
fn an_unrecognized_nonzero_wake_generation_is_stale() {
    let mut set = quiescent_set(&[1]);
    assert!(!set.accepts_wake_generation(42));

    set.force_parked(7);
    assert!(set.accepts_wake_generation(7));
    assert!(!set.accepts_wake_generation(6));
    // Still accepted: an unparked wake costs at most one empty Workflow Task.
    assert!(set.accepts_wake_generation(UNPARKED_WAKE_GENERATION));
}

// --- the annotation ----------------------------------------------------

#[test]
fn deltas_accumulate_in_order_and_are_taken_once() {
    let mut set = quiescent_set(&[1]);
    set.accumulate_annotation(b"one");
    set.accumulate_annotation(b"two");

    assert_eq!(set.replay_annotation(), b"onetwo");
    assert_eq!(set.take_annotation().unwrap(), b"onetwo".to_vec());
    assert!(set.replay_annotation().is_empty());
}

#[test]
fn an_empty_annotation_may_be_taken_with_no_task_open() {
    let mut set = quiescent_set(&[1]);
    set.set_wft_open(false);
    assert_eq!(set.take_annotation().unwrap(), Vec::<u8>::new());
}

#[test]
fn the_unwritten_annotation_invariant_fires() {
    let mut set = quiescent_set(&[1]);
    set.accumulate_annotation(b"delta");
    set.set_wft_open(false);

    assert!(set.take_annotation().is_err());
}

// --- edges -------------------------------------------------------------

#[test]
fn an_unwritten_annotation_is_kept_and_reported_with_its_length() {
    let mut set = quiescent_set(&[1]);
    set.accumulate_annotation(b"delta");
    set.set_wft_open(false);

    let error = set.take_annotation().unwrap_err();
    assert_eq!(error, UnwrittenAnnotationError(5));
    assert_eq!(
        error.message(),
        "external stream annotation of 5 byte(s) is non-empty with no Workflow Task open; an \
         accumulated, unwritten annotation exists only while a Workflow Task is open"
    );
    assert_eq!(set.replay_annotation(), b"delta");
}

#[test]
fn an_empty_delta_changes_nothing() {
    let mut set = quiescent_set(&[1]);
    set.accumulate_annotation(b"");
    assert_eq!(set.replay_annotation(), b"");
    assert_eq!(set.run_status(), RunStreamStatus::WftOpen);
}

#[test]
fn the_annotation_outlives_new_snapshots() {
    let mut set = quiescent_set(&[1]);
    set.accumulate_annotation(b"first");
    set.notify_ready(1, 0);
    set.become_quiescent(vec![ExternalWaitState::new(1, 0, false)], IDLE);
    set.accumulate_annotation(b"second");
    assert_eq!(set.replay_annotation(), b"firstsecond");
    assert_eq!(set.quiescence_generation(), 2);
}

#[test]
fn a_new_set_has_nothing() {
    let set = ExternalWaitSet::default();
    assert!(set.is_empty());
    assert_eq!(set.quiescence_generation(), 0);
    assert_eq!(set.park_generation(), None);
    assert_eq!(set.idle_timeout(), None);
    assert_eq!(set.marker_waits(), vec![]);
    assert_eq!(set.run_status(), RunStreamStatus::NoOpenWorkflowTask);
    assert!(set.wait(1).is_none());
}

#[test]
fn a_snapshot_drops_unlisted_waits_and_keeps_the_last_listing() {
    let mut set = quiescent_set(&[1, 2]);
    set.notify_ready(1, 0);
    let generation = set.become_quiescent(
        vec![
            ExternalWaitState::new(5, 1, false),
            ExternalWaitState::new(3, 4, true),
            ExternalWaitState::new(5, 2, true),
        ],
        Duration::from_millis(30),
    );

    assert_eq!(generation, 2);
    assert_eq!(set.idle_timeout(), Some(Duration::from_millis(30)));
    assert_eq!(set.marker_waits(), vec![(3, 4), (5, 2)]);
    assert!(set.wait(1).is_none());
    assert!(!set.has_pending_readiness());
    assert!(set.all_immediately_parkable());
    assert_eq!(*set.wait(5).unwrap(), ExternalWaitState::new(5, 2, true));
}

#[test]
fn marker_waits_are_listed_by_ascending_id() {
    let mut set = ExternalWaitSet::new();
    set.become_quiescent(
        (1..=40u32)
            .rev()
            .map(|id| ExternalWaitState::new(id, u64::from(id) * 2, false))
            .collect(),
        IDLE,
    );
    let expected: Vec<(u32, u64)> = (1..=40u32).map(|id| (id, u64::from(id) * 2)).collect();
    assert_eq!(set.marker_waits(), expected);
}

#[test]
fn a_seeded_park_answers_parked_to_readiness_and_probe() {
    let mut set = quiescent_set(&[1]);
    set.force_parked(7);

    assert_eq!(set.notify_ready(1, 0), ReadinessOutcome::Parked);
    assert_eq!(set.run_status(), RunStreamStatus::Parked);
    assert_eq!(set.park_generation(), Some(7));
}

#[test]
fn a_late_idle_timeout_leaves_the_set_alone() {
    let mut set = quiescent_set(&[1]);
    assert_eq!(
        set.start_parking(99, ParkTrigger::IdleTimeout),
        ParkStartOutcome::StaleGeneration
    );
    assert_eq!(set.run_status(), RunStreamStatus::WftOpen);
    assert_eq!(
        set.wait(1).unwrap().status,
        ExternalWaitStatus::BlockedWftOpen
    );
}

#[test]
fn an_empty_set_is_never_parked_by_a_timer() {
    let mut set = quiescent_set(&[]);
    let quiesc = set.quiescence_generation();
    assert_eq!(
        set.start_parking(quiesc, ParkTrigger::AllWriteFenced),
        ParkStartOutcome::StaleGeneration
    );
}

#[test]
fn generation_zero_of_a_new_set_is_never_parked() {
    let mut set = ExternalWaitSet::new();
    assert_eq!(
        set.resolve_park(0, true),
        ParkResolution::StaleGeneration
    );
    assert_eq!(set.park_generation(), None);
    assert_eq!(set.run_status(), RunStreamStatus::NoOpenWorkflowTask);
    assert_eq!(
        set.resolve_park(0, false),
        ParkResolution::StaleGeneration
    );
    assert_eq!(set.park_generation(), None);
}

#[test]
fn an_answer_for_a_snapshot_of_no_waits_stands() {
    // No wait of the set is out of `Parking`, and the generation named is a real one.
    let mut set = quiescent_set(&[]);
    assert_eq!(set.resolve_park(1, false), ParkResolution::Aborted);
    assert_eq!(set.park_generation(), None);
    assert_eq!(set.resolve_park(1, true), ParkResolution::Confirmed);
    assert_eq!(set.park_generation(), Some(1));
    assert_eq!(set.run_status(), RunStreamStatus::Parked);
}

#[test]
fn a_confirmation_is_stale_even_after_the_readiness_was_shipped() {
    let mut set = quiescent_set(&[1, 2]);
    set.start_parking(1, ParkTrigger::IdleTimeout);
    assert_eq!(set.notify_ready(1, 0), ReadinessOutcome::Accepted);
    assert_eq!(set.take_ready_wait_ids(), vec![1]);
    assert_eq!(
        set.resolve_park(1, true),
        ParkResolution::StaleGeneration
    );
    assert_eq!(set.park_generation(), None);
    assert!(set.retains_wft());

    set.become_quiescent(vec![ExternalWaitState::new(1, 1, false)], IDLE);
    set.start_parking(2, ParkTrigger::IdleTimeout);
    assert_eq!(
        set.resolve_park(1, true),
        ParkResolution::StaleGeneration
    );
}

#[test]
fn a_parked_answer_comes_with_a_park_generation() {
    let mut set = quiescent_set(&[1, 2]);
    assert_eq!(set.notify_ready(1, 0), ReadinessOutcome::Accepted);
    assert_eq!(set.park_generation(), None);
    set.become_quiescent(vec![ExternalWaitState::new(1, 1, false)], IDLE);
    set.start_parking(2, ParkTrigger::IdleTimeout);
    assert_eq!(set.resolve_park(2, true), ParkResolution::Confirmed);
    assert_eq!(set.notify_ready(1, 1), ReadinessOutcome::Parked);
    assert_eq!(set.park_generation(), Some(2));
}

#[test]
fn parking_reports_the_trigger_it_was_given() {
    let mut set = quiescent_set(&[1, 2]);
    assert_eq!(
        set.start_parking(1, ParkTrigger::AllWriteFenced),
        ParkStartOutcome::Started(ParkTrigger::AllWriteFenced)
    );
    assert_eq!(set.wait(1).unwrap().status, ExternalWaitStatus::Parking);
    assert_eq!(set.wait(2).unwrap().status, ExternalWaitStatus::Parking);
    assert_eq!(set.run_status(), RunStreamStatus::WftOpen);
}

#[test]
fn aborting_a_park_leaves_waits_that_are_not_parking_alone() {
    let mut set = quiescent_set(&[1, 2]);
    set.start_parking(1, ParkTrigger::IdleTimeout);
    set.notify_ready(2, 0);
    set.abort_parking();

    assert_eq!(set.wait(1).unwrap().wait_generation, 1);
    assert_eq!(
        set.wait(1).unwrap().status,
        ExternalWaitStatus::BlockedWftOpen
    );
    assert_eq!(set.wait(2).unwrap().wait_generation, 0);
    assert_eq!(set.wait(2).unwrap().status, ExternalWaitStatus::Ready);
}

#[test]
fn taking_readiness_leaves_the_wait_ready() {
    let mut set = quiescent_set(&[1, 2]);
    set.notify_ready(2, 0);
    assert_eq!(set.take_ready_wait_ids(), vec![2]);
    assert_eq!(set.take_ready_wait_ids(), Vec::<u32>::new());
    assert_eq!(set.wait(2).unwrap().status, ExternalWaitStatus::Ready);
    assert_eq!(
        set.start_parking(1, ParkTrigger::IdleTimeout),
        ParkStartOutcome::AlreadyReady
    );
}

#[test]
fn readiness_order_does_not_matter() {
    let mut a = quiescent_set(&[1, 2]);
    let mut b = quiescent_set(&[1, 2]);
    a.notify_ready(1, 0);
    a.notify_ready(2, 0);
    b.notify_ready(2, 0);
    b.notify_ready(1, 0);
    assert_eq!(a.take_ready_wait_ids(), b.take_ready_wait_ids());
    assert_eq!(a.marker_waits(), b.marker_waits());
}

#[test]
fn a_replaced_task_still_accepts_readiness_issued_before() {
    let mut set = quiescent_set(&[1, 2]);
    set.accumulate_annotation(b"before-rollover");
    set.set_wft_open(false);
    set.set_wft_open(true);
    assert_eq!(set.run_status(), RunStreamStatus::WftOpen);
    assert_eq!(set.replay_annotation(), b"before-rollover");
    assert_eq!(set.notify_ready(2, 0), ReadinessOutcome::Accepted);
    assert_eq!(set.take_ready_wait_ids(), vec![2]);
}

#[test]
fn a_new_snapshot_forgets_a_park() {
    let mut set = quiescent_set(&[1]);
    set.start_parking(1, ParkTrigger::IdleTimeout);
    assert_eq!(set.resolve_park(1, true), ParkResolution::Confirmed);
    assert!(set.accepts_wake_generation(1));
    set.become_quiescent(vec![ExternalWaitState::new(1, 1, false)], IDLE);
    assert!(!set.accepts_wake_generation(1));
    assert_eq!(set.park_generation(), None);
}

#[test]
fn only_a_parked_wait_lets_go_of_the_task() {
    assert!(ExternalWaitStatus::BlockedWftOpen.retains_wft());
    assert!(ExternalWaitStatus::Ready.retains_wft());
    assert!(ExternalWaitStatus::Parking.retains_wft());
    assert!(!ExternalWaitStatus::Parked.retains_wft());
}

#[test]
fn only_a_missing_run_is_reported_missing() {
    let mut set = quiescent_set(&[1]);
    set.set_wft_open(false);
    assert_eq!(
        ExternalStreamReadyResult::from_run(Some(set.notify_ready(1, 0))),
        ExternalStreamReadyResult::NoOpenWorkflowTask
    );
    assert_eq!(
        ExternalStreamReadyResult::from_run(None),
        ExternalStreamReadyResult::RunNotFound
    );
    assert_eq!(
        ExternalStreamReadyResult::from_run(Some(ReadinessOutcome::Stale)),
        ExternalStreamReadyResult::Stale
    );
    assert_eq!(
        ExternalStreamReadyResult::from_run(Some(ReadinessOutcome::Parked)),
        ExternalStreamReadyResult::Parked
    );
    assert_eq!(
        ExternalStreamReadyResult::from_run(Some(ReadinessOutcome::Accepted)),
        ExternalStreamReadyResult::Accepted
    );
    assert_eq!(
        ExternalStreamRunStatus::from_run(Some(set.run_status())),
        ExternalStreamRunStatus::NoOpenWorkflowTask
    );
    assert_eq!(
        ExternalStreamRunStatus::from_run(Some(RunStreamStatus::WftOpen)),
        ExternalStreamRunStatus::WftOpen
    );
    assert_eq!(
        ExternalStreamRunStatus::from_run(Some(RunStreamStatus::Parked)),
        ExternalStreamRunStatus::Parked
    );
    assert_eq!(
        ExternalStreamRunStatus::from_run(None),
        ExternalStreamRunStatus::RunNotFound
    );
}
