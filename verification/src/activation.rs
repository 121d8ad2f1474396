//! Reading an activation: which waits it resolves, and whether a Signal reaches a handler.

use vstd::prelude::*;
use crate::ids::{sort_ids, sorted};

verus! {

/// One job of an activation, as far as external streams tell jobs apart.
#[derive(Debug)]
pub enum WorkflowActivationJob {
    /// Probe every active wait; the ids named are known ready.
    ResolveExternalStreamWaits { ready_hints: Vec<u32> },
    /// Deliver a Signal to its handler.
    SignalWorkflow { signal_name: String },
    Other,
}

/// What lang is asked to do next for a Run.
#[derive(Debug)]
pub struct WorkflowActivation {
    pub run_id: String,
    pub jobs: Vec<WorkflowActivationJob>,
}

/// The wait ids that resolve jobs name, job by job.
pub open spec fn hinted(jobs: Seq<WorkflowActivationJob>) -> Seq<u32>
    decreases jobs.len(),
{
    if jobs.len() == 0 {
        Seq::empty()
    } else {
        match jobs.last() {
            WorkflowActivationJob::ResolveExternalStreamWaits { ready_hints } => hinted(
                jobs.drop_last(),
            ) + ready_hints@,
            _ => hinted(jobs.drop_last()),
        }
    }
}

/// Some job delivers a Signal.
pub open spec fn delivers_a_signal(jobs: Seq<WorkflowActivationJob>) -> bool {
    exists|i: int| 0 <= i < jobs.len() && (#[trigger] jobs[i]) is SignalWorkflow
}

/// The wait ids named by any resolve job in an activation, in ascending order.
pub fn resolve_hints(activation: &WorkflowActivation) -> (ids: Vec<u32>)
    ensures
        sorted(ids@),
        ids@.to_multiset() == hinted(activation.jobs@).to_multiset(),
{
    let mut named: Vec<u32> = Vec::new();
    assert(named@ == hinted(activation.jobs@.take(0)));
    for i in 0..activation.jobs.len()
        invariant
            named@ == hinted(activation.jobs@.take(i as int)),
    {
        assert(activation.jobs@.take(i + 1).drop_last() == activation.jobs@.take(i as int));
        if let WorkflowActivationJob::ResolveExternalStreamWaits { ready_hints } = &activation.jobs[i] {
            named.extend_from_slice(ready_hints.as_slice());
            assert(named@ =~= hinted(activation.jobs@.take(i as int)) + ready_hints@);
        }
    }
    assert(activation.jobs@.take(activation.jobs.len() as int) == activation.jobs@);
    sort_ids(&named)
}

/// Whether an activation shows a wake Signal to have had no effect: the Signal reaches no handler,
/// and no wait is resolved.
pub fn wake_changed_nothing(activation: &WorkflowActivation) -> (res: bool)
    ensures
        res <==> !delivers_a_signal(activation.jobs@) && hinted(activation.jobs@).len() == 0,
{
    for i in 0..activation.jobs.len()
        invariant
            forall|k: int| 0 <= k < i ==> !((#[trigger] activation.jobs[k]) is SignalWorkflow),
    {
        if let WorkflowActivationJob::SignalWorkflow { .. } = &activation.jobs[i] {
            return false;
        }
    }
    let ids = resolve_hints(activation);
    proof {
        vstd::seq_lib::to_multiset_len(ids@);
        vstd::seq_lib::to_multiset_len(hinted(activation.jobs@));
    }
    ids.is_empty()
}

/// What jobs name is what their parts name, one after the other; one job names its own hints if it
/// resolves waits, and nothing otherwise.
pub proof fn law_what_jobs_name(
    a: Seq<WorkflowActivationJob>,
    b: Seq<WorkflowActivationJob>,
    job: WorkflowActivationJob,
)
    ensures
        hinted(a + b) == hinted(a) + hinted(b),
        job matches WorkflowActivationJob::ResolveExternalStreamWaits { ready_hints } ==> hinted(
            seq![job],
        ) == ready_hints@,
        !(job is ResolveExternalStreamWaits) ==> hinted(seq![job]).len() == 0,
    decreases b.len(),
{
    assert(seq![job].drop_last() =~= Seq::empty());
    assert(hinted(seq![job].drop_last()).len() == 0);
    assert(seq![job].last() == job);
    assert(job matches WorkflowActivationJob::ResolveExternalStreamWaits { ready_hints } ==> hinted(
        seq![job],
    ) =~= ready_hints@);
    if b.len() == 0 {
        assert(a + b =~= a);
        assert(hinted(a) + hinted(b) =~= hinted(a));
    } else {
        law_what_jobs_name(a, b.drop_last(), job);
        assert((a + b).drop_last() =~= a + b.drop_last());
        assert((a + b).last() == b.last());
        assert(hinted(a + b) =~= hinted(a) + hinted(b));
    }
}

/// A wake leaves its mark exactly if some job of the activation delivers a Signal or names a wait.
pub proof fn law_what_shows_a_wake(jobs: Seq<WorkflowActivationJob>)
    ensures
        delivers_a_signal(jobs) <==> exists|i: int|
            0 <= i < jobs.len() && (#[trigger] jobs[i]) is SignalWorkflow,
        hinted(jobs).len() > 0 <==> exists|i: int|
            0 <= i < jobs.len() && (#[trigger] jobs[i] matches
                WorkflowActivationJob::ResolveExternalStreamWaits { ready_hints }
                && ready_hints@.len() > 0),
    decreases jobs.len(),
{
    if jobs.len() > 0 {
        let rest = jobs.drop_last();
        law_what_shows_a_wake(rest);
        if hinted(rest).len() > 0 {
            let i = choose|i: int|
                0 <= i < rest.len() && (#[trigger] rest[i] matches
                    WorkflowActivationJob::ResolveExternalStreamWaits { ready_hints }
                    && ready_hints@.len() > 0);
            assert(jobs[i] == rest[i]);
        } else {
            assert forall|i: int| 0 <= i < rest.len() implies (#[trigger] jobs[i]) == rest[i] by {}
            assert(jobs[jobs.len() - 1] == jobs.last());
        }
    }
}

} // verus!
