use external_streams::activation::{
    resolve_hints, wake_changed_nothing, WorkflowActivation, WorkflowActivationJob,
};
use external_streams::ids::{list_distinct, sort_ids};

fn resolve(ready_hints: Vec<u32>) -> WorkflowActivationJob {
    WorkflowActivationJob::ResolveExternalStreamWaits { ready_hints }
}

fn activation(jobs: Vec<WorkflowActivationJob>) -> WorkflowActivation {
    WorkflowActivation {
        run_id: "run".to_string(),
        jobs,
    }
}

#[test]
fn hints_of_all_resolve_jobs_come_in_ascending_order() {
    let a = activation(vec![
        resolve(vec![3, 1]),
        WorkflowActivationJob::Other,
        resolve(vec![2, 3]),
    ]);
    assert_eq!(resolve_hints(&a), vec![1, 2, 3, 3]);
    assert!(!wake_changed_nothing(&a));
}

#[test]
fn an_activation_without_signals_or_hints_shows_no_effect() {
    assert!(wake_changed_nothing(&activation(vec![])));
    assert!(wake_changed_nothing(&activation(vec![
        WorkflowActivationJob::Other,
        resolve(vec![]),
    ])));
    assert_eq!(resolve_hints(&activation(vec![])), Vec::<u32>::new());
}

#[test]
fn a_signal_that_reaches_a_handler_is_an_effect() {
    let a = activation(vec![WorkflowActivationJob::SignalWorkflow {
        signal_name: "a-user-signal".to_string(),
    }]);
    assert!(!wake_changed_nothing(&a));
}

#[test]
fn ids_are_sorted_with_their_repeats() {
    assert_eq!(sort_ids(&vec![5, 1, 5, 0]), vec![0, 1, 5, 5]);
    assert_eq!(list_distinct(&vec![9, 2, 4]), vec![2, 4, 9]);
}
