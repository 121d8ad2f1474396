use external_streams::constants::{
    EXTERNAL_STREAM_MARKER_NAME, LOCAL_ACTIVITY_MARKER_NAME, PATCH_MARKER_NAME,
};
use external_streams::machine::{
    verify_marker_matches, ExternalStreamCommand, ExternalStreamMachine,
    ExternalStreamMachineEvents, ExternalStreamMachineState, HistEventData, MachineError,
    MachineResponse, SharedState, WFMachinesError,
};
use external_streams::marker::{
    extract_stream_marker, marker_command, stream_markers, Command, CommandAttributes,
    CommandType, EventType, ExternalOutputStreamManifest, ExternalStreamMarkerData, HistoryEvent,
    HistoryEventAttributes, MarkerRecordedEventAttributes, ParkReason,
    RecordMarkerCommandAttributes,
};
use external_streams::text::decimal;

fn marker_with_stage_token(stage_token: &str) -> ExternalStreamMarkerData {
    ExternalStreamMarkerData {
        schema_version: 1,
        output: Some(ExternalOutputStreamManifest {
            schema_version: 1,
            fingerprint_version: 1,
            stage_token: stage_token.to_string(),
            history_floor_event_id: 1,
            run_id: "run-id".to_string(),
            provider_id: "provider".to_string(),
            provider_format_version: 1,
            ..Default::default()
        }),
        ..Default::default()
    }
}

fn marker(quiescence_generation: u64, terminal: ParkReason, annotation: &[u8]) -> ExternalStreamMarkerData {
    ExternalStreamMarkerData {
        quiescence_generation,
        terminal_boundary: terminal,
        replay_annotation: annotation.to_vec(),
        ..Default::default()
    }
}

fn marker_event(marker_name: &str, details: Option<ExternalStreamMarkerData>) -> HistoryEvent {
    HistoryEvent {
        event_type: EventType::MarkerRecorded,
        attributes: Some(HistoryEventAttributes::MarkerRecordedEventAttributes(
            MarkerRecordedEventAttributes {
                marker_name: marker_name.to_string(),
                details,
            },
        )),
        display: "event 5".to_string(),
    }
}

#[test]
fn a_different_output_manifest_is_nondeterministic() {
    let expected = marker_with_stage_token("expected");
    let mut state = SharedState {
        data: expected.clone(),
    };
    let actual = marker_with_stage_token("different");

    assert!(matches!(
        verify_marker_matches(&mut state, &actual),
        Err(WFMachinesError::Nondeterminism(message))
            if message.contains("different external output manifest")
    ));
}

#[test]
fn the_same_output_manifest_matches() {
    let expected = marker_with_stage_token("expected");
    let mut state = SharedState {
        data: expected.clone(),
    };

    assert!(matches!(verify_marker_matches(&mut state, &expected), Ok(_)));
}

#[test]
fn a_missing_output_manifest_is_nondeterministic() {
    let mut state = SharedState {
        data: marker_with_stage_token("expected"),
    };
    let actual = ExternalStreamMarkerData {
        schema_version: 1,
        ..Default::default()
    };
    assert!(verify_marker_matches(&mut state, &actual).is_err());
}

#[test]
fn manifests_that_differ_in_the_rest_are_different() {
    let mut other = marker_with_stage_token("expected");
    other.output.as_mut().unwrap().remainder = vec![1];
    let mut state = SharedState {
        data: marker_with_stage_token("expected"),
    };
    assert!(verify_marker_matches(&mut state, &other).is_err());
    assert!(marker_with_stage_token("a").output == marker_with_stage_token("a").output);
    assert!(marker_with_stage_token("a").output != other.output);
}

#[test]
fn another_quiescence_generation_is_nondeterministic() {
    let mut state = SharedState {
        data: marker(10, ParkReason::CommandsProduced, b"x"),
    };
    let found = marker(9, ParkReason::CommandsProduced, b"x");
    match verify_marker_matches(&mut state, &found) {
        Err(WFMachinesError::Nondeterminism(message)) => assert_eq!(
            message,
            "External stream marker in history closes quiescence generation 9 but the machine \
             expecting it closes 10"
        ),
        other => panic!("{:?}", other),
    }
}

#[test]
fn the_annotation_is_never_compared() {
    let mut state = SharedState {
        data: marker(3, ParkReason::CommandsProduced, b"one"),
    };
    let found = marker(3, ParkReason::WorkflowCompleted, b"two");
    assert!(verify_marker_matches(&mut state, &found).is_ok());
}

#[test]
fn a_live_machine_writes_and_then_matches_its_marker() {
    let new = ExternalStreamMachine::record_marker(marker(1, ParkReason::CommandsProduced, b"consumed"));
    let mut machine = new.machine;
    assert_eq!(machine.state().name(), "MarkerCommandCreated");
    match machine.marker_should_get_special_handling() {
        Err(WFMachinesError::Fatal(message)) => assert_eq!(
            message,
            "Attempted to check for external stream marker handling in invalid state \
             MarkerCommandCreated"
        ),
        other => panic!("{:?}", other),
    }

    let event = ExternalStreamMachineEvents::try_from(CommandType::RecordMarker).unwrap();
    assert!(machine.on_event_mut(event).unwrap().is_empty());
    assert!(matches!(
        machine.marker_should_get_special_handling(),
        Ok(false)
    ));

    let (name, details) = match new.command {
        CommandAttributes::RecordMarkerCommandAttributes(a) => {
            assert!(a.header.is_none());
            assert!(a.failure.is_none());
            (a.marker_name, a.details)
        }
        CommandAttributes::Other => panic!("not a marker"),
    };
    assert_eq!(name, EXTERNAL_STREAM_MARKER_NAME);
    let event = HistEventData {
        event: marker_event(&name, details),
    };
    let event = ExternalStreamMachineEvents::try_from(event).unwrap();
    assert!(machine.on_event_mut(event).unwrap().is_empty());
    assert!(matches!(
        machine.state(),
        ExternalStreamMachineState::MarkerCommandRecorded(_)
    ));
}

#[test]
fn a_looked_ahead_machine_writes_nothing_and_matches() {
    let mut machine =
        ExternalStreamMachine::resolved_from_marker_lookahead(marker_with_stage_token("expected"));
    assert!(matches!(
        machine.marker_should_get_special_handling(),
        Ok(true)
    ));
    assert_eq!(
        machine.state().name(),
        "ResolvedFromMarkerLookAheadWaitingMarkerEvent"
    );
    assert!(machine
        .adapt_response(ExternalStreamCommand::AlreadyRecorded, None)
        .unwrap()
        .is_empty());
    let found = ExternalStreamMachineEvents::MarkerRecorded(marker_with_stage_token("expected"));
    assert!(machine.on_event_mut(found).unwrap().is_empty());
    assert_eq!(machine.state().name(), "MarkerCommandRecorded");
}

#[test]
fn a_reordered_marker_fails_the_machine() {
    let mut machine =
        ExternalStreamMachine::resolved_from_marker_lookahead(marker(2, ParkReason::Unspecified, b""));
    let found = ExternalStreamMachineEvents::MarkerRecorded(marker(1, ParkReason::Unspecified, b""));
    assert!(matches!(
        machine.on_event_mut(found),
        Err(MachineError::Underlying(WFMachinesError::Nondeterminism(_)))
    ));
    // A failed machine takes no further event.
    let found = ExternalStreamMachineEvents::MarkerRecorded(marker(2, ParkReason::Unspecified, b""));
    assert!(matches!(
        machine.on_event_mut(found),
        Err(MachineError::InvalidTransition)
    ));
}

#[test]
fn an_event_out_of_place_is_invalid() {
    let mut machine =
        ExternalStreamMachine::record_marker(ExternalStreamMarkerData::default()).machine;
    assert!(matches!(
        machine.on_event_mut(ExternalStreamMachineEvents::Emit),
        Err(MachineError::InvalidTransition)
    ));
}

#[test]
fn a_response_writes_exactly_the_machines_marker() {
    let machine =
        ExternalStreamMachine::record_marker(marker(3, ParkReason::CommandsProduced, b"onetwo")).machine;
    let responses = machine
        .adapt_response(ExternalStreamCommand::RecordMarker, None)
        .unwrap();
    let commands: Vec<Command> = responses
        .into_iter()
        .map(|r| match r {
            MachineResponse::IssueNewCommand(c) => c,
        })
        .collect();
    assert_eq!(commands[0].command_type, CommandType::RecordMarker);
    assert_eq!(
        stream_markers(&commands),
        vec![(3, ParkReason::CommandsProduced, b"onetwo".to_vec())]
    );
}

#[test]
fn only_external_stream_markers_are_found_among_commands() {
    let patch = CommandAttributes::RecordMarkerCommandAttributes(RecordMarkerCommandAttributes {
        marker_name: PATCH_MARKER_NAME.to_string(),
        details: Some(marker(8, ParkReason::Unspecified, b"no")),
        header: None,
        failure: None,
    });
    let undecodable =
        CommandAttributes::RecordMarkerCommandAttributes(RecordMarkerCommandAttributes {
            marker_name: EXTERNAL_STREAM_MARKER_NAME.to_string(),
            details: None,
            header: None,
            failure: None,
        });
    let ours = marker_command(&marker(1, ParkReason::WorkflowCompleted, b"consumed"));
    let commands = vec![
        Command::from(patch),
        Command::from(undecodable),
        Command::from(ours),
        Command::from(CommandAttributes::Other),
        Command {
            command_type: CommandType::Other,
            attributes: None,
        },
    ];
    assert_eq!(
        stream_markers(&commands),
        vec![(1, ParkReason::WorkflowCompleted, b"consumed".to_vec())]
    );
    assert_eq!(commands[3].command_type, CommandType::Other);
    assert_eq!(stream_markers(&Vec::new()), vec![]);
}

#[test]
fn only_external_stream_marker_events_are_read() {
    let data = marker(4, ParkReason::BudgetRollover, b"at-the-budget");
    let ours = marker_event(EXTERNAL_STREAM_MARKER_NAME, Some(data.clone()));
    let read = extract_stream_marker(&ours).unwrap();
    assert_eq!(read.quiescence_generation, 4);
    assert_eq!(read.terminal_boundary, ParkReason::BudgetRollover);
    assert_eq!(read.replay_annotation, b"at-the-budget");

    assert!(extract_stream_marker(&marker_event(LOCAL_ACTIVITY_MARKER_NAME, Some(data.clone()))).is_none());
    assert!(extract_stream_marker(&marker_event(EXTERNAL_STREAM_MARKER_NAME, None)).is_none());
    let mut mislabelled = marker_event(EXTERNAL_STREAM_MARKER_NAME, Some(data));
    mislabelled.event_type = EventType::Other;
    assert!(extract_stream_marker(&mislabelled).is_none());
    assert!(extract_stream_marker(&HistoryEvent {
        event_type: EventType::MarkerRecorded,
        attributes: None,
        display: String::new(),
    })
    .is_none());
}

#[test]
fn events_of_another_kind_are_nondeterministic() {
    let other = HistEventData {
        event: HistoryEvent {
            event_type: EventType::Other,
            attributes: Some(HistoryEventAttributes::Other),
            display: "event 7".to_string(),
        },
    };
    match ExternalStreamMachineEvents::try_from(other) {
        Err(WFMachinesError::Nondeterminism(message)) => assert_eq!(
            message,
            "External stream machine cannot handle this event: event 7"
        ),
        other => panic!("{:?}", other),
    }
    let foreign = HistEventData {
        event: marker_event(PATCH_MARKER_NAME, None),
    };
    match ExternalStreamMachineEvents::try_from(foreign) {
        Err(WFMachinesError::Nondeterminism(message)) => assert_eq!(
            message,
            "Marker recorded event event 5 is not an external stream marker"
        ),
        other => panic!("{:?}", other),
    }
    assert!(ExternalStreamMachineEvents::try_from(CommandType::Other).is_err());
}

#[test]
fn marker_names_do_not_collide() {
    assert_eq!(EXTERNAL_STREAM_MARKER_NAME, "core_external_stream");
    assert_eq!(PATCH_MARKER_NAME, "core_patch");
    assert_eq!(LOCAL_ACTIVITY_MARKER_NAME, "core_local_activity");
    assert!(!EXTERNAL_STREAM_MARKER_NAME.starts_with("core_workflow_stream"));
}

#[test]
fn a_clone_is_the_same_envelope() {
    let mut data = marker_with_stage_token("token");
    data.waits = vec![(1, 2), (3, 4)];
    data.remainder = vec![9];
    let copy = data.clone();
    assert_eq!(copy.schema_version, 1);
    assert_eq!(copy.waits, vec![(1, 2), (3, 4)]);
    assert_eq!(copy.remainder, vec![9]);
    assert!(copy.output == data.output);
    let shared = SharedState { data }.clone();
    assert_eq!(shared.data.waits.len(), 2);
}

#[test]
fn commands_show_their_names() {
    assert_eq!(ExternalStreamCommand::RecordMarker.name(), "RecordMarker");
    assert_eq!(ExternalStreamCommand::AlreadyRecorded.name(), "AlreadyRecorded");
}

#[test]
fn numbers_are_written_in_decimal() {
    assert_eq!(decimal(0), "0");
    assert_eq!(decimal(7), "7");
    assert_eq!(decimal(1234567890), "1234567890");
    assert_eq!(decimal(u64::MAX), "18446744073709551615");
}
