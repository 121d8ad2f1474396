//! What markers, the commands that write them and the events that hold them come to, field by
//! field.

use vstd::prelude::*;
use vstd::std_specs::cmp::PartialEqSpec;
use vstd::std_specs::convert::FromSpec;
use crate::constants::{
    EXTERNAL_STREAM_MARKER_NAME, LOCAL_ACTIVITY_MARKER_NAME, PATCH_MARKER_NAME,
};
use crate::marker::{
    envelope_model, markers_written, output_model, Command, CommandAttributes, CommandType,
    EventType, ExternalOutputStreamManifest, ExternalStreamMarkerData, HistoryEvent,
    HistoryEventAttributes, MarkerModel,
};

verus! {

/// The three kinds of marker bear these names, and no two of them the same.
pub proof fn law_marker_names_are_apart()
    ensures
        EXTERNAL_STREAM_MARKER_NAME@ == "core_external_stream"@,
        PATCH_MARKER_NAME@ == "core_patch"@,
        LOCAL_ACTIVITY_MARKER_NAME@ == "core_local_activity"@,
        EXTERNAL_STREAM_MARKER_NAME@ != PATCH_MARKER_NAME@,
        EXTERNAL_STREAM_MARKER_NAME@ != LOCAL_ACTIVITY_MARKER_NAME@,
        PATCH_MARKER_NAME@ != LOCAL_ACTIVITY_MARKER_NAME@,
{
    reveal_strlit("core_external_stream");
    reveal_strlit("core_patch");
    reveal_strlit("core_local_activity");
    assert("core_external_stream"@.len() == 20);
    assert("core_patch"@.len() == 10);
    assert("core_local_activity"@.len() == 19);
}

/// Two manifests are the same exactly if they agree on every field.
pub proof fn law_when_manifests_are_the_same(
    a: ExternalOutputStreamManifest,
    b: ExternalOutputStreamManifest,
)
    ensures
        ExternalOutputStreamManifest::obeys_eq_spec(),
        a.eq_spec(&b) <==> a@ == b@,
        a@ == b@ <==> {
            &&& a.schema_version == b.schema_version
            &&& a.fingerprint_version == b.fingerprint_version
            &&& a.stage_token@ == b.stage_token@
            &&& a.history_floor_event_id == b.history_floor_event_id
            &&& a.run_id@ == b.run_id@
            &&& a.provider_id@ == b.provider_id@
            &&& a.provider_format_version == b.provider_format_version
            &&& a.remainder@ == b.remainder@
        },
{
}

/// Two envelopes hold the same exactly if they agree on every field, and the model of one holds
/// what it holds.
pub proof fn law_when_envelopes_hold_the_same(
    a: ExternalStreamMarkerData,
    b: ExternalStreamMarkerData,
)
    ensures
        a@.schema_version == a.schema_version,
        a@.quiescence_generation == a.quiescence_generation,
        a@.waits == a.waits@,
        a@.terminal_boundary == a.terminal_boundary,
        a@.replay_annotation == a.replay_annotation@,
        a@.remainder == a.remainder@,
        a@.output is Some <==> a.output is Some,
        a.output matches Some(m) ==> a@.output == Some(m@),
        a@ == b@ <==> {
            &&& a.schema_version == b.schema_version
            &&& a.quiescence_generation == b.quiescence_generation
            &&& a.waits@ == b.waits@
            &&& a.terminal_boundary == b.terminal_boundary
            &&& a.replay_annotation@ == b.replay_annotation@
            &&& a.remainder@ == b.remainder@
            &&& a.output is Some <==> b.output is Some
            &&& a.output matches Some(m) ==> (b.output matches Some(n) ==> m@ == n@)
        },
{
}

/// An absent output or envelope is absent from the model, and one that is there is there as it is.
pub proof fn law_what_is_there_is_modelled(
    output: Option<ExternalOutputStreamManifest>,
    envelope: Option<ExternalStreamMarkerData>,
)
    ensures
        output_model(output) is Some <==> output is Some,
        output matches Some(m) ==> output_model(output) == Some(m@),
        envelope_model(envelope) is Some <==> envelope is Some,
        envelope matches Some(d) ==> envelope_model(envelope) == Some(d@),
{
}

/// When attributes or a command write `data`: as a marker of the external stream kind whose
/// details are `data`, with no header and no failure, and for a command, of the type that records
/// markers. What a command writes is what is found in it.
pub proof fn law_when_a_marker_is_written(
    attributes: CommandAttributes,
    command: Command,
    data: MarkerModel,
)
    ensures
        attributes.writes(data) <==> (attributes matches
            CommandAttributes::RecordMarkerCommandAttributes(a) && a.marker_name@
            == "core_external_stream"@ && (a.details matches Some(d) && d@ == data)
            && a.header is None && a.failure is None),
        command.writes(data) <==> command.command_type == CommandType::RecordMarker && (
        command.attributes matches Some(a) && a.writes(data)),
        command.writes(data) ==> command.written_marker() == Some(data),
{
}

/// A command made of attributes has them, and is of the type they call for.
pub proof fn law_a_command_is_of_its_attributes_type(attributes: CommandAttributes, data: MarkerModel)
    ensures
        <Command as FromSpec<CommandAttributes>>::obeys_from_spec(),
        ({
            let command = <Command as FromSpec<CommandAttributes>>::from_spec(attributes);
            &&& command.attributes == Some(attributes)
            &&& command.command_type == CommandType::RecordMarker <==> attributes is
                RecordMarkerCommandAttributes
            &&& command.writes(data) <==> attributes.writes(data)
        }),
{
}

/// Which envelope a command writes: the one in its details, where it records a marker of the
/// external stream name, and none otherwise.
pub proof fn law_which_envelope_a_command_writes(command: Command, data: MarkerModel)
    ensures
        command.written_marker() == Some(data) <==> (command.attributes matches Some(
            CommandAttributes::RecordMarkerCommandAttributes(a),
        ) && a.marker_name@ == "core_external_stream"@ && (a.details matches Some(d) && d@ == data)),
{
}

/// Which envelope an event holds: the one in its details, where it is a recorded marker of the
/// external stream name, and none otherwise.
pub proof fn law_which_envelope_an_event_holds(event: HistoryEvent, data: MarkerModel)
    ensures
        event.stream_marker() == Some(data) <==> event.event_type == EventType::MarkerRecorded && (
        event.attributes matches Some(HistoryEventAttributes::MarkerRecordedEventAttributes(a))
            && a.marker_name@ == "core_external_stream"@ && (a.details matches Some(d) && d@
            == data)),
{
}

/// The markers that commands write are those that their parts write, one after the other; one
/// command writes one if it holds an external stream envelope, shown by that envelope's
/// generation, boundary and annotation, and none otherwise.
pub proof fn law_which_markers_are_written(a: Seq<Command>, b: Seq<Command>, command: Command)
    ensures
        markers_written(a + b) == markers_written(a) + markers_written(b),
        command.written_marker() matches Some(m) ==> markers_written(seq![command]) == seq![
            (m.quiescence_generation, m.terminal_boundary, m.replay_annotation),
        ],
        command.written_marker() is None ==> markers_written(seq![command]).len() == 0,
    decreases b.len(),
{
    assert(seq![command].drop_last() =~= Seq::empty());
    assert(markers_written(seq![command].drop_last()).len() == 0);
    assert(seq![command].last() == command);
    assert(command.written_marker() matches Some(m) ==> markers_written(seq![command]) =~= seq![
        (m.quiescence_generation, m.terminal_boundary, m.replay_annotation),
    ]);
    if b.len() == 0 {
        assert(a + b =~= a);
        assert(markers_written(a) + markers_written(b) =~= markers_written(a));
    } else {
        law_which_markers_are_written(a, b.drop_last(), command);
        assert((a + b).drop_last() =~= a + b.drop_last());
        assert((a + b).last() == b.last());
        assert(markers_written(a + b) =~= markers_written(a) + markers_written(b));
    }
}

} // verus!
