//! What holds of marker machines across their events.

use vstd::prelude::*;
use vstd::std_specs::convert::TryFromSpec;
use crate::machine::{
    fails, mismatch, succeeds, Created, EventModel, ExternalStreamCommand,
    ExternalStreamMachineEvents, ExternalStreamMachineState, HistEventData, MachineModel,
    MarkerCommandCreated, Replaying,
    ResolvedFromMarkerLookAheadWaitingMarkerEvent, ResultNotified, Step, TransitionResult,
    WFMachinesError,
};
use crate::marker::{
    envelope_model, markers_written, Command, CommandAttributes, CommandType, EventType,
    HistoryEvent, HistoryEventAttributes, MarkerModel, ParkReason,
};
use crate::text::decimal_chars;

verus! {

impl MachineModel {
    /// A machine about to write `data`.
    pub open spec fn live(data: MarkerModel) -> Self {
        MachineModel { state: Some(ExternalStreamMachineState::Created(Created {  })), data }
    }

    /// A machine for a marker found by lookahead.
    pub open spec fn replaying(data: MarkerModel) -> Self {
        MachineModel { state: Some(ExternalStreamMachineState::Replaying(Replaying {  })), data }
    }

    /// The machine after a sequence of events.
    pub open spec fn run(self, events: Seq<EventModel>) -> Self
        decreases events.len(),
    {
        if events.len() == 0 {
            self
        } else {
            self.run(events.drop_last()).after(events.last())
        }
    }

    /// How often the machine asks for its marker to be written, over a sequence of events.
    pub open spec fn times_written(self, events: Seq<EventModel>) -> nat
        decreases events.len(),
    {
        if events.len() == 0 {
            0
        } else {
            self.times_written(events.drop_last()) + match self.run(events.drop_last()).step(
                events.last(),
            ) {
                Step::Moves { issued, .. } => issued.to_multiset().count(
                    ExternalStreamCommand::RecordMarker,
                ),
                _ => 0,
            }
        }
    }

    pub open spec fn is_created(self) -> bool {
        self.state matches Some(ExternalStreamMachineState::Created(_))
    }

    /// The machine's marker was matched by its event in History.
    pub open spec fn is_settled(self) -> bool {
        self.state matches Some(ExternalStreamMachineState::MarkerCommandRecorded(_))
    }
}

/// The live path: the marker is asked for once, its command is consumed, and then the event in
/// History settles the machine exactly if it closes the same snapshot with the same output.
pub proof fn law_the_live_path(data: MarkerModel, found: MarkerModel)
    ensures
        ({
            let created = MachineModel::live(data);
            let emitted = created.after(EventModel::Emit);
            let notified = emitted.after(EventModel::CommandRecordMarker);
            &&& created.step(EventModel::Emit) matches Step::Moves { issued, .. } && issued
                == seq![ExternalStreamCommand::RecordMarker]
            &&& emitted == data_in(
                data,
                ExternalStreamMachineState::MarkerCommandCreated(MarkerCommandCreated {  }),
            )
            &&& emitted.step(EventModel::CommandRecordMarker) matches Step::Moves { issued, .. }
                && issued == Seq::<ExternalStreamCommand>::empty()
            &&& notified == data_in(
                data,
                ExternalStreamMachineState::ResultNotified(ResultNotified {  }),
            )
            &&& notified.special_handling() == Some(false)
            &&& notified.after(EventModel::MarkerRecorded(found)).is_settled() <==> mismatch(
                data,
                found,
            ) is None
        }),
{
}

/// The replay path: nothing is written, and the event in History settles the machine exactly if it
/// closes the snapshot that lookahead found, with the same output.
pub proof fn law_the_replay_path(data: MarkerModel, known: MarkerModel, found: MarkerModel)
    ensures
        ({
            let created = MachineModel::replaying(data);
            let waiting = created.after(EventModel::Emit);
            let resolved = waiting.after(EventModel::HandleKnownResult(known));
            &&& created.step(EventModel::Emit) matches Step::Moves { issued, .. } && issued
                == seq![ExternalStreamCommand::AlreadyRecorded]
            &&& waiting.step(EventModel::HandleKnownResult(known)) matches Step::Moves {
                issued,
                ..
            } && issued == Seq::<ExternalStreamCommand>::empty()
            &&& resolved == data_in(
                known,
                ExternalStreamMachineState::ResolvedFromMarkerLookAheadWaitingMarkerEvent(
                    ResolvedFromMarkerLookAheadWaitingMarkerEvent {  },
                ),
            )
            &&& resolved.special_handling() == Some(true)
            &&& resolved.after(EventModel::MarkerRecorded(found)).is_settled() <==> mismatch(
                known,
                found,
            ) is None
        }),
{
}

/// A machine in `state` that holds `data`.
pub open spec fn data_in(data: MarkerModel, state: ExternalStreamMachineState) -> MachineModel {
    MachineModel { state: Some(state), data }
}

/// A marker matches its machine exactly if it closes the same snapshot and carries the same output
/// manifest. Nothing else in it is looked at: other annotations, waits or boundaries on either
/// side bring the same verdict, with the same message.
pub proof fn law_only_the_generation_and_the_output_are_compared(
    expected: MarkerModel,
    found: MarkerModel,
    other_expected: MarkerModel,
    other_found: MarkerModel,
)
    requires
        other_expected.quiescence_generation == expected.quiescence_generation,
        other_expected.output == expected.output,
        other_found.quiescence_generation == found.quiescence_generation,
        other_found.output == found.output,
    ensures
        mismatch(expected, found) is None <==> (found.quiescence_generation
            == expected.quiescence_generation && found.output == expected.output),
        mismatch(other_expected, other_found) == mismatch(expected, found),
{
}

/// A marker always matches itself.
pub proof fn law_a_marker_matches_itself(data: MarkerModel)
    ensures
        mismatch(data, data) is None,
{
}

/// What a machine writes, it recognizes: an event in History that bears the written marker's name
/// and details is read back as the same envelope, and settles the machine that wrote it.
pub proof fn law_a_written_marker_is_read_back(
    data: MarkerModel,
    written: CommandAttributes,
    event: HistoryEvent,
)
    requires
        written.writes(data),
        event.event_type == EventType::MarkerRecorded,
        event.attributes matches Some(HistoryEventAttributes::MarkerRecordedEventAttributes(e))
            && written matches CommandAttributes::RecordMarkerCommandAttributes(c)
            && e.marker_name@ == c.marker_name@ && envelope_model(e.details) == envelope_model(
            c.details,
        ),
    ensures
        event.stream_marker() == Some(data),
        MachineModel::live(data).after(EventModel::Emit).after(
            EventModel::CommandRecordMarker,
        ).after(EventModel::MarkerRecorded(event.stream_marker()->0)).is_settled(),
        MachineModel::replaying(data).after(EventModel::Emit).after(
            EventModel::HandleKnownResult(event.stream_marker()->0),
        ).after(EventModel::MarkerRecorded(event.stream_marker()->0)).is_settled(),
{
    law_the_live_path(data, data);
    law_the_replay_path(data, data, data);
}

/// A completion in which one command writes a marker, and no other does, has that one marker.
pub proof fn law_one_written_marker_is_found(
    before: Seq<Command>,
    written: Command,
    after: Seq<Command>,
    data: MarkerModel,
)
    requires
        written.writes(data),
        forall|i: int| 0 <= i < before.len() ==> (#[trigger] before[i]).written_marker() is None,
        forall|i: int| 0 <= i < after.len() ==> (#[trigger] after[i]).written_marker() is None,
    ensures
        markers_written(before.push(written) + after) == seq![
            (data.quiescence_generation, data.terminal_boundary, data.replay_annotation),
        ],
    decreases after.len(),
{
    if after.len() > 0 {
        let rest = after.drop_last();
        let all = before.push(written) + after;
        assert(all.drop_last() =~= before.push(written) + rest);
        assert(all.last() == after[after.len() - 1]);
        assert forall|i: int| 0 <= i < rest.len() implies (#[trigger] rest[i]).written_marker()
            is None by {
            assert(rest[i] == after[i]);
        }
        law_one_written_marker_is_found(before, written, rest, data);
    } else {
        let all = before.push(written) + after;
        assert(all =~= before.push(written));
        assert(all.drop_last() =~= before);
        lemma_no_marker_written(before);
        assert(markers_written(all) =~= seq![
            (data.quiescence_generation, data.terminal_boundary, data.replay_annotation),
        ]);
    }
}

proof fn lemma_no_marker_written(commands: Seq<Command>)
    requires
        forall|i: int|
            0 <= i < commands.len() ==> (#[trigger] commands[i]).written_marker() is None,
    ensures
        markers_written(commands) == Seq::<(u64, ParkReason, Seq<u8>)>::empty(),
    decreases commands.len(),
{
    if commands.len() > 0 {
        let rest = commands.drop_last();
        assert(commands.last() == commands[commands.len() - 1]);
        assert forall|i: int| 0 <= i < rest.len() implies (#[trigger] rest[i]).written_marker()
            is None by {
            assert(rest[i] == commands[i]);
        }
        lemma_no_marker_written(rest);
    }
}

/// However many events it is handed, and in whatever order, a live machine asks for its marker to
/// be written at most once, and does so exactly once if the first event is `Emit`.
pub proof fn law_a_marker_is_written_once(data: MarkerModel, events: Seq<EventModel>)
    ensures
        MachineModel::live(data).times_written(events) <= 1,
        events.len() > 0 && events[0] == EventModel::Emit ==> MachineModel::live(
            data,
        ).times_written(events) == 1,
{
    lemma_live_progress(data, events);
}

/// A machine on the replay path never asks for a marker to be written.
pub proof fn law_replay_writes_nothing(data: MarkerModel, events: Seq<EventModel>)
    ensures
        MachineModel::replaying(data).times_written(events) == 0,
        !MachineModel::replaying(data).run(events).is_created(),
    decreases events.len(),
{
    if events.len() > 0 {
        law_replay_writes_nothing(data, events.drop_last());
        lemma_issued(MachineModel::replaying(data).run(events.drop_last()), events.last());
    }
}

/// A machine is settled for good, and a machine that failed has failed for good: neither takes any
/// further event.
pub proof fn law_settled_and_failed_machines_take_no_event(m: MachineModel, event: EventModel)
    requires
        m.is_settled() || m.state is None,
    ensures
        m.step(event) is Invalid,
        m.after(event).state is None,
{
}

/// The envelope a live machine writes is the one it reconciles against: no event of the live path
/// replaces it.
pub proof fn law_a_live_machine_keeps_its_envelope(data: MarkerModel, events: Seq<EventModel>)
    ensures
        MachineModel::live(data).run(events).data == data,
{
    lemma_live_progress(data, events);
}

/// Which events a machine takes: `Emit` where it starts, `CommandRecordMarker` once its marker is
/// asked for, `HandleKnownResult` where lookahead is awaited, and `MarkerRecorded` where that event
/// is awaited. Of those only the last can disagree with History, and it does exactly if the
/// generation or the output differs. An event that is not taken, or that disagrees, leaves the
/// machine without a state.
pub proof fn law_which_events_a_machine_takes(m: MachineModel, event: EventModel)
    ensures
        ({
            let starts = m.state is Some && (m.state->0 is Created || m.state->0 is Replaying);
            let asked = m.state is Some && m.state->0 is MarkerCommandCreated;
            let looking = m.state is Some && m.state->0 is WaitingResolveFromMarkerLookAhead;
            let awaiting = m.state is Some && (m.state->0 is ResultNotified || m.state->0 is
                ResolvedFromMarkerLookAheadWaitingMarkerEvent);
            let disagrees = awaiting && (event matches EventModel::MarkerRecorded(found) && (
            found.quiescence_generation != m.data.quiescence_generation || found.output
                != m.data.output));
            &&& m.step(event) is Invalid <==> !(starts && event is Emit) && !(asked
                && event is CommandRecordMarker) && !(looking && event is HandleKnownResult) && !(
            awaiting && event is MarkerRecorded)
            &&& m.step(event) is Disagrees <==> disagrees
            &&& m.after(event).state is Some <==> m.step(event) is Moves
            &&& m.after(event).data == if looking && event is HandleKnownResult {
                event->HandleKnownResult_0
            } else {
                m.data
            }
        }),
{
}

/// Where an event that a machine takes leads, and what is asked for on the way: only starting live
/// asks for a marker, only starting on replay reports one as written, and nothing else is ever
/// asked for. The envelope is replaced by lookahead alone.
pub proof fn law_where_an_event_leads(m: MachineModel, event: EventModel)
    requires
        m.step(event) is Moves,
    ensures
        ({
            let from = m.state->0;
            let issued = m.step(event)->issued;
            let next = m.step(event)->next;
            &&& next == m.after(event)
            &&& m.state is Some && next.state is Some
            &&& next.state->0 is MarkerCommandCreated <==> from is Created
            &&& next.state->0 is ResultNotified <==> from is MarkerCommandCreated
            &&& next.state->0 is WaitingResolveFromMarkerLookAhead <==> from is Replaying
            &&& next.state->0 is ResolvedFromMarkerLookAheadWaitingMarkerEvent <==> from is
                WaitingResolveFromMarkerLookAhead
            &&& next.state->0 is MarkerCommandRecorded <==> event is MarkerRecorded
            &&& from is Created ==> issued == seq![ExternalStreamCommand::RecordMarker]
            &&& from is Replaying ==> issued == seq![ExternalStreamCommand::AlreadyRecorded]
            &&& !(event is Emit) ==> issued.len() == 0
            &&& event matches EventModel::HandleKnownResult(known) ==> next.data == known
            &&& !(event is HandleKnownResult) ==> next.data == m.data
        }),
{
}

/// What a marker that does not match is answered: a different generation with both of them, the
/// one found first, and otherwise a different output with that.
pub proof fn law_what_a_mismatch_says(expected: MarkerModel, found: MarkerModel)
    ensures
        found.quiescence_generation != expected.quiescence_generation ==> mismatch(expected, found)
            == Some(
            "External stream marker in history closes quiescence generation "@ + decimal_chars(
                found.quiescence_generation as nat,
            ) + " but the machine expecting it closes "@ + decimal_chars(
                expected.quiescence_generation as nat,
            ),
        ),
        found.quiescence_generation == expected.quiescence_generation && found.output
            != expected.output ==> mismatch(expected, found) == Some(
            "External stream marker in history carries a different external output manifest than the machine expecting it"@,
        ),
{
}

/// The machine reports a disagreement with the mismatch between its own envelope and the one found.
pub proof fn law_a_disagreement_says_the_mismatch(m: MachineModel, found: MarkerModel)
    ensures
        m.step(EventModel::MarkerRecorded(found)) matches Step::Disagrees(text) ==> mismatch(
            m.data,
            found,
        ) == Some(text),
{
}

/// Whether a machine's event bypasses command matching can be asked exactly where `MarkerRecorded`
/// is awaited, and it does so exactly where the machine came from lookahead.
pub proof fn law_when_handling_is_special(m: MachineModel, found: MarkerModel)
    ensures
        m.special_handling() is Some <==> !(m.step(EventModel::MarkerRecorded(found)) is Invalid),
        m.special_handling() == Some(true) <==> m.state is Some && m.state->0 is
            ResolvedFromMarkerLookAheadWaitingMarkerEvent,
        m.special_handling() == Some(false) <==> m.state is Some && m.state->0 is ResultNotified,
{
}

/// A History event is one for the machine exactly if it holds an external stream envelope; one of
/// another type and a marker of another kind are each refused in their own words.
pub proof fn law_which_history_events_are_refused(e: HistEventData)
    ensures
        e.refusal() is None <==> e.event.event_type == EventType::MarkerRecorded && (
        e.event.attributes matches Some(HistoryEventAttributes::MarkerRecordedEventAttributes(a))
            && a.marker_name@ == "core_external_stream"@ && a.details is Some),
        e.event.event_type != EventType::MarkerRecorded ==> e.refusal() == Some(
            "External stream machine cannot handle this event: "@ + e.event.display@,
        ),
        e.event.event_type == EventType::MarkerRecorded && e.refusal() is Some ==> e.refusal()
            == Some(
            "Marker recorded event "@ + e.event.display@ + " is not an external stream marker"@,
        ),
{
}

/// Of the commands only one that records a marker is an event for the machine.
pub proof fn law_which_commands_are_events(c: CommandType)
    ensures
        <ExternalStreamMachineEvents as TryFromSpec<CommandType>>::obeys_try_from_spec(),
        <ExternalStreamMachineEvents as TryFromSpec<CommandType>>::try_from_spec(c) is Ok <==> c
            == CommandType::RecordMarker,
        <ExternalStreamMachineEvents as TryFromSpec<CommandType>>::try_from_spec(c) matches Ok(e)
            ==> e is CommandRecordMarker,
{
}

/// An event's model is of the event's own kind, and holds its envelope.
pub proof fn law_what_an_event_holds(event: ExternalStreamMachineEvents)
    ensures
        event is Emit <==> event@ is Emit,
        event is CommandRecordMarker <==> event@ is CommandRecordMarker,
        event is MarkerRecorded <==> event@ is MarkerRecorded,
        event is HandleKnownResult <==> event@ is HandleKnownResult,
        event matches ExternalStreamMachineEvents::MarkerRecorded(d) ==> event@
            == EventModel::MarkerRecorded(d@),
        event matches ExternalStreamMachineEvents::HandleKnownResult(d) ==> event@
            == EventModel::HandleKnownResult(d@),
{
}

/// A transition succeeds with what it asks for or fails with a message, and never both.
pub proof fn law_a_transition_succeeds_or_fails<S>(
    res: TransitionResult<S>,
    issued: Seq<ExternalStreamCommand>,
    text: Seq<char>,
)
    ensures
        succeeds(res, issued) <==> (res matches Ok(t) && t.commands@ == issued),
        fails(res, text) <==> (res matches Err(WFMachinesError::Nondeterminism(m)) && m@ == text),
        !(succeeds(res, issued) && fails(res, text)),
{
}

/// States are shown by their names, and each by its own.
pub proof fn law_states_are_shown_apart(
    a: ExternalStreamMachineState,
    b: ExternalStreamMachineState,
)
    ensures
        a.shown() == b.shown() <==> a == b,
        a is Created ==> a.shown() == "Created"@,
        a is Replaying ==> a.shown() == "Replaying"@,
        a is MarkerCommandCreated ==> a.shown() == "MarkerCommandCreated"@,
        a is ResultNotified ==> a.shown() == "ResultNotified"@,
        a is WaitingResolveFromMarkerLookAhead ==> a.shown()
            == "WaitingResolveFromMarkerLookAhead"@,
        a is ResolvedFromMarkerLookAheadWaitingMarkerEvent ==> a.shown()
            == "ResolvedFromMarkerLookAheadWaitingMarkerEvent"@,
        a is MarkerCommandRecorded ==> a.shown() == "MarkerCommandRecorded"@,
{
    reveal_strlit("Created");
    reveal_strlit("Replaying");
    reveal_strlit("MarkerCommandCreated");
    reveal_strlit("ResultNotified");
    reveal_strlit("WaitingResolveFromMarkerLookAhead");
    reveal_strlit("ResolvedFromMarkerLookAheadWaitingMarkerEvent");
    reveal_strlit("MarkerCommandRecorded");
    assert("Created"@.len() == 7);
    assert("Replaying"@.len() == 9);
    assert("MarkerCommandCreated"@.len() == 20);
    assert("ResultNotified"@.len() == 14);
    assert("WaitingResolveFromMarkerLookAhead"@.len() == 33);
    assert("ResolvedFromMarkerLookAheadWaitingMarkerEvent"@.len() == 45);
    assert("MarkerCommandRecorded"@.len() == 21);
}

/// Commands are shown by their names, and each by its own.
pub proof fn law_commands_are_shown_apart(a: ExternalStreamCommand, b: ExternalStreamCommand)
    ensures
        a.shown() == b.shown() <==> a == b,
        a is RecordMarker ==> a.shown() == "RecordMarker"@,
        a is AlreadyRecorded ==> a.shown() == "AlreadyRecorded"@,
{
    reveal_strlit("RecordMarker");
    reveal_strlit("AlreadyRecorded");
    assert("RecordMarker"@.len() == 12);
    assert("AlreadyRecorded"@.len() == 15);
}

/// The states a live machine can be in.
spec fn on_live_path(m: MachineModel) -> bool {
    match m.state {
        None => true,
        Some(ExternalStreamMachineState::Created(_)) => true,
        Some(ExternalStreamMachineState::MarkerCommandCreated(_)) => true,
        Some(ExternalStreamMachineState::ResultNotified(_)) => true,
        Some(ExternalStreamMachineState::MarkerCommandRecorded(_)) => true,
        _ => false,
    }
}

proof fn lemma_live_progress(data: MarkerModel, events: Seq<EventModel>)
    ensures
        ({
            let m = MachineModel::live(data);
            &&& on_live_path(m.run(events))
            &&& m.run(events).data == data
            &&& m.run(events).is_created() <==> events.len() == 0
            &&& m.times_written(events) <= 1
            &&& events.len() == 0 ==> m.times_written(events) == 0
            &&& events.len() > 0 && events[0] == EventModel::Emit ==> m.times_written(events) == 1
        }),
    decreases events.len(),
{
    if events.len() > 0 {
        let rest = events.drop_last();
        lemma_live_progress(data, rest);
        lemma_issued(MachineModel::live(data).run(rest), events.last());
        if rest.len() > 0 {
            assert(rest[0] == events[0]);
        }
    }
}

/// Only `Emit` on a machine in `Created` asks for a marker to be written, and it asks once.
proof fn lemma_issued(m: MachineModel, event: EventModel)
    ensures
        m.step(event) matches Step::Moves { issued, .. } ==> issued.to_multiset().count(
            ExternalStreamCommand::RecordMarker,
        ) == if m.is_created() && event == EventModel::Emit {
            1nat
        } else {
            0nat
        },
        !m.after(event).is_created(),
{
    broadcast use vstd::seq_lib::group_to_multiset_ensures;

    let none = Seq::<ExternalStreamCommand>::empty();
    assert(none.to_multiset().len() == 0);
    assert(!none.contains(ExternalStreamCommand::RecordMarker));
    let write = none.push(ExternalStreamCommand::RecordMarker);
    let skip = none.push(ExternalStreamCommand::AlreadyRecorded);
    assert(write =~= seq![ExternalStreamCommand::RecordMarker]);
    assert(skip =~= seq![ExternalStreamCommand::AlreadyRecorded]);
    assert(write.to_multiset() == none.to_multiset().insert(ExternalStreamCommand::RecordMarker));
    assert(skip.to_multiset() == none.to_multiset().insert(ExternalStreamCommand::AlreadyRecorded));
    assert(none.to_multiset().count(ExternalStreamCommand::RecordMarker) == 0);
}

} // verus!
