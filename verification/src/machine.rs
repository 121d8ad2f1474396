//! The External Workflow Stream marker machine.
//!
//! A marker written live must be *matched* by the `MarkerRecorded` event on replay, and on replay
//! the marker must be found by lookahead before the thing that depends on it is resolved.
//!
//! **Exactly one machine per Workflow Task**, however many progress reports that task carried.
//! Accumulating the annotation is the wait set's job, since it is what receives the deltas; this
//! machine only turns one accumulated annotation into one `RecordMarker` command and then
//! reconciles it against History.
//!
//! The two paths are created by different callers and never by the same one: the live marker comes
//! from a completion that reached a boundary, and the replay marker comes from lookahead, which is
//! the only thing that can find a marker *before* the wait set it closes is resolved.
//!
//! Live path: `Created`, by `Emit` to `MarkerCommandCreated`, by `CommandRecordMarker` to
//! `ResultNotified`, by `MarkerRecorded` to `MarkerCommandRecorded`.
//!
//! Replay path: `Replaying`, by `Emit` to `WaitingResolveFromMarkerLookAhead`, by
//! `HandleKnownResult` to `ResolvedFromMarkerLookAheadWaitingMarkerEvent`, by `MarkerRecorded` to
//! `MarkerCommandRecorded`.

use vstd::prelude::*;
use crate::marker::{
    extract_stream_marker, marker_command, Command, CommandAttributes, CommandType, EventType,
    ExternalStreamMarkerData, HistoryEvent, MarkerModel,
};
use crate::text::{decimal, decimal_chars};

verus! {

/// Why a machine could not go on.
#[derive(Debug)]
pub enum WFMachinesError {
    /// History disagrees with what the Workflow did.
    Nondeterminism(String),
    /// A caller used the machine in a way it cannot have meant.
    Fatal(String),
}

/// A state's move on an event it takes: what it asks for, and where the machine goes.
#[derive(Debug)]
pub struct Transition<S> {
    pub commands: Vec<ExternalStreamCommand>,
    pub new_state: S,
}

/// What a state does with an event it takes.
pub type TransitionResult<S> = Result<Transition<S>, WFMachinesError>;

/// The transition succeeds with these commands.
pub open spec fn succeeds<S>(res: TransitionResult<S>, issued: Seq<ExternalStreamCommand>) -> bool {
    res matches Ok(t) && t.commands@ == issued
}

/// The transition fails as nondeterminism, with this message.
pub open spec fn fails<S>(res: TransitionResult<S>, text: Seq<char>) -> bool {
    res matches Err(WFMachinesError::Nondeterminism(m)) && m@ == text
}

/// What the machine asks for.
#[derive(Debug, Clone, Copy, PartialEq, Eq, Structural)]
pub enum ExternalStreamCommand {
    /// Write the marker to History.
    RecordMarker,
    /// The marker already exists in History; nothing to write.
    AlreadyRecorded,
}

impl ExternalStreamCommand {
    /// How the command is shown in messages.
    pub open spec fn shown(self) -> Seq<char> {
        match self {
            ExternalStreamCommand::RecordMarker => "RecordMarker"@,
            ExternalStreamCommand::AlreadyRecorded => "AlreadyRecorded"@,
        }
    }

    pub fn name(&self) -> (res: &'static str)
        ensures
            res@ == self.shown(),
    {
        match self {
            ExternalStreamCommand::RecordMarker => "RecordMarker",
            ExternalStreamCommand::AlreadyRecorded => "AlreadyRecorded",
        }
    }
}

/// What a machine keeps across its states.
#[derive(Debug)]
pub struct SharedState {
    /// The envelope this machine will write, or did write.
    ///
    /// Held rather than rebuilt so the command and the later reconciliation are provably the same
    /// data: the annotation is opaque, so there is no way to notice a discrepancy otherwise.
    pub data: ExternalStreamMarkerData,
}

impl Clone for SharedState {
    fn clone(&self) -> (res: Self)
        ensures
            res.data@ == self.data@,
    {
        SharedState { data: self.data.clone() }
    }
}

#[derive(Debug, Default, Clone, Copy)]
pub struct Created {}

#[derive(Debug, Default, Clone, Copy)]
pub struct Replaying {}

#[derive(Debug, Default, Clone, Copy)]
pub struct MarkerCommandCreated {}

#[derive(Debug, Default, Clone, Copy)]
pub struct ResultNotified {}

#[derive(Debug, Default, Clone, Copy)]
pub struct WaitingResolveFromMarkerLookAhead {}

#[derive(Debug, Default, Clone, Copy)]
pub struct ResolvedFromMarkerLookAheadWaitingMarkerEvent {}

#[derive(Debug, Default, Clone, Copy)]
pub struct MarkerCommandRecorded {}

impl Created {
    pub fn on_emit(self, _state: &mut SharedState) -> (res: TransitionResult<MarkerCommandCreated>)
        ensures
            succeeds(res, seq![ExternalStreamCommand::RecordMarker]),
            *final(_state) == *old(_state),
    {
        let commands = vec![ExternalStreamCommand::RecordMarker];
        assert(commands@ =~= seq![ExternalStreamCommand::RecordMarker]);
        Ok(Transition { commands, new_state: MarkerCommandCreated {  } })
    }
}

impl Replaying {
    pub fn on_replay_emit(self, _state: &mut SharedState) -> (res: TransitionResult<
        WaitingResolveFromMarkerLookAhead,
    >)
        ensures
            succeeds(res, seq![ExternalStreamCommand::AlreadyRecorded]),
            *final(_state) == *old(_state),
    {
        // Nothing is written on replay: the marker is already in History, and writing it again
        // would produce a command mismatch against the very event it was derived from.
        let commands = vec![ExternalStreamCommand::AlreadyRecorded];
        assert(commands@ =~= seq![ExternalStreamCommand::AlreadyRecorded]);
        Ok(Transition { commands, new_state: WaitingResolveFromMarkerLookAhead {  } })
    }
}

impl MarkerCommandCreated {
    pub fn on_command_record_marker(self) -> (res: TransitionResult<ResultNotified>)
        ensures
            succeeds(res, Seq::empty()),
    {
        Ok(Transition { commands: Vec::new(), new_state: ResultNotified {  } })
    }
}

impl WaitingResolveFromMarkerLookAhead {
    pub fn on_handle_known_result(
        self,
        state: &mut SharedState,
        data: ExternalStreamMarkerData,
    ) -> (res: TransitionResult<ResolvedFromMarkerLookAheadWaitingMarkerEvent>)
        ensures
            succeeds(res, Seq::empty()),
            final(state).data == data,
    {
        state.data = data;
        Ok(Transition {
            commands: Vec::new(),
            new_state: ResolvedFromMarkerLookAheadWaitingMarkerEvent {  },
        })
    }
}

impl ResultNotified {
    pub fn on_marker_recorded(self, state: &mut SharedState, data: ExternalStreamMarkerData) -> (res:
        TransitionResult<MarkerCommandRecorded>)
        ensures
            match mismatch(old(state).data@, data@) {
                None => succeeds(res, Seq::empty()),
                Some(text) => fails(res, text),
            },
            *final(state) == *old(state),
    {
        verify_marker_matches(state, &data)
    }
}

impl ResolvedFromMarkerLookAheadWaitingMarkerEvent {
    pub fn on_marker_recorded(self, state: &mut SharedState, data: ExternalStreamMarkerData) -> (res:
        TransitionResult<MarkerCommandRecorded>)
        ensures
            match mismatch(old(state).data@, data@) {
                None => succeeds(res, Seq::empty()),
                Some(text) => fails(res, text),
            },
            *final(state) == *old(state),
    {
        verify_marker_matches(state, &data)
    }
}

/// What is wrong with `found` where `expected` should be, or `None` if they match.
pub open spec fn mismatch(expected: MarkerModel, found: MarkerModel) -> Option<Seq<char>> {
    if found.quiescence_generation != expected.quiescence_generation {
        Some(
            "External stream marker in history closes quiescence generation "@ + decimal_chars(
                found.quiescence_generation as nat,
            ) + " but the machine expecting it closes "@ + decimal_chars(
                expected.quiescence_generation as nat,
            ),
        )
    } else if found.output != expected.output {
        Some(
            "External stream marker in history carries a different external output manifest than the machine expecting it"@,
        )
    } else {
        None
    }
}

/// Rejects a marker that closes a different quiescent snapshot than this machine's.
///
/// The annotation cannot be checked, being opaque by design, so the quiescence generation and the
/// output manifest are all that *can* be checked, and checking them is what turns a reordered
/// marker into a nondeterminism error rather than a silently different stream result.
pub fn verify_marker_matches(state: &mut SharedState, data: &ExternalStreamMarkerData) -> (res:
    TransitionResult<MarkerCommandRecorded>)
    ensures
        match mismatch(old(state).data@, data@) {
            None => succeeds(res, Seq::empty()),
            Some(text) => fails(res, text),
        },
        *final(state) == *old(state),
{
    if data.quiescence_generation != state.data.quiescence_generation {
        let mut message =
            "External stream marker in history closes quiescence generation ".to_string();
        message.append(decimal(data.quiescence_generation).as_str());
        message.append(" but the machine expecting it closes ");
        message.append(decimal(state.data.quiescence_generation).as_str());
        return Err(WFMachinesError::Nondeterminism(message));
    }
    let same_output = match (&data.output, &state.data.output) {
        (Some(found), Some(expected)) => *found == *expected,
        (None, None) => true,
        _ => false,
    };
    if !same_output {
        return Err(
            WFMachinesError::Nondeterminism(
                "External stream marker in history carries a different external output manifest than the machine expecting it".to_string(),
            ),
        );
    }
    Ok(Transition { commands: Vec::new(), new_state: MarkerCommandRecorded {  } })
}

/// Where a machine is.
#[derive(Debug, Clone, Copy)]
pub enum ExternalStreamMachineState {
    Created(Created),
    Replaying(Replaying),
    MarkerCommandCreated(MarkerCommandCreated),
    ResultNotified(ResultNotified),
    WaitingResolveFromMarkerLookAhead(WaitingResolveFromMarkerLookAhead),
    ResolvedFromMarkerLookAheadWaitingMarkerEvent(ResolvedFromMarkerLookAheadWaitingMarkerEvent),
    MarkerCommandRecorded(MarkerCommandRecorded),
}

impl ExternalStreamMachineState {
    /// How the state is shown in messages.
    pub open spec fn shown(self) -> Seq<char> {
        match self {
            ExternalStreamMachineState::Created(_) => "Created"@,
            ExternalStreamMachineState::Replaying(_) => "Replaying"@,
            ExternalStreamMachineState::MarkerCommandCreated(_) => "MarkerCommandCreated"@,
            ExternalStreamMachineState::ResultNotified(_) => "ResultNotified"@,
            ExternalStreamMachineState::WaitingResolveFromMarkerLookAhead(_) =>
                "WaitingResolveFromMarkerLookAhead"@,
            ExternalStreamMachineState::ResolvedFromMarkerLookAheadWaitingMarkerEvent(_) =>
                "ResolvedFromMarkerLookAheadWaitingMarkerEvent"@,
            ExternalStreamMachineState::MarkerCommandRecorded(_) => "MarkerCommandRecorded"@,
        }
    }

    pub fn name(&self) -> (res: &'static str)
        ensures
            res@ == self.shown(),
    {
        match self {
            ExternalStreamMachineState::Created(_) => "Created",
            ExternalStreamMachineState::Replaying(_) => "Replaying",
            ExternalStreamMachineState::MarkerCommandCreated(_) => "MarkerCommandCreated",
            ExternalStreamMachineState::ResultNotified(_) => "ResultNotified",
            ExternalStreamMachineState::WaitingResolveFromMarkerLookAhead(_) =>
                "WaitingResolveFromMarkerLookAhead",
            ExternalStreamMachineState::ResolvedFromMarkerLookAheadWaitingMarkerEvent(_) =>
                "ResolvedFromMarkerLookAheadWaitingMarkerEvent",
            ExternalStreamMachineState::MarkerCommandRecorded(_) => "MarkerCommandRecorded",
        }
    }
}

/// What a machine is told.
#[derive(Debug)]
pub enum ExternalStreamMachineEvents {
    Emit,
    CommandRecordMarker,
    MarkerRecorded(ExternalStreamMarkerData),
    HandleKnownResult(ExternalStreamMarkerData),
}

/// An event's contents.
#[verifier::ext_equal]
pub enum EventModel {
    Emit,
    CommandRecordMarker,
    MarkerRecorded(MarkerModel),
    HandleKnownResult(MarkerModel),
}

impl View for ExternalStreamMachineEvents {
    type V = EventModel;

    open spec fn view(&self) -> EventModel {
        match self {
            ExternalStreamMachineEvents::Emit => EventModel::Emit,
            ExternalStreamMachineEvents::CommandRecordMarker => EventModel::CommandRecordMarker,
            ExternalStreamMachineEvents::MarkerRecorded(d) => EventModel::MarkerRecorded(d@),
            ExternalStreamMachineEvents::HandleKnownResult(d) => EventModel::HandleKnownResult(d@),
        }
    }
}

impl TryFrom<CommandType> for ExternalStreamMachineEvents {
    type Error = ();

    fn try_from(c: CommandType) -> (res: Result<Self, ()>) {
        match c {
            CommandType::RecordMarker => Ok(ExternalStreamMachineEvents::CommandRecordMarker),
            _ => Err(()),
        }
    }
}

impl vstd::std_specs::convert::TryFromSpecImpl<CommandType> for ExternalStreamMachineEvents {
    open spec fn obeys_try_from_spec() -> bool {
        true
    }

    open spec fn try_from_spec(c: CommandType) -> Result<Self, ()> {
        match c {
            CommandType::RecordMarker => Ok(ExternalStreamMachineEvents::CommandRecordMarker),
            _ => Err(()),
        }
    }
}

/// A History event on its way to a machine.
#[derive(Debug)]
pub struct HistEventData {
    pub event: HistoryEvent,
}

impl HistEventData {
    /// Why this event is not one for the marker machine, or `None` if it is.
    pub open spec fn refusal(self) -> Option<Seq<char>> {
        if self.event.event_type != EventType::MarkerRecorded {
            Some("External stream machine cannot handle this event: "@ + self.event.display@)
        } else if self.event.stream_marker() is None {
            Some(
                "Marker recorded event "@ + self.event.display@
                    + " is not an external stream marker"@,
            )
        } else {
            None
        }
    }
}

impl TryFrom<HistEventData> for ExternalStreamMachineEvents {
    type Error = WFMachinesError;

    fn try_from(e: HistEventData) -> (res: Result<Self, WFMachinesError>)
        ensures
            match e.refusal() {
                Some(text) => res matches Err(WFMachinesError::Nondeterminism(m)) && m@ == text,
                None => res matches Ok(event) && event@ == EventModel::MarkerRecorded(
                    e.event.stream_marker()->0,
                ),
            },
    {
        let e = e.event;
        if e.event_type != EventType::MarkerRecorded {
            let mut message = "External stream machine cannot handle this event: ".to_string();
            message.append(e.display.as_str());
            return Err(WFMachinesError::Nondeterminism(message));
        }
        match extract_stream_marker(&e) {
            Some(data) => Ok(ExternalStreamMachineEvents::MarkerRecorded(data)),
            None => {
                let mut message = "Marker recorded event ".to_string();
                message.append(e.display.as_str());
                message.append(" is not an external stream marker");
                Err(WFMachinesError::Nondeterminism(message))
            },
        }
    }
}

impl vstd::std_specs::convert::TryFromSpecImpl<HistEventData> for ExternalStreamMachineEvents {
    open spec fn obeys_try_from_spec() -> bool {
        false
    }

    open spec fn try_from_spec(e: HistEventData) -> Result<Self, WFMachinesError> {
        arbitrary()
    }
}

/// A machine's state and data.
#[verifier::ext_equal]
pub struct MachineModel {
    /// `None` once an event has failed.
    pub state: Option<ExternalStreamMachineState>,
    pub data: MarkerModel,
}

/// What one event does to a machine.
#[verifier::ext_equal]
pub enum Step {
    /// The machine moves on, asking for these commands.
    Moves { issued: Seq<ExternalStreamCommand>, next: MachineModel },
    /// The state does not take this event.
    Invalid,
    /// History disagrees, for this reason.
    Disagrees(Seq<char>),
}

impl MachineModel {
    /// The same data, in another state.
    pub open spec fn in_state(self, state: ExternalStreamMachineState) -> Self {
        MachineModel { state: Some(state), data: self.data }
    }

    /// What a `MarkerRecorded` event does where one is awaited.
    pub open spec fn reconciled(self, found: MarkerModel) -> Step {
        match mismatch(self.data, found) {
            None => Step::Moves {
                issued: Seq::empty(),
                next: self.in_state(
                    ExternalStreamMachineState::MarkerCommandRecorded(MarkerCommandRecorded {  }),
                ),
            },
            Some(text) => Step::Disagrees(text),
        }
    }

    /// The machine's transitions. Any pair of state and event not named here is invalid.
    pub open spec fn step(self, event: EventModel) -> Step {
        match (self.state, event) {
            (Some(ExternalStreamMachineState::Created(_)), EventModel::Emit) => Step::Moves {
                issued: seq![ExternalStreamCommand::RecordMarker],
                next: self.in_state(
                    ExternalStreamMachineState::MarkerCommandCreated(MarkerCommandCreated {  }),
                ),
            },
            (
                Some(ExternalStreamMachineState::MarkerCommandCreated(_)),
                EventModel::CommandRecordMarker,
            ) => Step::Moves {
                issued: Seq::empty(),
                next: self.in_state(
                    ExternalStreamMachineState::ResultNotified(ResultNotified {  }),
                ),
            },
            (
                Some(ExternalStreamMachineState::ResultNotified(_)),
                EventModel::MarkerRecorded(found),
            ) => self.reconciled(found),
            (Some(ExternalStreamMachineState::Replaying(_)), EventModel::Emit) => Step::Moves {
                issued: seq![ExternalStreamCommand::AlreadyRecorded],
                next: self.in_state(
                    ExternalStreamMachineState::WaitingResolveFromMarkerLookAhead(
                        WaitingResolveFromMarkerLookAhead {  },
                    ),
                ),
            },
            (
                Some(ExternalStreamMachineState::WaitingResolveFromMarkerLookAhead(_)),
                EventModel::HandleKnownResult(known),
            ) => Step::Moves {
                issued: Seq::empty(),
                next: MachineModel {
                    state: Some(
                        ExternalStreamMachineState::ResolvedFromMarkerLookAheadWaitingMarkerEvent(
                            ResolvedFromMarkerLookAheadWaitingMarkerEvent {  },
                        ),
                    ),
                    data: known,
                },
            },
            (
                Some(ExternalStreamMachineState::ResolvedFromMarkerLookAheadWaitingMarkerEvent(_)),
                EventModel::MarkerRecorded(found),
            ) => self.reconciled(found),
            _ => Step::Invalid,
        }
    }

    /// The machine after an event. A failed event leaves it without a state.
    pub open spec fn after(self, event: EventModel) -> Self {
        match self.step(event) {
            Step::Moves { next, .. } => next,
            _ => MachineModel { state: None, data: self.data },
        }
    }

    /// Whether the machine's `MarkerRecorded` event bypasses command matching; `None` where the
    /// question makes no sense.
    pub open spec fn special_handling(self) -> Option<bool> {
        match self.state {
            Some(ExternalStreamMachineState::ResultNotified(_)) => Some(false),
            Some(ExternalStreamMachineState::ResolvedFromMarkerLookAheadWaitingMarkerEvent(_)) =>
                Some(true),
            _ => None,
        }
    }
}

/// Why a machine did not take an event.
#[derive(Debug)]
pub enum MachineError {
    /// The machine's state does not take this event.
    InvalidTransition,
    /// The state took the event and failed.
    Underlying(WFMachinesError),
}

/// The marker machine of one Workflow Task.
#[derive(Debug)]
pub struct ExternalStreamMachine {
    state: Option<ExternalStreamMachineState>,
    shared_state: SharedState,
}

impl View for ExternalStreamMachine {
    type V = MachineModel;

    closed spec fn view(&self) -> MachineModel {
        MachineModel { state: self.state, data: self.shared_state.data@ }
    }
}

/// A machine, with the command that goes out for it.
#[derive(Debug)]
pub struct NewMachineWithCommand {
    pub command: CommandAttributes,
    pub machine: ExternalStreamMachine,
}

/// The History event a response answers.
#[derive(Debug, Clone, Copy)]
pub struct EventInfo {
    pub event_id: i64,
    pub event_type: EventType,
}

/// What a machine's command comes to.
#[derive(Debug)]
pub enum MachineResponse {
    IssueNewCommand(Command),
}

impl ExternalStreamMachine {
    /// A machine that **writes** one Workflow Task's marker.
    ///
    /// The live path only. A machine created here issues the `RecordMarker` command and then
    /// reconciles it against the `MarkerRecorded` event the server writes back.
    pub fn record_marker(data: ExternalStreamMarkerData) -> (res: NewMachineWithCommand)
        ensures
            res.command.writes(data@),
            res.machine@ == (MachineModel {
                state: Some(
                    ExternalStreamMachineState::MarkerCommandCreated(MarkerCommandCreated {  }),
                ),
                data: data@,
            }),
    {
        let mut machine = ExternalStreamMachine {
            state: Some(ExternalStreamMachineState::Created(Created {  })),
            shared_state: SharedState { data: data.clone() },
        };
        // `Emit` is always valid from the initial state.
        let _ = machine.on_event_mut(ExternalStreamMachineEvents::Emit);
        NewMachineWithCommand { command: marker_command(&data), machine }
    }

    /// A machine for a marker that lookahead found ahead of the wait set it closes.
    ///
    /// Nothing is written: the marker is already in History, and issuing a command for it would
    /// produce a mismatch against the very event it was read from. The machine exists only so that
    /// event, when History reaches it, has something to be matched by, which is what turns an
    /// unexpected marker into a nondeterminism error rather than a silent skip.
    pub fn resolved_from_marker_lookahead(data: ExternalStreamMarkerData) -> (res: Self)
        ensures
            res@ == (MachineModel {
                state: Some(
                    ExternalStreamMachineState::ResolvedFromMarkerLookAheadWaitingMarkerEvent(
                        ResolvedFromMarkerLookAheadWaitingMarkerEvent {  },
                    ),
                ),
                data: data@,
            }),
    {
        let mut machine = ExternalStreamMachine {
            state: Some(ExternalStreamMachineState::Replaying(Replaying {  })),
            shared_state: SharedState { data: data.clone() },
        };
        // `Emit` is always valid from the initial state, and a looked-ahead marker always resolves
        // the machine created for it.
        let _ = machine.on_event_mut(ExternalStreamMachineEvents::Emit);
        let _ = machine.on_event_mut(ExternalStreamMachineEvents::HandleKnownResult(data));
        machine
    }

    /// Hands the machine an event. On success it returns what the machine asks for; a failed
    /// event leaves the machine without a state, so that it takes no further event.
    pub fn on_event_mut(&mut self, event: ExternalStreamMachineEvents) -> (res: Result<
        Vec<ExternalStreamCommand>,
        MachineError,
    >)
        ensures
            match old(self)@.step(event@) {
                Step::Moves { issued, .. } => res matches Ok(commands) && commands@ == issued,
                Step::Invalid => res == Err::<Vec<ExternalStreamCommand>, MachineError>(
                    MachineError::InvalidTransition,
                ),
                Step::Disagrees(text) => res matches Err(
                    MachineError::Underlying(WFMachinesError::Nondeterminism(m)),
                ) && m@ == text,
            },
            final(self)@ == old(self)@.after(event@),
    {
        let state = match self.state.take() {
            Some(state) => state,
            None => return Err(MachineError::InvalidTransition),
        };
        match (state, event) {
            (ExternalStreamMachineState::Created(s), ExternalStreamMachineEvents::Emit) => {
                match s.on_emit(&mut self.shared_state) {
                    Ok(t) => {
                        self.state = Some(
                            ExternalStreamMachineState::MarkerCommandCreated(t.new_state),
                        );
                        Ok(t.commands)
                    },
                    Err(e) => Err(MachineError::Underlying(e)),
                }
            },
            (
                ExternalStreamMachineState::MarkerCommandCreated(s),
                ExternalStreamMachineEvents::CommandRecordMarker,
            ) => {
                match s.on_command_record_marker() {
                    Ok(t) => {
                        self.state = Some(ExternalStreamMachineState::ResultNotified(t.new_state));
                        Ok(t.commands)
                    },
                    Err(e) => Err(MachineError::Underlying(e)),
                }
            },
            (
                ExternalStreamMachineState::ResultNotified(s),
                ExternalStreamMachineEvents::MarkerRecorded(data),
            ) => {
                match s.on_marker_recorded(&mut self.shared_state, data) {
                    Ok(t) => {
                        self.state = Some(
                            ExternalStreamMachineState::MarkerCommandRecorded(t.new_state),
                        );
                        Ok(t.commands)
                    },
                    Err(e) => Err(MachineError::Underlying(e)),
                }
            },
            (ExternalStreamMachineState::Replaying(s), ExternalStreamMachineEvents::Emit) => {
                match s.on_replay_emit(&mut self.shared_state) {
                    Ok(t) => {
                        self.state = Some(
                            ExternalStreamMachineState::WaitingResolveFromMarkerLookAhead(
                                t.new_state,
                            ),
                        );
                        Ok(t.commands)
                    },
                    Err(e) => Err(MachineError::Underlying(e)),
                }
            },
            (
                ExternalStreamMachineState::WaitingResolveFromMarkerLookAhead(s),
                ExternalStreamMachineEvents::HandleKnownResult(data),
            ) => {
                match s.on_handle_known_result(&mut self.shared_state, data) {
                    Ok(t) => {
                        self.state = Some(
                            ExternalStreamMachineState::ResolvedFromMarkerLookAheadWaitingMarkerEvent(
                                t.new_state,
                            ),
                        );
                        Ok(t.commands)
                    },
                    Err(e) => Err(MachineError::Underlying(e)),
                }
            },
            (
                ExternalStreamMachineState::ResolvedFromMarkerLookAheadWaitingMarkerEvent(s),
                ExternalStreamMachineEvents::MarkerRecorded(data),
            ) => {
                match s.on_marker_recorded(&mut self.shared_state, data) {
                    Ok(t) => {
                        self.state = Some(
                            ExternalStreamMachineState::MarkerCommandRecorded(t.new_state),
                        );
                        Ok(t.commands)
                    },
                    Err(e) => Err(MachineError::Underlying(e)),
                }
            },
            _ => Err(MachineError::InvalidTransition),
        }
    }

    /// Where the machine is.
    pub fn state(&self) -> (res: &ExternalStreamMachineState)
        requires
            self@.state is Some,
        ensures
            Some(*res) == self@.state,
    {
        self.state.as_ref().unwrap()
    }

    /// Whether the `MarkerRecorded` event for this machine bypasses normal command matching.
    ///
    /// It does exactly when the machine came from lookahead, because no command was ever issued
    /// for it and there is therefore nothing in the outgoing queue to match. A machine that wrote
    /// its own marker is in `ResultNotified` and must go through the queue like any other command,
    /// or the command it issued would never be consumed.
    pub fn marker_should_get_special_handling(&self) -> (res: Result<bool, WFMachinesError>)
        requires
            self@.state is Some,
        ensures
            match self@.special_handling() {
                Some(special) => res == Ok::<bool, WFMachinesError>(special),
                None => res matches Err(WFMachinesError::Fatal(m)) && m@
                    == "Attempted to check for external stream marker handling in invalid state "@
                    + self@.state->0.shown(),
            },
    {
        match self.state() {
            ExternalStreamMachineState::ResultNotified(_) => Ok(false),
            ExternalStreamMachineState::ResolvedFromMarkerLookAheadWaitingMarkerEvent(_) => Ok(
                true,
            ),
            other => {
                let mut message =
                    "Attempted to check for external stream marker handling in invalid state ".to_string();
                message.append(other.name());
                Err(WFMachinesError::Fatal(message))
            },
        }
    }

    /// What the machine's own command comes to: a marker to write, or nothing.
    pub fn adapt_response(
        &self,
        my_command: ExternalStreamCommand,
        _event_info: Option<EventInfo>,
    ) -> (res: Result<Vec<MachineResponse>, WFMachinesError>)
        ensures
            res matches Ok(responses) && match my_command {
                ExternalStreamCommand::RecordMarker => {
                    &&& responses.len() == 1
                    &&& responses[0] matches MachineResponse::IssueNewCommand(c) && c.writes(
                        self@.data,
                    )
                },
                ExternalStreamCommand::AlreadyRecorded => responses.len() == 0,
            },
    {
        let mut responses: Vec<MachineResponse> = Vec::new();
        match my_command {
            ExternalStreamCommand::RecordMarker => {
                let command = Command::from(marker_command(&self.shared_state.data));
                responses.push(MachineResponse::IssueNewCommand(command));
            },
            ExternalStreamCommand::AlreadyRecorded => {},
        }
        Ok(responses)
    }
}

} // verus!
