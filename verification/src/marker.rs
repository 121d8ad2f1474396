//! The External Workflow Stream marker: the envelope it carries, the command that writes it, and
//! the History event it is read back from.
//!
//! Marker details travel on the wire as encoded payloads. Here they stand decoded: the caller at
//! the wire's edge encodes what a command carries, and decodes what an event holds.

use vstd::prelude::*;
use crate::constants::EXTERNAL_STREAM_MARKER_NAME;
use crate::text::same_bytes;

verus! {

/// The boundary at which a Workflow Task's annotation ended.
#[derive(Debug, Clone, Copy, PartialEq, Eq, Structural)]
pub enum ParkReason {
    /// No boundary was named.
    Unspecified,
    /// The completion carried server-bound commands.
    CommandsProduced,
    /// Lang asked for a replacement task.
    BudgetRollover,
    /// The Workflow finished.
    WorkflowCompleted,
    /// Any other boundary, by its number on the wire.
    Other(i32),
}

/// What a Workflow Task's external output came to.
#[derive(Debug)]
pub struct ExternalOutputStreamManifest {
    pub schema_version: u32,
    pub fingerprint_version: u32,
    pub stage_token: String,
    pub history_floor_event_id: i64,
    pub run_id: String,
    pub provider_id: String,
    pub provider_format_version: u32,
    /// The rest of the manifest in encoded form, kept so that two manifests are the same only if
    /// they agree on all of it.
    pub remainder: Vec<u8>,
}

/// The manifest's contents.
#[verifier::ext_equal]
pub struct ManifestModel {
    pub schema_version: u32,
    pub fingerprint_version: u32,
    pub stage_token: Seq<char>,
    pub history_floor_event_id: i64,
    pub run_id: Seq<char>,
    pub provider_id: Seq<char>,
    pub provider_format_version: u32,
    pub remainder: Seq<u8>,
}

impl View for ExternalOutputStreamManifest {
    type V = ManifestModel;

    open spec fn view(&self) -> ManifestModel {
        ManifestModel {
            schema_version: self.schema_version,
            fingerprint_version: self.fingerprint_version,
            stage_token: self.stage_token@,
            history_floor_event_id: self.history_floor_event_id,
            run_id: self.run_id@,
            provider_id: self.provider_id@,
            provider_format_version: self.provider_format_version,
            remainder: self.remainder@,
        }
    }
}

impl Default for ExternalOutputStreamManifest {
    fn default() -> (res: Self)
        ensures
            res@ == (ManifestModel {
                schema_version: 0,
                fingerprint_version: 0,
                stage_token: Seq::empty(),
                history_floor_event_id: 0,
                run_id: Seq::empty(),
                provider_id: Seq::empty(),
                provider_format_version: 0,
                remainder: Seq::empty(),
            }),
    {
        ExternalOutputStreamManifest {
            schema_version: 0,
            fingerprint_version: 0,
            stage_token: String::new(),
            history_floor_event_id: 0,
            run_id: String::new(),
            provider_id: String::new(),
            provider_format_version: 0,
            remainder: Vec::new(),
        }
    }
}

impl Clone for ExternalOutputStreamManifest {
    fn clone(&self) -> (res: Self)
        ensures
            res@ == self@,
    {
        ExternalOutputStreamManifest {
            schema_version: self.schema_version,
            fingerprint_version: self.fingerprint_version,
            stage_token: self.stage_token.clone(),
            history_floor_event_id: self.history_floor_event_id,
            run_id: self.run_id.clone(),
            provider_id: self.provider_id.clone(),
            provider_format_version: self.provider_format_version,
            remainder: self.remainder.clone(),
        }
    }
}

impl PartialEq for ExternalOutputStreamManifest {
    fn eq(&self, other: &Self) -> (res: bool) {
        self.schema_version == other.schema_version
            && self.fingerprint_version == other.fingerprint_version
            && self.stage_token == other.stage_token
            && self.history_floor_event_id == other.history_floor_event_id
            && self.run_id == other.run_id
            && self.provider_id == other.provider_id
            && self.provider_format_version == other.provider_format_version
            && same_bytes(&self.remainder, &other.remainder)
    }
}

impl vstd::std_specs::cmp::PartialEqSpecImpl for ExternalOutputStreamManifest {
    open spec fn obeys_eq_spec() -> bool {
        true
    }

    open spec fn eq_spec(&self, other: &Self) -> bool {
        self@ == other@
    }
}

/// The envelope one Workflow Task's marker carries.
#[derive(Debug)]
pub struct ExternalStreamMarkerData {
    pub schema_version: u32,
    /// The quiescent snapshot the marker closes.
    pub quiescence_generation: u64,
    /// Every wait of that snapshot and the generation it was at.
    pub waits: Vec<(u32, u64)>,
    pub terminal_boundary: ParkReason,
    /// Opaque: appended to and handed back, never read.
    pub replay_annotation: Vec<u8>,
    pub output: Option<ExternalOutputStreamManifest>,
    /// The rest of the envelope in encoded form.
    pub remainder: Vec<u8>,
}

/// The envelope's contents.
#[verifier::ext_equal]
pub struct MarkerModel {
    pub schema_version: u32,
    pub quiescence_generation: u64,
    pub waits: Seq<(u32, u64)>,
    pub terminal_boundary: ParkReason,
    pub replay_annotation: Seq<u8>,
    pub output: Option<ManifestModel>,
    pub remainder: Seq<u8>,
}

pub open spec fn output_model(output: Option<ExternalOutputStreamManifest>) -> Option<
    ManifestModel,
> {
    match output {
        Some(m) => Some(m@),
        None => None,
    }
}

impl View for ExternalStreamMarkerData {
    type V = MarkerModel;

    open spec fn view(&self) -> MarkerModel {
        MarkerModel {
            schema_version: self.schema_version,
            quiescence_generation: self.quiescence_generation,
            waits: self.waits@,
            terminal_boundary: self.terminal_boundary,
            replay_annotation: self.replay_annotation@,
            output: output_model(self.output),
            remainder: self.remainder@,
        }
    }
}

impl Default for ExternalStreamMarkerData {
    fn default() -> (res: Self)
        ensures
            res@ == (MarkerModel {
                schema_version: 0,
                quiescence_generation: 0,
                waits: Seq::empty(),
                terminal_boundary: ParkReason::Unspecified,
                replay_annotation: Seq::empty(),
                output: None,
                remainder: Seq::empty(),
            }),
    {
        ExternalStreamMarkerData {
            schema_version: 0,
            quiescence_generation: 0,
            waits: Vec::new(),
            terminal_boundary: ParkReason::Unspecified,
            replay_annotation: Vec::new(),
            output: None,
            remainder: Vec::new(),
        }
    }
}

impl Clone for ExternalStreamMarkerData {
    fn clone(&self) -> (res: Self)
        ensures
            res@ == self@,
    {
        let mut waits: Vec<(u32, u64)> = Vec::new();
        for i in 0..self.waits.len()
            invariant
                waits@ == self.waits@.take(i as int),
        {
            waits.push(self.waits[i]);
        }
        assert(waits@ == self.waits@);
        let output = match &self.output {
            Some(m) => Some(m.clone()),
            None => None,
        };
        ExternalStreamMarkerData {
            schema_version: self.schema_version,
            quiescence_generation: self.quiescence_generation,
            waits,
            terminal_boundary: self.terminal_boundary,
            replay_annotation: self.replay_annotation.clone(),
            output,
            remainder: self.remainder.clone(),
        }
    }
}

pub open spec fn envelope_model(envelope: Option<ExternalStreamMarkerData>) -> Option<MarkerModel> {
    match envelope {
        Some(d) => Some(d@),
        None => None,
    }
}

/// The kinds of command a completion may carry, as far as a marker's machine tells them apart.
#[derive(Debug, Clone, Copy, PartialEq, Eq, Structural)]
pub enum CommandType {
    RecordMarker,
    Other,
}

/// The kinds of History event, as far as a marker's machine tells them apart.
#[derive(Debug, Clone, Copy, PartialEq, Eq, Structural)]
pub enum EventType {
    MarkerRecorded,
    Other,
}

/// What a command that records a marker says.
#[derive(Debug)]
pub struct RecordMarkerCommandAttributes {
    pub marker_name: String,
    /// The external stream envelope in the marker's details; `None` for details that hold none.
    pub details: Option<ExternalStreamMarkerData>,
    /// In encoded form.
    pub header: Option<Vec<u8>>,
    /// In encoded form.
    pub failure: Option<Vec<u8>>,
}

/// What a command says.
#[derive(Debug)]
pub enum CommandAttributes {
    RecordMarkerCommandAttributes(RecordMarkerCommandAttributes),
    Other,
}

/// A command of a Workflow Task completion.
#[derive(Debug)]
pub struct Command {
    pub command_type: CommandType,
    pub attributes: Option<CommandAttributes>,
}

impl From<CommandAttributes> for Command {
    fn from(attributes: CommandAttributes) -> (res: Self) {
        let command_type = match &attributes {
            CommandAttributes::RecordMarkerCommandAttributes(_) => CommandType::RecordMarker,
            CommandAttributes::Other => CommandType::Other,
        };
        Command { command_type, attributes: Some(attributes) }
    }
}

impl vstd::std_specs::convert::FromSpecImpl<CommandAttributes> for Command {
    open spec fn obeys_from_spec() -> bool {
        true
    }

    open spec fn from_spec(attributes: CommandAttributes) -> Command {
        Command {
            command_type: match attributes {
                CommandAttributes::RecordMarkerCommandAttributes(_) => CommandType::RecordMarker,
                CommandAttributes::Other => CommandType::Other,
            },
            attributes: Some(attributes),
        }
    }
}

impl CommandAttributes {
    /// These attributes write `data` as an external stream marker, and nothing else.
    pub open spec fn writes(self, data: MarkerModel) -> bool {
        self matches CommandAttributes::RecordMarkerCommandAttributes(a) && {
            &&& a.marker_name@ == EXTERNAL_STREAM_MARKER_NAME@
            &&& envelope_model(a.details) == Some(data)
            &&& a.header is None
            &&& a.failure is None
        }
    }
}

impl Command {
    /// The command records a marker, and what it writes is `data` as an external stream marker.
    pub open spec fn writes(self, data: MarkerModel) -> bool {
        &&& self.command_type == CommandType::RecordMarker
        &&& self.attributes matches Some(a) && a.writes(data)
    }

    /// The external stream envelope this command writes, if it writes one.
    pub open spec fn written_marker(self) -> Option<MarkerModel> {
        match self.attributes {
            Some(CommandAttributes::RecordMarkerCommandAttributes(a)) => if a.marker_name@
                == EXTERNAL_STREAM_MARKER_NAME@ {
                envelope_model(a.details)
            } else {
                None
            },
            _ => None,
        }
    }
}

/// The attributes that write `data` as a marker.
pub fn marker_command(data: &ExternalStreamMarkerData) -> (res: CommandAttributes)
    ensures
        res.writes(data@),
{
    CommandAttributes::RecordMarkerCommandAttributes(
        RecordMarkerCommandAttributes {
            marker_name: EXTERNAL_STREAM_MARKER_NAME.to_string(),
            details: Some(data.clone()),
            header: None,
            failure: None,
        },
    )
}

/// The external stream markers that commands write, in their order, each as its quiescence
/// generation, terminal boundary and annotation.
pub open spec fn markers_written(commands: Seq<Command>) -> Seq<(u64, ParkReason, Seq<u8>)>
    decreases commands.len(),
{
    if commands.len() == 0 {
        Seq::empty()
    } else {
        let before = markers_written(commands.drop_last());
        match commands.last().written_marker() {
            Some(m) => before.push(
                (m.quiescence_generation, m.terminal_boundary, m.replay_annotation),
            ),
            None => before,
        }
    }
}

/// The external stream markers a completion recorded, with their terminal boundaries.
pub fn stream_markers(commands: &Vec<Command>) -> (res: Vec<(u64, ParkReason, Vec<u8>)>)
    ensures
        res@.map_values(|m: (u64, ParkReason, Vec<u8>)| (m.0, m.1, m.2@)) == markers_written(
            commands@,
        ),
{
    let ghost shown = |m: (u64, ParkReason, Vec<u8>)| (m.0, m.1, m.2@);
    let mut res: Vec<(u64, ParkReason, Vec<u8>)> = Vec::new();
    assert(res@.map_values(shown) == markers_written(commands@.take(0)));
    for i in 0..commands.len()
        invariant
            shown == (|m: (u64, ParkReason, Vec<u8>)| (m.0, m.1, m.2@)),
            res@.map_values(shown) == markers_written(commands@.take(i as int)),
    {
        let ghost before = res@;
        let ghost seen = commands@.take(i + 1);
        assert(seen.drop_last() == commands@.take(i as int));
        assert(seen.last() == commands[i as int]);
        if let Some(CommandAttributes::RecordMarkerCommandAttributes(a)) = &commands[i].attributes {
            if a.marker_name == EXTERNAL_STREAM_MARKER_NAME.to_string() {
                if let Some(d) = &a.details {
                    let annotation = d.replay_annotation.clone();
                    res.push((d.quiescence_generation, d.terminal_boundary, annotation));
                    assert(res@.map_values(shown) == before.map_values(shown).push(
                        shown(res@.last()),
                    ));
                }
            }
        }
    }
    assert(commands@.take(commands.len() as int) == commands@);
    res
}

/// What a `MarkerRecorded` event says.
#[derive(Debug)]
pub struct MarkerRecordedEventAttributes {
    pub marker_name: String,
    /// The external stream envelope in the marker's details; `None` for details that hold none.
    pub details: Option<ExternalStreamMarkerData>,
}

/// What a History event says.
#[derive(Debug)]
pub enum HistoryEventAttributes {
    MarkerRecordedEventAttributes(MarkerRecordedEventAttributes),
    Other,
}

/// An event of History.
#[derive(Debug)]
pub struct HistoryEvent {
    pub event_type: EventType,
    pub attributes: Option<HistoryEventAttributes>,
    /// How the event is shown in messages.
    pub display: String,
}

impl HistoryEvent {
    /// The external stream envelope in this event, if it is a marker of that kind.
    pub open spec fn stream_marker(self) -> Option<MarkerModel> {
        if self.event_type != EventType::MarkerRecorded {
            None
        } else {
            match self.attributes {
                Some(HistoryEventAttributes::MarkerRecordedEventAttributes(a)) => if a.marker_name@
                    == EXTERNAL_STREAM_MARKER_NAME@ {
                    envelope_model(a.details)
                } else {
                    None
                },
                _ => None,
            }
        }
    }
}

/// The envelope inside a `MarkerRecorded` event, if it is an external stream marker.
pub fn extract_stream_marker(e: &HistoryEvent) -> (res: Option<ExternalStreamMarkerData>)
    ensures
        envelope_model(res) == e.stream_marker(),
{
    if e.event_type != EventType::MarkerRecorded {
        return None;
    }
    match &e.attributes {
        Some(HistoryEventAttributes::MarkerRecordedEventAttributes(a)) => {
            if a.marker_name == EXTERNAL_STREAM_MARKER_NAME.to_string() {
                match &a.details {
                    Some(d) => Some(d.clone()),
                    None => None,
                }
            } else {
                None
            }
        },
        _ => None,
    }
}

} // verus!
