//! Bidirectional Control Channel (WebSocket).
//!
//! This is more than health: it carries telemetry, commands, logs, config and
//! diagnostics between Galahad Encoder and the control plane. This module holds
//! the messages; their JSON form belongs to the program around the library.

use vstd::prelude::*;
use vstd::string::*;

use crate::error::EncoderError;
use crate::error::ErrorView;
use crate::stream_state::StreamState;
use crate::text;

verus! {

/// `serde_json::Value`: an arbitrary JSON value.
#[verifier::external_type_specification]
#[verifier::external_body]
pub struct ExValue(serde_json::Value);

/// The members of a JSON object that are strings. A value that is no object has
/// none.
pub uninterp spec fn string_members(value: serde_json::Value) -> Map<Seq<char>, Seq<char>>;

/// The members of a JSON object that are unsigned integers of at most 64 bits. A
/// value that is no object has none.
pub uninterp spec fn unsigned_members(value: serde_json::Value) -> Map<Seq<char>, u64>;

/// `serde_json::Value::get` with a string, then `Value::as_str`: the member of a
/// JSON object under `key`, if there is one and it is a string.
#[verifier::external_body]
pub(crate) fn string_member(value: &serde_json::Value, key: &str) -> (r: Option<String>)
    ensures
        match r {
            Some(s) => string_members(*value).contains_key(key@) && s@ == string_members(*value)[key@],
            None => !string_members(*value).contains_key(key@),
        },
{
    value.get(key).and_then(serde_json::Value::as_str).map(str::to_string)
}

/// `serde_json::Value::get` with a string, then `Value::as_u64`: the member of a
/// JSON object under `key`, if there is one and it is an unsigned integer of at
/// most 64 bits.
#[verifier::external_body]
pub(crate) fn unsigned_member(value: &serde_json::Value, key: &str) -> (r: Option<u64>)
    ensures
        match r {
            Some(n) => unsigned_members(*value).contains_key(key@) && n == unsigned_members(
                *value,
            )[key@],
            None => !unsigned_members(*value).contains_key(key@),
        },
{
    value.get(key).and_then(serde_json::Value::as_u64)
}

/// Telemetry the client pushes to the control plane: health, with identity +
/// capability summary + state.
#[derive(Debug, Clone)]
pub struct Telemetry {
    pub player_id: String,
    pub session_id: String,
    pub display_name: String,
    pub source: Option<String>,
    pub streaming: bool,
    pub state: StreamState,
    pub fps: u32,
    pub bitrate: u32,
    pub dropped_frames: u64,
    pub encoder: Option<String>,
    pub capture_backend: Option<String>,
    pub last_error: Option<String>,
}

/// Message envelope the client sends.
#[derive(Debug, Clone)]
pub enum ClientMessage {
    Hello { player_id: String, session_id: String, display_name: String },
    Telemetry(Telemetry),
    CommandAck(CommandAck),
    LogUpload { session_id: String, lines: Vec<String> },
}

#[derive(Debug, Clone)]
pub struct CommandAck {
    pub action: String,
    pub ok: bool,
    pub detail: Option<String>,
}

/// Telemetry with its strings as characters.
pub struct TelemetryView {
    pub player_id: Seq<char>,
    pub session_id: Seq<char>,
    pub display_name: Seq<char>,
    pub source: Option<Seq<char>>,
    pub streaming: bool,
    pub state: StreamState,
    pub fps: u32,
    pub bitrate: u32,
    pub dropped_frames: u64,
    pub encoder: Option<Seq<char>>,
    pub capture_backend: Option<Seq<char>>,
    pub last_error: Option<Seq<char>>,
}

/// An acknowledgement with its strings as characters.
pub struct AckView {
    pub action: Seq<char>,
    pub ok: bool,
    pub detail: Option<Seq<char>>,
}

/// A message with its strings as characters.
pub enum MessageView {
    Hello { player_id: Seq<char>, session_id: Seq<char>, display_name: Seq<char> },
    Telemetry(TelemetryView),
    CommandAck(AckView),
    LogUpload { session_id: Seq<char>, lines: Seq<Seq<char>> },
}

impl View for Telemetry {
    type V = TelemetryView;

    open spec fn view(&self) -> TelemetryView {
        TelemetryView {
            player_id: self.player_id@,
            session_id: self.session_id@,
            display_name: self.display_name@,
            source: text::opt_text(self.source),
            streaming: self.streaming,
            state: self.state,
            fps: self.fps,
            bitrate: self.bitrate,
            dropped_frames: self.dropped_frames,
            encoder: text::opt_text(self.encoder),
            capture_backend: text::opt_text(self.capture_backend),
            last_error: text::opt_text(self.last_error),
        }
    }
}

impl View for CommandAck {
    type V = AckView;

    open spec fn view(&self) -> AckView {
        AckView { action: self.action@, ok: self.ok, detail: text::opt_text(self.detail) }
    }
}

impl View for ClientMessage {
    type V = MessageView;

    open spec fn view(&self) -> MessageView {
        match self {
            ClientMessage::Hello { player_id, session_id, display_name } => MessageView::Hello {
                player_id: player_id@,
                session_id: session_id@,
                display_name: display_name@,
            },
            ClientMessage::Telemetry(telemetry) => MessageView::Telemetry(telemetry@),
            ClientMessage::CommandAck(ack) => MessageView::CommandAck(ack@),
            ClientMessage::LogUpload { session_id, lines } => MessageView::LogUpload {
                session_id: session_id@,
                lines: text::texts(lines@),
            },
        }
    }
}

/// Commands the operator / control plane can send to the client.
#[derive(Debug, PartialEq, Eq)]
pub enum ServerCommand {
    StartStream,
    StopStream,
    RestartStream,
    SwitchQuality { preset: String },
    RequestLogUpload,
    PushConfig { config: serde_json::Value },
}

impl ServerCommand {
    /// The command's name on the wire.
    pub open spec fn action(self) -> Seq<char> {
        match self {
            ServerCommand::StartStream => "start_stream"@,
            ServerCommand::StopStream => "stop_stream"@,
            ServerCommand::RestartStream => "restart_stream"@,
            ServerCommand::SwitchQuality { .. } => "switch_quality"@,
            ServerCommand::RequestLogUpload => "request_log_upload"@,
            ServerCommand::PushConfig { .. } => "push_config"@,
        }
    }

    pub fn action_name(&self) -> (r: &'static str)
        ensures
            r@ == self.action(),
    {
        match self {
            ServerCommand::StartStream => "start_stream",
            ServerCommand::StopStream => "stop_stream",
            ServerCommand::RestartStream => "restart_stream",
            ServerCommand::SwitchQuality { .. } => "switch_quality",
            ServerCommand::RequestLogUpload => "request_log_upload",
            ServerCommand::PushConfig { .. } => "push_config",
        }
    }

    /// The error for a message that is no command, with why it is none.
    pub fn unrecognized(raw: &str, why: &str) -> (r: EncoderError)
        ensures
            r@ == ErrorView::Control("unrecognized command '"@ + raw@ + "': "@ + why@),
    {
        EncoderError::Control(
            "unrecognized command '".to_string().concat(raw).concat("': ").concat(why),
        )
    }
}

/// Different commands have different names on the wire.
pub proof fn actions_tell_commands_apart(a: ServerCommand, b: ServerCommand)
    requires
        a.action() == b.action(),
    ensures
        a is StartStream == b is StartStream,
        a is StopStream == b is StopStream,
        a is RestartStream == b is RestartStream,
        a is SwitchQuality == b is SwitchQuality,
        a is RequestLogUpload == b is RequestLogUpload,
        a is PushConfig == b is PushConfig,
{
    reveal_strlit("start_stream");
    reveal_strlit("stop_stream");
    reveal_strlit("restart_stream");
    reveal_strlit("switch_quality");
    reveal_strlit("request_log_upload");
    reveal_strlit("push_config");
    assert("start_stream"@.len() == 12);
    assert("stop_stream"@.len() == 11 && "stop_stream"@[0] == 's');
    assert("restart_stream"@.len() == 14 && "restart_stream"@[0] == 'r');
    assert("switch_quality"@.len() == 14 && "switch_quality"@[0] == 's');
    assert("request_log_upload"@.len() == 18);
    assert("push_config"@.len() == 11 && "push_config"@[0] == 'p');
}

/// A name on the wire says what is to be done, and to what.
pub proof fn actions_say_what_is_done(cmd: ServerCommand)
    ensures
        cmd is StartStream ==> text::pieces(cmd.action(), '_') == seq!["start"@, "stream"@],
        cmd is StopStream ==> text::pieces(cmd.action(), '_') == seq!["stop"@, "stream"@],
        cmd is RestartStream ==> text::pieces(cmd.action(), '_') == seq!["restart"@, "stream"@],
        cmd is SwitchQuality ==> text::pieces(cmd.action(), '_') == seq!["switch"@, "quality"@],
        cmd is RequestLogUpload ==> text::pieces(cmd.action(), '_') == seq!["request"@, "log"@, "upload"@],
        cmd is PushConfig ==> text::pieces(cmd.action(), '_') == seq!["push"@, "config"@],
{
    let bar = seq!['_'];
    reveal_strlit("start");
    reveal_strlit("stop");
    reveal_strlit("restart");
    reveal_strlit("stream");
    reveal_strlit("switch");
    reveal_strlit("quality");
    reveal_strlit("request");
    reveal_strlit("log");
    reveal_strlit("upload");
    reveal_strlit("push");
    reveal_strlit("config");
    reveal_strlit("start_stream");
    reveal_strlit("stop_stream");
    reveal_strlit("restart_stream");
    reveal_strlit("switch_quality");
    reveal_strlit("request_log_upload");
    reveal_strlit("push_config");
    assert("start_stream"@ =~= "start"@ + bar + "stream"@);
    assert("stop_stream"@ =~= "stop"@ + bar + "stream"@);
    assert("restart_stream"@ =~= "restart"@ + bar + "stream"@);
    assert("switch_quality"@ =~= "switch"@ + bar + "quality"@);
    assert("request_log_upload"@ =~= "request"@ + bar + ("log"@ + bar + "upload"@));
    assert("push_config"@ =~= "push"@ + bar + "config"@);
    text::pieces_split("start"@, '_', "stream"@);
    text::pieces_split("stop"@, '_', "stream"@);
    text::pieces_split("restart"@, '_', "stream"@);
    text::pieces_split("switch"@, '_', "quality"@);
    text::pieces_split("log"@, '_', "upload"@);
    text::pieces_split("request"@, '_', "log"@ + bar + "upload"@);
    text::pieces_split("push"@, '_', "config"@);
}

} // verus!
