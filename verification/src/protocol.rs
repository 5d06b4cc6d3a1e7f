//! Messages exchanged over the WebSocket connection between gateway and agent.

use vstd::prelude::*;

verus! {

/// Messages exchanged over the WebSocket connection between gateway and agent.
#[derive(Debug, Clone, PartialEq, Eq)]
pub enum WsMessage {
    /// Agent -> Gateway: register this device.
    RegisterDevice { device_id: String, device_name: String, hostname: String, os: String },
    /// Gateway -> Agent: acknowledge registration.
    RegisterAck { ok: bool, message: Option<String> },
    /// Gateway -> Agent: execute a command.
    ExecuteCommand { command_id: String, command: String, args: Vec<String>, timeout_secs: Option<u64> },
    /// Agent -> Gateway: result of an executed command.
    CommandResult(CommandResultPayload),
    /// Bidirectional: heartbeat to keep the WebSocket alive.
    Heartbeat,
    /// Answer to a heartbeat.
    HeartbeatAck,
}

/// What an agent reports back once a command has run (or failed to run).
#[derive(Debug, Clone, PartialEq, Eq)]
pub struct CommandResultPayload {
    pub command_id: String,
    pub exit_code: Option<i32>,
    pub stdout: String,
    pub stderr: String,
}

/// The payload by the views of its text fields.
pub struct PayloadView {
    pub command_id: Seq<char>,
    pub exit_code: Option<i32>,
    pub stdout: Seq<char>,
    pub stderr: Seq<char>,
}

impl View for CommandResultPayload {
    type V = PayloadView;

    open spec fn view(&self) -> PayloadView {
        PayloadView {
            command_id: self.command_id@,
            exit_code: self.exit_code,
            stdout: self.stdout@,
            stderr: self.stderr@,
        }
    }
}

/// What a read from a WebSocket connection gave.
#[derive(Debug, Clone, Copy, PartialEq, Eq)]
pub enum Frame {
    /// A text frame (a protocol message, if it parses).
    Text,
    /// A binary frame.
    Binary,
    /// A ping.
    Ping,
    /// A pong.
    Pong,
    /// A close frame.
    Close,
    /// A raw frame of another kind.
    Raw,
    /// The read failed.
    Failed,
    /// The stream ended.
    Ended,
}

} // verus!
