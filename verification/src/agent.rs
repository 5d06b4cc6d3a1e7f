//! The agent's side: what it registers with, how it answers the gateway's
//! messages, and the result it reports for a command it ran.

use vstd::prelude::*;
use vstd::string::*;
use vstd::utf8::{decode_utf8, valid_utf8};
use crate::ids::{is_v4_uuid_text, new_v4_text};
use crate::protocol::{CommandResultPayload, Frame, WsMessage};
use crate::text::join_text;

verus! {

/// What the agent does with a message from the gateway.
#[derive(Debug, Clone, PartialEq, Eq)]
pub enum AgentAction {
    /// The gateway accepted the registration.
    RegistrationAccepted,
    /// The gateway refused the registration, with its reason if it gave one.
    RegistrationRejected(Option<String>),
    /// Run this command and report its result.
    Execute { command_id: String, command: String, args: Vec<String> },
    /// Nothing to do.
    Ignore,
}

/// How running a command went, as the operating system reported it.
#[derive(Debug, Clone, PartialEq, Eq)]
pub enum ProcessOutcome {
    /// The process could not be started; the text says why.
    SpawnFailed(String),
    /// The process started but could not be waited for; the text says why.
    WaitFailed(String),
    /// The process ended with this output. The exit code is absent when a
    /// signal ended it.
    Exited { stdout: Vec<u8>, stderr: Vec<u8>, exit_code: Option<i32> },
}

/// What the agent's reading loop does after a read.
#[derive(Debug, Clone, Copy, PartialEq, Eq)]
pub enum ReadStep {
    /// Parse the text as a message and handle it (text that does not parse
    /// is skipped).
    Handle,
    /// Skip the frame and read on.
    Skip,
    /// The gateway closed the connection: stop reading.
    StopClosed,
    /// The read failed: stop reading.
    StopFailed,
    /// The stream ended: stop reading.
    StopEnded,
}

/// The agent handles text frames, skips binary, ping, pong and raw frames,
/// and stops at a close frame, a failed read, or the end of the stream.
pub fn agent_read_step(frame: Frame) -> (step: ReadStep)
    ensures
        step == (match frame {
            Frame::Text => ReadStep::Handle,
            Frame::Close => ReadStep::StopClosed,
            Frame::Failed => ReadStep::StopFailed,
            Frame::Ended => ReadStep::StopEnded,
            _ => ReadStep::Skip,
        }),
{
    match frame {
        Frame::Text => ReadStep::Handle,
        Frame::Close => ReadStep::StopClosed,
        Frame::Failed => ReadStep::StopFailed,
        Frame::Ended => ReadStep::StopEnded,
        _ => ReadStep::Skip,
    }
}

/// What the agent does with the gateway's message `msg`: acknowledgements are
/// reported, a command is run (its timeout is left to the gateway), and
/// everything else is ignored.
pub open spec fn agent_action_for(msg: WsMessage) -> AgentAction {
    match msg {
        WsMessage::RegisterAck { ok, message } =>
            if ok { AgentAction::RegistrationAccepted } else { AgentAction::RegistrationRejected(message) },
        WsMessage::ExecuteCommand { command_id, command, args, .. } => AgentAction::Execute { command_id, command, args },
        _ => AgentAction::Ignore,
    }
}

/// Decides what to do with a message from the gateway.
pub fn handle_gateway_message(msg: WsMessage) -> (action: AgentAction)
    ensures
        action == agent_action_for(msg),
{
    match msg {
        WsMessage::RegisterAck { ok, message } => {
            if ok {
                AgentAction::RegistrationAccepted
            } else {
                AgentAction::RegistrationRejected(message)
            }
        },
        WsMessage::ExecuteCommand { command_id, command, args, timeout_secs: _ } => {
            AgentAction::Execute { command_id, command, args }
        },
        _ => AgentAction::Ignore,
    }
}

/// The message with which an agent registers its device.
pub fn register_message(device_id: String, device_name: String, hostname: String, os: String) -> (msg: WsMessage)
    ensures
        msg == (WsMessage::RegisterDevice { device_id, device_name, hostname, os }),
{
    WsMessage::RegisterDevice { device_id, device_name, hostname, os }
}

/// The device id an agent registers with: the configured one, or else a
/// freshly drawn random one (the hyphenated text of a version-4 UUID).
pub fn resolve_device_id(configured: Option<String>) -> (id: String)
    ensures
        configured matches Some(c) ==> id == c,
        configured is None ==> is_v4_uuid_text(id@),
{
    match configured {
        Some(c) => c,
        None => new_v4_text(),
    }
}

/// The text that `String::from_utf8_lossy` makes of `bytes`.
pub uninterp spec fn utf8_lossy(bytes: Seq<u8>) -> Seq<char>;

/// `String::from_utf8_lossy`, written out as a `String`: valid UTF-8 is
/// decoded as it stands; what invalid sequences become (U+FFFD in their
/// place) is left to the name `utf8_lossy`.
#[verifier::external_body]
fn text_from_bytes_lossy(bytes: &[u8]) -> (text: String)
    ensures
        text@ == utf8_lossy(bytes@),
        valid_utf8(bytes@) ==> text@ == decode_utf8(bytes@),
{
    String::from_utf8_lossy(bytes).to_string()
}

/// The text reported when a command could not be started.
pub open spec fn spawn_failure_text(command: Seq<char>, reason: Seq<char>) -> Seq<char> {
    "Failed to spawn command '"@ + command + "': "@ + reason
}

/// The text reported when a started command could not be waited for.
pub open spec fn wait_failure_text(reason: Seq<char>) -> Seq<char> {
    "Failed to wait on child process: "@ + reason
}

/// The result an agent reports for the command `command` it ran under
/// `command_id`: the decoded output and exit code when the process ended,
/// and otherwise no exit code, no output, and the reason in `stderr`.
pub fn run_command(command_id: String, command: &str, outcome: ProcessOutcome) -> (payload: CommandResultPayload)
    ensures
        payload.command_id == command_id,
        outcome matches ProcessOutcome::Exited { stdout, stderr, exit_code } ==> {
            &&& payload.exit_code == exit_code
            &&& payload.stdout@ == utf8_lossy(stdout@)
            &&& payload.stderr@ == utf8_lossy(stderr@)
        },
        outcome matches ProcessOutcome::SpawnFailed(reason) ==> {
            &&& payload.exit_code is None
            &&& payload.stdout@.len() == 0
            &&& payload.stderr@ == spawn_failure_text(command@, reason@)
        },
        outcome matches ProcessOutcome::WaitFailed(reason) ==> {
            &&& payload.exit_code is None
            &&& payload.stdout@.len() == 0
            &&& payload.stderr@ == wait_failure_text(reason@)
        },
{
    match outcome {
        ProcessOutcome::Exited { stdout, stderr, exit_code } => {
            let out = text_from_bytes_lossy(stdout.as_slice());
            let err = text_from_bytes_lossy(stderr.as_slice());
            CommandResultPayload { command_id, exit_code, stdout: out, stderr: err }
        },
        ProcessOutcome::SpawnFailed(reason) => {
            proof {
                reveal_strlit("Failed to spawn command '");
                reveal_strlit("': ");
            }
            let head = join_text("Failed to spawn command '", command);
            let mid = join_text(head.as_str(), "': ");
            let text = join_text(mid.as_str(), reason.as_str());
            CommandResultPayload { command_id, exit_code: None, stdout: String::new(), stderr: text }
        },
        ProcessOutcome::WaitFailed(reason) => {
            proof {
                reveal_strlit("Failed to wait on child process: ");
            }
            let text = join_text("Failed to wait on child process: ", reason.as_str());
            CommandResultPayload { command_id, exit_code: None, stdout: String::new(), stderr: text }
        },
    }
}

} // verus!
