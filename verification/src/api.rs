//! The decisions behind the gateway's REST API: listing devices and running
//! a command on one of them.

use vstd::prelude::*;
use crate::auth::ApiAuth;
use crate::gateway::{AppState, GatewayModel};
use crate::ids::{is_v4_uuid_text, new_v4_text};
use crate::protocol::{CommandResultPayload, WsMessage};
use crate::tables::{commands_insert, commands_remove, devices_entries, devices_get, DeviceView};
use crate::text::join_text;
use vstd::string::*;

verus! {

/// The body of a request to run a command on a device.
#[derive(Debug, Clone, PartialEq, Eq)]
pub struct ExecRequest {
    pub command: String,
    /// Arguments; none when the request names none.
    pub args: Vec<String>,
    /// Seconds the agent is given; `default_timeout()` when the request names none.
    pub timeout_secs: u64,
}

/// A registered device as the API lists it.
#[derive(Debug, Clone, PartialEq, Eq)]
pub struct DeviceResponse {
    pub device_id: String,
    pub device_name: String,
    pub hostname: String,
    pub os: String,
}

/// The JSON body of an API answer.
#[derive(Debug, Clone, PartialEq, Eq)]
pub enum ApiBody {
    /// `{"error": ...}`
    Error(String),
    /// The list of registered devices.
    Devices(Vec<DeviceResponse>),
    /// The result an agent reported.
    Result(CommandResultPayload),
}

/// An API answer: HTTP status and body.
#[derive(Debug, Clone, PartialEq, Eq)]
pub struct ApiReply {
    pub status: u16,
    pub body: ApiBody,
}

/// A command ready to go to an agent: its id, the connection of the device
/// it is for, and the message to send there.
#[derive(Debug, Clone, PartialEq, Eq)]
pub struct Dispatch {
    pub command_id: String,
    pub connection: u64,
    pub message: WsMessage,
}

/// How the wait for a command's result ended.
#[derive(Debug, Clone, PartialEq, Eq)]
pub enum WaitOutcome {
    /// The agent's result arrived.
    Answered(CommandResultPayload),
    /// The result can no longer arrive (its receiver was dropped).
    Abandoned,
    /// No result within the allowed time.
    TimedOut,
}

/// The timeout a command request gets when it names none: 30 seconds.
pub fn default_timeout() -> (secs: u64)
    ensures
        secs == 30,
{
    30
}

/// The answer carries `status` and an error body with exactly `text`.
pub open spec fn is_error_reply(r: ApiReply, status: u16, text: Seq<char>) -> bool {
    r.status == status && (r.body matches ApiBody::Error(t) && t@ == text)
}

/// The listed device `r` is the registered device `d`.
pub open spec fn lists_device(r: DeviceResponse, d: DeviceView) -> bool {
    r.device_id@ == d.device_id && r.device_name@ == d.device_name && r.hostname@ == d.hostname && r.os@ == d.os
}

/// `list` holds each registered device exactly once, in any order.
pub open spec fn lists_each_once(list: Seq<DeviceResponse>, devices: Map<Seq<char>, DeviceView>) -> bool {
    &&& forall|i: int| 0 <= i < list.len() ==>
        #[trigger] devices.contains_key(list[i].device_id@)
        && lists_device(list[i], devices[list[i].device_id@])
    &&& forall|i: int, j: int| 0 <= i < j < list.len() ==>
        #[trigger] list[i].device_id@ != #[trigger] list[j].device_id@
    &&& forall|k: Seq<char>| #[trigger] devices.contains_key(k) ==>
        exists|i: int| 0 <= i < list.len() && #[trigger] list[i].device_id@ == k
}

/// The tables once a command was sent to `device_id` under `command_id`: if
/// the device is registered, the command is awaited; if not, nothing changed.
pub open spec fn model_after_dispatch(m: GatewayModel, device_id: Seq<char>, command_id: Seq<char>) -> GatewayModel {
    if m.devices.contains_key(device_id) {
        GatewayModel { devices: m.devices, pending: m.pending.insert(command_id) }
    } else {
        m
    }
}

/// The tables once a command is no longer awaited.
pub open spec fn model_without_command(m: GatewayModel, command_id: Seq<char>) -> GatewayModel {
    GatewayModel { devices: m.devices, pending: m.pending.remove(command_id) }
}

/// The tables once the wait for `command_id` ended: a wait that timed out
/// stops awaiting the command; other endings leave the tables alone.
pub open spec fn model_after_wait(m: GatewayModel, command_id: Seq<char>, outcome: WaitOutcome) -> GatewayModel {
    match outcome {
        WaitOutcome::TimedOut => model_without_command(m, command_id),
        _ => m,
    }
}

/// The seconds to wait for a command's result: the agent's timeout and a
/// grace period of 5 seconds.
pub fn wait_secs(timeout_secs: u64) -> (secs: u64)
    requires
        timeout_secs <= u64::MAX - 5,
    ensures
        secs == timeout_secs + 5,
{
    timeout_secs + 5
}

impl AppState {
    /// Lists every registered device, each once, in no stated order.
    pub fn list_devices(&self, auth: ApiAuth) -> (reply: ApiReply)
        requires
            self.wf(),
        ensures
            reply.status == 200,
            reply.body matches ApiBody::Devices(list) && lists_each_once(list@, self.model().devices),
    {
        let entries = devices_entries(&self.devices);
        proof {
            self.lemma_model_fields();
        }
        let ghost table = self.model().devices;
        let mut list: Vec<DeviceResponse> = Vec::new();
        let n = entries.len();
        for i in 0..n
            invariant
                n == entries@.len(),
                list@.len() == i,
                forall|j: int| 0 <= j < i ==> #[trigger] lists_device(list@[j], entries@[j].1@),
        {
            let info = &entries[i].1;
            list.push(DeviceResponse {
                device_id: info.device_id.clone(),
                device_name: info.device_name.clone(),
                hostname: info.hostname.clone(),
                os: info.os.clone(),
            });
            assert(lists_device(list@[i as int], entries@[i as int].1@));
        }
        assert forall|j: int| 0 <= j < list@.len() implies #[trigger] list@[j].device_id@ == entries@[j].0@ by {
            assert(lists_device(list@[j], entries@[j].1@));
            assert(table.contains_key(entries@[j].0@));
        }
        assert forall|k: Seq<char>| #[trigger] table.contains_key(k) implies
            exists|i: int| 0 <= i < list@.len() && #[trigger] list@[i].device_id@ == k by {
            let i = choose|i: int| 0 <= i < entries@.len() && #[trigger] entries@[i].0@ == k;
            assert(list@[i].device_id@ == entries@[i].0@);
        }
        assert forall|i: int| 0 <= i < list@.len() implies
            #[trigger] table.contains_key(list@[i].device_id@)
            && lists_device(list@[i], table[list@[i].device_id@]) by {
            assert(list@[i].device_id@ == entries@[i].0@);
            assert(lists_device(list@[i], entries@[i].1@));
            assert(table.contains_key(entries@[i].0@));
            assert(table[entries@[i].0@] == entries@[i].1@);
        }
        assert forall|i: int, j: int| 0 <= i < j < list@.len() implies
            #[trigger] list@[i].device_id@ != #[trigger] list@[j].device_id@ by {
            assert(list@[i].device_id@ == entries@[i].0@);
            assert(list@[j].device_id@ == entries@[j].0@);
        }
        assert(lists_each_once(list@, table));
        ApiReply { status: 200, body: ApiBody::Devices(list) }
    }

    /// Sends a command to the device `device_id` under the fresh command id
    /// `command_id`. An unregistered device is answered 404 `Device not
    /// found` and nothing changes; otherwise the command is awaited from now
    /// on and the `ExecuteCommand` message to send is handed back with the
    /// connection of the device.
    pub fn begin_execute_with_id(&mut self, device_id: &str, command_id: String, request: ExecRequest) -> (r: Result<Dispatch, ApiReply>)
        requires
            old(self).wf(),
        ensures
            final(self).wf(),
            final(self).model() == model_after_dispatch(old(self).model(), device_id@, command_id@),
            final(self).config_view() == old(self).config_view(),
            r is Ok <==> old(self).model().devices.contains_key(device_id@),
            r matches Err(e) ==> is_error_reply(e, 404, "Device not found"@),
            // sending a command never touches the devices
            final(self).model().devices == old(self).model().devices,
            // a refused command is not awaited; a sent one is, and nothing else changes
            r is Err ==> final(self).model().pending == old(self).model().pending,
            r is Ok ==> final(self).model().pending.contains(command_id@),
            forall|k: Seq<char>| k != command_id@ ==>
                (#[trigger] final(self).model().pending.contains(k) == old(self).model().pending.contains(k)),
            r matches Ok(d) ==> {
                &&& d.command_id@ == command_id@
                &&& d.connection == old(self).model().devices[device_id@].connection
                &&& d.message matches WsMessage::ExecuteCommand { command_id: c, command, args, timeout_secs }
                    && c@ == command_id@ && command@ == request.command@ && args == request.args
                    && timeout_secs == Some(request.timeout_secs)
            },
    {
        proof {
            self.lemma_model_fields();
            old(self).lemma_model_fields();
        }
        match devices_get(&self.devices, device_id) {
            None => {
                proof {
                    reveal_strlit("Device not found");
                }
                Err(ApiReply { status: 404, body: ApiBody::Error(String::from_str("Device not found")) })
            },
            Some(device) => {
                let _ = commands_insert(&mut self.pending_commands, command_id.clone());
                proof {
                    self.lemma_model_fields();
                }
                assert(self.model().devices == old(self).model().devices);
                let message = WsMessage::ExecuteCommand {
                    command_id: command_id.clone(),
                    command: request.command,
                    args: request.args,
                    timeout_secs: Some(request.timeout_secs),
                };
                Ok(Dispatch { command_id, connection: device.connection, message })
            },
        }
    }

    /// Sends a command to the device `device_id` under a freshly drawn
    /// random command id (the hyphenated text of a version-4 UUID); what
    /// follows is `begin_execute_with_id` with that id.
    pub fn execute_command(&mut self, device_id: &str, auth: ApiAuth, request: ExecRequest) -> (r: Result<Dispatch, ApiReply>)
        requires
            old(self).wf(),
        ensures
            final(self).wf(),
            final(self).config_view() == old(self).config_view(),
            r is Ok <==> old(self).model().devices.contains_key(device_id@),
            r matches Err(e) ==> is_error_reply(e, 404, "Device not found"@) && final(self).model() == old(self).model(),
            final(self).model().devices == old(self).model().devices,
            r matches Ok(d) ==> {
                &&& is_v4_uuid_text(d.command_id@)
                &&& final(self).model() == model_after_dispatch(old(self).model(), device_id@, d.command_id@)
                &&& d.connection == old(self).model().devices[device_id@].connection
                &&& d.message matches WsMessage::ExecuteCommand { command_id: c, command, args, timeout_secs }
                    && c@ == d.command_id@ && command@ == request.command@ && args == request.args
                    && timeout_secs == Some(request.timeout_secs)
            },
    {
        let command_id = new_v4_text();
        self.begin_execute_with_id(device_id, command_id, request)
    }

    /// The command could not be handed to the agent's connection: it is no
    /// longer awaited, and the answer is 500 `Failed to send command to
    /// agent: ` followed by the reason.
    pub fn dispatch_failed(&mut self, command_id: &str, reason: &str) -> (reply: ApiReply)
        requires
            old(self).wf(),
        ensures
            final(self).wf(),
            final(self).model() == model_without_command(old(self).model(), command_id@),
            final(self).config_view() == old(self).config_view(),
            is_error_reply(reply, 500, "Failed to send command to agent: "@ + reason@),
            final(self).model().devices == old(self).model().devices,
            !final(self).model().pending.contains(command_id@),
            forall|k: Seq<char>| k != command_id@ ==>
                (#[trigger] final(self).model().pending.contains(k) == old(self).model().pending.contains(k)),
    {
        let _ = commands_remove(&mut self.pending_commands, command_id);
        proof {
            self.lemma_model_fields();
            old(self).lemma_model_fields();
            reveal_strlit("Failed to send command to agent: ");
        }
        assert(self.model().devices == old(self).model().devices);
        let text = join_text("Failed to send command to agent: ", reason);
        ApiReply { status: 500, body: ApiBody::Error(text) }
    }

    /// Answers a command request once its wait ended: the agent's result with
    /// 200; 500 `Agent disconnected before sending result` when the result
    /// can no longer come; 504 `Command execution timed out` when time ran
    /// out, in which case the command is no longer awaited.
    pub fn finish_execute(&mut self, command_id: &str, outcome: WaitOutcome) -> (reply: ApiReply)
        requires
            old(self).wf(),
        ensures
            final(self).wf(),
            final(self).model() == model_after_wait(old(self).model(), command_id@, outcome),
            final(self).config_view() == old(self).config_view(),
            outcome matches WaitOutcome::Answered(p) ==> reply.status == 200 && reply.body == ApiBody::Result(p),
            outcome is Abandoned ==> is_error_reply(reply, 500, "Agent disconnected before sending result"@),
            outcome is TimedOut ==> is_error_reply(reply, 504, "Command execution timed out"@),
            // answering a request never touches the devices
            final(self).model().devices == old(self).model().devices,
            // only a timeout changes which commands are awaited: its own stops being awaited
            !(outcome is TimedOut) ==> final(self).model().pending == old(self).model().pending,
            outcome is TimedOut ==> {
                &&& !final(self).model().pending.contains(command_id@)
                &&& forall|k: Seq<char>| k != command_id@ ==>
                    (#[trigger] final(self).model().pending.contains(k) == old(self).model().pending.contains(k))
            },
    {
        proof {
            old(self).lemma_model_fields();
        }
        match outcome {
            WaitOutcome::Answered(payload) => ApiReply { status: 200, body: ApiBody::Result(payload) },
            WaitOutcome::Abandoned => {
                proof {
                    reveal_strlit("Agent disconnected before sending result");
                }
                ApiReply {
                    status: 500,
                    body: ApiBody::Error(String::from_str("Agent disconnected before sending result")),
                }
            },
            WaitOutcome::TimedOut => {
                let _ = commands_remove(&mut self.pending_commands, command_id);
                proof {
                    self.lemma_model_fields();
                    old(self).lemma_model_fields();
                    reveal_strlit("Command execution timed out");
                }
                assert(self.model().devices == old(self).model().devices);
                ApiReply { status: 504, body: ApiBody::Error(String::from_str("Command execution timed out")) }
            },
        }
    }
}

} // verus!
