//! Properties of the relay that span several operations.

use vstd::prelude::*;
use crate::agent::{agent_action_for, AgentAction};
use crate::api::{lists_device, lists_each_once, model_after_dispatch, model_after_wait, model_without_command, DeviceResponse, WaitOutcome};
use crate::gateway::{
    action_for_message, model_after_end, model_after_message, session_after_message, well_keyed,
    GatewayAction, GatewayModel, SessionEnd,
};
use crate::protocol::{CommandResultPayload, WsMessage};

verus! {

/// A device that registered over a connection receives its commands over
/// that connection: after the registration it is registered with that
/// connection and with the fields it sent, and a command sent to it is
/// awaited.
pub proof fn lemma_commands_reach_registering_connection(
    m: GatewayModel,
    connection: u64,
    device_id: String,
    device_name: String,
    hostname: String,
    os: String,
    command_id: Seq<char>,
)
    ensures
        ({
            let reg = WsMessage::RegisterDevice { device_id, device_name, hostname, os };
            let m1 = model_after_message(m, connection, reg);
            &&& m1.devices.contains_key(device_id@)
            &&& m1.devices[device_id@].connection == connection
            &&& m1.devices[device_id@].device_name == device_name@
            &&& m1.devices[device_id@].hostname == hostname@
            &&& m1.devices[device_id@].os == os@
            &&& model_after_dispatch(m1, device_id@, command_id).pending.contains(command_id)
        }),
{
}

/// The result of a command sent to a registered device is delivered once:
/// the first result that carries its id is handed to the waiting request,
/// and a second one is dropped.
pub proof fn lemma_result_delivered_once(
    m: GatewayModel,
    device_id: Seq<char>,
    connection: u64,
    payload: CommandResultPayload,
)
    requires
        m.devices.contains_key(device_id),
    ensures
        ({
            let msg = WsMessage::CommandResult(payload);
            let m1 = model_after_dispatch(m, device_id, payload.command_id@);
            let m2 = model_after_message(m1, connection, msg);
            &&& action_for_message(m1, msg) == GatewayAction::Deliver(payload)
            &&& !m2.pending.contains(payload.command_id@)
            &&& action_for_message(m2, msg) == GatewayAction::Nothing
        }),
{
}

/// A result whose command is not awaited is dropped and changes nothing.
pub proof fn lemma_unawaited_result_ignored(m: GatewayModel, connection: u64, payload: CommandResultPayload)
    requires
        !m.pending.contains(payload.command_id@),
    ensures
        action_for_message(m, WsMessage::CommandResult(payload)) == GatewayAction::Nothing,
        model_after_message(m, connection, WsMessage::CommandResult(payload)) == m,
{
    assert(m.pending.remove(payload.command_id@) =~= m.pending);
}

/// A command that could not be sent, or whose wait timed out, leaves the
/// tables as they were before it was sent (when its id was fresh).
pub proof fn lemma_failed_command_leaves_no_trace(m: GatewayModel, device_id: Seq<char>, command_id: Seq<char>)
    requires
        !m.pending.contains(command_id),
    ensures
        model_after_wait(model_after_dispatch(m, device_id, command_id), command_id, WaitOutcome::TimedOut) == m,
        model_without_command(model_after_dispatch(m, device_id, command_id), command_id) == m,
{
    assert(m.pending.insert(command_id).remove(command_id) =~= m.pending);
    assert(m.pending.remove(command_id) =~= m.pending);
}

/// A command for an unregistered device changes nothing.
pub proof fn lemma_unknown_device_changes_nothing(m: GatewayModel, device_id: Seq<char>, command_id: Seq<char>)
    requires
        !m.devices.contains_key(device_id),
    ensures
        model_after_dispatch(m, device_id, command_id) == m,
{
}

/// A heartbeat is always answered and changes nothing.
pub proof fn lemma_heartbeat_answered(m: GatewayModel, connection: u64, known: Option<Seq<char>>)
    ensures
        action_for_message(m, WsMessage::Heartbeat) == GatewayAction::Reply(WsMessage::HeartbeatAck),
        model_after_message(m, connection, WsMessage::Heartbeat) == m,
        session_after_message(known, WsMessage::Heartbeat) == known,
{
}

/// A registration is acknowledged as accepted, and the agent takes the
/// acknowledgement as such.
pub proof fn lemma_registration_accepted(
    m: GatewayModel,
    device_id: String,
    device_name: String,
    hostname: String,
    os: String,
)
    ensures
        ({
            let reg = WsMessage::RegisterDevice { device_id, device_name, hostname, os };
            &&& action_for_message(m, reg) == GatewayAction::Reply(WsMessage::RegisterAck { ok: true, message: None })
            &&& agent_action_for(WsMessage::RegisterAck { ok: true, message: None }) == AgentAction::RegistrationAccepted
        }),
{
}

/// A command the gateway sends is the command the agent runs, under the
/// same id.
pub proof fn lemma_agent_runs_sent_command(command_id: String, command: String, args: Vec<String>, timeout_secs: Option<u64>)
    ensures
        agent_action_for(WsMessage::ExecuteCommand { command_id, command, args, timeout_secs })
            == (AgentAction::Execute { command_id, command, args }),
{
}

/// When the agent's side of the connection over which a device registered
/// ends, and no later registration on it named another id, the device is
/// no longer registered.
pub proof fn lemma_disconnect_unregisters(
    m: GatewayModel,
    connection: u64,
    known: Option<Seq<char>>,
    device_id: String,
    device_name: String,
    hostname: String,
    os: String,
)
    ensures
        ({
            let reg = WsMessage::RegisterDevice { device_id, device_name, hostname, os };
            let m1 = model_after_message(m, connection, reg);
            let k1 = session_after_message(known, reg);
            !model_after_end(m1, k1, SessionEnd::ReaderFinished).devices.contains_key(device_id@)
        }),
{
}

/// Every step keeps each registered device filed under its own id.
pub proof fn lemma_steps_keep_devices_well_keyed(
    m: GatewayModel,
    connection: u64,
    msg: WsMessage,
    known: Option<Seq<char>>,
    end: SessionEnd,
    device_id: Seq<char>,
    command_id: Seq<char>,
    outcome: WaitOutcome,
)
    requires
        well_keyed(m),
    ensures
        well_keyed(model_after_message(m, connection, msg)),
        well_keyed(model_after_end(m, known, end)),
        well_keyed(model_after_dispatch(m, device_id, command_id)),
        well_keyed(model_after_wait(m, command_id, outcome)),
        well_keyed(model_without_command(m, command_id)),
{
    let m1 = model_after_message(m, connection, msg);
    assert forall|k: Seq<char>| #[trigger] m1.devices.contains_key(k) implies m1.devices[k].device_id == k by {
        if msg is RegisterDevice && k == msg->device_id@ {
        } else {
            assert(m.devices.contains_key(k));
        }
    }
    let m2 = model_after_end(m, known, end);
    assert forall|k: Seq<char>| #[trigger] m2.devices.contains_key(k) implies m2.devices[k].device_id == k by {
        assert(m.devices.contains_key(k));
    }
}

/// A device that registered is listed, once, with the fields it sent.
pub proof fn lemma_registered_device_listed(
    m: GatewayModel,
    connection: u64,
    device_id: String,
    device_name: String,
    hostname: String,
    os: String,
    list: Seq<DeviceResponse>,
)
    requires
        lists_each_once(
            list,
            model_after_message(m, connection, WsMessage::RegisterDevice { device_id, device_name, hostname, os }).devices,
        ),
    ensures
        exists|i: int| 0 <= i < list.len() && {
            &&& #[trigger] list[i].device_id@ == device_id@
            &&& list[i].device_name@ == device_name@
            &&& list[i].hostname@ == hostname@
            &&& list[i].os@ == os@
        },
        forall|i: int, j: int| 0 <= i < list.len() && 0 <= j < list.len() && list[i].device_id@ == device_id@
            && list[j].device_id@ == device_id@ ==> i == j,
{
    let devices = model_after_message(m, connection, WsMessage::RegisterDevice { device_id, device_name, hostname, os }).devices;
    assert(devices.contains_key(device_id@));
    let i = choose|i: int| 0 <= i < list.len() && #[trigger] list[i].device_id@ == device_id@;
    assert(lists_device(list[i], devices[list[i].device_id@]));
    assert forall|i: int, j: int| 0 <= i < list.len() && 0 <= j < list.len() && list[i].device_id@ == device_id@
        && list[j].device_id@ == device_id@ implies i == j by {
        if i < j {
            assert(list[i].device_id@ != list[j].device_id@);
        } else if j < i {
            assert(list[j].device_id@ != list[i].device_id@);
        }
    }
}

/// One step the gateway takes on its tables, from any connection or request.
pub enum GatewayStep {
    /// A message from an agent, taken in on a connection.
    Message { connection: u64, msg: WsMessage },
    /// A connection ended.
    SessionEnded { known: Option<Seq<char>>, end: SessionEnd },
    /// A request sent a command to a device.
    Dispatch { device_id: Seq<char>, command_id: Seq<char> },
    /// A request could not hand its command to the agent.
    DispatchFailed { command_id: Seq<char> },
    /// A request's wait for its command ended.
    Wait { command_id: Seq<char>, outcome: WaitOutcome },
}

/// The tables after one step.
pub open spec fn model_after_step(m: GatewayModel, step: GatewayStep) -> GatewayModel {
    match step {
        GatewayStep::Message { connection, msg } => model_after_message(m, connection, msg),
        GatewayStep::SessionEnded { known, end } => model_after_end(m, known, end),
        GatewayStep::Dispatch { device_id, command_id } => model_after_dispatch(m, device_id, command_id),
        GatewayStep::DispatchFailed { command_id } => model_without_command(m, command_id),
        GatewayStep::Wait { command_id, outcome } => model_after_wait(m, command_id, outcome),
    }
}

/// The tables after the steps, in order.
pub open spec fn model_after_steps(m: GatewayModel, steps: Seq<GatewayStep>) -> GatewayModel
    decreases steps.len(),
{
    if steps.len() == 0 {
        m
    } else {
        model_after_step(model_after_steps(m, steps.drop_last()), steps.last())
    }
}

/// The step is one of the request for `command_id` itself: it sends,
/// fails or waits under that id.
pub open spec fn step_of_request(step: GatewayStep, command_id: Seq<char>) -> bool {
    match step {
        GatewayStep::Dispatch { command_id: c, .. } => c == command_id,
        GatewayStep::DispatchFailed { command_id: c } => c == command_id,
        GatewayStep::Wait { command_id: c, .. } => c == command_id,
        _ => false,
    }
}

/// Taken in the tables `m`, the step delivers the result of `command_id`.
pub open spec fn step_delivers(m: GatewayModel, step: GatewayStep, command_id: Seq<char>) -> bool {
    match step {
        GatewayStep::Message { msg, .. } => match msg {
            WsMessage::CommandResult(p) => p.command_id@ == command_id
                && action_for_message(m, msg) == GatewayAction::Deliver(p),
            _ => false,
        },
        _ => false,
    }
}

/// One of the steps, taken from `m` on, delivered the result of `command_id`.
pub open spec fn delivered_during(m: GatewayModel, steps: Seq<GatewayStep>, command_id: Seq<char>) -> bool {
    exists|i: int| 0 <= i < steps.len()
        && #[trigger] step_delivers(model_after_steps(m, steps.take(i)), steps[i], command_id)
}

/// While no step of its own request runs, a command stays awaited exactly
/// until its result is delivered.
pub proof fn lemma_awaited_until_delivered(m: GatewayModel, steps: Seq<GatewayStep>, command_id: Seq<char>)
    requires
        forall|i: int| 0 <= i < steps.len() ==> !step_of_request(#[trigger] steps[i], command_id),
    ensures
        model_after_steps(m, steps).pending.contains(command_id)
            == (m.pending.contains(command_id) && !delivered_during(m, steps, command_id)),
    decreases steps.len(),
{
    if steps.len() == 0 {
        if delivered_during(m, steps, command_id) {
            let i = choose|i: int| 0 <= i < steps.len()
                && #[trigger] step_delivers(model_after_steps(m, steps.take(i)), steps[i], command_id);
        }
    } else {
        let prefix = steps.drop_last();
        let last = steps.last();
        let n = steps.len() - 1;
        assert forall|i: int| 0 <= i < prefix.len() implies !step_of_request(#[trigger] prefix[i], command_id) by {
            assert(prefix[i] == steps[i]);
        }
        lemma_awaited_until_delivered(m, prefix, command_id);
        let before = model_after_steps(m, prefix);
        assert(steps.take(n) =~= prefix);
        assert(!step_of_request(steps[n], command_id));
        // the steps before the last are the prefix's steps
        assert forall|i: int| 0 <= i < prefix.len() implies
            (#[trigger] step_delivers(model_after_steps(m, steps.take(i)), steps[i], command_id)
                == step_delivers(model_after_steps(m, prefix.take(i)), prefix[i], command_id)) by {
            assert(steps.take(i) =~= prefix.take(i));
        }
        if delivered_during(m, prefix, command_id) {
            let i = choose|i: int| 0 <= i < prefix.len()
                && #[trigger] step_delivers(model_after_steps(m, prefix.take(i)), prefix[i], command_id);
            assert(step_delivers(model_after_steps(m, steps.take(i)), steps[i], command_id));
        }
        if step_delivers(before, last, command_id) {
            assert(step_delivers(model_after_steps(m, steps.take(n)), steps[n], command_id));
        }
        if delivered_during(m, steps, command_id) && !step_delivers(before, last, command_id) {
            let i = choose|i: int| 0 <= i < steps.len()
                && #[trigger] step_delivers(model_after_steps(m, steps.take(i)), steps[i], command_id);
            if i == n {
                assert(steps.take(i) =~= prefix);
            } else {
                assert(step_delivers(model_after_steps(m, prefix.take(i)), prefix[i], command_id));
            }
        }
        match last {
            GatewayStep::Message { connection, msg } => {
                match msg {
                    WsMessage::CommandResult(p) => {
                        if p.command_id@ == command_id {
                            assert(before.pending.contains(command_id) ==> step_delivers(before, last, command_id));
                        }
                    },
                    _ => {},
                }
            },
            _ => {},
        }
    }
}

/// No awaited command outlives its request. A request draws a fresh
/// command id and sends the command; meanwhile any other steps run, none of
/// them under that id. For an unknown device the id is never awaited.
/// Otherwise it stays awaited exactly until its result is delivered; and it
/// is no longer awaited once the command could not be sent, once its wait
/// timed out, or, whatever way the wait ended, once its result was
/// delivered.
pub proof fn lemma_no_pending_command_outlives_request(
    m: GatewayModel,
    device_id: Seq<char>,
    command_id: Seq<char>,
    steps: Seq<GatewayStep>,
    outcome: WaitOutcome,
)
    requires
        !m.pending.contains(command_id),
        forall|i: int| 0 <= i < steps.len() ==> !step_of_request(#[trigger] steps[i], command_id),
    ensures
        ({
            let sent = model_after_dispatch(m, device_id, command_id);
            let end = model_after_steps(sent, steps);
            &&& !m.devices.contains_key(device_id) ==> !end.pending.contains(command_id)
            &&& m.devices.contains_key(device_id) ==>
                (end.pending.contains(command_id) <==> !delivered_during(sent, steps, command_id))
            &&& !model_without_command(end, command_id).pending.contains(command_id)
            &&& !model_after_wait(end, command_id, WaitOutcome::TimedOut).pending.contains(command_id)
            &&& delivered_during(sent, steps, command_id) ==>
                !model_after_wait(end, command_id, outcome).pending.contains(command_id)
        }),
{
    let sent = model_after_dispatch(m, device_id, command_id);
    lemma_awaited_until_delivered(sent, steps, command_id);
}

/// A registration files the device under its own id, with the fields it
/// sent and the connection it came on, and changes no other device's entry
/// and no awaited command.
pub proof fn lemma_registration_changes_only_its_own_entry(
    m: GatewayModel,
    connection: u64,
    device_id: String,
    device_name: String,
    hostname: String,
    os: String,
    k: Seq<char>,
)
    ensures
        ({
            let m1 = model_after_message(m, connection, WsMessage::RegisterDevice { device_id, device_name, hostname, os });
            &&& m1.devices.contains_key(device_id@)
            &&& m1.devices[device_id@].device_id == device_id@
            &&& m1.devices[device_id@].device_name == device_name@
            &&& m1.devices[device_id@].hostname == hostname@
            &&& m1.devices[device_id@].os == os@
            &&& m1.devices[device_id@].connection == connection
            &&& k != device_id@ ==> (m1.devices.contains_key(k) == m.devices.contains_key(k))
            &&& (k != device_id@ && m.devices.contains_key(k)) ==> m1.devices[k] == m.devices[k]
            &&& m1.pending == m.pending
        }),
{
}

/// Only a registration changes the devices, and only it changes the device
/// id a connection is known by: every other message (a command result,
/// whatever its exit code, included) leaves both as they were.
pub proof fn lemma_only_registration_changes_devices(
    m: GatewayModel,
    connection: u64,
    known: Option<Seq<char>>,
    msg: WsMessage,
)
    requires
        !(msg is RegisterDevice),
    ensures
        model_after_message(m, connection, msg).devices == m.devices,
        session_after_message(known, msg) == known,
{
}

/// A connection is known by the id of the device it registered last, after
/// any later messages that are not registrations; so when its reader ends,
/// that device is the one unregistered.
pub proof fn lemma_connection_known_by_last_registration(
    known: Option<Seq<char>>,
    device_id: String,
    device_name: String,
    hostname: String,
    os: String,
    later: Seq<WsMessage>,
)
    requires
        forall|i: int| 0 <= i < later.len() ==> !(#[trigger] later[i] is RegisterDevice),
    ensures
        known_after_messages(
            session_after_message(known, WsMessage::RegisterDevice { device_id, device_name, hostname, os }),
            later,
        ) == Some(device_id@),
    decreases later.len(),
{
    if later.len() > 0 {
        lemma_connection_known_by_last_registration(known, device_id, device_name, hostname, os, later.drop_last());
    }
}

/// The device id a connection is known by after the messages, in order.
pub open spec fn known_after_messages(known: Option<Seq<char>>, msgs: Seq<WsMessage>) -> Option<Seq<char>>
    decreases msgs.len(),
{
    if msgs.len() == 0 {
        known
    } else {
        session_after_message(known_after_messages(known, msgs.drop_last()), msgs.last())
    }
}

/// Ending a connection never changes the awaited commands. One known by no
/// device, or whose writer ended first, unregisters nothing; one known by
/// `id` whose reader ended unregisters `id` and leaves every other device.
pub proof fn lemma_end_unregisters_at_most_its_own_device(
    m: GatewayModel,
    known: Option<Seq<char>>,
    end: SessionEnd,
    k: Seq<char>,
)
    ensures
        ({
            let m1 = model_after_end(m, known, end);
            &&& m1.pending == m.pending
            &&& (known is None || end == SessionEnd::WriterFinished) ==> m1.devices == m.devices
            &&& (end == SessionEnd::ReaderFinished && known is Some) ==> !m1.devices.contains_key(known->0)
            &&& (known != Some(k)) ==> (m1.devices.contains_key(k) == m.devices.contains_key(k))
            &&& (known != Some(k) && m.devices.contains_key(k)) ==> m1.devices[k] == m.devices[k]
        }),
{
}

/// Ending a wait never touches the devices; only a timeout changes which
/// commands are awaited, and only by dropping its own.
pub proof fn lemma_wait_end_keeps_devices(m: GatewayModel, command_id: Seq<char>, outcome: WaitOutcome, k: Seq<char>)
    ensures
        ({
            let m1 = model_after_wait(m, command_id, outcome);
            &&& m1.devices == m.devices
            &&& !(outcome is TimedOut) ==> m1.pending == m.pending
            &&& outcome is TimedOut ==> !m1.pending.contains(command_id)
            &&& k != command_id ==> (m1.pending.contains(k) == m.pending.contains(k))
        }),
{
}

/// Sending a command, or failing to, never touches the devices, and changes
/// whether no command but its own is awaited.
pub proof fn lemma_dispatch_keeps_devices(m: GatewayModel, device_id: Seq<char>, command_id: Seq<char>, k: Seq<char>)
    ensures
        model_after_dispatch(m, device_id, command_id).devices == m.devices,
        model_without_command(m, command_id).devices == m.devices,
        m.devices.contains_key(device_id) ==> model_after_dispatch(m, device_id, command_id).pending.contains(command_id),
        !model_without_command(m, command_id).pending.contains(command_id),
        k != command_id ==> (model_after_dispatch(m, device_id, command_id).pending.contains(k) == m.pending.contains(k)),
        k != command_id ==> (model_without_command(m, command_id).pending.contains(k) == m.pending.contains(k)),
{
}

/// A result for an awaited command is delivered, unchanged, and it stops
/// being awaited; no other command's state changes.
pub proof fn lemma_result_delivered_and_cleared(m: GatewayModel, connection: u64, payload: CommandResultPayload, k: Seq<char>)
    requires
        m.pending.contains(payload.command_id@),
    ensures
        action_for_message(m, WsMessage::CommandResult(payload)) == GatewayAction::Deliver(payload),
        !model_after_message(m, connection, WsMessage::CommandResult(payload)).pending.contains(payload.command_id@),
        k != payload.command_id@ ==>
            (model_after_message(m, connection, WsMessage::CommandResult(payload)).pending.contains(k) == m.pending.contains(k)),
{
}

} // verus!
