//! The gateway's shared state and what it does with each message an agent
//! sends over its WebSocket connection.

use vstd::prelude::*;
use dashmap::{DashMap, DashSet};
use crate::auth::GatewayConfig;
use crate::protocol::{CommandResultPayload, Frame, WsMessage};
use crate::tables::{
    command_entries, commands_new, commands_remove, device_entries, devices_insert, devices_new,
    devices_remove, DeviceInfo, DeviceView,
};

verus! {

/// The state shared by every connection and request of the gateway.
pub struct AppState {
    pub(crate) config: GatewayConfig,
    /// Registered devices, keyed by device id.
    pub(crate) devices: DashMap<String, DeviceInfo>,
    /// Ids of the commands sent to agents whose result is still awaited.
    pub(crate) pending_commands: DashSet<String>,
}

/// The gateway's tables as mathematical values.
pub struct GatewayModel {
    pub devices: Map<Seq<char>, DeviceView>,
    pub pending: Set<Seq<char>>,
}

/// Every registered device is filed under its own id.
pub open spec fn well_keyed(m: GatewayModel) -> bool {
    forall|k: Seq<char>| #[trigger] m.devices.contains_key(k) ==> m.devices[k].device_id == k
}

/// One agent connection: the number that stands for its outgoing channel,
/// and the id of the device it registered last, if any.
pub struct Session {
    pub connection: u64,
    pub device_id: Option<String>,
}

/// What the gateway does in answer to an agent's message.
#[derive(Debug, Clone, PartialEq, Eq)]
pub enum GatewayAction {
    /// Send this message back over the same connection.
    Reply(WsMessage),
    /// Hand this result to the request that waits for its command.
    Deliver(CommandResultPayload),
    /// Nothing to do.
    Nothing,
}

/// Which half of a connection ended first.
#[derive(Debug, Clone, Copy, PartialEq, Eq)]
pub enum SessionEnd {
    /// The agent's side closed or failed: the reading task finished.
    ReaderFinished,
    /// Sending to the agent failed: the writing task finished.
    WriterFinished,
}

/// The registered device that a registration message describes.
pub open spec fn registered_view(msg: WsMessage, connection: u64) -> DeviceView
    recommends
        msg is RegisterDevice,
{
    match msg {
        WsMessage::RegisterDevice { device_id, device_name, hostname, os } => DeviceView {
            device_id: device_id@,
            device_name: device_name@,
            hostname: hostname@,
            os: os@,
            connection,
        },
        _ => DeviceView {
            device_id: Seq::empty(),
            device_name: Seq::empty(),
            hostname: Seq::empty(),
            os: Seq::empty(),
            connection,
        },
    }
}

/// The tables after the gateway took in `msg` on connection `connection`:
/// a registration records the device under its id (replacing any device
/// with that id), a command result ends the wait for that command, and
/// every other message leaves the tables as they were.
pub open spec fn model_after_message(m: GatewayModel, connection: u64, msg: WsMessage) -> GatewayModel {
    match msg {
        WsMessage::RegisterDevice { device_id, .. } => GatewayModel {
            devices: m.devices.insert(device_id@, registered_view(msg, connection)),
            pending: m.pending,
        },
        WsMessage::CommandResult(payload) => GatewayModel {
            devices: m.devices,
            pending: m.pending.remove(payload.command_id@),
        },
        _ => m,
    }
}

/// What the gateway does with `msg`: a registration is acknowledged as
/// accepted, a result for an awaited command is delivered (one for any
/// other command is dropped), a heartbeat is answered, and anything else is
/// ignored.
pub open spec fn action_for_message(m: GatewayModel, msg: WsMessage) -> GatewayAction {
    match msg {
        WsMessage::RegisterDevice { .. } => GatewayAction::Reply(WsMessage::RegisterAck { ok: true, message: None }),
        WsMessage::CommandResult(payload) =>
            if m.pending.contains(payload.command_id@) {
                GatewayAction::Deliver(payload)
            } else {
                GatewayAction::Nothing
            },
        WsMessage::Heartbeat => GatewayAction::Reply(WsMessage::HeartbeatAck),
        _ => GatewayAction::Nothing,
    }
}

/// The device id a connection is known by after `msg`.
pub open spec fn session_after_message(known: Option<Seq<char>>, msg: WsMessage) -> Option<Seq<char>> {
    match msg {
        WsMessage::RegisterDevice { device_id, .. } => Some(device_id@),
        _ => known,
    }
}

/// The tables after a connection that is known by `known` ended.
pub open spec fn model_after_end(m: GatewayModel, known: Option<Seq<char>>, end: SessionEnd) -> GatewayModel {
    match (end, known) {
        (SessionEnd::ReaderFinished, Some(id)) => GatewayModel { devices: m.devices.remove(id), pending: m.pending },
        _ => m,
    }
}

/// The device id of a connection by its characters.
pub open spec fn opt_text(s: Option<String>) -> Option<Seq<char>> {
    match s {
        Some(t) => Some(t@),
        None => None,
    }
}

/// Whether the gateway goes on reading a connection after `frame`: only
/// text frames are read (and taken in when they parse); any other frame, a
/// failed read, or the end of the stream ends the reading.
pub fn keeps_reading(frame: Frame) -> (more: bool)
    ensures
        more == (frame == Frame::Text),
{
    match frame {
        Frame::Text => true,
        _ => false,
    }
}

impl Session {
    /// The state of a connection that has not registered a device yet.
    pub fn new(connection: u64) -> (s: Session)
        ensures
            s.connection == connection,
            s.device_id is None,
    {
        Session { connection, device_id: None }
    }
}

impl AppState {
    /// The gateway's tables.
    pub closed spec fn model(&self) -> GatewayModel {
        GatewayModel {
            devices: device_entries(self.devices),
            pending: command_entries(self.pending_commands),
        }
    }

    /// The tables are those the two fields hold.
    pub(crate) proof fn lemma_model_fields(&self)
        ensures
            self.model().devices == device_entries(self.devices),
            self.model().pending == command_entries(self.pending_commands),
            self.config_view() == self.config,
    {
    }

    /// The configured tokens, as a value.
    pub closed spec fn config_view(&self) -> GatewayConfig {
        self.config
    }

    /// The state is well formed: every registered device is filed under its own id.
    pub open spec fn wf(&self) -> bool {
        well_keyed(self.model())
    }

    /// The tokens the gateway was configured with.
    pub fn config(&self) -> (c: &GatewayConfig)
        ensures
            *c == self.config_view(),
    {
        &self.config
    }

    /// A gateway with the given tokens, no device and no awaited command.
    pub fn new(config: GatewayConfig) -> (s: AppState)
        ensures
            s.wf(),
            s.config_view() == config,
            s.model().devices.dom() == Set::<Seq<char>>::empty(),
            s.model().pending == Set::<Seq<char>>::empty(),
    {
        AppState { config, devices: devices_new(), pending_commands: commands_new() }
    }

    /// Takes in one message that an agent sent on the connection `session`.
    pub fn handle_message(&mut self, session: &mut Session, msg: WsMessage) -> (action: GatewayAction)
        requires
            old(self).wf(),
        ensures
            final(self).wf(),
            final(self).model() == model_after_message(old(self).model(), old(session).connection, msg),
            action == action_for_message(old(self).model(), msg),
            final(session).connection == old(session).connection,
            opt_text(final(session).device_id) == session_after_message(opt_text(old(session).device_id), msg),
            final(self).config_view() == old(self).config_view(),
            // a registration files the device under its id and touches no other entry
            msg matches WsMessage::RegisterDevice { device_id, device_name, hostname, os } ==> {
                &&& final(self).model().devices.contains_key(device_id@)
                &&& final(self).model().devices[device_id@] == (DeviceView {
                    device_id: device_id@,
                    device_name: device_name@,
                    hostname: hostname@,
                    os: os@,
                    connection: old(session).connection,
                })
                &&& forall|k: Seq<char>| k != device_id@ ==>
                    (#[trigger] final(self).model().devices.contains_key(k) == old(self).model().devices.contains_key(k)
                    && (old(self).model().devices.contains_key(k) ==> final(self).model().devices[k] == old(self).model().devices[k]))
                &&& opt_text(final(session).device_id) == Some(device_id@)
                &&& action == GatewayAction::Reply(WsMessage::RegisterAck { ok: true, message: None })
            },
            // any other message leaves the devices and the connection's device id alone
            !(msg is RegisterDevice) ==> final(self).model().devices == old(self).model().devices,
            !(msg is RegisterDevice) ==> opt_text(final(session).device_id) == opt_text(old(session).device_id),
            // only a result changes which commands are awaited: its own stops being awaited
            !(msg is CommandResult) ==> final(self).model().pending == old(self).model().pending,
            msg matches WsMessage::CommandResult(p) ==> {
                &&& !final(self).model().pending.contains(p.command_id@)
                &&& forall|k: Seq<char>| k != p.command_id@ ==>
                    (#[trigger] final(self).model().pending.contains(k) == old(self).model().pending.contains(k))
                &&& (old(self).model().pending.contains(p.command_id@) ==> action == GatewayAction::Deliver(p))
                &&& (!old(self).model().pending.contains(p.command_id@) ==> action == GatewayAction::Nothing)
            },
            msg is Heartbeat ==> action == GatewayAction::Reply(WsMessage::HeartbeatAck),
            !(msg is RegisterDevice || msg is CommandResult || msg is Heartbeat) ==> action == GatewayAction::Nothing,
    {
        let ghost msg0 = msg;
        match msg {
            WsMessage::RegisterDevice { device_id, device_name, hostname, os } => {
                session.device_id = Some(device_id.clone());
                let info = DeviceInfo {
                    device_id: device_id.clone(),
                    device_name,
                    hostname,
                    os,
                    connection: session.connection,
                };
                let _ = devices_insert(&mut self.devices, device_id, info);
                assert(self.model().devices =~= old(self).model().devices.insert(
                    msg0->device_id@, registered_view(msg0, old(session).connection)));
                assert forall|k: Seq<char>| #[trigger] self.model().devices.contains_key(k)
                    implies self.model().devices[k].device_id == k by {
                    if k != msg0->device_id@ {
                        assert(old(self).model().devices.contains_key(k));
                    }
                }
                GatewayAction::Reply(WsMessage::RegisterAck { ok: true, message: None })
            },
            WsMessage::CommandResult(payload) => {
                let removed = commands_remove(&mut self.pending_commands, payload.command_id.as_str());
                assert(self.model().devices == old(self).model().devices);
                assert(well_keyed(self.model()));
                if removed.is_some() {
                    GatewayAction::Deliver(payload)
                } else {
                    GatewayAction::Nothing
                }
            },
            WsMessage::Heartbeat => GatewayAction::Reply(WsMessage::HeartbeatAck),
            _ => GatewayAction::Nothing,
        }
    }

    /// Ends the connection `session`. When the agent's side ended, the device
    /// the connection registered last is unregistered and its id handed
    /// back; when sending failed first, nothing is unregistered.
    pub fn end_session(&mut self, session: Session, end: SessionEnd) -> (unregistered: Option<String>)
        requires
            old(self).wf(),
        ensures
            final(self).wf(),
            final(self).model() == model_after_end(old(self).model(), opt_text(session.device_id), end),
            opt_text(unregistered) == (if end == SessionEnd::ReaderFinished { opt_text(session.device_id) } else { None }),
            final(self).config_view() == old(self).config_view(),
            // ending a connection never changes which commands are awaited
            final(self).model().pending == old(self).model().pending,
            // a connection known by no device, or whose writer ended first, unregisters nothing
            session.device_id is None ==> final(self).model().devices == old(self).model().devices,
            end == SessionEnd::WriterFinished ==> final(self).model().devices == old(self).model().devices,
            // one whose reader ended unregisters its own device and no other
            end == SessionEnd::ReaderFinished ==> (session.device_id matches Some(i) ==> {
                &&& !final(self).model().devices.contains_key(i@)
                &&& forall|k: Seq<char>| k != i@ ==>
                    (#[trigger] final(self).model().devices.contains_key(k) == old(self).model().devices.contains_key(k)
                    && (old(self).model().devices.contains_key(k) ==> final(self).model().devices[k] == old(self).model().devices[k]))
            }),
    {
        match end {
            SessionEnd::ReaderFinished => match session.device_id {
                Some(device_id) => {
                    let _ = devices_remove(&mut self.devices, device_id.as_str());
                    assert forall|k: Seq<char>| #[trigger] self.model().devices.contains_key(k)
                        implies self.model().devices[k].device_id == k by {
                        assert(old(self).model().devices.contains_key(k));
                    }
                    Some(device_id)
                },
                None => None,
            },
            SessionEnd::WriterFinished => None,
        }
    }
}

} // verus!
