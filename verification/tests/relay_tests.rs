use relay::agent::{agent_read_step, handle_gateway_message, register_message, resolve_device_id, run_command, AgentAction, ProcessOutcome, ReadStep};
use relay::api::{default_timeout, wait_secs, ApiBody, ApiReply, ExecRequest, WaitOutcome};
use relay::auth::{bearer_header, bearer_matches, ws_handler, ApiAuth, GatewayConfig};
use relay::gateway::{keeps_reading, AppState, GatewayAction, Session, SessionEnd};
use relay::protocol::{CommandResultPayload, Frame, WsMessage};
use relay::text::{join_text, same_text, strip_prefix};

fn config() -> GatewayConfig {
    GatewayConfig { agent_token: "agent-secret".to_string(), api_token: "api-secret".to_string() }
}

fn register(state: &mut AppState, session: &mut Session, id: &str) -> GatewayAction {
    let msg = register_message(id.to_string(), format!("name-{}", id), "host".to_string(), "linux".to_string());
    state.handle_message(session, msg)
}

fn request(command: &str) -> ExecRequest {
    ExecRequest { command: command.to_string(), args: vec!["-la".to_string()], timeout_secs: default_timeout() }
}

fn payload(id: &str) -> CommandResultPayload {
    CommandResultPayload { command_id: id.to_string(), exit_code: Some(0), stdout: "out".to_string(), stderr: String::new() }
}

fn is_v4_uuid(s: &str) -> bool {
    let c: Vec<char> = s.chars().collect();
    if c.len() != 36 {
        return false;
    }
    for (i, ch) in c.iter().enumerate() {
        let ok = if i == 8 || i == 13 || i == 18 || i == 23 {
            *ch == '-'
        } else {
            ch.is_ascii_digit() || ('a'..='f').contains(ch)
        };
        if !ok {
            return false;
        }
    }
    c[14] == '4' && "89ab".contains(c[19])
}

fn error_text(reply: &ApiReply) -> String {
    match &reply.body {
        ApiBody::Error(t) => t.clone(),
        other => panic!("expected an error body, got {:?}", other),
    }
}

#[test]
fn bearer_header_is_accepted_with_its_own_token_only() {
    let h = bearer_header("api-secret");
    assert_eq!(h, "Bearer api-secret");
    assert!(bearer_matches(Some(&h), "api-secret"));
    assert!(!bearer_matches(Some(&h), "api-secre"));
    assert!(!bearer_matches(Some(&h), "api-secret2"));
    assert!(!bearer_matches(Some("api-secret"), "api-secret"));
    assert!(!bearer_matches(Some("bearer api-secret"), "api-secret"));
    assert!(!bearer_matches(Some("Bearer  api-secret"), "api-secret"));
    assert!(!bearer_matches(None, "api-secret"));
    assert!(bearer_matches(Some("Bearer "), ""));
}

#[test]
fn api_auth_refuses_wrong_token_with_401() {
    let cfg = config();
    assert!(ApiAuth::from_request_parts(Some("Bearer api-secret"), &cfg).is_ok());
    let e = ApiAuth::from_request_parts(Some("Bearer agent-secret"), &cfg).unwrap_err();
    assert_eq!(e.status, 401);
    assert_eq!(e.message, "Invalid or missing API token");
    let e = ApiAuth::from_request_parts(None, &cfg).unwrap_err();
    assert_eq!(e.status, 401);
}

#[test]
fn ws_handler_admits_agent_token_only() {
    let cfg = config();
    assert!(ws_handler(Some("Bearer agent-secret"), &cfg).is_ok());
    let e = ws_handler(Some("Bearer api-secret"), &cfg).unwrap_err();
    assert_eq!(e.status, 401);
    assert_eq!(e.message, "Invalid agent token");
    assert!(ws_handler(None, &cfg).is_err());
}

#[test]
fn registration_is_acknowledged_and_listed() {
    let mut state = AppState::new(config());
    let mut s1 = Session::new(1);
    let mut s2 = Session::new(2);
    let ack = register(&mut state, &mut s1, "dev-a");
    assert_eq!(ack, GatewayAction::Reply(WsMessage::RegisterAck { ok: true, message: None }));
    assert_eq!(s1.device_id.as_deref(), Some("dev-a"));
    register(&mut state, &mut s2, "dev-b");
    let reply = state.list_devices(ApiAuth);
    assert_eq!(reply.status, 200);
    match reply.body {
        ApiBody::Devices(mut list) => {
            list.sort_by(|a, b| a.device_id.cmp(&b.device_id));
            assert_eq!(list.len(), 2);
            assert_eq!(list[0].device_id, "dev-a");
            assert_eq!(list[0].device_name, "name-dev-a");
            assert_eq!(list[0].hostname, "host");
            assert_eq!(list[0].os, "linux");
            assert_eq!(list[1].device_id, "dev-b");
        }
        other => panic!("expected devices, got {:?}", other),
    }
}

#[test]
fn reregistration_replaces_the_device() {
    let mut state = AppState::new(config());
    let mut s1 = Session::new(1);
    let mut s2 = Session::new(2);
    register(&mut state, &mut s1, "dev");
    register(&mut state, &mut s2, "dev");
    match state.list_devices(ApiAuth).body {
        ApiBody::Devices(list) => assert_eq!(list.len(), 1),
        other => panic!("expected devices, got {:?}", other),
    }
    let d = state.begin_execute_with_id("dev", "c1".to_string(), request("ls")).unwrap();
    assert_eq!(d.connection, 2);
}

#[test]
fn command_to_unknown_device_is_404() {
    let mut state = AppState::new(config());
    let e = state.begin_execute_with_id("nope", "c1".to_string(), request("ls")).unwrap_err();
    assert_eq!(e.status, 404);
    assert_eq!(error_text(&e), "Device not found");
    let e = state.execute_command("nope", ApiAuth, request("ls")).unwrap_err();
    assert_eq!(e.status, 404);
    // nothing became pending
    let mut s = Session::new(1);
    assert_eq!(state.handle_message(&mut s, WsMessage::CommandResult(payload("c1"))), GatewayAction::Nothing);
}

#[test]
fn command_goes_to_registering_connection() {
    let mut state = AppState::new(config());
    let mut s = Session::new(42);
    register(&mut state, &mut s, "dev");
    let d = state.begin_execute_with_id("dev", "cmd-1".to_string(), request("ls")).unwrap();
    assert_eq!(d.command_id, "cmd-1");
    assert_eq!(d.connection, 42);
    assert_eq!(
        d.message,
        WsMessage::ExecuteCommand {
            command_id: "cmd-1".to_string(),
            command: "ls".to_string(),
            args: vec!["-la".to_string()],
            timeout_secs: Some(30),
        }
    );
}

#[test]
fn execute_command_draws_a_uuid() {
    let mut state = AppState::new(config());
    let mut s = Session::new(3);
    register(&mut state, &mut s, "dev");
    let d1 = state.execute_command("dev", ApiAuth, request("ls")).unwrap();
    let d2 = state.execute_command("dev", ApiAuth, request("ls")).unwrap();
    assert!(is_v4_uuid(&d1.command_id));
    assert!(is_v4_uuid(&d2.command_id));
    assert_ne!(d1.command_id, d2.command_id);
    match &d1.message {
        WsMessage::ExecuteCommand { command_id, .. } => assert_eq!(command_id, &d1.command_id),
        other => panic!("expected ExecuteCommand, got {:?}", other),
    }
}

#[test]
fn result_is_delivered_once() {
    let mut state = AppState::new(config());
    let mut s = Session::new(1);
    register(&mut state, &mut s, "dev");
    state.begin_execute_with_id("dev", "c1".to_string(), request("ls")).unwrap();
    let first = state.handle_message(&mut s, WsMessage::CommandResult(payload("c1")));
    assert_eq!(first, GatewayAction::Deliver(payload("c1")));
    let second = state.handle_message(&mut s, WsMessage::CommandResult(payload("c1")));
    assert_eq!(second, GatewayAction::Nothing);
}

#[test]
fn result_for_unknown_command_is_dropped() {
    let mut state = AppState::new(config());
    let mut s = Session::new(1);
    assert_eq!(state.handle_message(&mut s, WsMessage::CommandResult(payload("zzz"))), GatewayAction::Nothing);
}

#[test]
fn timeout_forgets_the_command() {
    let mut state = AppState::new(config());
    let mut s = Session::new(1);
    register(&mut state, &mut s, "dev");
    state.begin_execute_with_id("dev", "c1".to_string(), request("ls")).unwrap();
    let reply = state.finish_execute("c1", WaitOutcome::TimedOut);
    assert_eq!(reply.status, 504);
    assert_eq!(error_text(&reply), "Command execution timed out");
    assert_eq!(state.handle_message(&mut s, WsMessage::CommandResult(payload("c1"))), GatewayAction::Nothing);
}

#[test]
fn answered_and_abandoned_waits() {
    let mut state = AppState::new(config());
    let reply = state.finish_execute("c1", WaitOutcome::Answered(payload("c1")));
    assert_eq!(reply, ApiReply { status: 200, body: ApiBody::Result(payload("c1")) });
    let reply = state.finish_execute("c1", WaitOutcome::Abandoned);
    assert_eq!(reply.status, 500);
    assert_eq!(error_text(&reply), "Agent disconnected before sending result");
}

#[test]
fn dispatch_failure_forgets_the_command() {
    let mut state = AppState::new(config());
    let mut s = Session::new(1);
    register(&mut state, &mut s, "dev");
    state.begin_execute_with_id("dev", "c1".to_string(), request("ls")).unwrap();
    let reply = state.dispatch_failed("c1", "channel closed");
    assert_eq!(reply.status, 500);
    assert_eq!(error_text(&reply), "Failed to send command to agent: channel closed");
    assert_eq!(state.handle_message(&mut s, WsMessage::CommandResult(payload("c1"))), GatewayAction::Nothing);
}

#[test]
fn heartbeat_is_answered() {
    let mut state = AppState::new(config());
    let mut s = Session::new(1);
    assert_eq!(state.handle_message(&mut s, WsMessage::Heartbeat), GatewayAction::Reply(WsMessage::HeartbeatAck));
    assert_eq!(state.handle_message(&mut s, WsMessage::HeartbeatAck), GatewayAction::Nothing);
    assert_eq!(s.device_id, None);
}

#[test]
fn reader_end_unregisters_writer_end_does_not() {
    let mut state = AppState::new(config());
    let mut s1 = Session::new(1);
    let mut s2 = Session::new(2);
    register(&mut state, &mut s1, "dev-a");
    register(&mut state, &mut s2, "dev-b");
    assert_eq!(state.end_session(s2, SessionEnd::WriterFinished), None);
    assert_eq!(state.end_session(s1, SessionEnd::ReaderFinished), Some("dev-a".to_string()));
    match state.list_devices(ApiAuth).body {
        ApiBody::Devices(list) => {
            assert_eq!(list.len(), 1);
            assert_eq!(list[0].device_id, "dev-b");
        }
        other => panic!("expected devices, got {:?}", other),
    }
    let fresh = Session::new(9);
    assert_eq!(state.end_session(fresh, SessionEnd::ReaderFinished), None);
}

#[test]
fn timeouts() {
    assert_eq!(default_timeout(), 30);
    assert_eq!(wait_secs(30), 35);
    assert_eq!(wait_secs(0), 5);
    assert_eq!(wait_secs(u64::MAX - 5), u64::MAX);
}

#[test]
fn agent_handles_gateway_messages() {
    assert_eq!(handle_gateway_message(WsMessage::RegisterAck { ok: true, message: None }), AgentAction::RegistrationAccepted);
    assert_eq!(
        handle_gateway_message(WsMessage::RegisterAck { ok: false, message: Some("no".to_string()) }),
        AgentAction::RegistrationRejected(Some("no".to_string()))
    );
    assert_eq!(
        handle_gateway_message(WsMessage::ExecuteCommand {
            command_id: "c".to_string(),
            command: "echo".to_string(),
            args: vec!["hi".to_string()],
            timeout_secs: Some(3),
        }),
        AgentAction::Execute { command_id: "c".to_string(), command: "echo".to_string(), args: vec!["hi".to_string()] }
    );
    assert_eq!(handle_gateway_message(WsMessage::HeartbeatAck), AgentAction::Ignore);
    assert_eq!(handle_gateway_message(WsMessage::Heartbeat), AgentAction::Ignore);
}

#[test]
fn device_id_is_configured_or_drawn() {
    assert_eq!(resolve_device_id(Some("pi".to_string())), "pi");
    let id = resolve_device_id(None);
    assert!(is_v4_uuid(&id), "{}", id);
}

#[test]
fn run_command_reports_output() {
    let p = run_command(
        "c1".to_string(),
        "ls",
        ProcessOutcome::Exited { stdout: b"total 42\n".to_vec(), stderr: vec![0x66, 0xff, 0x6f], exit_code: Some(2) },
    );
    assert_eq!(p.command_id, "c1");
    assert_eq!(p.exit_code, Some(2));
    assert_eq!(p.stdout, "total 42\n");
    assert_eq!(p.stderr, "f\u{FFFD}o");
    let p = run_command("c2".to_string(), "ls", ProcessOutcome::Exited { stdout: vec![], stderr: vec![], exit_code: None });
    assert_eq!(p.exit_code, None);
    assert_eq!(p.stdout, "");
}

#[test]
fn run_command_reports_failures() {
    let p = run_command("c1".to_string(), "nope", ProcessOutcome::SpawnFailed("No such file or directory (os error 2)".to_string()));
    assert_eq!(p.exit_code, None);
    assert_eq!(p.stdout, "");
    assert_eq!(p.stderr, "Failed to spawn command 'nope': No such file or directory (os error 2)");
    let p = run_command("c2".to_string(), "ls", ProcessOutcome::WaitFailed("interrupted".to_string()));
    assert_eq!(p.command_id, "c2");
    assert_eq!(p.stderr, "Failed to wait on child process: interrupted");
}

#[test]
fn text_helpers() {
    assert_eq!(strip_prefix("Bearer x", "Bearer "), Some("x"));
    assert_eq!(strip_prefix("Bear", "Bearer "), None);
    assert_eq!(strip_prefix("héllo", "hé"), Some("llo"));
    assert!(same_text("ä", "ä"));
    assert!(!same_text("a", "ä"));
    assert_eq!(join_text("ab", "cd"), "abcd");
}

#[test]
fn reading_loops_follow_frames() {
    assert!(keeps_reading(Frame::Text));
    for f in [Frame::Binary, Frame::Ping, Frame::Pong, Frame::Close, Frame::Raw, Frame::Failed, Frame::Ended] {
        assert!(!keeps_reading(f));
    }
    assert_eq!(agent_read_step(Frame::Text), ReadStep::Handle);
    assert_eq!(agent_read_step(Frame::Binary), ReadStep::Skip);
    assert_eq!(agent_read_step(Frame::Ping), ReadStep::Skip);
    assert_eq!(agent_read_step(Frame::Pong), ReadStep::Skip);
    assert_eq!(agent_read_step(Frame::Raw), ReadStep::Skip);
    assert_eq!(agent_read_step(Frame::Close), ReadStep::StopClosed);
    assert_eq!(agent_read_step(Frame::Failed), ReadStep::StopFailed);
    assert_eq!(agent_read_step(Frame::Ended), ReadStep::StopEnded);
}

#[test]
fn no_pending_command_outlives_its_request() {
    let mut state = AppState::new(config());
    let mut s1 = Session::new(1);
    let mut s2 = Session::new(2);
    register(&mut state, &mut s1, "dev");
    register(&mut state, &mut s2, "other");
    // answered request: other traffic in between, then the result, then the reply
    state.begin_execute_with_id("dev", "a".to_string(), request("ls")).unwrap();
    state.begin_execute_with_id("other", "b".to_string(), request("ls")).unwrap();
    assert_eq!(state.handle_message(&mut s2, WsMessage::Heartbeat), GatewayAction::Reply(WsMessage::HeartbeatAck));
    assert_eq!(state.handle_message(&mut s2, WsMessage::CommandResult(payload("b"))), GatewayAction::Deliver(payload("b")));
    assert_eq!(state.handle_message(&mut s1, WsMessage::CommandResult(payload("a"))), GatewayAction::Deliver(payload("a")));
    assert_eq!(state.finish_execute("a", WaitOutcome::Answered(payload("a"))).status, 200);
    assert_eq!(state.handle_message(&mut s1, WsMessage::CommandResult(payload("a"))), GatewayAction::Nothing);
    // timed-out request: a late result finds nothing awaited
    state.begin_execute_with_id("dev", "c".to_string(), request("ls")).unwrap();
    assert_eq!(state.finish_execute("c", WaitOutcome::TimedOut).status, 504);
    assert_eq!(state.handle_message(&mut s1, WsMessage::CommandResult(payload("c"))), GatewayAction::Nothing);
    // request to an unknown device: never awaited
    assert!(state.begin_execute_with_id("gone", "d".to_string(), request("ls")).is_err());
    assert_eq!(state.handle_message(&mut s1, WsMessage::CommandResult(payload("d"))), GatewayAction::Nothing);
}
