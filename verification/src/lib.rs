//! Core logic of an interactive remote-shell relay and its single-use file
//! server, stated and proved without performing any input or output.
//!
//! Every part that waits on the outside world is a state machine: it names
//! the next thing to do, the caller does it and reports how it went. The
//! parts are
//!
//! - `serve` and `accept`: the file server, which maps public names to files,
//!   answers one request at a time and stops after its first delivery;
//! - `http`: the requests it reads and the responses it writes;
//! - `toolbox` and `download`: finding or fetching the files to serve;
//! - `shell`: the operator's session, its commands and its two upgrades;
//! - `terminal`: raw mode, entered once and left once;
//! - `config` and `helpers`: what the session is configured and started with;
//! - `text`: the character-level utilities that the others share.

pub mod accept;
pub mod config;
pub mod download;
pub mod helpers;
pub mod http;
pub mod serve;
pub mod shell;
pub mod terminal;
pub mod text;
pub mod toolbox;
