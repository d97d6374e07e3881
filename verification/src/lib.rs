//! Core of a host-side control bridge for a student-programmed robot.
//!
//! The bridge sits between short-lived local clients and one long-lived
//! session to the robot. This crate holds its wire formats and its decisions:
//! the frame codec, the session's run-mode machine with its telemetry slot and
//! log tee, and the router that answers client opcodes. Sockets, files and
//! timers stay with the embedding program, which feeds bytes in and carries
//! the returned actions out.

pub mod client;
pub mod codec;
pub mod connect;
pub mod control;
pub mod daemon;
pub mod devices;
pub mod keymap;
pub mod listener;
pub mod logtee;
pub mod mapping;
pub mod payload;
pub mod request;
pub mod robot;
pub mod router_laws;
pub mod session_laws;
pub mod telemetry;
pub mod tui;
