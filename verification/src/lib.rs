//! Control protocol of the GoXLR family of USB audio mixers.
//!
//! The crate holds the protocol itself and performs no transfer: the command
//! catalogue, the byte layouts of the command bodies, the frame codec, and the
//! connection's state machines, which tell a driver which transfer comes next
//! and take its outcome back. It also holds what the command-line client
//! makes of the daemon's answers.

pub mod buttonstate;
pub mod channelstate;
pub mod client;
pub mod commands;
pub mod connection;
pub mod dcp;
pub mod encoding;
pub mod endian;
pub mod error;
pub mod frame;
pub mod goxlr;
pub mod microphone;
pub mod roundtrip;
pub mod routing;
pub mod transfer;
pub mod types;
