//! Verified core of a REST bridge for the Primare I22 amplifier's RS232 port:
//! frame encoding and decoding with DLE escaping, the command table, the
//! connection state machine that interprets the amplifier's replies, and the
//! request/response logic of the HTTP API.

pub mod protocol;
pub mod error;
pub mod commands;
pub mod api;
pub mod device;
pub mod state;
pub mod laws;
