//! Verified core of a forwarding gateway.
//!
//! Clients hand the gateway binary frames that start with an encoded node address; the gateway
//! splits each frame into the destination and the payload and forwards the payload through one
//! shared outbound handle. This crate holds the decisions of that gateway as plain functions:
//! the frame decoder, the per-connection session, the listener and the discipline of the shared
//! handle. The program around it performs the network operations and reports their outcomes.

pub mod address;
pub mod envelope;
pub mod fault;
pub mod lane;
pub mod listener;
pub mod session;
