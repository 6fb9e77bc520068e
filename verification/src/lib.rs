//! Protocol engine of a remote-API bridge: it exposes a pub/sub/query
//! messaging fabric to remote clients over a framed binary connection.
//!
//! The crate holds the verified core of the bridge:
//! - the wire codec for the framed binary protocol ([`codec`], [`wire`]),
//! - the bit-packed quality-of-service and query-settings bytes ([`qos`]),
//! - the per-connection protocol state and dispatcher ([`state`]),
//! - the bounded table of in-flight queries ([`pending`]),
//! - key-expression validity and algebra ([`keyexpr`]),
//! - the admin-directory record of one client ([`admin`]),
//! - the plugin configuration surface ([`config`]).
//!
//! Transport, TLS, and the fabric runtime itself live outside this crate;
//! the engine hands them plain values and validated actions.

use vstd::prelude::*;

pub mod admin;
pub mod codec;
pub mod config;
pub mod keyexpr;
pub mod messages;
pub mod pending;
pub mod qos;
pub mod state;
pub mod table;
pub mod wire;

verus! {

/// Marker type for the bridge plugin. The hosting process registers it with
/// the fabric runtime and drives [`state::RemoteState`] for each connection.
pub struct RemoteApiPlugin;

} // verus!
