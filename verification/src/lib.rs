//! Verified core of a peer-to-peer synchronization overlay.
//!
//! Independent nodes discover each other, exchange identity metadata, and
//! keep shared datasets (libraries) consistent by disseminating causally
//! ordered change operations to every connected peer, while also serving
//! direct request/response queries between two specific peers.
//!
//! This crate holds the decision logic only: the wire codec, the request
//! dispatcher, the sync broadcaster, the discovery reactor, the liveness
//! prober and the overlay state machine that ties them together.  The raw
//! transport, the async runtime and all I/O live outside and drive these
//! functions with plain values.

pub mod broadcast;
pub mod codec;
pub mod discovery;
pub mod dispatch;
pub mod error;
pub mod manager;
pub mod peer_metadata;
pub mod prober;
pub mod proto;
pub mod target;
