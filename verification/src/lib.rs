//! Inbound federation core of a federated forum backend.
//!
//! The hard part of the backend is the inbox pipeline: a signed activity
//! arrives from a remote server, its signature is checked against the claimed
//! actor's key, replays are absorbed, the activity is routed to the follow
//! handshake or to the object translator, and accepted community activities
//! are announced to followers. This crate verifies that pipeline as a
//! transition over a model of the storage collaborator's state; the network,
//! database and HTTP edges stay outside.

pub mod aggregates;
pub mod api;
pub mod api_structs;
pub mod community;
pub mod ids;
pub mod inbox;
pub mod person;
pub mod post;
pub mod store;
pub mod text;
