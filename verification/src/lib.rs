//! A peer-to-peer request protocol: profile lookup, friend requests and chat
//! requests between peers identified by public keys.
//!
//! The crate holds the protocol's rules as verified code: the wire codec, the
//! responder's per-connection state machine, the initiator's reading of a
//! response, the pending-decision queues, the friend gate and the chat-stream
//! registry. Transport and scheduling are left to the caller, which feeds the
//! state machine with events and performs the actions it returns.

pub mod identity;
pub mod profile;
pub mod codec;
pub mod friends;
pub mod chat;
pub mod pending;
pub mod service;
pub mod option_ext;
pub mod host;
pub mod connections;
