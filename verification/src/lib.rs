//! Core of a realtime-audio relay session.
//!
//! The relay bridges a browser-facing audio socket to an upstream realtime
//! speech service: binary PCM frames flow up as base64-wrapped JSON append
//! events, upstream JSON events flow back down either verbatim or decoded
//! into binary audio. This crate holds the decision logic of that relay —
//! wire-message construction, upstream event classification, the
//! conversation-phase state machine, the per-session step function and the
//! bounded connect-retry policy — each with a verified contract. The socket
//! plumbing around it stays outside and feeds events in as plain values.

pub mod codec;
pub mod conversation;
pub mod protocol;
pub mod retry;
pub mod session;
pub mod simulator;
