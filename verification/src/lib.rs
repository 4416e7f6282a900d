//! Relay between a clipboard-capture node and an inference node.
//!
//! The two nodes exchange unframed text byte streams over fresh, unidirectional
//! connections, one per exchange. This crate holds the shared stream-consumption
//! protocol and the state machine that drives each node; the surrounding process
//! performs the socket, clipboard, keyboard and inference calls and feeds their
//! outcomes back in as events.

pub mod address;
pub mod capture;
pub mod infer;
pub mod keys;
pub mod session;
pub mod stream;
