//! An in-process publish/subscribe messaging kernel.
//!
//! Modules exchange typed messages through topic subscriptions that a central
//! broker keeps and routes. This crate holds the message protocol, the
//! reactions of the example module roles, and the broker's registry and
//! dispatch rules; running the workers and moving messages over channels is
//! left to the embedding program.

pub mod broker;
pub mod laws;
pub mod messages;
pub mod module;
pub mod roles;
