//! Delivery of one text notification to a named room of a federated chat
//! network, written as decision logic that performs no input or output itself.
//!
//! The caller carries out the actions that the state machines here ask for
//! (building a client, restoring or logging in a session, synchronising,
//! sending, waiting) and reports back what came of each.

pub mod attempt;
pub mod authenticator;
pub mod config;
pub mod dispatcher;
pub mod notifier;
pub mod orchestrator;
pub mod outcome;
pub mod protocol;
pub mod resolver;
