//! The loop that decides when the agent acts, and the two cycles that it
//! runs: posting and answering notifications.
//!
//! Each cycle is a state machine. The embedding program performs the action
//! that a step returns, and hands the result back as the next event.

pub mod notify;
pub mod post;
pub mod schedule;
pub mod state;
