//! Scheduling, deduplication and text rules of a persona-driven posting agent.
//!
//! The crate holds the decisions of the agent: when a post or a notification
//! check is due, which draft is accepted, what is recorded in memory, and how
//! prompts, search queries and canned answers are put together. Network and
//! file access are left to the embedding program, which feeds their results
//! back into the step functions defined here.

pub mod agent;
pub mod chance;
pub mod character;
pub mod clock;
pub mod memory;
pub mod models;
pub mod phrases;
pub mod providers;
pub mod runtime;
pub mod tally;
pub mod text;
pub mod topics;
