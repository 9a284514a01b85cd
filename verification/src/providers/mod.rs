//! What the agent knows of the services that it talks to.

pub mod solanatracker;
