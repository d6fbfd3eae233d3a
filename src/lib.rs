//! A trigger actor that relays messages of a broker subscription to registered workflows.
//!
//! - `workflow`: the ordered registry of workflow targets and its add/remove rules.
//! - `config`: the subscriber configuration and its validation, with defaults.
//! - `forward`: turning one delivery into one post per workflow.
//! - `actor`: the actor's lifecycle and event handling as a state machine, with its laws.

pub mod actor;
pub mod config;
pub mod forward;
pub mod workflow;
