//! A scan-and-summarise agent: conversation history, chat-backend request and
//! reply handling, tool adapters, the agent's state machine, the log model and
//! the command-line parser of the dashboard.
use vstd::prelude::*;

pub mod agent;
pub mod backend;
pub mod chat;
pub mod commands;
pub mod logger;
pub mod tools;

verus! {

} // verus!
