//! A commit-message wizard: the message fragments, the rules each step
//! applies to them, and the state machine that orders the steps.

pub mod cli;
pub mod commit;
pub mod error;
pub mod text;
pub mod git;
pub mod shell;
pub mod ticket;
pub mod wizard;
