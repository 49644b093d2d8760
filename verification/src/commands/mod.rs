//! The slash commands. Each command is a small machine: `execute` takes the
//! state it is in and the event that the runner reports, and answers with the
//! next state and the step to perform.

pub mod coupon;
pub mod forceroles;
pub mod gmodstore;
pub mod purchases;
pub mod roles;
pub mod steam;
pub mod unlink;

use crate::flow::{Action, Event, Registration};
use crate::handler::{CommandKind, Handler};
use vstd::prelude::*;

verus! {

/// A slash command: what it registers, and how it moves from one state to
/// the next.
pub trait Command {
    /// Where a run of the command can stand.
    type State;

    /// Which of the known commands this is.
    spec fn kind() -> CommandKind;

    /// The transition relation: whether, in `state`, the report `event` may
    /// be answered with the state `next` and the step `action`.
    spec fn transition(state: Self::State, event: Event, next: Self::State, action: Action) -> bool;

    /// Takes one step of the command.
    fn execute(handler: &Handler, state: Self::State, event: Event) -> (r: (Self::State, Action))
        ensures
            Self::transition(state, event, r.0, r.1),
    ;

    /// What the command puts forward when it is registered.
    fn register() -> (r: Registration)
        ensures
            r.name@ == Self::kind().name(),
            !r.dm_permission,
    ;
}

/// Raised when a command cannot run to its reply.
#[derive(Debug)]
pub struct CommandRuntimeError;

impl CommandRuntimeError {
    pub fn message(&self) -> (r: String)
        ensures
            r@ == "Bot Error: An error occurred whilst running a command"@,
    {
        String::from_str("Bot Error: An error occurred whilst running a command")
    }
}

} // verus!
