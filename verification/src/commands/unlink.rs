//! `/unlink`: lets a moderator remove the link of a user.

use crate::commands::Command;
use crate::flow::{Action, Event, Failure, Registration};
use crate::handler::{CommandKind, Handler};
use crate::text::{join, mention, user_mention};
use vstd::prelude::*;

verus! {

pub struct UnlinkCommand;

/// Where an `/unlink` run stands. `target` is the user whose link goes.
#[derive(Debug)]
pub enum UnlinkState {
    Idle,
    /// Waiting for the lookup of the target.
    Account { target: u64 },
    /// Waiting for the link service to delete the link.
    Unlinking { target: u64 },
    Done,
}

pub open spec fn not_linked_text(target: u64) -> Seq<char> {
    mention(target as nat) + " is not linked."@
}

pub open spec fn unlinked_text(target: u64) -> Seq<char> {
    "Unlinked "@ + mention(target as nat)
}

impl Command for UnlinkCommand {
    type State = UnlinkState;

    open spec fn kind() -> CommandKind {
        CommandKind::Unlink
    }

    open spec fn transition(
        state: UnlinkState,
        event: Event,
        next: UnlinkState,
        action: Action,
    ) -> bool {
        match (state, event) {
            (UnlinkState::Idle, Event::Invoked(invocation)) => {
                match invocation.target_user() {
                    Ok(id) => next == (UnlinkState::Account { target: id }) && action == (
                    Action::Lookup { discord_id: id }),
                    Err(why) => next is Done && action.aborts(why),
                }
            },
            (UnlinkState::Account { target }, Event::Account(None)) => {
                next is Done && action.replies(not_linked_text(target))
            },
            (UnlinkState::Account { target }, Event::Account(Some(user))) => {
                next == (UnlinkState::Unlinking { target }) && action == (Action::Unlink { user })
            },
            (UnlinkState::Unlinking { target }, Event::Unlinked) => {
                next is Done && action.replies(unlinked_text(target))
            },
            (_, Event::Failed) => next is Done && action.aborts(Failure::StepFailed),
            _ => next is Done && action.aborts(Failure::Unexpected),
        }
    }

    fn execute(handler: &Handler, state: UnlinkState, event: Event) -> (r: (UnlinkState, Action))
        ensures
            Self::transition(state, event, r.0, r.1),
    {
        match (state, event) {
            (UnlinkState::Idle, Event::Invoked(invocation)) => {
                match invocation.target_id() {
                    Ok(id) => (UnlinkState::Account { target: id }, Action::Lookup {
                        discord_id: id,
                    }),
                    Err(reason) => (UnlinkState::Done, Action::Abort { reason }),
                }
            },
            (UnlinkState::Account { target }, Event::Account(None)) => {
                let content = user_mention(target).concat(" is not linked.");
                (UnlinkState::Done, Action::Reply { content })
            },
            (UnlinkState::Account { target }, Event::Account(Some(user))) => (
                UnlinkState::Unlinking { target },
                Action::Unlink { user },
            ),
            (UnlinkState::Unlinking { target }, Event::Unlinked) => {
                let name = user_mention(target);
                (UnlinkState::Done, Action::Reply { content: join("Unlinked ", name.as_str()) })
            },
            (_, Event::Failed) => (UnlinkState::Done, Action::Abort { reason: Failure::StepFailed }),
            _ => (UnlinkState::Done, Action::Abort { reason: Failure::Unexpected }),
        }
    }

    fn register() -> (r: Registration)
        ensures
            r.describes(
                "unlink"@,
                "Unlink user account"@,
                Some(("user"@, "The user to unlink"@)),
                true,
            ),
    {
        Registration {
            name: String::from_str("unlink"),
            description: String::from_str("Unlink user account"),
            user_option: Some((String::from_str("user"), String::from_str("The user to unlink"))),
            dm_permission: false,
            moderators_only: true,
        }
    }
}

} // verus!
