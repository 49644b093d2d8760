//! `/gmodstore`: shows the store profile of a linked user.

use crate::commands::Command;
use crate::flow::{Action, Event, Failure, Registration};
use crate::handler::{CommandKind, Handler};
use crate::http::User;
use crate::text::join;
use vstd::prelude::*;

verus! {

/// Raised when `/gmodstore` cannot run to its reply.
#[derive(Debug)]
pub struct GmodstoreCommandRuntimeError;

impl GmodstoreCommandRuntimeError {
    pub fn message(&self) -> (r: String)
        ensures
            r@ == "Bot Error: An error occurred whilst running the gmodstore command"@,
    {
        String::from_str("Bot Error: An error occurred whilst running the gmodstore command")
    }
}

pub struct GmodStoreCommand;

/// Where a `/gmodstore` run stands.
#[derive(Debug)]
pub enum GmodStoreState {
    Idle,
    /// Waiting for the lookup of the target.
    Account,
    Done,
}

impl GmodStoreCommand {
    /// The reply for the outcome of a lookup: the store profile of a linked
    /// user with a store id, and a fixed sentence otherwise.
    pub open spec fn reply_text(account: Option<User>) -> Seq<char> {
        match account {
            Some(user) => match user.gmod_store_id {
                Some(id) => "https://www.gmodstore.com/users/"@ + id@,
                None => "User does not have a registered GmodStore account."@,
            },
            None => "User is not linked."@,
        }
    }
}

impl Command for GmodStoreCommand {
    type State = GmodStoreState;

    open spec fn kind() -> CommandKind {
        CommandKind::GmodStore
    }

    open spec fn transition(
        state: GmodStoreState,
        event: Event,
        next: GmodStoreState,
        action: Action,
    ) -> bool {
        match (state, event) {
            (GmodStoreState::Idle, Event::Invoked(invocation)) => {
                match invocation.target_user() {
                    Ok(id) => next is Account && action == (Action::Lookup { discord_id: id }),
                    Err(why) => next is Done && action.aborts(why),
                }
            },
            (GmodStoreState::Account, Event::Account(account)) => {
                next is Done && action.replies(Self::reply_text(account))
            },
            (_, Event::Failed) => next is Done && action.aborts(Failure::StepFailed),
            _ => next is Done && action.aborts(Failure::Unexpected),
        }
    }

    fn execute(handler: &Handler, state: GmodStoreState, event: Event) -> (r: (GmodStoreState, Action))
        ensures
            Self::transition(state, event, r.0, r.1),
    {
        match (state, event) {
            (GmodStoreState::Idle, Event::Invoked(invocation)) => {
                match invocation.target_id() {
                    Ok(id) => (GmodStoreState::Account, Action::Lookup { discord_id: id }),
                    Err(reason) => (GmodStoreState::Done, Action::Abort { reason }),
                }
            },
            (GmodStoreState::Account, Event::Account(account)) => {
                let content = match account {
                    Some(user) => match user.gmod_store_id {
                        Some(id) => join("https://www.gmodstore.com/users/", id.as_str()),
                        None => String::from_str(
                            "User does not have a registered GmodStore account.",
                        ),
                    },
                    None => String::from_str("User is not linked."),
                };
                (GmodStoreState::Done, Action::Reply { content })
            },
            (_, Event::Failed) => (GmodStoreState::Done, Action::Abort { reason: Failure::StepFailed }),
            _ => (GmodStoreState::Done, Action::Abort { reason: Failure::Unexpected }),
        }
    }

    fn register() -> (r: Registration)
        ensures
            r.describes(
                "gmodstore"@,
                "Retrieve user GmodStore account page."@,
                Some(("user"@, "User to fetch"@)),
                false,
            ),
    {
        Registration {
            name: String::from_str("gmodstore"),
            description: String::from_str("Retrieve user GmodStore account page."),
            user_option: Some((String::from_str("user"), String::from_str("User to fetch"))),
            dm_permission: false,
            moderators_only: false,
        }
    }
}

} // verus!
