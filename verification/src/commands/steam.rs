//! `/steam`: shows the Steam profile of a linked user.

use crate::commands::Command;
use crate::flow::{Action, Event, Failure, Registration};
use crate::handler::{CommandKind, Handler};
use crate::http::User;
use crate::text::{decimal, decimal_string, join};
use vstd::prelude::*;

verus! {

pub struct SteamCommand;

/// Where a `/steam` run stands.
#[derive(Debug)]
pub enum SteamState {
    Idle,
    /// Waiting for the lookup of the target.
    Account,
    Done,
}

impl SteamCommand {
    /// The reply for the outcome of a lookup: the Steam profile of a linked
    /// user, and a fixed sentence otherwise.
    pub open spec fn reply_text(account: Option<User>) -> Seq<char> {
        match account {
            Some(user) => "https://steamcommunity.com/profiles/"@ + decimal(user.steam_id as nat),
            None => "User is not linked."@,
        }
    }

}

impl Command for SteamCommand {
    type State = SteamState;

    open spec fn kind() -> CommandKind {
        CommandKind::Steam
    }

    open spec fn transition(
        state: SteamState,
        event: Event,
        next: SteamState,
        action: Action,
    ) -> bool {
        match (state, event) {
            (SteamState::Idle, Event::Invoked(invocation)) => {
                match invocation.target_user() {
                    Ok(id) => next is Account && action == (Action::Lookup { discord_id: id }),
                    Err(why) => next is Done && action.aborts(why),
                }
            },
            (SteamState::Account, Event::Account(account)) => {
                next is Done && action.replies(Self::reply_text(account))
            },
            (_, Event::Failed) => next is Done && action.aborts(Failure::StepFailed),
            _ => next is Done && action.aborts(Failure::Unexpected),
        }
    }

    fn execute(handler: &Handler, state: SteamState, event: Event) -> (r: (SteamState, Action))
        ensures
            Self::transition(state, event, r.0, r.1),
    {
        match (state, event) {
            (SteamState::Idle, Event::Invoked(invocation)) => {
                match invocation.target_id() {
                    Ok(id) => (SteamState::Account, Action::Lookup { discord_id: id }),
                    Err(reason) => (SteamState::Done, Action::Abort { reason }),
                }
            },
            (SteamState::Account, Event::Account(account)) => {
                let content = match account {
                    Some(user) => {
                        let id = decimal_string(user.steam_id);
                        join("https://steamcommunity.com/profiles/", id.as_str())
                    },
                    None => String::from_str("User is not linked."),
                };
                (SteamState::Done, Action::Reply { content })
            },
            (_, Event::Failed) => (SteamState::Done, Action::Abort { reason: Failure::StepFailed }),
            _ => (SteamState::Done, Action::Abort { reason: Failure::Unexpected }),
        }
    }

    fn register() -> (r: Registration)
        ensures
            r.describes(
                "steam"@,
                "Retrieve user Steam account page."@,
                Some(("user"@, "User to fetch"@)),
                false,
            ),
    {
        Registration {
            name: String::from_str("steam"),
            description: String::from_str("Retrieve user Steam account page."),
            user_option: Some((String::from_str("user"), String::from_str("User to fetch"))),
            dm_permission: false,
            moderators_only: false,
        }
    }
}

} // verus!
