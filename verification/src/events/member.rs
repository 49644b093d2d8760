//! Member join: a welcome message, and the verified role for members who
//! arrive with a linked account.

use crate::flow::{Action, Embed, EmbedField, Event, Failure};
use crate::roles::VERIFIED_ROLE;
use crate::text::{channel_mention, channel_mention_text, join, mention, user_mention};
use vstd::prelude::*;

verus! {

/// Raised when the join hook cannot run to its end.
#[derive(Debug)]
pub struct MemberCreateEventRuntimeError;

impl MemberCreateEventRuntimeError {
    pub fn message(&self) -> (r: String)
        ensures
            r@ == "Bot Error: An error occurred whilst running the member_add event hooks"@,
    {
        String::from_str("Bot Error: An error occurred whilst running the member_add event hooks")
    }
}

/// Channel in which new members are welcomed.
pub const WELCOME_CHANNEL: u64 = 884064278112522260;

/// Channel that explains how to get verified.
pub const VERIFY_CHANNEL: u64 = 884069163306479647;

/// Channel that holds the rules.
pub const RULES_CHANNEL: u64 = 884050630241550376;

/// Colour of the welcome embed.
pub const WELCOME_COLOUR: u32 = 0x85F2F2;

/// Where a run of the join hook stands. `user_id` is the new member.
#[derive(Debug)]
pub enum JoinState {
    Idle,
    /// Waiting for the guild's channels.
    Channels { user_id: u64 },
    /// Waiting for the welcome message to be sent.
    Welcome { user_id: u64 },
    /// Waiting for the lookup of the new member.
    Account { user_id: u64 },
    /// Waiting for the platform to add the verified role.
    Role,
    Done,
}

pub open spec fn welcome_description() -> Seq<char> {
    "Welcome to the support server for Leystryku's GmodStore addons.\n                If you are not already verified please read "@
        + channel_mention_text(VERIFY_CHANNEL as nat)
}

/// Whether `action` sends the welcome message for `user_id` to the welcome
/// channel.
pub open spec fn welcomes(action: Action, user_id: u64) -> bool {
    &&& action matches Action::Welcome { channel_id, content, embed }
    &&& channel_id == WELCOME_CHANNEL
    &&& content@ == mention(user_id as nat)
    &&& embed.title@ == "Welcome"@
    &&& embed.description@ == welcome_description()
    &&& embed.colour == WELCOME_COLOUR
    &&& embed.author is None
    &&& embed.field matches Some(field)
    &&& field.name@ == "**Please remember to read the rules**"@
    &&& field.value@ == channel_mention_text(RULES_CHANNEL as nat)
    &&& !field.inline
}

/// The transition relation of the join hook.
pub open spec fn join_transition(
    state: JoinState,
    event: Event,
    next: JoinState,
    action: Action,
) -> bool {
    match (state, event) {
        (JoinState::Idle, Event::Joined { user_id }) => {
            next == (JoinState::Channels { user_id }) && action is FetchChannels
        },
        (JoinState::Channels { user_id }, Event::Channels(ids)) => {
            if ids@.contains(WELCOME_CHANNEL) {
                next == (JoinState::Welcome { user_id }) && welcomes(action, user_id)
            } else {
                next == (JoinState::Account { user_id }) && action == (Action::Lookup {
                    discord_id: user_id,
                })
            }
        },
        (JoinState::Welcome { user_id }, Event::Sent) => {
            next == (JoinState::Account { user_id }) && action == (Action::Lookup {
                discord_id: user_id,
            })
        },
        (JoinState::Account { user_id }, Event::Account(Some(_))) => {
            next is Role && action == (Action::AddRole { user_id, role: VERIFIED_ROLE })
        },
        (JoinState::Account { user_id }, Event::Account(None)) => next is Done && action is Finish,
        (JoinState::Role, Event::RoleAdded) => next is Done && action is Finish,
        (_, Event::Failed) => next is Done && action.aborts(Failure::StepFailed),
        _ => next is Done && action.aborts(Failure::Unexpected),
    }
}

/// Decides whether `id` is among `ids`.
pub fn has_channel(ids: &Vec<u64>, id: u64) -> (r: bool)
    ensures
        r == ids@.contains(id),
{
    let mut i: usize = 0;
    while i < ids.len()
        invariant
            i <= ids.len(),
            forall|j: int| 0 <= j < i ==> ids@[j] != id,
        decreases ids.len() - i,
    {
        if ids[i] == id {
            return true;
        }
        i = i + 1;
    }
    false
}

fn welcome(user_id: u64) -> (r: Action)
    ensures
        welcomes(r, user_id),
{
    let verify = channel_mention(VERIFY_CHANNEL);
    let embed = Embed {
        title: String::from_str("Welcome"),
        description: join(
            "Welcome to the support server for Leystryku's GmodStore addons.\n                If you are not already verified please read ",
            verify.as_str(),
        ),
        colour: WELCOME_COLOUR,
        author: None,
        field: Some(
            EmbedField {
                name: String::from_str("**Please remember to read the rules**"),
                value: channel_mention(RULES_CHANNEL),
                inline: false,
            },
        ),
    };
    Action::Welcome { channel_id: WELCOME_CHANNEL, content: user_mention(user_id), embed }
}

/// Takes one step of the join hook.
pub fn member_create(state: JoinState, event: Event) -> (r: (JoinState, Action))
    ensures
        join_transition(state, event, r.0, r.1),
{
    match (state, event) {
        (JoinState::Idle, Event::Joined { user_id }) => (
            JoinState::Channels { user_id },
            Action::FetchChannels,
        ),
        (JoinState::Channels { user_id }, Event::Channels(ids)) => {
            if has_channel(&ids, WELCOME_CHANNEL) {
                (JoinState::Welcome { user_id }, welcome(user_id))
            } else {
                (JoinState::Account { user_id }, Action::Lookup { discord_id: user_id })
            }
        },
        (JoinState::Welcome { user_id }, Event::Sent) => (
            JoinState::Account { user_id },
            Action::Lookup { discord_id: user_id },
        ),
        (JoinState::Account { user_id }, Event::Account(Some(_))) => (
            JoinState::Role,
            Action::AddRole { user_id, role: VERIFIED_ROLE },
        ),
        (JoinState::Account { user_id }, Event::Account(None)) => (JoinState::Done, Action::Finish),
        (JoinState::Role, Event::RoleAdded) => (JoinState::Done, Action::Finish),
        (_, Event::Failed) => (JoinState::Done, Action::Abort { reason: Failure::StepFailed }),
        _ => (JoinState::Done, Action::Abort { reason: Failure::Unexpected }),
    }
}

} // verus!
