//! `/force-roles`: lets a moderator give another member the role of every
//! product that member owns.

use crate::commands::Command;
use crate::flow::{Action, Event, Failure, Invocation, Registration, Target};
use crate::handler::{CommandKind, Handler};
use crate::http::ApiPurchaseObject;
use crate::roles::{
    lemma_role_fan_out, not_linked_reply, not_linked_text, owned_count, roles_for, roles_of,
};
use crate::text::{join, mention, user_mention};
use vstd::prelude::*;

verus! {

pub struct ForceRolesCommand;

/// Where a `/force-roles` run stands. `target` is the member who is to
/// receive the roles.
#[derive(Debug)]
pub enum ForceRolesState {
    Idle,
    /// Waiting for the target's guild member data.
    Member { target: u64 },
    /// Waiting for the lookup of the target.
    Account { target: u64 },
    /// Waiting for the account's purchases.
    Purchases { target: u64 },
    /// Waiting for the platform to add `roles[at]`; the roles before it are
    /// added.
    Assigning { target: u64, roles: Vec<u64>, at: usize },
    Done,
}

pub open spec fn assigned_text(target: u64) -> Seq<char> {
    "Successfully added roles to "@ + mention(target as nat)
}

impl ForceRolesCommand {
    /// The member and guild that an invocation names: the first option must
    /// resolve to a user who is a member, and the command must come from a
    /// guild.
    pub open spec fn names(invocation: Invocation) -> Result<(u64, u64), Failure> {
        match invocation.target {
            Target::User { id, is_member, .. } => if is_member {
                match invocation.guild_id {
                    Some(guild_id) => Ok((guild_id, id)),
                    None => Err(Failure::NoGuild),
                }
            } else {
                Err(Failure::TargetNotMember)
            },
            Target::Missing => Err(Failure::NoTarget),
            Target::Unresolved => Err(Failure::UnresolvedTarget),
            Target::Other => Err(Failure::TargetNotUser),
        }
    }

    /// With roles left, the next one is asked for; after the last, the reply
    /// is sent.
    pub open spec fn assigning(
        target: u64,
        roles: Seq<u64>,
        at: int,
        next: ForceRolesState,
        action: Action,
    ) -> bool {
        if 0 <= at < roles.len() {
            &&& next matches ForceRolesState::Assigning { target: t, roles: r, at: a }
            &&& t == target
            &&& r@ == roles
            &&& a == at
            &&& action == (Action::AddRole { user_id: target, role: roles[at] })
        } else {
            next is Done && action.replies(assigned_text(target))
        }
    }

    fn assign(target: u64, roles: Vec<u64>, at: usize) -> (r: (ForceRolesState, Action))
        ensures
            Self::assigning(target, roles@, at as int, r.0, r.1),
    {
        if at < roles.len() {
            let role: u64 = roles[at];
            (
                ForceRolesState::Assigning { target, roles, at },
                Action::AddRole { user_id: target, role },
            )
        } else {
            let name = user_mention(target);
            (
                ForceRolesState::Done,
                Action::Reply { content: join("Successfully added roles to ", name.as_str()) },
            )
        }
    }

    fn resolve(invocation: &Invocation) -> (r: Result<(u64, u64), Failure>)
        ensures
            r == Self::names(*invocation),
    {
        match &invocation.target {
            Target::User { id, is_member, .. } => if *is_member {
                match invocation.guild_id {
                    Some(guild_id) => Ok((guild_id, *id)),
                    None => Err(Failure::NoGuild),
                }
            } else {
                Err(Failure::TargetNotMember)
            },
            Target::Missing => Err(Failure::NoTarget),
            Target::Unresolved => Err(Failure::UnresolvedTarget),
            Target::Other => Err(Failure::TargetNotUser),
        }
    }
}

impl Command for ForceRolesCommand {
    type State = ForceRolesState;

    open spec fn kind() -> CommandKind {
        CommandKind::ForceRoles
    }

    open spec fn transition(
        state: ForceRolesState,
        event: Event,
        next: ForceRolesState,
        action: Action,
    ) -> bool {
        match (state, event) {
            (ForceRolesState::Idle, Event::Invoked(invocation)) => {
                match Self::names(invocation) {
                    Ok((guild_id, user_id)) => next == (ForceRolesState::Member {
                        target: user_id,
                    }) && action == (Action::FetchMember { guild_id, user_id }),
                    Err(why) => next is Done && action.aborts(why),
                }
            },
            (ForceRolesState::Member { target }, Event::Member) => {
                next == (ForceRolesState::Account { target }) && action == (Action::Lookup {
                    discord_id: target,
                })
            },
            (ForceRolesState::Account { target }, Event::Account(None)) => {
                next is Done && action.replies(not_linked_text())
            },
            (ForceRolesState::Account { target }, Event::Account(Some(user))) => {
                next == (ForceRolesState::Purchases { target }) && action == (
                Action::FetchPurchases { user })
            },
            (ForceRolesState::Purchases { target }, Event::Purchases(purchases)) => {
                Self::assigning(target, roles_of(purchases), 0, next, action)
            },
            (ForceRolesState::Assigning { target, roles, at }, Event::RoleAdded) => {
                if at < roles@.len() {
                    Self::assigning(target, roles@, at + 1, next, action)
                } else {
                    next is Done && action.aborts(Failure::Unexpected)
                }
            },
            (_, Event::Failed) => next is Done && action.aborts(Failure::StepFailed),
            _ => next is Done && action.aborts(Failure::Unexpected),
        }
    }

    fn execute(handler: &Handler, state: ForceRolesState, event: Event) -> (r: (ForceRolesState, Action))
        ensures
            Self::transition(state, event, r.0, r.1),
    {
        match (state, event) {
            (ForceRolesState::Idle, Event::Invoked(invocation)) => {
                match Self::resolve(&invocation) {
                    Ok((guild_id, user_id)) => (
                        ForceRolesState::Member { target: user_id },
                        Action::FetchMember { guild_id, user_id },
                    ),
                    Err(reason) => (ForceRolesState::Done, Action::Abort { reason }),
                }
            },
            (ForceRolesState::Member { target }, Event::Member) => (
                ForceRolesState::Account { target },
                Action::Lookup { discord_id: target },
            ),
            (ForceRolesState::Account { target }, Event::Account(None)) => (
                ForceRolesState::Done,
                Action::Reply { content: not_linked_reply() },
            ),
            (ForceRolesState::Account { target }, Event::Account(Some(user))) => (
                ForceRolesState::Purchases { target },
                Action::FetchPurchases { user },
            ),
            (ForceRolesState::Purchases { target }, Event::Purchases(purchases)) => Self::assign(
                target,
                roles_for(&purchases),
                0,
            ),
            (ForceRolesState::Assigning { target, roles, at }, Event::RoleAdded) => {
                if at < roles.len() {
                    Self::assign(target, roles, at + 1)
                } else {
                    (ForceRolesState::Done, Action::Abort { reason: Failure::Unexpected })
                }
            },
            (_, Event::Failed) => (ForceRolesState::Done, Action::Abort { reason: Failure::StepFailed }),
            _ => (ForceRolesState::Done, Action::Abort { reason: Failure::Unexpected }),
        }
    }

    fn register() -> (r: Registration)
        ensures
            r.describes(
                "force-roles"@,
                "Forcefully assign roles to a user"@,
                Some(("member"@, "User to force roles upon."@)),
                true,
            ),
    {
        Registration {
            name: String::from_str("force-roles"),
            description: String::from_str("Forcefully assign roles to a user"),
            user_option: Some(
                (String::from_str("member"), String::from_str("User to force roles upon.")),
            ),
            dm_permission: false,
            moderators_only: true,
        }
    }
}

/// Role fan-out of `/force-roles`: once the purchases are known, the roles of
/// the owned products are asked for one after another, in table order, and
/// the reply follows the last. `at` counts the roles asked for so far; with k
/// products owned the step after them asks for a role exactly while `at < k`.
pub proof fn lemma_roles_issued_in_order(
    purchases: ApiPurchaseObject,
    target: u64,
    at: int,
    state: ForceRolesState,
    next: ForceRolesState,
    action: Action,
)
    requires
        0 <= at <= owned_count(purchases),
        if at == 0 {
            state == (ForceRolesState::Purchases { target }) && ForceRolesCommand::transition(
                state,
                Event::Purchases(purchases),
                next,
                action,
            )
        } else {
            &&& state matches ForceRolesState::Assigning { target: t, roles, at: a }
            &&& t == target
            &&& roles@ == roles_of(purchases)
            &&& a == at - 1
            &&& ForceRolesCommand::transition(state, Event::RoleAdded, next, action)
        },
    ensures
        if at < owned_count(purchases) {
            &&& action == (Action::AddRole { user_id: target, role: roles_of(purchases)[at] })
            &&& next matches ForceRolesState::Assigning { target: t, roles, at: a }
            &&& t == target
            &&& roles@ == roles_of(purchases)
            &&& a == at
        } else {
            next is Done && action.replies(assigned_text(target))
        },
{
    lemma_role_fan_out(purchases);
}

} // verus!
