//! `/roles`: gives the invoking member the role of every product they own.

use crate::commands::Command;
use crate::flow::{Action, Event, Failure, Registration};
use crate::handler::{CommandKind, Handler};
use crate::http::ApiPurchaseObject;
use crate::roles::{
    lemma_role_fan_out, not_linked_reply, not_linked_text, owned_count, roles_for, roles_of,
};
use vstd::prelude::*;

verus! {

pub struct RolesCommand;

/// Where a `/roles` run stands. `member` is the invoking member, who is to
/// receive the roles.
#[derive(Debug)]
pub enum RolesState {
    Idle,
    /// Waiting for the lookup of the invoking user.
    Account { member: u64 },
    /// Waiting for the account's purchases.
    Purchases { member: u64 },
    /// Waiting for the platform to add `roles[at]`; the roles before it are
    /// added.
    Assigning { member: u64, roles: Vec<u64>, at: usize },
    Done,
}

pub open spec fn assigned_text() -> Seq<char> {
    "Your roles have been assigned"@
}

impl RolesCommand {
    /// With roles left, the next one is asked for; after the last, the reply
    /// is sent.
    pub open spec fn assigning(
        member: u64,
        roles: Seq<u64>,
        at: int,
        next: RolesState,
        action: Action,
    ) -> bool {
        if 0 <= at < roles.len() {
            &&& next matches RolesState::Assigning { member: m, roles: r, at: a }
            &&& m == member
            &&& r@ == roles
            &&& a == at
            &&& action == (Action::AddRole { user_id: member, role: roles[at] })
        } else {
            next is Done && action.replies(assigned_text())
        }
    }

    fn assign(member: u64, roles: Vec<u64>, at: usize) -> (r: (RolesState, Action))
        ensures
            Self::assigning(member, roles@, at as int, r.0, r.1),
    {
        if at < roles.len() {
            let role: u64 = roles[at];
            (
                RolesState::Assigning { member, roles, at },
                Action::AddRole { user_id: member, role },
            )
        } else {
            (
                RolesState::Done,
                Action::Reply { content: String::from_str("Your roles have been assigned") },
            )
        }
    }
}

impl Command for RolesCommand {
    type State = RolesState;

    open spec fn kind() -> CommandKind {
        CommandKind::Roles
    }

    open spec fn transition(
        state: RolesState,
        event: Event,
        next: RolesState,
        action: Action,
    ) -> bool {
        match (state, event) {
            (RolesState::Idle, Event::Invoked(invocation)) => {
                if invocation.has_member {
                    next == (RolesState::Account { member: invocation.user_id }) && action == (
                    Action::Lookup { discord_id: invocation.user_id })
                } else {
                    next is Done && action.aborts(Failure::NoMember)
                }
            },
            (RolesState::Account { member }, Event::Account(None)) => {
                next is Done && action.replies(not_linked_text())
            },
            (RolesState::Account { member }, Event::Account(Some(user))) => {
                next == (RolesState::Purchases { member }) && action == (Action::FetchPurchases {
                    user,
                })
            },
            (RolesState::Purchases { member }, Event::Purchases(purchases)) => {
                Self::assigning(member, roles_of(purchases), 0, next, action)
            },
            (RolesState::Assigning { member, roles, at }, Event::RoleAdded) => {
                if at < roles@.len() {
                    Self::assigning(member, roles@, at + 1, next, action)
                } else {
                    next is Done && action.aborts(Failure::Unexpected)
                }
            },
            (_, Event::Failed) => next is Done && action.aborts(Failure::StepFailed),
            _ => next is Done && action.aborts(Failure::Unexpected),
        }
    }

    fn execute(handler: &Handler, state: RolesState, event: Event) -> (r: (RolesState, Action))
        ensures
            Self::transition(state, event, r.0, r.1),
    {
        match (state, event) {
            (RolesState::Idle, Event::Invoked(invocation)) => {
                if invocation.has_member {
                    (
                        RolesState::Account { member: invocation.user_id },
                        Action::Lookup { discord_id: invocation.user_id },
                    )
                } else {
                    (RolesState::Done, Action::Abort { reason: Failure::NoMember })
                }
            },
            (RolesState::Account { member }, Event::Account(None)) => (
                RolesState::Done,
                Action::Reply { content: not_linked_reply() },
            ),
            (RolesState::Account { member }, Event::Account(Some(user))) => (
                RolesState::Purchases { member },
                Action::FetchPurchases { user },
            ),
            (RolesState::Purchases { member }, Event::Purchases(purchases)) => Self::assign(
                member,
                roles_for(&purchases),
                0,
            ),
            (RolesState::Assigning { member, roles, at }, Event::RoleAdded) => {
                if at < roles.len() {
                    Self::assign(member, roles, at + 1)
                } else {
                    (RolesState::Done, Action::Abort { reason: Failure::Unexpected })
                }
            },
            (_, Event::Failed) => (RolesState::Done, Action::Abort { reason: Failure::StepFailed }),
            _ => (RolesState::Done, Action::Abort { reason: Failure::Unexpected }),
        }
    }

    fn register() -> (r: Registration)
        ensures
            r.describes("roles"@, "Get access to the support channels"@, None, false),
    {
        Registration {
            name: String::from_str("roles"),
            description: String::from_str("Get access to the support channels"),
            user_option: None,
            dm_permission: false,
            moderators_only: false,
        }
    }
}

/// Role fan-out of `/roles`: once the purchases are known, the roles of the
/// owned products are asked for one after another, in table order, and the
/// reply follows the last. `at` counts the roles asked for so far; with k
/// products owned the step after them asks for a role exactly while `at < k`.
pub proof fn lemma_roles_issued_in_order(
    purchases: ApiPurchaseObject,
    member: u64,
    at: int,
    state: RolesState,
    next: RolesState,
    action: Action,
)
    requires
        0 <= at <= owned_count(purchases),
        if at == 0 {
            state == (RolesState::Purchases { member }) && RolesCommand::transition(
                state,
                Event::Purchases(purchases),
                next,
                action,
            )
        } else {
            &&& state matches RolesState::Assigning { member: m, roles, at: a }
            &&& m == member
            &&& roles@ == roles_of(purchases)
            &&& a == at - 1
            &&& RolesCommand::transition(state, Event::RoleAdded, next, action)
        },
    ensures
        if at < owned_count(purchases) {
            &&& action == (Action::AddRole { user_id: member, role: roles_of(purchases)[at] })
            &&& next matches RolesState::Assigning { member: m, roles, at: a }
            &&& m == member
            &&& roles@ == roles_of(purchases)
            &&& a == at
        } else {
            next is Done && action.replies(assigned_text())
        },
{
    lemma_role_fan_out(purchases);
}

} // verus!
