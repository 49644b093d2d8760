//! Dispatch: which command a name stands for, what is registered with the
//! platform, and one step of whichever command is running.

use crate::commands::coupon::{CouponCommand, CouponState};
use crate::commands::forceroles::{ForceRolesCommand, ForceRolesState};
use crate::commands::gmodstore::{GmodStoreCommand, GmodStoreState};
use crate::commands::purchases::{PurchasesCommand, PurchasesState};
use crate::commands::roles::{RolesCommand, RolesState};
use crate::commands::steam::{SteamCommand, SteamState};
use crate::commands::unlink::{UnlinkCommand, UnlinkState};
use crate::commands::Command;
use crate::flow::{Action, Event, Registration};
use crate::http::HttpClient;
use vstd::prelude::*;

verus! {

/// Shared, read-only context of all commands and event hooks.
#[derive(Debug)]
pub struct Handler {
    pub http: HttpClient,
}

/// The commands that the bot knows.
#[derive(Clone, Copy, Debug, PartialEq, Eq, Structural)]
pub enum CommandKind {
    Coupon,
    ForceRoles,
    GmodStore,
    Purchases,
    Roles,
    Steam,
    Unlink,
}

impl CommandKind {
    /// The name under which the command is registered and invoked.
    pub open spec fn name(self) -> Seq<char> {
        match self {
            CommandKind::Coupon => "coupon"@,
            CommandKind::ForceRoles => "force-roles"@,
            CommandKind::GmodStore => "gmodstore"@,
            CommandKind::Purchases => "purchases"@,
            CommandKind::Roles => "roles"@,
            CommandKind::Steam => "steam"@,
            CommandKind::Unlink => "unlink"@,
        }
    }

    /// The command that a name stands for, if any.
    pub open spec fn named(name: Seq<char>) -> Option<CommandKind> {
        if name == CommandKind::Coupon.name() {
            Some(CommandKind::Coupon)
        } else if name == CommandKind::ForceRoles.name() {
            Some(CommandKind::ForceRoles)
        } else if name == CommandKind::GmodStore.name() {
            Some(CommandKind::GmodStore)
        } else if name == CommandKind::Purchases.name() {
            Some(CommandKind::Purchases)
        } else if name == CommandKind::Roles.name() {
            Some(CommandKind::Roles)
        } else if name == CommandKind::Steam.name() {
            Some(CommandKind::Steam)
        } else if name == CommandKind::Unlink.name() {
            Some(CommandKind::Unlink)
        } else {
            None
        }
    }

    /// The order in which the commands are registered.
    pub open spec fn all() -> Seq<CommandKind> {
        seq![
            CommandKind::Coupon,
            CommandKind::ForceRoles,
            CommandKind::GmodStore,
            CommandKind::Purchases,
            CommandKind::Roles,
            CommandKind::Steam,
            CommandKind::Unlink,
        ]
    }

    /// What the command registers.
    pub fn register(self) -> (r: Registration)
        ensures
            r.name@ == self.name(),
            !r.dm_permission,
    {
        match self {
            CommandKind::Coupon => CouponCommand::register(),
            CommandKind::ForceRoles => ForceRolesCommand::register(),
            CommandKind::GmodStore => GmodStoreCommand::register(),
            CommandKind::Purchases => PurchasesCommand::register(),
            CommandKind::Roles => RolesCommand::register(),
            CommandKind::Steam => SteamCommand::register(),
            CommandKind::Unlink => UnlinkCommand::register(),
        }
    }
}

/// No two commands share a name, so every name finds its own command.
pub proof fn lemma_names_route_back(kind: CommandKind)
    ensures
        CommandKind::named(kind.name()) == Some(kind),
{
    reveal_strlit("coupon");
    reveal_strlit("force-roles");
    reveal_strlit("gmodstore");
    reveal_strlit("purchases");
    reveal_strlit("roles");
    reveal_strlit("steam");
    reveal_strlit("unlink");
    assert("coupon"@.len() == 6 && "coupon"@[0] == 'c');
    assert("force-roles"@.len() == 11);
    assert("gmodstore"@.len() == 9 && "gmodstore"@[0] == 'g');
    assert("purchases"@.len() == 9 && "purchases"@[0] == 'p');
    assert("roles"@.len() == 5 && "roles"@[0] == 'r');
    assert("steam"@.len() == 5 && "steam"@[0] == 's');
    assert("unlink"@.len() == 6 && "unlink"@[0] == 'u');
}

/// A running command together with the state it is in.
#[derive(Debug)]
pub enum Session {
    Coupon(CouponState),
    ForceRoles(ForceRolesState),
    GmodStore(GmodStoreState),
    Purchases(PurchasesState),
    Roles(RolesState),
    Steam(SteamState),
    Unlink(UnlinkState),
}

impl Session {
    pub open spec fn kind(self) -> CommandKind {
        match self {
            Session::Coupon(_) => CommandKind::Coupon,
            Session::ForceRoles(_) => CommandKind::ForceRoles,
            Session::GmodStore(_) => CommandKind::GmodStore,
            Session::Purchases(_) => CommandKind::Purchases,
            Session::Roles(_) => CommandKind::Roles,
            Session::Steam(_) => CommandKind::Steam,
            Session::Unlink(_) => CommandKind::Unlink,
        }
    }

    /// Whether the command has not taken a step yet.
    pub open spec fn is_idle(self) -> bool {
        match self {
            Session::Coupon(s) => s is Idle,
            Session::ForceRoles(s) => s is Idle,
            Session::GmodStore(s) => s is Idle,
            Session::Purchases(s) => s is Idle,
            Session::Roles(s) => s is Idle,
            Session::Steam(s) => s is Idle,
            Session::Unlink(s) => s is Idle,
        }
    }

    /// Whether the command waits for the answer to an account lookup.
    pub open spec fn awaits_account(self) -> bool {
        match self {
            Session::Coupon(s) => s is Account,
            Session::ForceRoles(s) => s is Account,
            Session::GmodStore(s) => s is Account,
            Session::Purchases(s) => s is Account,
            Session::Roles(s) => s is Account,
            Session::Steam(s) => s is Account,
            Session::Unlink(s) => s is Account,
        }
    }

    /// Whether the command has ended.
    pub open spec fn is_done(self) -> bool {
        match self {
            Session::Coupon(s) => s is Done,
            Session::ForceRoles(s) => s is Done,
            Session::GmodStore(s) => s is Done,
            Session::Purchases(s) => s is Done,
            Session::Roles(s) => s is Done,
            Session::Steam(s) => s is Done,
            Session::Unlink(s) => s is Done,
        }
    }

    /// The transition relation of the running command.
    pub open spec fn transition(self, event: Event, next: Session, action: Action) -> bool {
        match self {
            Session::Coupon(s) => next matches Session::Coupon(n) && CouponCommand::transition(
                s,
                event,
                n,
                action,
            ),
            Session::ForceRoles(s) => next matches Session::ForceRoles(n)
                && ForceRolesCommand::transition(s, event, n, action),
            Session::GmodStore(s) => next matches Session::GmodStore(n)
                && GmodStoreCommand::transition(s, event, n, action),
            Session::Purchases(s) => next matches Session::Purchases(n)
                && PurchasesCommand::transition(s, event, n, action),
            Session::Roles(s) => next matches Session::Roles(n) && RolesCommand::transition(
                s,
                event,
                n,
                action,
            ),
            Session::Steam(s) => next matches Session::Steam(n) && SteamCommand::transition(
                s,
                event,
                n,
                action,
            ),
            Session::Unlink(s) => next matches Session::Unlink(n) && UnlinkCommand::transition(
                s,
                event,
                n,
                action,
            ),
        }
    }
}

/// Whether two final steps answer the user alike: the same text, or embeds
/// with the same content.
pub open spec fn same_answer(first: Action, second: Action) -> bool {
    match (first, second) {
        (Action::Reply { content: a }, Action::Reply { content: b }) => a@ == b@,
        (Action::ReplyEmbed { embed: a }, Action::ReplyEmbed { embed: b }) => {
            &&& a.title@ == b.title@
            &&& a.description@ == b.description@
            &&& a.colour == b.colour
            &&& a.author == b.author
            &&& a.field == b.field
        },
        _ => false,
    }
}

/// The "not linked" path can be walked any number of times: from the same
/// waiting command, two runs that both learn that the user is not linked end
/// the command with the same answer, and neither asks for a coupon, an unlink
/// or a role.
pub proof fn lemma_not_linked_is_repeatable(
    session: Session,
    first: (Session, Action),
    second: (Session, Action),
)
    requires
        session.awaits_account(),
        session.transition(Event::Account(None), first.0, first.1),
        session.transition(Event::Account(None), second.0, second.1),
    ensures
        first.0.is_done(),
        second.0.is_done(),
        same_answer(first.1, second.1),
        !first.1.has_side_effect(),
        !second.1.has_side_effect(),
{
}

impl Handler {
    /// The commands to register once the connection stands, in order. Every
    /// name that is registered finds its own command again.
    pub fn ready() -> (r: Vec<Registration>)
        ensures
            r@.len() == CommandKind::all().len(),
            forall|i: int|
                0 <= i < r@.len() ==> (#[trigger] r@[i]).name@ == CommandKind::all()[i].name(),
            forall|i: int|
                0 <= i < r@.len() ==> CommandKind::named((#[trigger] r@[i]).name@) == Some(
                    CommandKind::all()[i],
                ),
    {
        proof {
            lemma_names_route_back(CommandKind::Coupon);
            lemma_names_route_back(CommandKind::ForceRoles);
            lemma_names_route_back(CommandKind::GmodStore);
            lemma_names_route_back(CommandKind::Purchases);
            lemma_names_route_back(CommandKind::Roles);
            lemma_names_route_back(CommandKind::Steam);
            lemma_names_route_back(CommandKind::Unlink);
        }
        let mut list: Vec<Registration> = Vec::new();
        list.push(CommandKind::Coupon.register());
        list.push(CommandKind::ForceRoles.register());
        list.push(CommandKind::GmodStore.register());
        list.push(CommandKind::Purchases.register());
        list.push(CommandKind::Roles.register());
        list.push(CommandKind::Steam.register());
        list.push(CommandKind::Unlink.register());
        list
    }

    /// The command that `name` stands for, or `None` for an unknown name.
    pub fn route(name: &str) -> (r: Option<CommandKind>)
        ensures
            r == CommandKind::named(name@),
    {
        let name = String::from_str(name);
        if name == String::from_str("coupon") {
            Some(CommandKind::Coupon)
        } else if name == String::from_str("force-roles") {
            Some(CommandKind::ForceRoles)
        } else if name == String::from_str("gmodstore") {
            Some(CommandKind::GmodStore)
        } else if name == String::from_str("purchases") {
            Some(CommandKind::Purchases)
        } else if name == String::from_str("roles") {
            Some(CommandKind::Roles)
        } else if name == String::from_str("steam") {
            Some(CommandKind::Steam)
        } else if name == String::from_str("unlink") {
            Some(CommandKind::Unlink)
        } else {
            None
        }
    }

    /// A fresh run of the command `kind`.
    pub fn begin(kind: CommandKind) -> (r: Session)
        ensures
            r.kind() == kind,
            r.is_idle(),
    {
        match kind {
            CommandKind::Coupon => Session::Coupon(CouponState::Idle),
            CommandKind::ForceRoles => Session::ForceRoles(ForceRolesState::Idle),
            CommandKind::GmodStore => Session::GmodStore(GmodStoreState::Idle),
            CommandKind::Purchases => Session::Purchases(PurchasesState::Idle),
            CommandKind::Roles => Session::Roles(RolesState::Idle),
            CommandKind::Steam => Session::Steam(SteamState::Idle),
            CommandKind::Unlink => Session::Unlink(UnlinkState::Idle),
        }
    }

    /// Starts the command that an interaction names: `None` for a name that
    /// stands for no command.
    pub fn interaction_create(name: &str) -> (r: Option<Session>)
        ensures
            match CommandKind::named(name@) {
                Some(kind) => r matches Some(session) && session.kind() == kind
                    && session.is_idle(),
                None => r is None,
            },
    {
        match Self::route(name) {
            Some(kind) => Some(Self::begin(kind)),
            None => None,
        }
    }

    /// Takes one step of the running command.
    pub fn step(&self, session: Session, event: Event) -> (r: (Session, Action))
        ensures
            session.transition(event, r.0, r.1),
    {
        match session {
            Session::Coupon(s) => {
                let (n, a) = CouponCommand::execute(self, s, event);
                (Session::Coupon(n), a)
            },
            Session::ForceRoles(s) => {
                let (n, a) = ForceRolesCommand::execute(self, s, event);
                (Session::ForceRoles(n), a)
            },
            Session::GmodStore(s) => {
                let (n, a) = GmodStoreCommand::execute(self, s, event);
                (Session::GmodStore(n), a)
            },
            Session::Purchases(s) => {
                let (n, a) = PurchasesCommand::execute(self, s, event);
                (Session::Purchases(n), a)
            },
            Session::Roles(s) => {
                let (n, a) = RolesCommand::execute(self, s, event);
                (Session::Roles(n), a)
            },
            Session::Steam(s) => {
                let (n, a) = SteamCommand::execute(self, s, event);
                (Session::Steam(n), a)
            },
            Session::Unlink(s) => {
                let (n, a) = UnlinkCommand::execute(self, s, event);
                (Session::Unlink(n), a)
            },
        }
    }
}

} // verus!
