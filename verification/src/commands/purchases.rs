//! `/purchases`: shows a moderator which products a user owns.

use crate::commands::Command;
use crate::flow::{Action, Embed, EmbedAuthor, Event, Failure, Invocation, Registration, Target};
use crate::handler::{CommandKind, Handler};
use crate::http::ApiPurchaseObject;
use crate::misc::{bool_to_emoji, emoji};
use crate::text::{decimal, decimal_string};
use vstd::prelude::*;

verus! {

pub struct PurchasesCommand;

/// Where a `/purchases` run stands. `author` names the user who is asked
/// about.
#[derive(Debug)]
pub enum PurchasesState {
    Idle,
    /// Waiting for the lookup of the target.
    Account { author: EmbedAuthor },
    /// Waiting for the account's purchases.
    Purchases { author: EmbedAuthor },
    Done,
}

/// Colour of the embed.
pub const PURCHASES_COLOUR: u32 = 0xBF8AE0;

/// What separates two lines of the listing.
pub open spec fn line_break() -> Seq<char> {
    "\n                "@
}

/// The six products, one per line, each behind the glyph that tells whether
/// it is owned.
pub open spec fn listing(purchases: ApiPurchaseObject) -> Seq<char> {
    emoji(purchases.lsac) + " | Ley's Server-Side AntiCheat"@ + line_break() + emoji(
        purchases.swift_ac,
    ) + " | SwiftAC"@ + line_break() + emoji(purchases.hit_reg) + " | Ley's HitReg"@
        + line_break() + emoji(purchases.screen_grabs) + " | Ley's Screengrabs"@ + line_break()
        + emoji(purchases.workshop_dl) + " | Ley WorkshopDL"@ + line_break() + emoji(
        purchases.sexy_errors,
    ) + " | Ley Sexy Errors"@
}

/// How the embed names a user: name, `#`, discriminator.
pub open spec fn author_name(name: Seq<char>, discriminator: u16) -> Seq<char> {
    name + "#"@ + decimal(discriminator as nat)
}

impl PurchasesCommand {
    /// Whether `embed` shows `title` and `description` under the command's
    /// colour and the given author, without a field.
    pub open spec fn shows(
        embed: Embed,
        author: EmbedAuthor,
        title: Seq<char>,
        description: Seq<char>,
    ) -> bool {
        &&& embed.title@ == title
        &&& embed.description@ == description
        &&& embed.colour == PURCHASES_COLOUR
        &&& embed.author == Some(author)
        &&& embed.field is None
    }

    fn describe(purchases: &ApiPurchaseObject) -> (r: String)
        ensures
            r@ == listing(*purchases),
    {
        let gap = "\n                ";
        String::from_str(bool_to_emoji(purchases.lsac)).concat(
            " | Ley's Server-Side AntiCheat",
        ).concat(gap).concat(bool_to_emoji(purchases.swift_ac)).concat(" | SwiftAC").concat(
            gap,
        ).concat(bool_to_emoji(purchases.hit_reg)).concat(" | Ley's HitReg").concat(gap).concat(
            bool_to_emoji(purchases.screen_grabs),
        ).concat(" | Ley's Screengrabs").concat(gap).concat(
            bool_to_emoji(purchases.workshop_dl),
        ).concat(" | Ley WorkshopDL").concat(gap).concat(
            bool_to_emoji(purchases.sexy_errors),
        ).concat(" | Ley Sexy Errors")
    }

    fn begin(invocation: Invocation) -> (r: (PurchasesState, Action))
        ensures
            Self::transition(PurchasesState::Idle, Event::Invoked(invocation), r.0, r.1),
    {
        match invocation.target {
            Target::User { id, name, discriminator, icon_url, is_member } => {
                let number = decimal_string(discriminator as u64);
                let author = EmbedAuthor {
                    name: name.concat("#").concat(number.as_str()),
                    icon_url,
                };
                (PurchasesState::Account { author }, Action::Lookup { discord_id: id })
            },
            Target::Missing => (PurchasesState::Done, Action::Abort { reason: Failure::NoTarget }),
            Target::Unresolved => (
                PurchasesState::Done,
                Action::Abort { reason: Failure::UnresolvedTarget },
            ),
            Target::Other => (
                PurchasesState::Done,
                Action::Abort { reason: Failure::TargetNotUser },
            ),
        }
    }
}

impl Command for PurchasesCommand {
    type State = PurchasesState;

    open spec fn kind() -> CommandKind {
        CommandKind::Purchases
    }

    open spec fn transition(
        state: PurchasesState,
        event: Event,
        next: PurchasesState,
        action: Action,
    ) -> bool {
        match (state, event) {
            (PurchasesState::Idle, Event::Invoked(invocation)) => {
                match invocation.target {
                    Target::User { id, name, discriminator, icon_url, .. } => {
                        &&& next matches PurchasesState::Account { author }
                        &&& author.name@ == author_name(name@, discriminator)
                        &&& author.icon_url == icon_url
                        &&& action == (Action::Lookup { discord_id: id })
                    },
                    _ => {
                        &&& next is Done
                        &&& invocation.target_user() matches Err(why)
                        &&& action.aborts(why)
                    },
                }
            },
            (PurchasesState::Account { author }, Event::Account(None)) => {
                &&& next is Done
                &&& action matches Action::ReplyEmbed { embed }
                &&& Self::shows(
                    embed,
                    author,
                    "User is not linked"@,
                    "The user is not linked or has no valid GmodStore account."@,
                )
            },
            (PurchasesState::Account { author }, Event::Account(Some(user))) => {
                next == (PurchasesState::Purchases { author }) && action == (
                Action::FetchPurchases { user })
            },
            (PurchasesState::Purchases { author }, Event::Purchases(purchases)) => {
                &&& next is Done
                &&& action matches Action::ReplyEmbed { embed }
                &&& Self::shows(embed, author, "User Purchases"@, listing(purchases))
            },
            (_, Event::Failed) => next is Done && action.aborts(Failure::StepFailed),
            _ => next is Done && action.aborts(Failure::Unexpected),
        }
    }

    fn execute(handler: &Handler, state: PurchasesState, event: Event) -> (r: (PurchasesState, Action))
        ensures
            Self::transition(state, event, r.0, r.1),
    {
        match (state, event) {
            (PurchasesState::Idle, Event::Invoked(invocation)) => Self::begin(invocation),
            (PurchasesState::Account { author }, Event::Account(None)) => {
                let embed = Embed {
                    title: String::from_str("User is not linked"),
                    description: String::from_str(
                        "The user is not linked or has no valid GmodStore account.",
                    ),
                    colour: PURCHASES_COLOUR,
                    author: Some(author),
                    field: None,
                };
                (PurchasesState::Done, Action::ReplyEmbed { embed })
            },
            (PurchasesState::Account { author }, Event::Account(Some(user))) => (
                PurchasesState::Purchases { author },
                Action::FetchPurchases { user },
            ),
            (PurchasesState::Purchases { author }, Event::Purchases(purchases)) => {
                let embed = Embed {
                    title: String::from_str("User Purchases"),
                    description: Self::describe(&purchases),
                    colour: PURCHASES_COLOUR,
                    author: Some(author),
                    field: None,
                };
                (PurchasesState::Done, Action::ReplyEmbed { embed })
            },
            (_, Event::Failed) => (PurchasesState::Done, Action::Abort { reason: Failure::StepFailed }),
            _ => (PurchasesState::Done, Action::Abort { reason: Failure::Unexpected }),
        }
    }

    fn register() -> (r: Registration)
        ensures
            r.describes(
                "purchases"@,
                "Retrieve user's GmodStore purchases."@,
                Some(("user"@, "User to fetch purchases for."@)),
                true,
            ),
    {
        Registration {
            name: String::from_str("purchases"),
            description: String::from_str("Retrieve user's GmodStore purchases."),
            user_option: Some(
                (String::from_str("user"), String::from_str("User to fetch purchases for.")),
            ),
            dm_permission: false,
            moderators_only: true,
        }
    }
}

} // verus!
