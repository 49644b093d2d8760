//! The vocabulary in which commands talk to their runner. A command never
//! performs outside work itself: it names one step, the runner performs it
//! and reports back with an event.

use crate::http::{ApiPurchaseObject, CouponBuilder, GMSCouponObject, User};
use vstd::prelude::*;

verus! {

/// The first option of an invocation, as far as commands read it.
#[derive(Debug)]
pub enum Target {
    /// No option was given.
    Missing,
    /// An option was given, but the platform resolved no value for it.
    Unresolved,
    /// The option resolved to something that is not a user.
    Other,
    /// The option resolved to a user; `is_member` tells whether guild member
    /// data came with it.
    User { id: u64, name: String, discriminator: u16, icon_url: String, is_member: bool },
}

/// What the platform tells about one use of a slash command.
#[derive(Debug)]
pub struct Invocation {
    /// The user who ran the command.
    pub user_id: u64,
    /// Whether guild member data of that user came with the invocation.
    pub has_member: bool,
    pub guild_id: Option<u64>,
    pub target: Target,
}

impl Invocation {
    /// The user that the first option names, or why it names none.
    pub open spec fn target_user(self) -> Result<u64, Failure> {
        match self.target {
            Target::Missing => Err(Failure::NoTarget),
            Target::Unresolved => Err(Failure::UnresolvedTarget),
            Target::Other => Err(Failure::TargetNotUser),
            Target::User { id, .. } => Ok(id),
        }
    }

    /// Reads the user that the first option names.
    pub fn target_id(&self) -> (r: Result<u64, Failure>)
        ensures
            r == self.target_user(),
    {
        match &self.target {
            Target::Missing => Err(Failure::NoTarget),
            Target::Unresolved => Err(Failure::UnresolvedTarget),
            Target::Other => Err(Failure::TargetNotUser),
            Target::User { id, .. } => Ok(*id),
        }
    }
}

#[derive(Debug)]
pub struct EmbedAuthor {
    pub name: String,
    pub icon_url: String,
}

#[derive(Debug)]
pub struct EmbedField {
    pub name: String,
    pub value: String,
    pub inline: bool,
}

/// A rich message block.
#[derive(Debug)]
pub struct Embed {
    pub title: String,
    pub description: String,
    pub colour: u32,
    pub author: Option<EmbedAuthor>,
    pub field: Option<EmbedField>,
}

/// Why a command gave up.
#[derive(Clone, Copy, Debug, PartialEq, Eq, Structural)]
pub enum Failure {
    /// No option was given where the target user was expected.
    NoTarget,
    /// The platform resolved no value for the target option.
    UnresolvedTarget,
    /// The target option names something that is not a user.
    TargetNotUser,
    /// The target user is no member of the guild.
    TargetNotMember,
    /// The command did not come from a guild.
    NoGuild,
    /// No guild member data came with the invoking user.
    NoMember,
    /// The linked account has no store id.
    NoStoreId,
    /// A coupon of the listing carries an expiry that cannot be read.
    UnreadableExpiry,
    /// The request for a new coupon could not be built.
    CouponRefused,
    /// The step that was asked for failed.
    StepFailed,
    /// The report does not answer what the command was waiting for.
    Unexpected,
}

impl Failure {
    /// What is logged for the failure.
    pub open spec fn text(self) -> Seq<char> {
        match self {
            Failure::NoTarget => "Failed to get command target"@,
            Failure::UnresolvedTarget => "Failed to parse command target as a user"@,
            Failure::TargetNotUser => "Failed to fetch and validate user from command target"@,
            Failure::TargetNotMember => "Failed to fetch and validate member from command target"@,
            Failure::NoGuild => "Failed to fetch guild id from command target"@,
            Failure::NoMember => "Failed to get member from command"@,
            Failure::NoStoreId => "Failed to get user's GmodStore ID"@,
            Failure::UnreadableExpiry => "An error occurred whilst parsing the expiry date"@,
            Failure::CouponRefused => "An error occurred whilst building the coupon"@,
            Failure::StepFailed => "The step that was asked for failed"@,
            Failure::Unexpected => "The report does not answer what the command was waiting for"@,
        }
    }

    /// Writes what is logged for the failure.
    pub fn message(self) -> (r: String)
        ensures
            r@ == self.text(),
    {
        match self {
            Failure::NoTarget => String::from_str("Failed to get command target"),
            Failure::UnresolvedTarget => String::from_str(
                "Failed to parse command target as a user",
            ),
            Failure::TargetNotUser => String::from_str(
                "Failed to fetch and validate user from command target",
            ),
            Failure::TargetNotMember => String::from_str(
                "Failed to fetch and validate member from command target",
            ),
            Failure::NoGuild => String::from_str("Failed to fetch guild id from command target"),
            Failure::NoMember => String::from_str("Failed to get member from command"),
            Failure::NoStoreId => String::from_str("Failed to get user's GmodStore ID"),
            Failure::UnreadableExpiry => String::from_str(
                "An error occurred whilst parsing the expiry date",
            ),
            Failure::CouponRefused => String::from_str(
                "An error occurred whilst building the coupon",
            ),
            Failure::StepFailed => String::from_str("The step that was asked for failed"),
            Failure::Unexpected => String::from_str(
                "The report does not answer what the command was waiting for",
            ),
        }
    }
}

/// What the runner reports back.
#[derive(Debug)]
pub enum Event {
    /// A command was invoked.
    Invoked(Invocation),
    /// A member joined the guild.
    Joined { user_id: u64 },
    /// The guild's channel ids were fetched.
    Channels(Vec<u64>),
    /// A message was sent.
    Sent,
    /// The target's guild member data was fetched.
    Member,
    /// The link service answered a lookup.
    Account(Option<User>),
    /// The link service answered a purchases request.
    Purchases(ApiPurchaseObject),
    /// The store answered a coupon listing.
    Coupons(Vec<GMSCouponObject>),
    /// The store created a coupon.
    Created(GMSCouponObject),
    /// The link service deleted a link.
    Unlinked,
    /// The platform added a role.
    RoleAdded,
    /// The step that was asked for failed.
    Failed,
}

/// One step that a command asks its runner to perform. `Reply`, `ReplyEmbed`,
/// `Finish` and `Abort` end the command.
#[derive(Debug)]
pub enum Action {
    FetchChannels,
    Welcome { channel_id: u64, content: String, embed: Embed },
    FetchMember { guild_id: u64, user_id: u64 },
    Lookup { discord_id: u64 },
    FetchPurchases { user: User },
    /// List the coupons of `product`, narrowed by the query pair `filter`.
    ListCoupons { product: String, filter: (String, String) },
    CreateCoupon { product: String, coupon: CouponBuilder },
    Unlink { user: User },
    /// Give the member `user_id` the role `role`.
    AddRole { user_id: u64, role: u64 },
    /// Answer with an ephemeral text.
    Reply { content: String },
    /// Answer with an ephemeral embed.
    ReplyEmbed { embed: Embed },
    /// Nothing is left to do.
    Finish,
    /// The command gave up.
    Abort { reason: Failure },
}

impl Action {
    /// Whether the step gives up for the reason `why`.
    pub open spec fn aborts(self, why: Failure) -> bool {
        self == (Action::Abort { reason: why })
    }

    pub open spec fn replies(self, text: Seq<char>) -> bool {
        self matches Action::Reply { content } && content@ == text
    }

    /// Whether the step lists the coupons of the product `product_id` that are
    /// bound to the store account `account`.
    pub open spec fn lists_coupons(self, product_id: Seq<char>, account: String) -> bool {
        &&& self matches Action::ListCoupons { product, filter }
        &&& product@ == product_id
        &&& filter.0@ == "filter[boundUserId]"@
        &&& filter.1 == account
    }

    /// Whether the step changes anything outside: a coupon, a link or a role.
    pub open spec fn has_side_effect(self) -> bool {
        self is CreateCoupon || self is Unlink || self is AddRole
    }
}

/// What a command puts forward when it is registered with the platform.
#[derive(Debug)]
pub struct Registration {
    pub name: String,
    pub description: String,
    /// Name and description of the one required user option, if any.
    pub user_option: Option<(String, String)>,
    pub dm_permission: bool,
    /// Whether the command is reserved to members who may moderate members.
    pub moderators_only: bool,
}

impl Registration {
    pub open spec fn describes(
        self,
        name: Seq<char>,
        description: Seq<char>,
        user_option: Option<(Seq<char>, Seq<char>)>,
        moderators_only: bool,
    ) -> bool {
        &&& self.name@ == name
        &&& self.description@ == description
        &&& match user_option {
            Some((n, d)) => self.user_option matches Some(o) && o.0@ == n && o.1@ == d,
            None => self.user_option is None,
        }
        &&& !self.dm_permission
        &&& self.moderators_only == moderators_only
    }
}

} // verus!
