//! `/coupon`: hands the invoking user a discount code for the gated product,
//! provided they own its prerequisite and not yet the product itself.

use crate::commands::Command;
use crate::flow::{Action, Event, Failure, Registration};
use crate::handler::{CommandKind, Handler};
use crate::http::{
    active_coupons, all_dated, clone_text, CouponBuilder, GMSCouponObject, GmodStoreClient, User,
};
use crate::text::join;
use crate::time::Timestamp;
use vstd::prelude::*;
use vstd::utf8::{is_ascii_chars, is_ascii_chars_encode_utf8};

verus! {

pub struct CouponCommand;

/// Where a `/coupon` run stands.
#[derive(Debug)]
pub enum CouponState {
    Idle,
    /// Waiting for the lookup of the invoking user.
    Account,
    /// Waiting for the account's purchases.
    Purchases { user: User },
    /// Waiting for the account's coupons.
    Coupons { user: User },
    /// Waiting for the store to create the coupon.
    Creation,
    Done,
}

/// Discount of a new coupon, in percent.
pub const COUPON_PERCENT: u8 = 25;

/// Number of times a new coupon can be used.
pub const COUPON_MAX_USES: u8 = 1;

/// Store id of the product for which coupons are handed out.
pub open spec fn gated_product() -> Seq<char> {
    "6c5e862b-3dcf-4769-aa6b-8a001937c56b"@
}

pub open spec fn not_linked_text() -> Seq<char> {
    "You are not linked"@
}

pub open spec fn already_owned_text() -> Seq<char> {
    "You already own LSAC!"@
}

pub open spec fn prerequisite_text() -> Seq<char> {
    "You must own SwiftAC to get coupon for LSAC!"@
}

pub open spec fn existing_text(code: Seq<char>) -> Seq<char> {
    "You already have a valid coupon code, use code `"@ + code + "`"@
}

pub open spec fn created_text(code: Seq<char>) -> Seq<char> {
    "Use code: `"@ + code + "`, it expires in 7 days."@
}

/// Draws a new coupon code with `cuid2::cuid`. Claimed of every code: it is
/// made of ASCII characters, at least one and at most 24 of them.
#[verifier::external_body]
fn fresh_code() -> (r: String)
    ensures
        is_ascii_chars(r@),
        1 <= r@.len() <= 24,
{
    cuid2::cuid()
}

impl CouponCommand {
    /// Draws a code for a new coupon. Every code is within the store's
    /// limits.
    pub fn new_code() -> (r: String)
        ensures
            CouponBuilder::acceptable(r@, COUPON_PERCENT, COUPON_MAX_USES),
    {
        let code = fresh_code();
        proof {
            is_ascii_chars_encode_utf8(code@);
        }
        code
    }

    /// What may follow a coupon listing of which `active` are the active
    /// coupons of the user: the first of them is handed out again; without
    /// one a new coupon is requested, or the command fails.
    pub open spec fn after_listing(
        user: User,
        active: Seq<GMSCouponObject>,
        next: CouponState,
        action: Action,
    ) -> bool {
        if active.len() > 0 {
            next is Done && action.replies(existing_text(active[0].code@))
        } else {
            ||| next is Done && action.aborts(Failure::CouponRefused)
            ||| {
                &&& next is Creation
                &&& action matches Action::CreateCoupon { product, coupon }
                &&& product@ == gated_product()
                &&& coupon.percent == COUPON_PERCENT
                &&& coupon.max_uses == COUPON_MAX_USES
                &&& coupon.bound_user_id == user.gmod_store_id
                &&& CouponBuilder::acceptable(coupon.code@, COUPON_PERCENT, COUPON_MAX_USES)
                &&& exists|made: Timestamp|
                    Some(coupon.expires_at@) == #[trigger] CouponBuilder::expiry_text(made)
            }
        }
    }
}

impl Command for CouponCommand {
    type State = CouponState;

    open spec fn kind() -> CommandKind {
        CommandKind::Coupon
    }

    open spec fn transition(
        state: CouponState,
        event: Event,
        next: CouponState,
        action: Action,
    ) -> bool {
        match (state, event) {
            (CouponState::Idle, Event::Invoked(invocation)) => {
                next is Account && action == (Action::Lookup { discord_id: invocation.user_id })
            },
            (CouponState::Account, Event::Account(None)) => {
                next is Done && action.replies(not_linked_text())
            },
            (CouponState::Account, Event::Account(Some(user))) => {
                next == (CouponState::Purchases { user }) && action == (Action::FetchPurchases {
                    user,
                })
            },
            (CouponState::Purchases { user }, Event::Purchases(purchases)) => {
                if purchases.lsac {
                    next is Done && action.replies(already_owned_text())
                } else if !purchases.swift_ac {
                    next is Done && action.replies(prerequisite_text())
                } else {
                    match user.gmod_store_id {
                        Some(id) => next == (CouponState::Coupons { user }) && action.lists_coupons(
                            gated_product(),
                            id,
                        ),
                        None => next is Done && action.aborts(Failure::NoStoreId),
                    }
                }
            },
            (CouponState::Coupons { user }, Event::Coupons(listing)) => {
                if user.gmod_store_id is None {
                    next is Done && action.aborts(Failure::NoStoreId)
                } else if !all_dated(listing@) {
                    next is Done && action.aborts(Failure::UnreadableExpiry)
                } else {
                    exists|now: Timestamp|
                        Self::after_listing(
                            user,
                            #[trigger] active_coupons(listing@, user.gmod_store_id->0@, now),
                            next,
                            action,
                        )
                }
            },
            (CouponState::Creation, Event::Created(coupon)) => {
                next is Done && action.replies(created_text(coupon.code@))
            },
            (_, Event::Failed) => next is Done && action.aborts(Failure::StepFailed),
            _ => next is Done && action.aborts(Failure::Unexpected),
        }
    }

    fn execute(handler: &Handler, state: CouponState, event: Event) -> (r: (CouponState, Action))
        ensures
            Self::transition(state, event, r.0, r.1),
    {
        match (state, event) {
            (CouponState::Idle, Event::Invoked(invocation)) => (
                CouponState::Account,
                Action::Lookup { discord_id: invocation.user_id },
            ),
            (CouponState::Account, Event::Account(None)) => (
                CouponState::Done,
                Action::Reply { content: String::from_str("You are not linked") },
            ),
            (CouponState::Account, Event::Account(Some(user))) => {
                let asked = user.clone();
                (CouponState::Purchases { user }, Action::FetchPurchases { user: asked })
            },
            (CouponState::Purchases { user }, Event::Purchases(purchases)) => {
                if purchases.lsac {
                    (
                        CouponState::Done,
                        Action::Reply { content: String::from_str("You already own LSAC!") },
                    )
                } else if !purchases.swift_ac {
                    (
                        CouponState::Done,
                        Action::Reply {
                            content: String::from_str(
                                "You must own SwiftAC to get coupon for LSAC!",
                            ),
                        },
                    )
                } else {
                    match GmodStoreClient::bound_user_filter(&user) {
                        Ok(filter) => (
                            CouponState::Coupons { user },
                            Action::ListCoupons {
                                product: String::from_str("6c5e862b-3dcf-4769-aa6b-8a001937c56b"),
                                filter,
                            },
                        ),
                        Err(_) => (CouponState::Done, Action::Abort { reason: Failure::NoStoreId }),
                    }
                }
            },
            (CouponState::Coupons { user }, Event::Coupons(listing)) => {
                if user.gmod_store_id.is_none() {
                    return (CouponState::Done, Action::Abort { reason: Failure::NoStoreId });
                }
                match handler.http.gmod_store_client.get_coupons_by_user(&user, &listing) {
                    Err(_) => (
                        CouponState::Done,
                        Action::Abort { reason: Failure::UnreadableExpiry },
                    ),
                    Ok(Some(found)) => {
                        let content = join(
                            "You already have a valid coupon code, use code `",
                            found[0].code.as_str(),
                        ).concat("`");
                        (CouponState::Done, Action::Reply { content })
                    },
                    Ok(None) => {
                        match CouponBuilder::new(
                            Self::new_code(),
                            COUPON_PERCENT,
                            COUPON_MAX_USES,
                            clone_text(&user.gmod_store_id),
                        ) {
                            Ok(coupon) => (
                                CouponState::Creation,
                                Action::CreateCoupon {
                                    product: String::from_str(
                                        "6c5e862b-3dcf-4769-aa6b-8a001937c56b",
                                    ),
                                    coupon,
                                },
                            ),
                            Err(_) => (
                                CouponState::Done,
                                Action::Abort { reason: Failure::CouponRefused },
                            ),
                        }
                    },
                }
            },
            (CouponState::Creation, Event::Created(coupon)) => {
                let content = join("Use code: `", coupon.code.as_str()).concat(
                    "`, it expires in 7 days.",
                );
                (CouponState::Done, Action::Reply { content })
            },
            (_, Event::Failed) => (CouponState::Done, Action::Abort { reason: Failure::StepFailed }),
            _ => (CouponState::Done, Action::Abort { reason: Failure::Unexpected }),
        }
    }

    fn register() -> (r: Registration)
        ensures
            r.describes("coupon"@, "Generate a coupon for LSAC."@, None, false),
    {
        Registration {
            name: String::from_str("coupon"),
            description: String::from_str("Generate a coupon for LSAC."),
            user_option: None,
            dm_permission: false,
            moderators_only: false,
        }
    }
}

} // verus!
