//! The fixed table from product entitlements to platform roles.

use crate::http::ApiPurchaseObject;
use vstd::prelude::*;

verus! {

pub const LSAC_ROLE: u64 = 884061162482847765;

pub const SWIFT_AC_ROLE: u64 = 884060408946757663;

pub const HIT_REG_ROLE: u64 = 884060954294386698;

pub const SCREEN_GRABS_ROLE: u64 = 889306784551026780;

pub const WORKSHOP_DL_ROLE: u64 = 884060628128497716;

pub const SEXY_ERRORS_ROLE: u64 = 884060823205609473;

/// Role given to every member who joins with a linked account.
pub const VERIFIED_ROLE: u64 = 884063960582721597;

/// The role of one product, present only when the product is owned.
pub open spec fn granted(owned: bool, role: u64) -> Seq<u64> {
    if owned {
        seq![role]
    } else {
        Seq::empty()
    }
}

/// The roles that a set of entitlements earns, in table order.
pub open spec fn roles_of(purchases: ApiPurchaseObject) -> Seq<u64> {
    granted(purchases.lsac, LSAC_ROLE) + granted(purchases.swift_ac, SWIFT_AC_ROLE) + granted(
        purchases.hit_reg,
        HIT_REG_ROLE,
    ) + granted(purchases.screen_grabs, SCREEN_GRABS_ROLE) + granted(
        purchases.workshop_dl,
        WORKSHOP_DL_ROLE,
    ) + granted(purchases.sexy_errors, SEXY_ERRORS_ROLE)
}

pub open spec fn one_if(owned: bool) -> nat {
    if owned {
        1
    } else {
        0
    }
}

/// How many of the six products are owned.
pub open spec fn owned_count(purchases: ApiPurchaseObject) -> nat {
    one_if(purchases.lsac) + one_if(purchases.swift_ac) + one_if(purchases.hit_reg) + one_if(
        purchases.screen_grabs,
    ) + one_if(purchases.workshop_dl) + one_if(purchases.sexy_errors)
}

/// Lists the roles that a set of entitlements earns, in table order.
pub fn roles_for(purchases: &ApiPurchaseObject) -> (r: Vec<u64>)
    ensures
        r@ == roles_of(*purchases),
{
    let mut roles: Vec<u64> = Vec::new();
    if purchases.lsac {
        roles.push(LSAC_ROLE);
    }
    if purchases.swift_ac {
        roles.push(SWIFT_AC_ROLE);
    }
    if purchases.hit_reg {
        roles.push(HIT_REG_ROLE);
    }
    if purchases.screen_grabs {
        roles.push(SCREEN_GRABS_ROLE);
    }
    if purchases.workshop_dl {
        roles.push(WORKSHOP_DL_ROLE);
    }
    if purchases.sexy_errors {
        roles.push(SEXY_ERRORS_ROLE);
    }
    assert(roles@ =~= roles_of(*purchases));
    roles
}

/// Reply to a user who asks for roles without a linked account.
pub open spec fn not_linked_text() -> Seq<char> {
    "**You are not linked.** Linking your account at <https://leystryku.support/> is required before you can receive support roles."@
}

/// Writes the reply to a user who asks for roles without a linked account.
pub fn not_linked_reply() -> (r: String)
    ensures
        r@ == not_linked_text(),
{
    String::from_str(
        "**You are not linked.** Linking your account at <https://leystryku.support/> is required before you can receive support roles.",
    )
}

/// With exactly k of the six products owned, exactly k roles are earned: the
/// role of each owned product once, and no other.
pub proof fn lemma_role_fan_out(purchases: ApiPurchaseObject)
    ensures
        roles_of(purchases).len() == owned_count(purchases),
        roles_of(purchases).no_duplicates(),
        roles_of(purchases).contains(LSAC_ROLE) <==> purchases.lsac,
        roles_of(purchases).contains(SWIFT_AC_ROLE) <==> purchases.swift_ac,
        roles_of(purchases).contains(HIT_REG_ROLE) <==> purchases.hit_reg,
        roles_of(purchases).contains(SCREEN_GRABS_ROLE) <==> purchases.screen_grabs,
        roles_of(purchases).contains(WORKSHOP_DL_ROLE) <==> purchases.workshop_dl,
        roles_of(purchases).contains(SEXY_ERRORS_ROLE) <==> purchases.sexy_errors,
        forall|role: u64| #[trigger]
            roles_of(purchases).contains(role) ==> role == LSAC_ROLE || role == SWIFT_AC_ROLE
                || role == HIT_REG_ROLE || role == SCREEN_GRABS_ROLE || role == WORKSHOP_DL_ROLE
                || role == SEXY_ERRORS_ROLE,
{
    let a = granted(purchases.lsac, LSAC_ROLE);
    let b = granted(purchases.swift_ac, SWIFT_AC_ROLE);
    let c = granted(purchases.hit_reg, HIT_REG_ROLE);
    let d = granted(purchases.screen_grabs, SCREEN_GRABS_ROLE);
    let e = granted(purchases.workshop_dl, WORKSHOP_DL_ROLE);
    let f = granted(purchases.sexy_errors, SEXY_ERRORS_ROLE);
    lemma_granted_join(Seq::empty(), purchases.lsac, LSAC_ROLE);
    assert(Seq::<u64>::empty() + a =~= a);
    lemma_granted_join(a, purchases.swift_ac, SWIFT_AC_ROLE);
    lemma_granted_join(a + b, purchases.hit_reg, HIT_REG_ROLE);
    lemma_granted_join(a + b + c, purchases.screen_grabs, SCREEN_GRABS_ROLE);
    lemma_granted_join(a + b + c + d, purchases.workshop_dl, WORKSHOP_DL_ROLE);
    lemma_granted_join(a + b + c + d + e, purchases.sexy_errors, SEXY_ERRORS_ROLE);
}

/// Appending the role of one more product to a list adds that role exactly
/// when the product is owned, and changes nothing else.
proof fn lemma_granted_join(head: Seq<u64>, owned: bool, role: u64)
    ensures
        (head + granted(owned, role)).len() == head.len() + one_if(owned),
        forall|other: u64|
            (#[trigger] (head + granted(owned, role)).contains(other)) <==> head.contains(other)
                || (owned && other == role),
        head.no_duplicates() && !head.contains(role) ==> (head + granted(
            owned,
            role,
        )).no_duplicates(),
{
    let whole = head + granted(owned, role);
    assert forall|other: u64| #[trigger] whole.contains(other) <==> head.contains(other) || (owned
        && other == role) by {
        if whole.contains(other) {
            let k = choose|k: int| 0 <= k < whole.len() && whole[k] == other;
            if k < head.len() {
                assert(head[k] == other);
            }
        }
        if head.contains(other) {
            let k = choose|k: int| 0 <= k < head.len() && head[k] == other;
            assert(whole[k] == other);
        }
        if owned && other == role {
            assert(whole[head.len() as int] == other);
        }
    }
    if head.no_duplicates() && !head.contains(role) {
        assert forall|i: int, j: int| 0 <= i < whole.len() && 0 <= j < whole.len() && i != j implies whole[i] != whole[j] by {
            if i < head.len() && j < head.len() {
                assert(head[i] != head[j]);
            } else if i < head.len() {
                assert(head.contains(head[i]));
            } else if j < head.len() {
                assert(head.contains(head[j]));
            }
        }
    }
}

} // verus!
