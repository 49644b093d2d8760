//! Small things that fit nowhere else.

use vstd::prelude::*;

verus! {

/// Raised when a value of the process configuration cannot be read.
#[derive(Debug)]
pub struct EnvironmentError;

impl EnvironmentError {
    pub fn message(&self) -> (r: String)
        ensures
            r@ == "Environment Error: An error occurred while trying to read the environment"@,
    {
        String::from_str(
            "Environment Error: An error occurred while trying to read the environment",
        )
    }
}

/// The glyph shown beside a product: a check mark when owned, a cross when not.
pub open spec fn emoji(owned: bool) -> Seq<char> {
    if owned {
        "✅"@
    } else {
        "❌"@
    }
}

/// Turns an entitlement flag into its glyph.
pub fn bool_to_emoji(value: bool) -> (r: &'static str)
    ensures
        r@ == emoji(value),
{
    if value {
        "✅"
    } else {
        "❌"
    }
}

} // verus!
