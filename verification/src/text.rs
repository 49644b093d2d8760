//! Text building blocks shared by every reply: decimal numbers and mentions.

use vstd::prelude::*;

verus! {

/// The character that stands for the digit `d`.
pub open spec fn digit(d: int) -> char {
    if d == 0 {
        '0'
    } else if d == 1 {
        '1'
    } else if d == 2 {
        '2'
    } else if d == 3 {
        '3'
    } else if d == 4 {
        '4'
    } else if d == 5 {
        '5'
    } else if d == 6 {
        '6'
    } else if d == 7 {
        '7'
    } else if d == 8 {
        '8'
    } else {
        '9'
    }
}

/// The decimal notation of `n`, most significant digit first, without
/// padding or sign.
pub open spec fn decimal(n: nat) -> Seq<char>
    decreases n,
{
    if n < 10 {
        seq![digit(n as int)]
    } else {
        decimal(n / 10) + seq![digit((n % 10) as int)]
    }
}

/// How a user is mentioned in a message: `<@` id `>`.
pub open spec fn mention(id: nat) -> Seq<char> {
    seq!['<', '@'] + decimal(id) + seq!['>']
}

/// How a channel is mentioned in a message: `<#` id `>`.
pub open spec fn channel_mention_text(id: nat) -> Seq<char> {
    seq!['<', '#'] + decimal(id) + seq!['>']
}

fn digit_str(d: u64) -> (r: &'static str)
    requires
        d < 10,
    ensures
        r@ == seq![digit(d as int)],
{
    proof {
        reveal_strlit("0");
        reveal_strlit("1");
        reveal_strlit("2");
        reveal_strlit("3");
        reveal_strlit("4");
        reveal_strlit("5");
        reveal_strlit("6");
        reveal_strlit("7");
        reveal_strlit("8");
        reveal_strlit("9");
    }
    let r = if d == 0 {
        "0"
    } else if d == 1 {
        "1"
    } else if d == 2 {
        "2"
    } else if d == 3 {
        "3"
    } else if d == 4 {
        "4"
    } else if d == 5 {
        "5"
    } else if d == 6 {
        "6"
    } else if d == 7 {
        "7"
    } else if d == 8 {
        "8"
    } else {
        "9"
    };
    assert(r@ =~= seq![digit(d as int)]);
    r
}

/// Writes `n` in decimal.
pub fn decimal_string(n: u64) -> (r: String)
    ensures
        r@ == decimal(n as nat),
{
    let mut rest: u64 = n / 10;
    let mut out = String::from_str(digit_str(n % 10));
    assert(rest == 0 ==> out@ =~= decimal(n as nat));
    assert(rest != 0 ==> decimal(rest as nat) + out@ =~= decimal(n as nat));
    while rest > 0
        invariant
            decimal(n as nat) == if rest == 0 {
                out@
            } else {
                decimal(rest as nat) + out@
            },
        decreases rest,
    {
        let d: u64 = rest % 10;
        let ghost before = out@;
        out = String::from_str(digit_str(d)).concat(out.as_str());
        assert(rest < 10 ==> out@ =~= decimal(rest as nat) + before);
        assert(rest >= 10 ==> decimal((rest / 10) as nat) + out@ =~= decimal(rest as nat)
            + before);
        rest = rest / 10;
    }
    out
}

/// Joins two pieces of text.
pub fn join(head: &str, tail: &str) -> (r: String)
    ensures
        r@ == head@ + tail@,
{
    String::from_str(head).concat(tail)
}

/// Mentions the user with the given platform id.
pub fn user_mention(id: u64) -> (r: String)
    ensures
        r@ == mention(id as nat),
{
    proof {
        reveal_strlit("<@");
        reveal_strlit(">");
    }
    let number = decimal_string(id);
    let r = join("<@", number.as_str()).concat(">");
    assert(r@ =~= mention(id as nat));
    r
}

/// Mentions the channel with the given platform id.
pub fn channel_mention(id: u64) -> (r: String)
    ensures
        r@ == channel_mention_text(id as nat),
{
    proof {
        reveal_strlit("<#");
        reveal_strlit(">");
    }
    let number = decimal_string(id);
    let r = join("<#", number.as_str()).concat(">");
    assert(r@ =~= channel_mention_text(id as nat));
    r
}

} // verus!
