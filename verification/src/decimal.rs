//! Signed integers as decimal text, the form in which amounts are handed to
//! the store and shown in rows.

use vstd::prelude::*;
use vstd::string::StringExecFns;

verus! {

/// The character of a decimal digit.
pub open spec fn digit_char(d: int) -> char {
    if d == 0 {
        '0'
    } else if d == 1 {
        '1'
    } else if d == 2 {
        '2'
    } else if d == 3 {
        '3'
    } else if d == 4 {
        '4'
    } else if d == 5 {
        '5'
    } else if d == 6 {
        '6'
    } else if d == 7 {
        '7'
    } else if d == 8 {
        '8'
    } else {
        '9'
    }
}

/// The digit that a character stands for; 0 for any other character.
pub open spec fn digit_value(c: char) -> int {
    if c == '1' {
        1
    } else if c == '2' {
        2
    } else if c == '3' {
        3
    } else if c == '4' {
        4
    } else if c == '5' {
        5
    } else if c == '6' {
        6
    } else if c == '7' {
        7
    } else if c == '8' {
        8
    } else if c == '9' {
        9
    } else {
        0
    }
}

/// A natural number in decimal, without leading zeros.
pub open spec fn natural_text(n: nat) -> Seq<char>
    decreases n,
{
    if n < 10 {
        seq![digit_char(n as int)]
    } else {
        natural_text(n / 10).push(digit_char((n % 10) as int))
    }
}

/// An integer in decimal: a minus sign where negative, then the magnitude.
pub open spec fn decimal_text(n: int) -> Seq<char> {
    if n < 0 {
        seq!['-'] + natural_text((-n) as nat)
    } else {
        natural_text(n as nat)
    }
}

/// The natural number that a digit text denotes.
pub open spec fn natural_value(text: Seq<char>) -> nat
    decreases text.len(),
{
    if text.len() == 0 {
        0
    } else {
        (natural_value(text.drop_last()) * 10 + digit_value(text.last())) as nat
    }
}

/// The integer that a decimal text denotes.
pub open spec fn decimal_value(text: Seq<char>) -> int {
    if text.len() > 0 && text[0] == '-' {
        -(natural_value(text.drop_first()) as int)
    } else {
        natural_value(text) as int
    }
}

/// The text of one digit.
fn digit_str(d: u64) -> (r: &'static str)
    requires
        d < 10,
    ensures
        r@ == seq![digit_char(d as int)],
{
    proof {
        reveal_strlit("0");
        reveal_strlit("1");
        reveal_strlit("2");
        reveal_strlit("3");
        reveal_strlit("4");
        reveal_strlit("5");
        reveal_strlit("6");
        reveal_strlit("7");
        reveal_strlit("8");
        reveal_strlit("9");
    }
    let r = if d == 0 {
        "0"
    } else if d == 1 {
        "1"
    } else if d == 2 {
        "2"
    } else if d == 3 {
        "3"
    } else if d == 4 {
        "4"
    } else if d == 5 {
        "5"
    } else if d == 6 {
        "6"
    } else if d == 7 {
        "7"
    } else if d == 8 {
        "8"
    } else {
        "9"
    };
    assert(r@ =~= seq![digit_char(d as int)]);
    r
}

/// A natural number as decimal text.
pub fn natural_to_text(n: u64) -> (text: String)
    ensures
        text@ == natural_text(n as nat),
{
    let mut text = String::from_str(digit_str(n % 10));
    let mut rest: u64 = n / 10;
    while rest > 0
        invariant
            rest > 0 ==> natural_text(n as nat) == natural_text(rest as nat) + text@,
            rest == 0 ==> natural_text(n as nat) == text@,
        decreases rest,
    {
        let ghost tail = text@;
        let ghost before = rest;
        text = String::from_str(digit_str(rest % 10)).concat(text.as_str());
        rest = rest / 10;
        proof {
            let d = seq![digit_char((before % 10) as int)];
            assert(text@ == d + tail);
            if before < 10 {
                assert(natural_text(before as nat) == d);
            } else {
                assert(natural_text(before as nat) =~= natural_text(rest as nat) + d);
                assert(natural_text(rest as nat) + d + tail =~= natural_text(rest as nat) + (d
                    + tail));
            }
        }
    }
    text
}

/// A signed amount as decimal text.
pub fn amount_text(amount: i64) -> (text: String)
    ensures
        text@ == decimal_text(amount as int),
{
    if amount < 0 {
        let magnitude: u64 = (-(amount + 1)) as u64 + 1;
        proof {
            reveal_strlit("-");
            assert("-"@ =~= seq!['-']);
        }
        String::from_str("-").concat(natural_to_text(magnitude).as_str())
    } else {
        natural_to_text(amount as u64)
    }
}

/// The text of a natural number starts with a digit, never with a sign.
pub proof fn natural_text_starts_with_digit(n: nat)
    ensures
        natural_text(n).len() >= 1,
        natural_text(n)[0] != '-',
    decreases n,
{
    if n >= 10 {
        natural_text_starts_with_digit(n / 10);
    }
}

/// Reading the text of a natural number gives the number back.
pub proof fn natural_text_round_trips(n: nat)
    ensures
        natural_value(natural_text(n)) == n,
    decreases n,
{
    if n < 10 {
        let text = natural_text(n);
        assert(text.drop_last() =~= Seq::<char>::empty());
        assert(natural_value(text.drop_last()) == 0);
        assert(text.last() == digit_char(n as int));
    } else {
        natural_text_round_trips(n / 10);
        let text = natural_text(n);
        assert(text.drop_last() =~= natural_text(n / 10));
        assert(text.last() == digit_char((n % 10) as int));
    }
}

/// Writing an integer as decimal text and reading it back loses nothing:
/// every integer, so every 64-bit amount, comes back exactly, sign included.
pub proof fn decimal_text_round_trips(n: int)
    ensures
        decimal_value(decimal_text(n)) == n,
{
    if n < 0 {
        let magnitude = (-n) as nat;
        let text = decimal_text(n);
        assert(text[0] == '-');
        assert(text.drop_first() =~= natural_text(magnitude));
        natural_text_round_trips(magnitude);
    } else {
        natural_text_starts_with_digit(n as nat);
        natural_text_round_trips(n as nat);
    }
}

/// Different integers have different decimal texts.
pub proof fn decimal_text_is_injective(a: int, b: int)
    requires
        decimal_text(a) == decimal_text(b),
    ensures
        a == b,
{
    decimal_text_round_trips(a);
    decimal_text_round_trips(b);
}

} // verus!
