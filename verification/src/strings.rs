//! Specifications for the string operations of the standard library that
//! the layout and search code relies on.

use vstd::prelude::*;

verus! {

/// `String::push` appends the given character to the end of the string and
/// leaves the characters before it as they were.
pub assume_specification[ String::push ](s: &mut String, ch: char)
    ensures
        final(s)@ == old(s)@.push(ch),
;

/// The characters of a string, in order.
pub fn chars_of(s: &str) -> (v: Vec<char>)
    ensures
        v@ == s@,
{
    let mut v: Vec<char> = Vec::new();
    for c in it: s.chars()
        invariant
            it.seq() == s@,
            v@ == s@.take(it.index() as int),
    {
        let ghost before = v@;
        v.push(c);
        assert(v@ =~= s@.take(before.len() as int + 1));
    }
    assert(s@.take(s@.len() as int) =~= s@);
    v
}

/// The text of an optional string.
pub open spec fn optional_text(text: Option<String>) -> Option<Seq<char>> {
    match text {
        Some(t) => Some(t@),
        None => None,
    }
}

/// A copy of an optional string.
pub fn clone_optional_text(text: &Option<String>) -> (copy: Option<String>)
    ensures
        optional_text(copy) == optional_text(*text),
{
    match text {
        Some(t) => Some(t.clone()),
        None => None,
    }
}

/// The character of a decimal digit.
pub open spec fn digit_char(d: int) -> char {
    if d == 0 {
        '0'
    } else if d == 1 {
        '1'
    } else if d == 2 {
        '2'
    } else if d == 3 {
        '3'
    } else if d == 4 {
        '4'
    } else if d == 5 {
        '5'
    } else if d == 6 {
        '6'
    } else if d == 7 {
        '7'
    } else if d == 8 {
        '8'
    } else {
        '9'
    }
}

/// The decimal numeral of a number, without leading zeros.
pub open spec fn decimal(n: nat) -> Seq<char>
    decreases n,
{
    if n < 10 {
        seq![digit_char(n as int)]
    } else {
        decimal(n / 10).push(digit_char((n % 10) as int))
    }
}

fn digit_of(d: usize) -> (c: char)
    requires
        d < 10,
    ensures
        c == digit_char(d as int),
{
    if d == 0 {
        '0'
    } else if d == 1 {
        '1'
    } else if d == 2 {
        '2'
    } else if d == 3 {
        '3'
    } else if d == 4 {
        '4'
    } else if d == 5 {
        '5'
    } else if d == 6 {
        '6'
    } else if d == 7 {
        '7'
    } else if d == 8 {
        '8'
    } else {
        '9'
    }
}

/// The numeral that stands before the last digits already taken off a
/// number: nothing once the number is used up.
spec fn leading(rest: nat) -> Seq<char> {
    if rest == 0 {
        Seq::empty()
    } else {
        decimal(rest)
    }
}

/// Writes a number in decimal.
pub fn decimal_string(n: usize) -> (text: String)
    ensures
        text@ == decimal(n as nat),
{
    let mut digits: Vec<char> = Vec::new();
    digits.push(digit_of(n % 10));
    let mut rest: usize = n / 10;
    let ghost mut tail: Seq<char> = seq![digit_char((n % 10) as int)];
    proof {
        assert(decimal(n as nat) =~= leading(rest as nat) + tail);
    }
    while rest > 0
        invariant
            decimal(n as nat) == leading(rest as nat) + tail,
            tail.len() == digits@.len(),
            forall|k: int| 0 <= k < tail.len() ==> tail[k] == digits@[digits@.len() - 1 - k],
        decreases rest,
    {
        let c = digit_of(rest % 10);
        proof {
            assert(leading(rest as nat) =~= leading((rest / 10) as nat) + seq![c]);
            assert(leading(rest as nat) + tail =~= leading((rest / 10) as nat) + (seq![c] + tail));
            tail = seq![c] + tail;
        }
        digits.push(c);
        rest = rest / 10;
    }
    proof {
        assert(leading(0) + tail =~= tail);
    }
    let mut text = String::new();
    let mut i: usize = digits.len();
    while i > 0
        invariant
            i <= digits@.len(),
            tail.len() == digits@.len(),
            forall|k: int| 0 <= k < tail.len() ==> tail[k] == digits@[digits@.len() - 1 - k],
            text@ == tail.take(digits@.len() - i),
        decreases i,
    {
        i -= 1;
        let ghost before = text@;
        text.push(digits[i]);
        assert(text@ =~= tail.take(digits@.len() - i));
    }
    assert(tail.take(tail.len() as int) =~= tail);
    text
}

} // verus!
