//! Decimal numerals of unsigned numbers.

use vstd::prelude::*;
use vstd::string::{StrSliceExecFns, StringExecFns};

verus! {

/// The ten digits, each at the index that it writes.
pub open spec fn digits() -> Seq<char> {
    "0123456789"@
}

/// The character that writes the digit `d`.
pub open spec fn digit_char(d: nat) -> char
    recommends
        d < 10,
{
    digits()[d as int]
}

/// The decimal numeral of `n`: its digits from the most significant down,
/// `0` alone for zero.
pub open spec fn decimal(n: nat) -> Seq<char>
    decreases n,
{
    if n < 10 {
        seq![digit_char(n)]
    } else {
        decimal(n / 10).push(digit_char(n % 10))
    }
}

/// The digit that the character `c` writes, if it writes one.
pub open spec fn digit_value(c: char) -> Option<nat> {
    if exists|d: nat| d < 10 && digit_char(d) == c {
        Some(choose|d: nat| d < 10 && digit_char(d) == c)
    } else {
        None
    }
}

/// The number that a numeral denotes: each digit counts ten times what the
/// digit after it counts. A character that writes no digit counts nothing.
pub open spec fn numeral_value(numeral: Seq<char>) -> nat
    decreases numeral.len(),
{
    if numeral.len() == 0 {
        0
    } else {
        let last = match digit_value(numeral.last()) {
            Some(d) => d,
            None => 0,
        };
        numeral_value(numeral.drop_last()) * 10 + last
    }
}

/// Each digit is written by a character of its own.
pub proof fn lemma_digit_value(d: nat)
    requires
        d < 10,
    ensures
        digit_value(digit_char(d)) == Some(d),
{
    reveal_strlit("0123456789");
    let c = digit_char(d);
    assert(d < 10 && digit_char(d) == c);
    let e = choose|e: nat| e < 10 && digit_char(e) == c;
    assert(e == d);
}

/// The decimal numeral of `n` is made of digits, begins with a zero only
/// where `n` is zero, and denotes `n`.
pub proof fn lemma_decimal_denotes(n: nat)
    ensures
        decimal(n).len() >= 1,
        forall|i: int| 0 <= i < decimal(n).len() ==> digit_value(#[trigger] decimal(n)[i]) is Some,
        decimal(n)[0] == '0' <==> n == 0,
        numeral_value(decimal(n)) == n,
    decreases n,
{
    reveal_strlit("0123456789");
    let numeral = decimal(n);
    if n < 10 {
        lemma_digit_value(n);
        assert(numeral.drop_last() =~= Seq::empty());
        assert(numeral_value(numeral.drop_last()) == 0);
    } else {
        lemma_decimal_denotes(n / 10);
        lemma_digit_value(n % 10);
        assert(numeral.drop_last() =~= decimal(n / 10));
        assert forall|i: int| 0 <= i < numeral.len() implies digit_value(
            #[trigger] numeral[i],
        ) is Some by {
            if i < numeral.len() - 1 {
                assert(numeral[i] == decimal(n / 10)[i]);
            }
        }
    }
}

/// The one-character text of the digit `d`.
fn digit_str(d: u32) -> (s: &'static str)
    requires
        d < 10,
    ensures
        s@ == seq![digit_char(d as nat)],
{
    proof {
        reveal_strlit("0123456789");
    }
    let s = "0123456789".substring_char(d as usize, d as usize + 1);
    assert(s@ =~= seq![digit_char(d as nat)]);
    s
}

/// Appends the decimal numeral of `n` to `text`.
pub fn push_decimal(text: &mut String, n: u32)
    ensures
        final(text)@ == old(text)@ + decimal(n as nat),
    decreases n,
{
    if n >= 10 {
        push_decimal(text, n / 10);
    }
    let last: u32 = n % 10;
    text.append(digit_str(last));
    proof {
        if n >= 10 {
            assert(old(text)@ + decimal(n as nat) =~= (old(text)@ + decimal((n / 10) as nat)).push(
                digit_char((n % 10) as nat),
            ));
        }
    }
}

} // verus!
