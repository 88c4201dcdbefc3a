//! How many of a game or an item: typed as text, stepped up and down, and
//! held between one and what is to be had.

use vstd::prelude::*;
use crate::text::{char_is_digit, chars_of, digits_value, is_digit, lemma_digits_value_grows};

verus! {

/// The digits of a text, in order.
pub open spec fn digits_of(text: Seq<char>) -> Seq<char> {
    text.filter(|c: char| is_digit(c))
}

/// The quantity that a text stands for: the number that its digits write,
/// all other characters ignored; one where it has no digit or the number does
/// not fit into 64 bits with a sign.
pub open spec fn typed_quantity(text: Seq<char>) -> int {
    let digits = digits_of(text);
    if digits.len() > 0 && digits_value(digits) <= i64::MAX {
        digits_value(digits)
    } else {
        1
    }
}

/// `quantity` where it lies between one and `most`, else the nearer of the
/// two.
pub open spec fn held(quantity: int, most: int) -> int {
    if quantity < 1 {
        1
    } else if quantity > most {
        most
    } else {
        quantity
    }
}

/// The most that can be signed out of a stock of `owned` of which
/// `already_out` are out: what is left, one at least, and no more than 64
/// bits with a sign can count.
pub open spec fn most_of(owned: int, already_out: int) -> int {
    held(owned - already_out, i64::MAX as int)
}

/// Every element of a filtered run of characters is a digit.
proof fn lemma_digits_are_digits(text: Seq<char>)
    ensures
        forall|i: int| 0 <= i < digits_of(text).len() ==> is_digit(#[trigger] digits_of(text)[i]),
{
    let pred = |c: char| is_digit(c);
    assert forall|i: int| 0 <= i < digits_of(text).len() implies is_digit(
        #[trigger] digits_of(text)[i],
    ) by {
        text.lemma_filter_pred(pred, i);
    }
}

/// The quantity that a text stands for.
pub fn read_quantity(text: &str) -> (quantity: i64)
    ensures
        quantity == typed_quantity(text@),
{
    let chars = chars_of(text);
    let ghost pred = |c: char| is_digit(c);
    let mut value: u64 = 0;
    let mut seen = false;
    let mut k: usize = 0;
    proof {
        text@.take(0).lemma_filter_len(pred);
    }
    while k < chars.len()
        invariant
            k <= chars.len(),
            chars@ == text@,
            pred == (|c: char| is_digit(c)),
            value == digits_value(text@.take(k as int).filter(pred)),
            seen == (text@.take(k as int).filter(pred).len() > 0),
            value <= i64::MAX,
        decreases chars.len() - k,
    {
        let c = chars[k];
        proof {
            assert(text@.take(k + 1) =~= text@.take(k as int).push(c));
            text@.take(k as int).lemma_filter_push(c, pred);
        }
        if char_is_digit(c) {
            let d = (c as u32 - '0' as u32) as u64;
            assert(d <= 9);
            proof {
                let sofar = text@.take(k as int).filter(pred);
                assert(sofar.push(c).drop_last() =~= sofar);
            }
            if value > (0x7fff_ffff_ffff_ffff - d) / 10 {
                proof {
                    // Too great already, and more digits only make it greater.
                    let digits = digits_of(text@);
                    let head = text@.take(k + 1);
                    let rest = text@.skip(k + 1);
                    assert(text@ =~= head + rest);
                    Seq::filter_distributes_over_add(head, rest, pred);
                    let n = head.filter(pred).len() as int;
                    assert(digits.take(n) =~= head.filter(pred));
                    lemma_digits_are_digits(text@);
                    lemma_digits_value_grows(digits, n);
                    assert((0x7fff_ffff_ffff_ffff - d) / 10 * 10 + 9 >= 0x7fff_ffff_ffff_ffff - d);
                    assert(digits_value(head.filter(pred)) == value * 10 + d);
                }
                return 1;
            }
            value = value * 10 + d;
            seen = true;
        }
        k += 1;
    }
    proof {
        assert(text@.take(k as int) =~= text@);
    }
    if seen {
        value as i64
    } else {
        1
    }
}

/// Holds a quantity between one and `most`.
pub fn hold(quantity: i64, most: i64) -> (r: i64)
    requires
        most >= 1,
    ensures
        r == held(quantity as int, most as int),
        1 <= r <= most,
{
    if quantity < 1 {
        1
    } else if quantity > most {
        most
    } else {
        quantity
    }
}

/// The most that can be signed out of a stock.
pub fn most_left(owned: i64, already_out: i64) -> (most: i64)
    ensures
        most == most_of(owned as int, already_out as int),
        most >= 1,
{
    let left: i128 = owned as i128 - already_out as i128;
    if left < 1 {
        1
    } else if left > i64::MAX as i128 {
        i64::MAX
    } else {
        left as i64
    }
}

} // verus!
