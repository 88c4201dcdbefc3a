//! Text as the forms see it: blank space at the ends, lengths in bytes,
//! numbers written in decimal.

use vstd::prelude::*;
use vstd::utf8::encode_utf8;

verus! {

/// Whether a character is an ASCII digit.
pub open spec fn is_digit(c: char) -> bool {
    '0' <= c <= '9'
}

/// Whether a character is an ASCII letter.
pub open spec fn is_letter(c: char) -> bool {
    ('a' <= c <= 'z') || ('A' <= c <= 'Z')
}

/// Whether a character is blank space: one of the characters with the
/// Unicode property `White_Space`.
pub open spec fn is_space(c: char) -> bool {
    let u = c as u32;
    ||| 0x09 <= u <= 0x0d
    ||| u == 0x20
    ||| u == 0x85
    ||| u == 0xa0
    ||| u == 0x1680
    ||| 0x2000 <= u <= 0x200a
    ||| u == 0x2028
    ||| u == 0x2029
    ||| u == 0x202f
    ||| u == 0x205f
    ||| u == 0x3000
}

/// Whether a character is an ASCII digit.
pub fn char_is_digit(c: char) -> (r: bool)
    ensures
        r == is_digit(c),
{
    '0' <= c && c <= '9'
}

/// Whether a character is an ASCII letter.
pub fn char_is_letter(c: char) -> (r: bool)
    ensures
        r == is_letter(c),
{
    ('a' <= c && c <= 'z') || ('A' <= c && c <= 'Z')
}

/// Whether a character is blank space.
pub fn char_is_space(c: char) -> (r: bool)
    ensures
        r == is_space(c),
{
    let u = c as u32;
    (0x09 <= u && u <= 0x0d) || u == 0x20 || u == 0x85 || u == 0xa0 || u == 0x1680 || (0x2000 <= u
        && u <= 0x200a) || u == 0x2028 || u == 0x2029 || u == 0x202f || u == 0x205f || u == 0x3000
}

/// The characters of a text, in order.
pub fn chars_of(text: &str) -> (chars: Vec<char>)
    ensures
        chars@ == text@,
{
    let mut chars: Vec<char> = Vec::new();
    for c in it: text.chars()
        invariant
            it.seq() == text@,
            chars@ == text@.take(it.index() as int),
    {
        chars.push(c);
        assert(text@.take(it.index() + 1) =~= text@.take(it.index() as int).push(c));
    }
    assert(text@.take(text@.len() as int) =~= text@);
    chars
}

/// The length of a text in bytes, encoded as UTF-8.
pub open spec fn byte_len(text: Seq<char>) -> nat {
    encode_utf8(text).len()
}

/// The length of a text in bytes.
pub fn byte_length(text: &str) -> (n: usize)
    ensures
        n == byte_len(text@),
{
    text.as_bytes().len()
}

/// The index of the first character at or behind `from` that is not blank
/// space; the length of the text where there is none.
pub open spec fn solid_start(text: Seq<char>, from: int) -> int
    decreases text.len() - from,
{
    if 0 <= from < text.len() && is_space(text[from]) {
        solid_start(text, from + 1)
    } else {
        from
    }
}

/// One more than the index of the last character before `to` that is not
/// blank space; zero where there is none.
pub open spec fn solid_end(text: Seq<char>, to: int) -> int
    decreases to,
{
    if 0 < to <= text.len() && is_space(text[to - 1]) {
        solid_end(text, to - 1)
    } else {
        to
    }
}

/// The text without the blank space at its start and at its end.
pub open spec fn trimmed(text: Seq<char>) -> Seq<char> {
    let start = solid_start(text, 0);
    let end = solid_end(text, text.len() as int);
    if start < end {
        text.subrange(start, end)
    } else {
        Seq::empty()
    }
}

/// The text without the blank space at its start and at its end.
pub fn trim(text: &str) -> (r: &str)
    ensures
        r@ == trimmed(text@),
{
    let chars = chars_of(text);
    let n = chars.len();
    let mut start: usize = 0;
    while start < n && char_is_space(chars[start])
        invariant
            start <= n == chars.len(),
            chars@ == text@,
            solid_start(text@, 0) == solid_start(text@, start as int),
        decreases n - start,
    {
        start += 1;
    }
    let mut end: usize = n;
    while end > 0 && char_is_space(chars[end - 1])
        invariant
            end <= n == chars.len(),
            chars@ == text@,
            solid_end(text@, n as int) == solid_end(text@, end as int),
        decreases end,
    {
        end -= 1;
    }
    if start < end {
        text.substring_char(start, end)
    } else {
        let r = text.substring_char(0, 0);
        assert(r@ =~= Seq::<char>::empty());
        r
    }
}

/// The number that a run of decimal digits writes.
pub open spec fn digits_value(digits: Seq<char>) -> int
    decreases digits.len(),
{
    if digits.len() == 0 {
        0
    } else {
        digits_value(digits.drop_last()) * 10 + (digits.last() as u32 - '0' as u32)
    }
}

/// Whether every character is an ASCII digit.
pub open spec fn all_digits(digits: Seq<char>) -> bool {
    forall|i: int| 0 <= i < digits.len() ==> is_digit(#[trigger] digits[i])
}

/// Whether the text has a sign in front.
pub open spec fn has_sign(text: Seq<char>) -> bool {
    text.len() > 0 && (text[0] == '+' || text[0] == '-')
}

/// Whether a text writes a number that fits into 64 bits with a sign: an
/// optional `+` or `-`, then at least one decimal digit and nothing else,
/// and the number written lies between `i64::MIN` and `i64::MAX`.
pub open spec fn is_i64_text(text: Seq<char>) -> bool {
    let digits = if has_sign(text) { text.skip(1) } else { text };
    &&& digits.len() > 0
    &&& all_digits(digits)
    &&& if has_sign(text) && text[0] == '-' {
        digits_value(digits) <= 0x8000_0000_0000_0000
    } else {
        digits_value(digits) <= 0x7fff_ffff_ffff_ffff
    }
}

/// A run of digits writes no smaller a number than any run it starts with.
pub proof fn lemma_digits_value_grows(digits: Seq<char>, k: int)
    requires
        all_digits(digits),
        0 <= k <= digits.len(),
    ensures
        0 <= digits_value(digits.take(k)) <= digits_value(digits),
    decreases digits.len() - k,
{
    if k == digits.len() {
        assert(digits.take(k) =~= digits);
        lemma_digits_value_positive(digits);
    } else {
        lemma_digits_value_grows(digits, k + 1);
        assert(digits.take(k + 1).drop_last() =~= digits.take(k));
        lemma_digits_value_positive(digits.take(k));
        assert(is_digit(digits[k]));
    }
}

/// A run of digits writes no negative number.
pub proof fn lemma_digits_value_positive(digits: Seq<char>)
    requires
        all_digits(digits),
    ensures
        0 <= digits_value(digits),
    decreases digits.len(),
{
    if digits.len() > 0 {
        assert(all_digits(digits.drop_last())) by {
            assert forall|i: int| 0 <= i < digits.drop_last().len() implies is_digit(
                #[trigger] digits.drop_last()[i],
            ) by {
                assert(digits.drop_last()[i] == digits[i]);
            }
        }
        lemma_digits_value_positive(digits.drop_last());
        assert(is_digit(digits[digits.len() - 1]));
    }
}

/// Whether a text writes a number that fits into 64 bits with a sign.
pub fn writes_i64(text: &str) -> (r: bool)
    ensures
        r == is_i64_text(text@),
{
    let chars = chars_of(text);
    let n = chars.len();
    if n == 0 {
        return false;
    }
    let signed = chars[0] == '+' || chars[0] == '-';
    let negative = chars[0] == '-';
    let first: usize = if signed { 1 } else { 0 };
    if first == n {
        return false;
    }
    let ghost digits = if has_sign(text@) { text@.skip(1) } else { text@ };
    let limit: u64 = if negative { 0x8000_0000_0000_0000 } else { 0x7fff_ffff_ffff_ffff };
    let mut value: u64 = 0;
    let mut k: usize = first;
    while k < n
        invariant
            first <= k <= n == chars.len(),
            chars@ == text@,
            digits == (if has_sign(text@) { text@.skip(1) } else { text@ }),
            digits.len() == n - first,
            first == (if has_sign(text@) { 1int } else { 0int }),
            all_digits(digits.take(k - first)),
            value == digits_value(digits.take(k - first)),
            value <= limit,
            limit == (if has_sign(text@) && text@[0] == '-' {
                0x8000_0000_0000_0000u64
            } else {
                0x7fff_ffff_ffff_ffffu64
            }),
        decreases n - k,
    {
        let c = chars[k];
        assert(c == digits[k - first]);
        if !char_is_digit(c) {
            return false;
        }
        let d = (c as u32 - '0' as u32) as u64;
        assert(d <= 9);
        proof {
            assert(digits.take(k - first + 1).drop_last() =~= digits.take(k - first));
            assert(digits.take(k - first + 1).last() == c);
            assert forall|i: int| 0 <= i < k - first + 1 implies is_digit(
                #[trigger] digits.take(k - first + 1)[i],
            ) by {
                if i < k - first {
                    assert(digits.take(k - first + 1)[i] == digits.take(k - first)[i]);
                }
            }
        }
        if value > (limit - d) / 10 {
            proof {
                // The number written so far is beyond the limit already, and
                // more digits only make it greater.
                assert((limit - d) / 10 * 10 + 9 >= limit - d);
                assert(value * 10 + d > limit);
                assert(digits_value(digits.take(k - first + 1)) == value * 10 + d);
                if all_digits(digits) {
                    lemma_digits_value_grows(digits, k - first + 1);
                }
            }
            return false;
        }
        value = value * 10 + d;
        k += 1;
    }
    assert(digits.take(n - first) =~= digits);
    true
}

/// The character that writes a digit.
pub open spec fn digit_char(d: nat) -> char {
    if d == 0 {
        '0'
    } else if d == 1 {
        '1'
    } else if d == 2 {
        '2'
    } else if d == 3 {
        '3'
    } else if d == 4 {
        '4'
    } else if d == 5 {
        '5'
    } else if d == 6 {
        '6'
    } else if d == 7 {
        '7'
    } else if d == 8 {
        '8'
    } else {
        '9'
    }
}

/// A natural number written in decimal, without leading zeros.
pub open spec fn decimal(n: nat) -> Seq<char>
    decreases n,
{
    if n < 10 {
        seq![digit_char(n)]
    } else {
        decimal(n / 10).push(digit_char(n % 10))
    }
}

/// An integer written in decimal, with a `-` in front where it is negative.
pub open spec fn signed_decimal(n: int) -> Seq<char> {
    if n < 0 {
        seq!['-'] + decimal((-n) as nat)
    } else {
        decimal(n as nat)
    }
}

/// The text of one digit.
fn digit_text(d: u64) -> (r: &'static str)
    requires
        d < 10,
    ensures
        r@ == seq![digit_char(d as nat)],
{
    proof {
        reveal_strlit("0");
        reveal_strlit("1");
        reveal_strlit("2");
        reveal_strlit("3");
        reveal_strlit("4");
        reveal_strlit("5");
        reveal_strlit("6");
        reveal_strlit("7");
        reveal_strlit("8");
        reveal_strlit("9");
    }
    let r = if d == 0 {
        "0"
    } else if d == 1 {
        "1"
    } else if d == 2 {
        "2"
    } else if d == 3 {
        "3"
    } else if d == 4 {
        "4"
    } else if d == 5 {
        "5"
    } else if d == 6 {
        "6"
    } else if d == 7 {
        "7"
    } else if d == 8 {
        "8"
    } else {
        "9"
    };
    assert(r@ =~= seq![digit_char(d as nat)]);
    r
}

/// Writes a natural number in decimal at the end of a text.
pub fn push_decimal(out: &mut String, n: u64)
    ensures
        final(out)@ == old(out)@ + decimal(n as nat),
    decreases n,
{
    if n >= 10 {
        push_decimal(out, n / 10);
    }
    out.append(digit_text(n % 10));
    proof {
        if n >= 10 {
            assert(old(out)@ + decimal((n / 10) as nat) + seq![digit_char((n % 10) as nat)] =~= old(
                out,
            )@ + decimal(n as nat));
        }
    }
}

/// An integer written in decimal.
pub fn i64_text(n: i64) -> (r: String)
    ensures
        r@ == signed_decimal(n as int),
{
    let mut out = String::new();
    if n < 0 {
        proof {
            reveal_strlit("-");
        }
        out.append("-");
        assert(out@ =~= seq!['-']);
        let magnitude: u64 = if n == i64::MIN {
            0x8000_0000_0000_0000
        } else {
            (-n) as u64
        };
        push_decimal(&mut out, magnitude);
    } else {
        push_decimal(&mut out, n as u64);
        assert(Seq::<char>::empty() + decimal(n as nat) =~= decimal(n as nat));
    }
    out
}

/// Whether two texts are the same.
pub fn same_text(a: &str, b: &str) -> (r: bool)
    ensures
        r == (a@ == b@),
{
    a.to_string() == b.to_string()
}

/// `before`, then `after`.
pub fn joined(before: &str, after: &str) -> (text: String)
    ensures
        text@ == before@ + after@,
{
    let mut text = String::new();
    text.append(before);
    text.append(after);
    assert(text@ =~= before@ + after@);
    text
}

/// Copies an optional text.
pub fn owned_text(text: Option<&str>) -> (r: Option<String>)
    ensures
        r.is_some() == text.is_some(),
        r.is_some() ==> r.unwrap()@ == text.unwrap()@,
{
    match text {
        Some(t) => Some(t.to_string()),
        None => None,
    }
}

/// The value of an optional text.
pub open spec fn text_view(text: Option<String>) -> Option<Seq<char>> {
    match text {
        Some(t) => Some(t@),
        None => None,
    }
}

/// The values of a list of texts.
pub open spec fn names_view(names: Seq<String>) -> Seq<Seq<char>> {
    names.map_values(|n: String| n@)
}

/// Whether a text writes a number that fits into 64 bits without a sign: an
/// optional `+`, then at least one decimal digit and nothing else, and the
/// number written is `u64::MAX` at most.
pub open spec fn is_u64_text(text: Seq<char>) -> bool {
    let digits = if text.len() > 0 && text[0] == '+' { text.skip(1) } else { text };
    &&& digits.len() > 0
    &&& all_digits(digits)
    &&& digits_value(digits) <= 0xffff_ffff_ffff_ffff
}

/// Whether a text writes a number that fits into 64 bits without a sign.
pub fn writes_u64(text: &str) -> (r: bool)
    ensures
        r == is_u64_text(text@),
{
    let chars = chars_of(text);
    let n = chars.len();
    if n == 0 {
        return false;
    }
    let first: usize = if chars[0] == '+' { 1 } else { 0 };
    if first == n {
        return false;
    }
    let ghost digits = if text@[0] == '+' { text@.skip(1) } else { text@ };
    let mut value: u64 = 0;
    let mut k: usize = first;
    while k < n
        invariant
            first <= k <= n == chars.len(),
            chars@ == text@,
            n > 0,
            digits == (if text@[0] == '+' { text@.skip(1) } else { text@ }),
            digits.len() == n - first,
            first == (if text@[0] == '+' { 1int } else { 0int }),
            all_digits(digits.take(k - first)),
            value == digits_value(digits.take(k - first)),
        decreases n - k,
    {
        let c = chars[k];
        assert(c == digits[k - first]);
        if !char_is_digit(c) {
            return false;
        }
        let d = (c as u32 - '0' as u32) as u64;
        assert(d <= 9);
        proof {
            assert(digits.take(k - first + 1).drop_last() =~= digits.take(k - first));
            assert(digits.take(k - first + 1).last() == c);
            assert forall|i: int| 0 <= i < k - first + 1 implies is_digit(
                #[trigger] digits.take(k - first + 1)[i],
            ) by {
                if i < k - first {
                    assert(digits.take(k - first + 1)[i] == digits.take(k - first)[i]);
                }
            }
        }
        if value > (0xffff_ffff_ffff_ffff - d) / 10 {
            proof {
                assert((0xffff_ffff_ffff_ffff - d) / 10 * 10 + 9 >= 0xffff_ffff_ffff_ffff - d);
                assert(digits_value(digits.take(k - first + 1)) == value * 10 + d);
                if all_digits(digits) {
                    lemma_digits_value_grows(digits, k - first + 1);
                }
            }
            return false;
        }
        value = value * 10 + d;
        k += 1;
    }
    assert(digits.take(n - first) =~= digits);
    true
}

} // verus!
