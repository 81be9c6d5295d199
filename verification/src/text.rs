//! Text: decimal numerals, lengths in UTF-8, and the endings of texts that fit a limit.

use vstd::prelude::*;
use vstd::std_specs::iter::IteratorSpec;
use vstd::utf8::*;

verus! {

broadcast use vstd::string::group_string_axioms;

/// The character for a decimal digit.
pub open spec fn digit(d: nat) -> char
    recommends
        d < 10,
{
    (48 + d) as char
}

/// The decimal numeral of `n`, without leading zeros.
pub open spec fn decimal(n: nat) -> Seq<char>
    decreases n,
{
    if n < 10 {
        seq![digit(n)]
    } else {
        decimal(n / 10).push(digit(n % 10))
    }
}

/// The decimal numeral of `i`, with a leading minus sign when it is negative.
pub open spec fn signed_decimal(i: int) -> Seq<char> {
    if i < 0 {
        seq!['-'] + decimal((-i) as nat)
    } else {
        decimal(i as nat)
    }
}

fn digit_str(d: u64) -> (text: &'static str)
    requires
        d < 10,
    ensures
        text@ == seq![digit(d as nat)],
{
    proof {
        reveal_strlit("0");
        reveal_strlit("1");
        reveal_strlit("2");
        reveal_strlit("3");
        reveal_strlit("4");
        reveal_strlit("5");
        reveal_strlit("6");
        reveal_strlit("7");
        reveal_strlit("8");
        reveal_strlit("9");
    }
    match d {
        0 => "0",
        1 => "1",
        2 => "2",
        3 => "3",
        4 => "4",
        5 => "5",
        6 => "6",
        7 => "7",
        8 => "8",
        _ => "9",
    }
}

/// Writes `n` in decimal.
pub fn decimal_string(n: u64) -> (text: String)
    ensures
        text@ == decimal(n as nat),
    decreases n,
{
    if n < 10 {
        digit_str(n).to_owned()
    } else {
        let mut text = decimal_string(n / 10);
        let last = digit_str(n % 10);
        text.append(last);
        assert(text@ =~= decimal(n as nat));
        text
    }
}

/// Writes `i` in decimal, with a minus sign when it is negative.
pub fn signed_decimal_string(i: i32) -> (text: String)
    ensures
        text@ == signed_decimal(i as int),
{
    if i < 0 {
        let magnitude: u64 = (-(i as i64)) as u64;
        let digits = decimal_string(magnitude);
        let mut text = "-".to_owned();
        proof {
            reveal_strlit("-");
        }
        text.append(digits.as_str());
        assert(text@ =~= signed_decimal(i as int));
        text
    } else {
        decimal_string(i as u64)
    }
}

/// The number of bytes that `chars` takes in UTF-8.
pub open spec fn utf8_len(chars: Seq<char>) -> nat {
    encode_utf8(chars).len()
}

/// What is left of `chars` once leading characters have been dropped, one at a time, until the
/// rest takes no more than `limit` bytes in UTF-8.
pub open spec fn tail_within(chars: Seq<char>, limit: nat) -> Seq<char>
    decreases chars.len(),
{
    if utf8_len(chars) <= limit || chars.len() == 0 {
        chars
    } else {
        tail_within(chars.drop_first(), limit)
    }
}

/// The tail kept within a limit is the longest suffix that fits: it is what follows the first
/// `n` characters for some `n`, it takes at most `limit` bytes, and every longer suffix takes
/// more.
pub proof fn law_tail_is_longest_fitting_suffix(chars: Seq<char>, limit: nat) -> (n: int)
    ensures
        0 <= n <= chars.len(),
        tail_within(chars, limit) == chars.skip(n),
        utf8_len(tail_within(chars, limit)) <= limit,
        forall|m: int| 0 <= m < n ==> utf8_len(#[trigger] chars.skip(m)) > limit,
        encode_utf8(tail_within(chars, limit)).len() <= limit,
        forall|m: int| 0 <= m < n ==> encode_utf8(#[trigger] chars.skip(m)).len() > limit,
    decreases chars.len(),
{
    if utf8_len(chars) <= limit || chars.len() == 0 {
        assert(chars.skip(0) =~= chars);
        0
    } else {
        let rest = chars.drop_first();
        let k = law_tail_is_longest_fitting_suffix(rest, limit);
        assert(rest.skip(k) =~= chars.skip(k + 1));
        assert forall|m: int| 0 <= m < k + 1 implies utf8_len(#[trigger] chars.skip(m)) > limit by {
            if m == 0 {
                assert(chars.skip(0) =~= chars);
            } else {
                assert(rest.skip(m - 1) =~= chars.skip(m));
            }
        }
        k + 1
    }
}

/// The UTF-8 of two texts in a row is that of the one and then that of the other.
pub proof fn lemma_encode_concat(a: Seq<char>, b: Seq<char>)
    ensures
        encode_utf8(a + b) == encode_utf8(a) + encode_utf8(b),
    decreases a.len(),
{
    if a.len() == 0 {
        assert(a + b =~= b);
        assert(encode_utf8(a) + encode_utf8(b) =~= encode_utf8(b));
    } else {
        lemma_encode_concat(a.drop_first(), b);
        assert((a + b).drop_first() =~= a.drop_first() + b);
        assert(encode_utf8(a + b) =~= encode_utf8(a) + encode_utf8(b));
    }
}

proof fn lemma_boundary_after_prefix(a: Seq<char>, b: Seq<char>)
    ensures
        is_char_boundary(encode_utf8(a + b), encode_utf8(a).len() as int),
    decreases a.len(),
{
    encode_utf8_valid_utf8(a + b);
    if a.len() > 0 {
        let bytes = encode_utf8(a + b);
        encode_utf8_first_scalar(a + b);
        lemma_encode_concat(a, b);
        lemma_boundary_after_prefix(a.drop_first(), b);
        assert((a + b).drop_first() =~= a.drop_first() + b);
        assert(pop_first_scalar(bytes) =~= encode_utf8(a.drop_first() + b));
    }
}

/// The number of bytes that `c` takes in UTF-8.
fn char_width(c: char) -> (width: usize)
    ensures
        width == encode_scalar(c as u32).len(),
{
    let scalar: u32 = c as u32;
    if scalar <= 0x7F {
        1
    } else if scalar <= 0x7FF {
        2
    } else if scalar <= 0xFFFF {
        3
    } else {
        4
    }
}

/// Drops leading characters of `text` until the rest takes at most `limit` bytes.
pub fn keep_tail(text: &str, limit: usize) -> (tail: String)
    ensures
        tail@ == tail_within(text@, limit as nat),
        encode_utf8(tail@).len() <= limit,
        exists|n: int|
            #![trigger text@.skip(n)]
            0 <= n <= text@.len() && tail@ == text@.skip(n) && (forall|m: int|
                0 <= m < n ==> encode_utf8(#[trigger] text@.skip(m)).len() > limit),
{
    let total: usize = text.as_bytes().len();
    let mut rest: usize = total;
    let mut chars = text.chars();
    let ghost mut dropped: int = 0;
    assert(text@.skip(0) =~= text@);
    while rest > limit
        invariant
            0 <= dropped <= text@.len(),
            total == utf8_len(text@),
            rest == utf8_len(text@.skip(dropped)),
            chars.remaining() == text@.skip(dropped),
            tail_within(text@, limit as nat) == tail_within(text@.skip(dropped), limit as nat),
        decreases rest,
    {
        match chars.next() {
            Some(c) => {
                proof {
                    let before = text@.skip(dropped);
                    assert(before.drop_first() =~= text@.skip(dropped + 1));
                    assert(encode_utf8(before) == encode_scalar(before[0] as u32) + encode_utf8(
                        before.drop_first(),
                    ));
                    dropped = dropped + 1;
                }
                let width: usize = char_width(c);
                rest = rest - width;
            },
            None => {
                assert(false);
            },
        }
    }
    proof {
        assert(text@ =~= text@.take(dropped) + text@.skip(dropped));
        lemma_encode_concat(text@.take(dropped), text@.skip(dropped));
        lemma_boundary_after_prefix(text@.take(dropped), text@.skip(dropped));
    }
    let halves = text.split_at(total - rest);
    proof {
        assert(encode_utf8(halves.1@) =~= encode_utf8(text@.skip(dropped)));
        encode_utf8_decode_utf8(halves.1@);
        encode_utf8_decode_utf8(text@.skip(dropped));
        let n = law_tail_is_longest_fitting_suffix(text@, limit as nat);
        assert(halves.1@ == text@.skip(n));
    }
    halves.1.to_owned()
}

/// The length of a text is the number of bytes that encode it, and lengths add up.
pub proof fn law_length_is_that_of_the_encoding(a: Seq<char>, b: Seq<char>)
    ensures
        utf8_len(a) == encode_utf8(a).len(),
        utf8_len(a + b) == encode_utf8(a).len() + encode_utf8(b).len(),
{
    lemma_encode_concat(a, b);
}

/// A text is left whole exactly when its encoding fits the limit.
pub proof fn law_fitting_text_is_kept_whole(chars: Seq<char>, limit: nat)
    ensures
        tail_within(chars, limit) == chars <==> encode_utf8(chars).len() <= limit,
{
    let n = law_tail_is_longest_fitting_suffix(chars, limit);
    if n > 0 {
        assert(chars.skip(n).len() < chars.len());
    } else {
        assert(chars.skip(0) =~= chars);
    }
}

/// Numerals are positional: the digits are those from `0` to `9`, and the numeral of ten times a
/// number and a digit more is that of the number and then that of the digit.
pub proof fn law_numerals_are_positional(n: nat, d: nat)
    requires
        d < 10,
    ensures
        n > 0 ==> decimal(10 * n + d) == decimal(n) + decimal(d),
        decimal(0) == "0"@,
        decimal(1) == "1"@,
        decimal(2) == "2"@,
        decimal(3) == "3"@,
        decimal(4) == "4"@,
        decimal(5) == "5"@,
        decimal(6) == "6"@,
        decimal(7) == "7"@,
        decimal(8) == "8"@,
        decimal(9) == "9"@,
{
    reveal_strlit("0");
    reveal_strlit("1");
    reveal_strlit("2");
    reveal_strlit("3");
    reveal_strlit("4");
    reveal_strlit("5");
    reveal_strlit("6");
    reveal_strlit("7");
    reveal_strlit("8");
    reveal_strlit("9");
    assert(decimal(0) =~= "0"@);
    assert(decimal(1) =~= "1"@);
    assert(decimal(2) =~= "2"@);
    assert(decimal(3) =~= "3"@);
    assert(decimal(4) =~= "4"@);
    assert(decimal(5) =~= "5"@);
    assert(decimal(6) =~= "6"@);
    assert(decimal(7) =~= "7"@);
    assert(decimal(8) =~= "8"@);
    assert(decimal(9) =~= "9"@);
    if n > 0 {
        assert((10 * n + d) / 10 == n && (10 * n + d) % 10 == d);
        assert(decimal(10 * n + d) =~= decimal(n) + decimal(d));
    }
}

/// The numeral of a negative number is that of its opposite behind a minus sign; that of any other
/// number has no sign.
pub proof fn law_negative_numerals_have_a_sign(n: nat)
    ensures
        signed_decimal(n as int) == decimal(n),
        n > 0 ==> signed_decimal(-n) == "-"@ + decimal(n),
{
    reveal_strlit("-");
    assert("-"@ =~= seq!['-']);
}

} // verus!
