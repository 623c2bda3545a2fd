//! Layer names: five 32-bit words, written as 40 lower-case hex digits.

use vstd::prelude::*;
use vstd::string::*;

verus! {

/// The sixteen digits of the canonical form, by value.
pub open spec fn hex_digits() -> Seq<char> {
    seq!['0', '1', '2', '3', '4', '5', '6', '7', '8', '9', 'a', 'b', 'c', 'd', 'e', 'f']
}

pub open spec fn hex_digit(d: int) -> char {
    hex_digits()[d]
}

/// A hex digit in either case.
pub open spec fn is_hex_char(c: char) -> bool {
    ('0' <= c && c <= '9') || ('a' <= c && c <= 'f') || ('A' <= c && c <= 'F')
}

pub open spec fn digit_value(c: char) -> int {
    if '0' <= c && c <= '9' {
        c as int - '0' as int
    } else if 'a' <= c && c <= 'f' {
        c as int - 'a' as int + 10
    } else {
        c as int - 'A' as int + 10
    }
}

/// One word as eight zero-padded lower-case hex digits, most significant first.
#[verifier::opaque]
pub open spec fn word_hex(w: u32) -> Seq<char> {
    let q1 = w as int / 16;
    let q2 = q1 / 16;
    let q3 = q2 / 16;
    let q4 = q3 / 16;
    let q5 = q4 / 16;
    let q6 = q5 / 16;
    let q7 = q6 / 16;
    seq![
        hex_digit(q7 % 16),
        hex_digit(q6 % 16),
        hex_digit(q5 % 16),
        hex_digit(q4 % 16),
        hex_digit(q3 % 16),
        hex_digit(q2 % 16),
        hex_digit(q1 % 16),
        hex_digit(w as int % 16),
    ]
}

/// The canonical 40-character form of a name.
pub open spec fn name_hex(n: Seq<u32>) -> Seq<char> {
    word_hex(n[0]) + word_hex(n[1]) + word_hex(n[2]) + word_hex(n[3]) + word_hex(n[4])
}

/// Text that reads as a name: exactly forty hex digits.
pub open spec fn is_name_text(s: Seq<char>) -> bool {
    s.len() == 40 && forall|i: int| 0 <= i < 40 ==> is_hex_char(#[trigger] s[i])
}

/// The value of eight hex digits.
#[verifier::opaque]
pub open spec fn hex8_value(s: Seq<char>) -> int {
    (((((((digit_value(s[0]) * 16 + digit_value(s[1])) * 16 + digit_value(s[2])) * 16
        + digit_value(s[3])) * 16 + digit_value(s[4])) * 16 + digit_value(s[5])) * 16
        + digit_value(s[6])) * 16 + digit_value(s[7]))
}

/// The five words that forty hex digits spell, eight digits per word.
pub open spec fn name_words(s: Seq<char>) -> Seq<u32> {
    seq![
        hex8_value(s.subrange(0, 8)) as u32,
        hex8_value(s.subrange(8, 16)) as u32,
        hex8_value(s.subrange(16, 24)) as u32,
        hex8_value(s.subrange(24, 32)) as u32,
        hex8_value(s.subrange(32, 40)) as u32,
    ]
}

fn digit_str(d: u32) -> (r: &'static str)
    requires
        d < 16,
    ensures
        r@ == seq![hex_digit(d as int)],
{
    let digits = "0123456789abcdef";
    proof {
        reveal_strlit("0123456789abcdef");
        assert(digits@ =~= hex_digits());
    }
    let r = digits.substring_ascii(d as usize, d as usize + 1);
    assert(r@ =~= seq![hex_digit(d as int)]);
    r
}

fn push_word_hex(s: &mut String, w: u32)
    ensures
        final(s)@ == old(s)@ + word_hex(w),
{
    let q1 = w / 16;
    let q2 = q1 / 16;
    let q3 = q2 / 16;
    let q4 = q3 / 16;
    let q5 = q4 / 16;
    let q6 = q5 / 16;
    let q7 = q6 / 16;
    s.append(digit_str(q7 % 16));
    s.append(digit_str(q6 % 16));
    s.append(digit_str(q5 % 16));
    s.append(digit_str(q4 % 16));
    s.append(digit_str(q3 % 16));
    s.append(digit_str(q2 % 16));
    s.append(digit_str(q1 % 16));
    s.append(digit_str(w % 16));
    reveal(word_hex);
    assert(final(s)@ =~= old(s)@ + word_hex(w));
}

/// The canonical form of a name: its five words as `{:08x}` each, in order.
pub fn name_to_string(name: [u32; 5]) -> (r: String)
    ensures
        r@ == name_hex(name@),
{
    let mut s = String::new();
    push_word_hex(&mut s, name[0]);
    push_word_hex(&mut s, name[1]);
    push_word_hex(&mut s, name[2]);
    push_word_hex(&mut s, name[3]);
    push_word_hex(&mut s, name[4]);
    assert(s@ =~= name_hex(name@));
    s
}

fn digit_of(c: char) -> (r: u32)
    requires
        is_hex_char(c),
    ensures
        r as int == digit_value(c),
        r < 16,
{
    if '0' <= c && c <= '9' {
        (c as u32) - ('0' as u32)
    } else if 'a' <= c && c <= 'f' {
        (c as u32) - ('a' as u32) + 10
    } else {
        (c as u32) - ('A' as u32) + 10
    }
}

fn parse_word(s: &str, at: usize) -> (r: u32)
    requires
        s@.len() == 40,
        at <= 32,
        forall|i: int| at <= i < at + 8 ==> is_hex_char(#[trigger] s@[i]),
    ensures
        r as int == hex8_value(s@.subrange(at as int, at + 8)),
{
    let ghost w = s@.subrange(at as int, at + 8);
    proof {
        lemma_pow16_mono(0, 8);
        reveal_with_fuel(pow16, 9);
    }
    let mut v: u64 = 0;
    let mut k: usize = 0;
    while k < 8
        invariant
            s@.len() == 40,
            at <= 32,
            forall|i: int| at <= i < at + 8 ==> is_hex_char(#[trigger] s@[i]),
            w == s@.subrange(at as int, at + 8),
            0 <= k <= 8,
            pow16(8) == 4294967296,
            v as int == hex_prefix_value(w, k as int),
            v < pow16(k as int),
        decreases 8 - k,
    {
        proof {
            lemma_pow16_mono(k as int, 8);
        }
        let d = digit_of(s.get_char(at + k));
        assert(w[k as int] == s@[at + k]);
        assert(pow16(k + 1) == pow16(k as int) * 16);
        v = v * 16 + d as u64;
        k = k + 1;
    }
    proof {
        reveal(hex8_value);
        reveal_with_fuel(hex_prefix_value, 9);
    }
    v as u32
}

proof fn lemma_pow16_mono(i: int, j: int)
    requires
        0 <= i <= j,
    ensures
        1 <= pow16(i) <= pow16(j),
    decreases j - i, i,
{
    if i < j {
        lemma_pow16_mono(i, j - 1);
    } else if i > 0 {
        lemma_pow16_mono(i - 1, i - 1);
    }
}

/// The value of the first `k` digits of `s`.
pub open spec fn hex_prefix_value(s: Seq<char>, k: int) -> int
    decreases k,
{
    if k <= 0 {
        0
    } else {
        hex_prefix_value(s, k - 1) * 16 + digit_value(s[k - 1])
    }
}

pub open spec fn pow16(k: int) -> int
    decreases k,
{
    if k <= 0 {
        1
    } else {
        pow16(k - 1) * 16
    }
}

/// Reads the five words of forty hex digits, eight digits per word.
pub fn string_to_name(s: &str) -> (r: [u32; 5])
    requires
        is_name_text(s@),
    ensures
        r@ == name_words(s@),
{
    let r = [parse_word(s, 0), parse_word(s, 8), parse_word(s, 16), parse_word(s, 24), parse_word(s, 32)];
    assert(r@ =~= name_words(s@));
    r
}

fn char_is_hex(c: char) -> (r: bool)
    ensures
        r == is_hex_char(c),
{
    ('0' <= c && c <= '9') || ('a' <= c && c <= 'f') || ('A' <= c && c <= 'F')
}

/// Reads a name from its textual form; `None` unless the text is exactly
/// forty hex digits.
pub fn parse_layer_name(s: &str) -> (r: Option<[u32; 5]>)
    ensures
        r is Some <==> is_name_text(s@),
        r is Some ==> r.unwrap()@ == name_words(s@),
{
    let len = s.unicode_len();
    if len != 40 {
        return None;
    }
    let mut i: usize = 0;
    while i < 40
        invariant
            s@.len() == 40,
            0 <= i <= 40,
            forall|j: int| 0 <= j < i ==> is_hex_char(#[trigger] s@[j]),
        decreases 40 - i,
    {
        if !char_is_hex(s.get_char(i)) {
            return None;
        }
        i = i + 1;
    }
    Some(string_to_name(s))
}

proof fn lemma_digit_round_trip(d: int)
    requires
        0 <= d < 16,
    ensures
        is_hex_char(hex_digit(d)),
        digit_value(hex_digit(d)) == d,
{
}

proof fn lemma_word_round_trip(w: u32)
    ensures
        word_hex(w).len() == 8,
        forall|i: int| 0 <= i < 8 ==> is_hex_char(#[trigger] word_hex(w)[i]),
        hex8_value(word_hex(w)) == w as int,
{
    let q1 = w as int / 16;
    let q2 = q1 / 16;
    let q3 = q2 / 16;
    let q4 = q3 / 16;
    let q5 = q4 / 16;
    let q6 = q5 / 16;
    let q7 = q6 / 16;
    reveal(word_hex);
    reveal(hex8_value);
    lemma_digit_round_trip(q7 % 16);
    lemma_digit_round_trip(q6 % 16);
    lemma_digit_round_trip(q5 % 16);
    lemma_digit_round_trip(q4 % 16);
    lemma_digit_round_trip(q3 % 16);
    lemma_digit_round_trip(q2 % 16);
    lemma_digit_round_trip(q1 % 16);
    lemma_digit_round_trip(w as int % 16);
    assert(q7 < 16);
    let s = word_hex(w);
    assert(hex8_value(s) == w as int);
}

/// Parsing the canonical form of any name gives the name back.
pub proof fn lemma_name_round_trip(n: [u32; 5])
    ensures
        is_name_text(name_hex(n@)),
        name_words(name_hex(n@)) == n@,
{
    let s = name_hex(n@);
    lemma_word_round_trip(n@[0]);
    lemma_word_round_trip(n@[1]);
    lemma_word_round_trip(n@[2]);
    lemma_word_round_trip(n@[3]);
    lemma_word_round_trip(n@[4]);
    assert(s.subrange(0, 8) =~= word_hex(n@[0]));
    assert(s.subrange(8, 16) =~= word_hex(n@[1]));
    assert(s.subrange(16, 24) =~= word_hex(n@[2]));
    assert(s.subrange(24, 32) =~= word_hex(n@[3]));
    assert(s.subrange(32, 40) =~= word_hex(n@[4]));
    assert forall|i: int| 0 <= i < 40 implies is_hex_char(#[trigger] s[i]) by {
        if i < 8 {
            assert(s[i] == word_hex(n@[0])[i]);
        } else if i < 16 {
            assert(s[i] == word_hex(n@[1])[i - 8]);
        } else if i < 24 {
            assert(s[i] == word_hex(n@[2])[i - 16]);
        } else if i < 32 {
            assert(s[i] == word_hex(n@[3])[i - 24]);
        } else {
            assert(s[i] == word_hex(n@[4])[i - 32]);
        }
    }
    assert(name_words(s) =~= n@);
}

} // verus!
