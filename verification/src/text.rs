//! Rendering of numbers and identifiers as text, with their exact character
//! sequences stated as spec functions.
use vstd::prelude::*;

verus! {

/// The decimal digit character for `d` (0 to 9).
pub open spec fn digit_char(d: int) -> char {
    if d == 0 { '0' }
    else if d == 1 { '1' }
    else if d == 2 { '2' }
    else if d == 3 { '3' }
    else if d == 4 { '4' }
    else if d == 5 { '5' }
    else if d == 6 { '6' }
    else if d == 7 { '7' }
    else if d == 8 { '8' }
    else { '9' }
}

/// The lower-case hexadecimal digit character for `d` (0 to 15).
pub open spec fn hex_char(d: int) -> char {
    if d < 10 { digit_char(d) }
    else if d == 10 { 'a' }
    else if d == 11 { 'b' }
    else if d == 12 { 'c' }
    else if d == 13 { 'd' }
    else if d == 14 { 'e' }
    else { 'f' }
}

/// The decimal notation of `n`, without leading zeros.
pub open spec fn decimal_text(n: nat) -> Seq<char>
    decreases n,
{
    if n < 10 {
        seq![digit_char(n as int)]
    } else {
        decimal_text(n / 10).push(digit_char((n % 10) as int))
    }
}

/// The last `k` hexadecimal digits of `n`, most significant first.
pub open spec fn hex_text(n: nat, k: nat) -> Seq<char>
    decreases k,
{
    if k == 0 {
        Seq::empty()
    } else {
        hex_text(n / 16, (k - 1) as nat).push(hex_char((n % 16) as int))
    }
}

/// The last `k` decimal digits of `n`, most significant first (zero-padded).
pub open spec fn padded_decimal_text(n: nat, k: nat) -> Seq<char>
    decreases k,
{
    if k == 0 {
        Seq::empty()
    } else {
        padded_decimal_text(n / 10, (k - 1) as nat).push(digit_char((n % 10) as int))
    }
}

/// A signed integer in decimal notation.
pub open spec fn signed_text(v: int) -> Seq<char> {
    if v < 0 {
        seq!['-'] + decimal_text((-v) as nat)
    } else {
        decimal_text(v as nat)
    }
}

/// The notation of a value kept in hundredths, rounded half away from zero to
/// `places` decimal places (0, 1 or 2). A value exactly halfway is rounded
/// away from zero, where float formatting would round it to even.
pub open spec fn fixed_text(v: int, places: nat) -> Seq<char> {
    let mag: int = if v < 0 { -v } else { v };
    let scaled: int = if places == 0 {
        (mag + 50) / 100
    } else if places == 1 {
        (mag + 5) / 10
    } else {
        mag
    };
    let unit: int = if places == 0 { 1 } else if places == 1 { 10 } else { 100 };
    let whole: int = scaled / unit;
    let frac: int = scaled % unit;
    let sign: Seq<char> = if v < 0 && scaled != 0 { seq!['-'] } else { Seq::empty() };
    sign + decimal_text(whole as nat) + if places == 0 {
        Seq::<char>::empty()
    } else {
        seq!['.'] + padded_decimal_text(frac as nat, places)
    }
}

/// The hyphenated notation `xxxxxxxx-xxxx-xxxx-xxxx-xxxxxxxxxxxx` of a
/// 128-bit identifier.
pub open spec fn uuid_text(u: u128) -> Seq<char> {
    let h = hex_text(u as nat, 32);
    h.subrange(0, 8) + seq!['-'] + h.subrange(8, 12) + seq!['-'] + h.subrange(12, 16)
        + seq!['-'] + h.subrange(16, 20) + seq!['-'] + h.subrange(20, 32)
}

proof fn lemma_hex_text_len(n: nat, k: nat)
    ensures
        hex_text(n, k).len() == k,
    decreases k,
{
    if k > 0 {
        lemma_hex_text_len(n / 16, (k - 1) as nat);
    }
}

/// Appends the hexadecimal digit `d` (below 16).
fn append_hex_digit(s: &mut String, d: u8)
    requires
        d < 16,
    ensures
        final(s)@ == old(s)@.push(hex_char(d as int)),
{
    let lit: &str = match d {
        0 => "0",
        1 => "1",
        2 => "2",
        3 => "3",
        4 => "4",
        5 => "5",
        6 => "6",
        7 => "7",
        8 => "8",
        9 => "9",
        10 => "a",
        11 => "b",
        12 => "c",
        13 => "d",
        14 => "e",
        _ => "f",
    };
    proof {
        reveal_strlit("0");
        reveal_strlit("1");
        reveal_strlit("2");
        reveal_strlit("3");
        reveal_strlit("4");
        reveal_strlit("5");
        reveal_strlit("6");
        reveal_strlit("7");
        reveal_strlit("8");
        reveal_strlit("9");
        reveal_strlit("a");
        reveal_strlit("b");
        reveal_strlit("c");
        reveal_strlit("d");
        reveal_strlit("e");
        reveal_strlit("f");
    }
    s.append(lit);
    assert(lit@ =~= seq![hex_char(d as int)]);
}

/// Appends the decimal notation of `n`.
pub fn append_decimal(s: &mut String, n: u64)
    ensures
        final(s)@ == old(s)@ + decimal_text(n as nat),
    decreases n,
{
    if n >= 10 {
        append_decimal(s, n / 10);
        append_hex_digit(s, (n % 10) as u8);
        assert(decimal_text(n as nat) == decimal_text((n / 10) as nat).push(digit_char((n % 10) as int)));
    } else {
        append_hex_digit(s, n as u8);
        assert(decimal_text(n as nat) =~= seq![digit_char(n as int)]);
    }
}

/// Appends the last `k` hexadecimal digits of `n`.
fn append_hex(s: &mut String, n: u128, k: u32)
    ensures
        final(s)@ == old(s)@ + hex_text(n as nat, k as nat),
    decreases k,
{
    if k > 0 {
        append_hex(s, n / 16, k - 1);
        append_hex_digit(s, (n % 16) as u8);
    }
}

/// Appends the sign and digits of `v`.
pub fn append_signed(s: &mut String, v: i64)
    ensures
        final(s)@ == old(s)@ + signed_text(v as int),
{
    if v < 0 {
        s.append("-");
        proof { reveal_strlit("-"); }
        let mag: u64 = if v == i64::MIN { 9223372036854775808u64 } else { (-v) as u64 };
        append_decimal(s, mag);
    } else {
        append_decimal(s, v as u64);
    }
}

/// The decimal notation of `n` as a new string.
pub fn decimal_string(n: u64) -> (r: String)
    ensures
        r@ == decimal_text(n as nat),
{
    let mut s = String::new();
    append_decimal(&mut s, n);
    assert(s@ =~= decimal_text(n as nat));
    s
}

/// Appends the last `k` decimal digits of `n`, zero-padded.
fn append_padded_decimal(s: &mut String, n: u64, k: u32)
    ensures
        final(s)@ == old(s)@ + padded_decimal_text(n as nat, k as nat),
    decreases k,
{
    if k > 0 {
        append_padded_decimal(s, n / 10, k - 1);
        append_hex_digit(s, (n % 10) as u8);
    }
}

/// Appends a value kept in hundredths, rounded to `places` decimal places.
pub fn append_fixed(s: &mut String, v: i64, places: u8)
    requires
        places <= 2,
    ensures
        final(s)@ == old(s)@ + fixed_text(v as int, places as nat),
{
    let mag: u64 = if v < 0 {
        if v == i64::MIN { 9223372036854775808u64 } else { (-v) as u64 }
    } else {
        v as u64
    };
    let scaled: u64 = if places == 0 {
        (mag / 100) + (if mag % 100 >= 50 { 1 } else { 0 })
    } else if places == 1 {
        (mag / 10) + (if mag % 10 >= 5 { 1 } else { 0 })
    } else {
        mag
    };
    assert(places == 0 ==> scaled == (mag + 50) / 100);
    assert(places == 1 ==> scaled == (mag + 5) / 10);
    let unit: u64 = if places == 0 { 1 } else if places == 1 { 10 } else { 100 };
    let ghost old_s = s@;
    if v < 0 && scaled != 0 {
        s.append("-");
        proof { reveal_strlit("-"); }
    }
    let ghost after_sign = s@;
    append_decimal(s, scaled / unit);
    let ghost after_whole = s@;
    if places > 0 {
        s.append(".");
        proof { reveal_strlit("."); }
        append_padded_decimal(s, scaled % unit, places as u32);
    }
    proof {
        let sign: Seq<char> = if v < 0 && scaled != 0 { seq!['-'] } else { Seq::empty() };
        assert(after_sign =~= old_s + sign);
        if places == 0 {
            assert(s@ =~= old_s + fixed_text(v as int, places as nat));
        } else {
            assert(s@ =~= old_s + fixed_text(v as int, places as nat));
        }
    }
}

/// The hyphenated notation of a 128-bit identifier.
pub fn uuid_string(u: u128) -> (r: String)
    ensures
        r@ == uuid_text(u),
{
    let mut h = String::new();
    append_hex(&mut h, u, 32);
    proof { lemma_hex_text_len(u as nat, 32); }
    assert(h@ =~= hex_text(u as nat, 32));
    let hs: &str = h.as_str();
    let mut r = String::new();
    r.append(hs.substring_char(0, 8));
    r.append("-");
    r.append(hs.substring_char(8, 12));
    r.append("-");
    r.append(hs.substring_char(12, 16));
    r.append("-");
    r.append(hs.substring_char(16, 20));
    r.append("-");
    r.append(hs.substring_char(20, 32));
    proof { reveal_strlit("-"); }
    assert(r@ =~= uuid_text(u));
    r
}

/// The character sequences of a list of strings.
pub open spec fn texts(v: Seq<String>) -> Seq<Seq<char>> {
    v.map_values(|s: String| s@)
}

/// Appends a copy of `item` to a list of strings.
pub fn push_text(v: &mut Vec<String>, item: &str)
    ensures
        texts(final(v)@) == texts(old(v)@).push(item@),
{
    let ghost before = v@;
    v.push(String::from_str(item));
    assert(texts(v@) =~= texts(before).push(item@));
}

/// Whether two strings hold the same characters.
pub fn same_text(a: &str, b: &str) -> (r: bool)
    ensures
        r == (a@ == b@),
{
    let n = a.unicode_len();
    if n != b.unicode_len() {
        return false;
    }
    let mut i: usize = 0;
    while i < n
        invariant
            n == a@.len(),
            n == b@.len(),
            i <= n,
            forall|k: int| 0 <= k < i ==> a@[k] == b@[k],
        decreases n - i,
    {
        if a.get_char(i) != b.get_char(i) {
            return false;
        }
        i = i + 1;
    }
    assert(a@ =~= b@);
    true
}

/// Whether a character is `lower` or, for a lower-case ASCII letter, its
/// capital.
pub open spec fn matches_lower(c: char, lower: char) -> bool {
    c == lower || ('A' <= c <= 'Z' && (c as int) + 32 == lower as int)
}

/// Whether a text equals a lower-case ASCII word, ignoring the case of ASCII
/// letters.
pub open spec fn equals_ignoring_case(s: Seq<char>, word: Seq<char>) -> bool {
    s.len() == word.len() && forall|i: int| 0 <= i < s.len() ==> #[trigger] matches_lower(s[i], word[i])
}

/// Compares a text with a lower-case ASCII word, ignoring the case of ASCII
/// letters.
pub fn same_word_ignoring_case(s: &str, word: &str) -> (r: bool)
    ensures
        r == equals_ignoring_case(s@, word@),
{
    let n = s.unicode_len();
    if n != word.unicode_len() {
        return false;
    }
    let mut i: usize = 0;
    while i < n
        invariant
            n == s@.len(),
            n == word@.len(),
            i <= n,
            forall|k: int| 0 <= k < i ==> #[trigger] matches_lower(s@[k], word@[k]),
        decreases n - i,
    {
        let c = s.get_char(i);
        let w = word.get_char(i);
        let ok = c == w || ('A' <= c && c <= 'Z' && (c as u32) + 32 == (w as u32));
        if !ok {
            assert(!matches_lower(s@[i as int], word@[i as int]));
            return false;
        }
        i = i + 1;
    }
    true
}

/// The decimal notation of `n` padded with zeros to at least three digits,
/// as `{:03}` prints it.
pub open spec fn width3_text(n: nat) -> Seq<char> {
    if n < 10 {
        seq!['0', '0'] + decimal_text(n)
    } else if n < 100 {
        seq!['0'] + decimal_text(n)
    } else {
        decimal_text(n)
    }
}

/// Appends `n` padded with zeros to at least three digits.
pub fn append_width3(s: &mut String, n: u64)
    ensures
        final(s)@ == old(s)@ + width3_text(n as nat),
{
    proof { reveal_strlit("00"); reveal_strlit("0"); }
    let ghost start = s@;
    if n < 10 {
        s.append("00");
    } else if n < 100 {
        s.append("0");
    }
    let ghost padded = s@;
    append_decimal(s, n);
    assert(s@ =~= start + width3_text(n as nat));
}

} // verus!
