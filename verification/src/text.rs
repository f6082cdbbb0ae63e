//! Character-level text utilities: string equality and substring search over
//! character views, decimal rendering of integers, and width-bounded
//! truncation for display.

use vstd::prelude::*;

verus! {

/// Whether `pat` occurs in `s` starting at character position `i`.
pub open spec fn matches_at(s: Seq<char>, pat: Seq<char>, i: int) -> bool {
    0 <= i && i + pat.len() <= s.len() && s.subrange(i, i + pat.len() as int) == pat
}


/// The position of the first occurrence of `pat` in `s` at or after `from`.
pub open spec fn spec_find(s: Seq<char>, pat: Seq<char>, from: int) -> Option<int>
    decreases s.len() + 1 - from,
{
    if from < 0 || from + pat.len() > s.len() {
        None
    } else if matches_at(s, pat, from) {
        Some(from)
    } else {
        spec_find(s, pat, from + 1)
    }
}

/// Compares two string slices character by character.
pub fn str_eq(a: &str, b: &str) -> (r: bool)
    ensures
        r == (a@ == b@),
{
    let alen = a.unicode_len();
    let blen = b.unicode_len();
    if alen != blen {
        assert(a@ != b@) by {
            assert(a@.len() != b@.len());
        }
        return false;
    }
    let mut k: usize = 0;
    while k < alen
        invariant
            alen == a@.len(),
            alen == b@.len(),
            k <= alen,
            forall|j: int| 0 <= j < k ==> a@[j] == b@[j],
        decreases alen - k,
    {
        if a.get_char(k) != b.get_char(k) {
            return false;
        }
        k += 1;
    }
    proof {
        assert(a@ =~= b@);
    }
    true
}

/// Whether `pat` occurs in `s` at character position `i`.
fn match_here(s: &str, pat: &str, i: usize, slen: usize, plen: usize) -> (r: bool)
    requires
        slen == s@.len(),
        plen == pat@.len(),
        i + plen <= slen,
    ensures
        r == matches_at(s@, pat@, i as int),
{
    let mut k: usize = 0;
    while k < plen
        invariant
            slen == s@.len(),
            plen == pat@.len(),
            i + plen <= slen,
            k <= plen,
            forall|j: int| 0 <= j < k ==> s@[i + j] == pat@[j],
        decreases plen - k,
    {
        if s.get_char(i + k) != pat.get_char(k) {
            assert(!matches_at(s@, pat@, i as int)) by {
                if s@.subrange(i as int, i + plen) == pat@ {
                    assert(s@.subrange(i as int, i + plen)[k as int] == s@[i + k]);
                }
            }
            return false;
        }
        k += 1;
    }
    proof {
        assert(s@.subrange(i as int, i + plen) =~= pat@);
    }
    true
}

/// Finds the first character position at which `pat` occurs in `s`.
pub fn find_first(s: &str, pat: &str) -> (r: Option<usize>)
    ensures
        match r {
            Some(i) => i as int == spec_find(s@, pat@, 0)->Some_0 && spec_find(s@, pat@, 0)
                is Some && matches_at(s@, pat@, i as int) && forall|j: int|
                0 <= j < i ==> !matches_at(s@, pat@, j),
            None => spec_find(s@, pat@, 0) is None && forall|j: int| !matches_at(s@, pat@, j),
        },
{
    let slen = s.unicode_len();
    let plen = pat.unicode_len();
    if plen == 0 {
        assert(matches_at(s@, pat@, 0)) by {
            assert(s@.subrange(0, 0) =~= pat@);
        }
        return Some(0);
    }
    if plen > slen {
        return None;
    }
    let mut i: usize = 0;
    while i <= slen - plen
        invariant
            slen == s@.len(),
            plen == pat@.len(),
            0 < plen <= slen,
            i <= slen - plen + 1,
            forall|j: int| 0 <= j < i ==> !matches_at(s@, pat@, j),
            spec_find(s@, pat@, 0) == spec_find(s@, pat@, i as int),
        decreases slen - i,
    {
        if match_here(s, pat, i, slen, plen) {
            return Some(i);
        }
        i += 1;
    }
    assert(spec_find(s@, pat@, i as int) is None);
    None
}

/// The character for a single decimal digit.
pub open spec fn spec_digit_char(d: int) -> char {
    if d == 0 {
        '0'
    } else if d == 1 {
        '1'
    } else if d == 2 {
        '2'
    } else if d == 3 {
        '3'
    } else if d == 4 {
        '4'
    } else if d == 5 {
        '5'
    } else if d == 6 {
        '6'
    } else if d == 7 {
        '7'
    } else if d == 8 {
        '8'
    } else {
        '9'
    }
}

fn digit_char(d: u64) -> (c: char)
    requires
        d < 10,
    ensures
        c == spec_digit_char(d as int),
{
    match d {
        0 => '0',
        1 => '1',
        2 => '2',
        3 => '3',
        4 => '4',
        5 => '5',
        6 => '6',
        7 => '7',
        8 => '8',
        _ => '9',
    }
}

/// The usual decimal rendering of a natural number, most significant digit
/// first, with no leading zeros (a single zero for 0).
pub open spec fn spec_dec(n: nat) -> Seq<char>
    decreases n,
{
    if n < 10 {
        seq![spec_digit_char(n as int)]
    } else {
        spec_dec(n / 10) + seq![spec_digit_char((n % 10) as int)]
    }
}

/// Renders `n` in decimal as a character vector.
pub fn dec_chars(n: u64) -> (v: Vec<char>)
    ensures
        v@ == spec_dec(n as nat),
    decreases n,
{
    if n < 10 {
        let mut v: Vec<char> = Vec::new();
        v.push(digit_char(n));
        assert(v@ =~= spec_dec(n as nat));
        v
    } else {
        let mut v = dec_chars(n / 10);
        v.push(digit_char(n % 10));
        assert(v@ =~= spec_dec(n as nat));
        v
    }
}

/// Collects characters into a `String`.
///
/// Relies on `core::iter::Iterator::collect` via `String::FromIterator`:
/// collecting characters yields the string of exactly those characters.
#[verifier::external_body]
pub fn chars_to_string(cs: &Vec<char>) -> (r: String)
    ensures
        r@ == cs@,
{
    cs.iter().collect()
}

/// Renders `n` in decimal as a `String`.
pub fn dec_string(n: u64) -> (r: String)
    ensures
        r@ == spec_dec(n as nat),
{
    let v = dec_chars(n);
    chars_to_string(&v)
}


/// Whether `c` is a decimal digit.
pub open spec fn spec_is_digit(c: char) -> bool {
    48 <= c as int <= 57
}

/// The value of a decimal digit character.
pub open spec fn spec_digit_val(c: char) -> int {
    c as int - 48
}

/// Whether every character of `s` is a decimal digit.
pub open spec fn spec_all_digits(s: Seq<char>) -> bool {
    forall|j: int| 0 <= j < s.len() ==> spec_is_digit(#[trigger] s[j])
}

/// The value of a digit string read in base ten.
pub open spec fn spec_digits_val(s: Seq<char>) -> int
    decreases s.len(),
{
    if s.len() == 0 {
        0
    } else {
        spec_digits_val(s.drop_last()) * 10 + spec_digit_val(s.last())
    }
}

/// Ten to the power `n`.
pub open spec fn spec_pow10(n: nat) -> nat
    decreases n,
{
    if n == 0 {
        1
    } else {
        10 * spec_pow10((n - 1) as nat)
    }
}

proof fn lemma_pow10_vals()
    ensures
        spec_pow10(0) == 1,
        spec_pow10(1) == 10,
        spec_pow10(2) == 100,
        spec_pow10(3) == 1000,
        spec_pow10(7) == 10000000,
{
    reveal_with_fuel(spec_pow10, 8);
}

proof fn lemma_pow10_pos(n: nat)
    ensures
        spec_pow10(n) >= 1,
    decreases n,
{
    if n > 0 {
        lemma_pow10_pos((n - 1) as nat);
    }
}

proof fn lemma_pow10_le(a: nat, b: nat)
    requires
        a <= b,
    ensures
        spec_pow10(a) <= spec_pow10(b),
    decreases b,
{
    if a < b {
        lemma_pow10_le(a, (b - 1) as nat);
        lemma_pow10_pos((b - 1) as nat);
    }
}

/// The position of the first occurrence of the character `c` in `s` at or
/// after `from`.
pub open spec fn spec_char_index(s: Seq<char>, c: char, from: int) -> Option<int>
    decreases s.len() - from,
{
    if from < 0 || from >= s.len() {
        None
    } else if s[from] == c {
        Some(from)
    } else {
        spec_char_index(s, c, from + 1)
    }
}

/// `spec_char_index` returns exactly the first occurrence at or after `from`.
pub proof fn lemma_spec_char_index(s: Seq<char>, c: char, from: int)
    requires
        from >= 0,
    ensures
        match spec_char_index(s, c, from) {
            Some(i) => from <= i < s.len() && s[i] == c && forall|j: int|
                from <= j < i ==> s[j] != c,
            None => forall|j: int| from <= j < s.len() ==> s[j] != c,
        },
    decreases s.len() - from,
{
    if from >= s.len() {
    } else if s[from] == c {
    } else {
        lemma_spec_char_index(s, c, from + 1);
    }
}

/// The value denoted by a plain signed decimal string, scaled by
/// `frac` fractional digits: an optional minus sign, one to seven integer
/// digits, and optionally a dot followed by further digits, of which the
/// first `frac` are kept and the rest discarded. Exponent notation and any
/// other shape denote nothing.
pub open spec fn spec_parse_scaled(s: Seq<char>, frac: nat) -> Option<int> {
    let neg = s.len() > 0 && s[0] == '-';
    let body = if neg {
        s.skip(1)
    } else {
        s
    };
    let (int_part, frac_part) = match spec_char_index(body, '.', 0) {
        Some(d) => (body.take(d), body.skip(d + 1)),
        None => (body, Seq::<char>::empty()),
    };
    if 1 <= int_part.len() <= 7 && spec_all_digits(int_part) && spec_all_digits(frac_part) {
        let taken = if frac_part.len() < frac {
            frac_part
        } else {
            frac_part.take(frac as int)
        };
        let magnitude = spec_digits_val(int_part) * spec_pow10(frac) + spec_digits_val(taken)
            * spec_pow10((frac - taken.len()) as nat);
        if neg {
            Some(-magnitude)
        } else {
            Some(magnitude)
        }
    } else {
        None
    }
}

/// The value of a digit string is bounded by ten to its length.
proof fn lemma_digits_val_bound(s: Seq<char>)
    requires
        spec_all_digits(s),
    ensures
        0 <= spec_digits_val(s) < spec_pow10(s.len()),
    decreases s.len(),
{
    if s.len() > 0 {
        assert(spec_all_digits(s.drop_last())) by {
            assert(forall|j: int|
                0 <= j < s.len() - 1 ==> s.drop_last()[j] == #[trigger] s[j]);
        }
        lemma_digits_val_bound(s.drop_last());
        assert(spec_is_digit(s[s.len() - 1]));
    }
}

/// Whether `c` is a decimal digit.
fn is_digit(c: char) -> (r: bool)
    ensures
        r == spec_is_digit(c),
{
    c >= '0' && c <= '9'
}

/// The value of a digit character.
fn digit_val(c: char) -> (r: u64)
    requires
        spec_is_digit(c),
    ensures
        r == spec_digit_val(c),
{
    (c as u32 as u64) - 48
}

/// Ten to the power `n`, as a machine integer.
fn pow10_u64(n: usize) -> (r: u64)
    requires
        n <= 3,
    ensures
        r == spec_pow10(n as nat),
        r <= 1000,
{
    proof {
        lemma_pow10_vals();
    }
    match n {
        0 => 1,
        1 => 10,
        2 => 100,
        _ => 1000,
    }
}

proof fn spec_parse_scaled_rejects_empty_int(s: Seq<char>, body: Seq<char>, frac: nat)
    requires
        body == if s.len() > 0 && s[0] == '-' {
            s.skip(1)
        } else {
            s
        },
        body.len() == 0 || !spec_is_digit(body[0]),
    ensures
        spec_parse_scaled(s, frac) is None,
{
    lemma_spec_char_index(body, '.', 0);
    match spec_char_index(body, '.', 0) {
        Some(d) => {
            if d == 0 {
                assert(body.take(0).len() == 0);
            } else {
                assert(body.take(d)[0] == body[0]);
                assert(!spec_all_digits(body.take(d)));
            }
        },
        None => {
            if body.len() > 0 {
                assert(!spec_all_digits(body));
            }
        },
    }
}

proof fn spec_parse_scaled_rejects_long_int(s: Seq<char>, body: Seq<char>, e: int, frac: nat)
    requires
        body == if s.len() > 0 && s[0] == '-' {
            s.skip(1)
        } else {
            s
        },
        e == 7,
        e < body.len(),
        spec_all_digits(body.take(e)),
        spec_is_digit(body[e]),
    ensures
        spec_parse_scaled(s, frac) is None,
{
    assert forall|j: int| 0 <= j <= e implies spec_is_digit(body[j]) by {
        if j < e {
            assert(body.take(e)[j] == body[j]);
        }
    }
    lemma_spec_char_index(body, '.', 0);
    match spec_char_index(body, '.', 0) {
        Some(d) => {
            // Digits are not dots, so the dot lies past the eighth digit,
            // and the integer part is at least eight characters long.
            assert(d > e) by {
                if d <= e {
                    assert(spec_is_digit(body[d]));
                }
            }
            assert(body.take(d).len() > 7);
        },
        None => {
            assert(body.len() > 7);
        },
    }
}

proof fn spec_parse_scaled_rejects_junk(s: Seq<char>, body: Seq<char>, e: int, frac: nat)
    requires
        body == if s.len() > 0 && s[0] == '-' {
            s.skip(1)
        } else {
            s
        },
        0 <= e <= 7,
        e < body.len(),
        spec_all_digits(body.take(e)),
        !spec_is_digit(body[e]),
        body[e] != '.',
    ensures
        spec_parse_scaled(s, frac) is None,
{
    lemma_spec_char_index(body, '.', 0);
    match spec_char_index(body, '.', 0) {
        Some(d) => {
            assert(d != e);
            if d < e {
                assert(body.take(e)[d] == body[d]);
                assert(spec_is_digit(body[d]));
                assert(false);
            }
            // The dot lies past the junk character, so the integer part
            // contains it and is not all digits.
            assert(body.take(d)[e] == body[e]);
            assert(!spec_all_digits(body.take(d)));
        },
        None => {
            assert(!spec_all_digits(body));
        },
    }
}

/// Parses a plain signed decimal string, keeping `frac` fractional digits.
///
/// Returns the value scaled by ten to the `frac`: with two fractional digits
/// `"-12.34"` denotes -1234 and `"7"` denotes 700. Fractional digits past
/// the kept ones are discarded. Anything but an optional minus sign, one to
/// seven integer digits and an optional fraction denotes nothing.
#[verifier::rlimit(80)]
pub fn parse_scaled(s: &str, frac: usize) -> (r: Option<i64>)
    requires
        frac <= 3,
    ensures
        match r {
            Some(v) => spec_parse_scaled(s@, frac as nat) == Some(v as int),
            None => spec_parse_scaled(s@, frac as nat) is None,
        },
{
    proof {
        lemma_pow10_vals();
    }
    let n = s.unicode_len();
    let neg = n > 0 && s.get_char(0) == '-';
    let k: usize = if neg {
        1
    } else {
        0
    };
    let ghost body = if neg {
        s@.skip(1)
    } else {
        s@
    };
    assert(body.len() == n - k);
    assert(forall|j: int| 0 <= j < body.len() ==> body[j] == s@[j + k]);

    // Scan the integer digits, at most seven of them.
    let mut i: usize = k;
    let mut acc: u64 = 0;
    while i < n && i - k < 7 && is_digit(s.get_char(i))
        invariant
            n == s@.len(),
            body.len() == n - k,
            k <= 1,
            k <= n,
            neg == (s@.len() > 0 && s@[0] == '-'),
            k == if neg {
                1int
            } else {
                0int
            },
            body == if neg {
                s@.skip(1)
            } else {
                s@
            },
            forall|j: int| 0 <= j < body.len() ==> body[j] == s@[j + k],
            k <= i <= n,
            i - k <= 7,
            spec_all_digits(body.take(i - k)),
            acc == spec_digits_val(body.take(i - k)),
            acc < spec_pow10((i - k) as nat),
            acc < 10000000,
        decreases n - i,
    {
        let c = s.get_char(i);
        proof {
            assert(body.take(i - k + 1).drop_last() =~= body.take(i - k));
            assert(body.take(i - k + 1).last() == s@[i as int]);
            lemma_pow10_le((i - k + 1) as nat, 7);
            lemma_pow10_vals();
        }
        acc = acc * 10 + digit_val(c);
        proof {
            lemma_digits_val_bound(body.take(i - k + 1));
        }
        i += 1;
    }
    let int_len = i - k;
    let ghost int_end = i as int - k as int;

    // The integer part must be one to seven digits, ended by the string's
    // end or a dot.
    if int_len == 0 {
        proof {
            spec_parse_scaled_rejects_empty_int(s@, body, frac as nat);
        }
        return None;
    }
    if i < n && is_digit(s.get_char(i)) {
        // An eighth digit: out of the accepted range.
        proof {
            spec_parse_scaled_rejects_long_int(s@, body, int_end, frac as nat);
        }
        return None;
    }
    if i < n && s.get_char(i) != '.' {
        proof {
            spec_parse_scaled_rejects_junk(s@, body, int_end, frac as nat);
        }
        return None;
    }

    if i == n {
        // No fraction: the whole body is the integer part.
        proof {
            lemma_spec_char_index(body, '.', 0);
            assert(body.take(int_end) =~= body);
            if spec_char_index(body, '.', 0) is Some {
                let d = spec_char_index(body, '.', 0)->Some_0;
                assert(spec_is_digit(body[d])) by {
                    assert(body.take(int_end)[d] == body[d]);
                }
                assert(false);
            }
        }
        let scale = pow10_u64(frac);
        assert(acc * scale < 10000000000) by (nonlinear_arith)
            requires
                acc < 10000000,
                scale <= 1000,
        ;
        let magnitude = acc * scale;
        proof {
            assert(spec_digits_val(Seq::<char>::empty()) == 0);
        }
        let v: i64 = magnitude as i64;
        if neg {
            return Some(-v);
        } else {
            return Some(v);
        }
    }

    // A dot: scan the fractional digits, keeping the first `frac`.
    let dot = i;
    proof {
        lemma_spec_char_index(body, '.', 0);
        assert(body[dot - k] == '.');
        assert(spec_char_index(body, '.', 0) == Some(dot as int - k as int)) by {
            if spec_char_index(body, '.', 0) is Some {
                let d = spec_char_index(body, '.', 0)->Some_0;
                if d < dot - k {
                    assert(spec_is_digit(body[d])) by {
                        assert(body.take(int_end)[d] == body[d]);
                    }
                    assert(false);
                }
            }
            if spec_char_index(body, '.', 0) is None {
                assert(body[dot - k] != '.');
            }
        }
    }
    let ghost frac_part = body.skip(dot as int - k as int + 1);
    let mut j: usize = dot + 1;
    let mut facc: u64 = 0;
    let mut taken: usize = 0;
    while j < n
        invariant
            n == s@.len(),
            body.len() == n - k,
            k <= 1,
            k <= dot < n,
            dot + 1 <= j <= n,
            frac <= 3,
            taken <= frac,
            neg == (s@.len() > 0 && s@[0] == '-'),
            k == if neg {
                1int
            } else {
                0int
            },
            body == if neg {
                s@.skip(1)
            } else {
                s@
            },
            spec_char_index(body, '.', 0) == Some(dot as int - k as int),
            1 <= dot - k <= 7,
            spec_all_digits(body.take(dot as int - k as int)),
            acc == spec_digits_val(body.take(dot as int - k as int)),
            acc < 10000000,
            frac_part == body.skip(dot as int - k as int + 1),
            frac_part.len() == n - dot - 1,
            forall|j2: int| 0 <= j2 < frac_part.len() ==> frac_part[j2] == s@[j2 + dot + 1],
            spec_all_digits(frac_part.take(j - dot - 1)),
            taken as int == if j - dot - 1 < frac as int {
                j as int - dot as int - 1
            } else {
                frac as int
            },
            facc == spec_digits_val(frac_part.take(taken as int)),
            facc < 1000,
        decreases n - j,
    {
        let c = s.get_char(j);
        if !is_digit(c) {
            proof {
                assert(!spec_all_digits(frac_part)) by {
                    assert(frac_part[j - dot - 1] == s@[j as int]);
                }
            }
            return None;
        }
        proof {
            assert(frac_part.take(j - dot) =~= frac_part.take(j - dot - 1).push(s@[j as int]));
            assert(forall|j2: int|
                0 <= j2 < j - dot ==> frac_part.take(j - dot)[j2] == #[trigger] frac_part[j2]);
        }
        if taken < frac {
            proof {
                assert(frac_part.take(taken + 1).drop_last() =~= frac_part.take(taken as int));
                assert(frac_part.take(taken + 1).last() == s@[j as int]);
                assert(spec_all_digits(frac_part.take(taken + 1))) by {
                    assert(forall|j2: int|
                        0 <= j2 < taken + 1 ==> frac_part.take(taken + 1)[j2] == #[trigger] frac_part[j2]);
                }
            }
            facc = facc * 10 + digit_val(c);
            proof {
                lemma_digits_val_bound(frac_part.take(taken + 1));
                lemma_pow10_le((taken + 1) as nat, 3);
                lemma_pow10_vals();
            }
            taken += 1;
        }
        j += 1;
    }
    proof {
        assert(frac_part.take(frac_part.len() as int) =~= frac_part);
    }
    let rest = pow10_u64(frac - taken);
    let scale = pow10_u64(frac);
    let ghost spec_taken = if frac_part.len() < frac {
        frac_part
    } else {
        frac_part.take(frac as int)
    };
    proof {
        if frac_part.len() < frac {
            assert(frac_part.take(taken as int) =~= frac_part);
        }
        assert(frac_part.take(taken as int) =~= spec_taken);
        assert(spec_taken.len() == taken);
    }
    assert(acc * scale < 10000000000) by (nonlinear_arith)
        requires
            acc < 10000000,
            scale <= 1000,
    ;
    assert(facc * rest < 1000000) by (nonlinear_arith)
        requires
            facc < 1000,
            rest <= 1000,
    ;
    let magnitude = acc * scale + facc * rest;
    let v: i64 = magnitude as i64;
    if neg {
        Some(-v)
    } else {
        Some(v)
    }
}

// ----- display width and truncation -----

/// The display width of one character in terminal columns; control
/// characters count zero. A function of the character alone; what it is on
/// a given character only the width tables know.
pub uninterp spec fn char_width(c: char) -> nat;

/// Relies on `unicode_width::UnicodeWidthChar::width`: the displayed column
/// width of one character, `None` for control characters, counted zero
/// here. The crate's width table gives every printable ASCII character
/// (0x20 up to but not including 0x7f) single width.
#[verifier::external_body]
fn char_display_width(c: char) -> (r: usize)
    ensures
        r == char_width(c),
        ((0x20 <= (c as u32)) && ((c as u32) < 0x7f)) ==> r == 1,
{
    unicode_width::UnicodeWidthChar::width(c).unwrap_or(0)
}

/// The display width of a character sequence: the sum of its characters'
/// widths.
pub open spec fn str_cols(s: Seq<char>) -> nat
    decreases s.len(),
{
    if s.len() == 0 {
        0
    } else {
        str_cols(s.drop_last()) + char_width(s.last())
    }
}

/// Widths add over concatenation.
proof fn lemma_str_cols_concat(a: Seq<char>, b: Seq<char>)
    ensures
        str_cols(a + b) == str_cols(a) + str_cols(b),
    decreases b.len(),
{
    if b.len() == 0 {
        assert(a + b =~= a);
    } else {
        assert((a + b).drop_last() =~= a + b.drop_last());
        assert((a + b).last() == b.last());
        lemma_str_cols_concat(a, b.drop_last());
    }
}

/// A longer prefix is at least as wide.
proof fn lemma_str_cols_prefix_mono(s: Seq<char>, i: int, j: int)
    requires
        0 <= i <= j <= s.len(),
    ensures
        str_cols(s.take(i)) <= str_cols(s.take(j)),
    decreases j - i,
{
    if i < j {
        lemma_str_cols_prefix_mono(s, i, j - 1);
        assert(s.take(j).drop_last() =~= s.take(j - 1));
    }
}

/// The display width of `s`, when it does not exceed `bound`.
fn cols_at_most(s: &str, bound: usize) -> (r: Option<usize>)
    ensures
        match r {
            Some(t) => t == str_cols(s@) && t <= bound,
            None => str_cols(s@) > bound,
        },
{
    let n = s.unicode_len();
    let mut acc: usize = 0;
    let mut i: usize = 0;
    while i < n
        invariant
            n == s@.len(),
            i <= n,
            acc == str_cols(s@.take(i as int)),
            acc <= bound,
        decreases n - i,
    {
        let w = char_display_width(s.get_char(i));
        proof {
            assert(s@.take(i + 1).drop_last() =~= s@.take(i as int));
            assert(s@.take(i + 1).last() == s@[i as int]);
        }
        if w > bound - acc {
            proof {
                lemma_str_cols_prefix_mono(s@, i + 1, n as int);
                assert(s@.take(n as int) =~= s@);
            }
            return None;
        }
        acc = acc + w;
        i += 1;
    }
    proof {
        assert(s@.take(n as int) =~= s@);
    }
    Some(acc)
}

/// Where the greedy fit of `s` into `target` columns ends, starting at
/// `from` with `used` columns already taken: the first position whose
/// character no longer fits.
pub open spec fn spec_fit(s: Seq<char>, target: int, from: int, used: int) -> int
    decreases s.len() - from,
{
    if from < 0 || from >= s.len() || used + char_width(s[from]) > target {
        from
    } else {
        spec_fit(s, target, from + 1, used + char_width(s[from]))
    }
}

/// The greedy prefix of `s` that fits `target` columns.
fn fit_prefix(s: &str, target: usize) -> (k: usize)
    ensures
        k as int == spec_fit(s@, target as int, 0, 0),
        k <= s@.len(),
        str_cols(s@.take(k as int)) <= target,
{
    let n = s.unicode_len();
    let mut used: usize = 0;
    let mut i: usize = 0;
    while i < n
        invariant
            n == s@.len(),
            i <= n,
            used == str_cols(s@.take(i as int)),
            used <= target,
            spec_fit(s@, target as int, 0, 0) == spec_fit(s@, target as int, i as int, used as int),
        decreases n - i,
    {
        let w = char_display_width(s.get_char(i));
        if w > target - used {
            return i;
        }
        proof {
            assert(s@.take(i + 1).drop_last() =~= s@.take(i as int));
            assert(s@.take(i + 1).last() == s@[i as int]);
        }
        used = used + w;
        i += 1;
    }
    n
}

/// A sequence of full stops is as wide as the stop's width times its
/// length.
proof fn lemma_dots_cols(s: Seq<char>, w: int)
    requires
        w == char_width('.'),
        forall|i: int| 0 <= i < s.len() ==> s[i] == '.',
    ensures
        str_cols(s) == s.len() * w,
    decreases s.len(),
{
    if s.len() == 0 {
    } else {
        assert(forall|i: int| 0 <= i < s.drop_last().len() ==> s.drop_last()[i] == s[i]);
        lemma_dots_cols(s.drop_last(), w);
        assert(s.last() == '.');
        assert(s.len() * w == (s.len() - 1) * w + w) by (nonlinear_arith);
    }
}

/// Truncates `text` to at most `max_width` display columns, marking a cut
/// with a trailing ellipsis of full stops. Text that already fits is
/// returned whole; a budget of zero is empty; a budget up to the ellipsis's
/// own width gets that many full stops; otherwise the widest prefix leaving
/// room for the ellipsis is kept. The result always fits the budget.
pub fn truncate_to_width(text: &str, max_width: usize) -> (r: String)
    ensures
        max_width == 0 ==> r@ == Seq::<char>::empty(),
        max_width > 0 && str_cols(text@) <= max_width ==> r@ == text@,
        str_cols(text@) > max_width && 0 < max_width <= 3 ==> r@ == "..."@.take(max_width as int),
        str_cols(text@) > max_width && max_width > 3 ==> r@ == text@.take(
            spec_fit(text@, max_width - 3, 0, 0),
        ) + "..."@,
        str_cols(r@) <= max_width,
{
    proof {
        reveal_strlit("...");
        reveal_strlit("..");
        reveal_strlit(".");
        reveal_strlit("");
    }
    let dot_width = char_display_width('.');
    assert(dot_width == 1);
    if max_width == 0 {
        let r = String::new();
        assert(str_cols(r@) == 0);
        return r;
    }
    match cols_at_most(text, max_width) {
        Some(_) => String::from_str(text),
        None => {
            if max_width <= 3 {
                let r = if max_width == 1 {
                    String::from_str(".")
                } else if max_width == 2 {
                    String::from_str("..")
                } else {
                    String::from_str("...")
                };
                proof {
                    assert(r@ =~= "..."@.take(max_width as int));
                    lemma_dots_cols(r@, char_width('.') as int);
                }
                r
            } else {
                let k = fit_prefix(text, max_width - 3);
                let mut r = String::from_str(text.substring_char(0, k));
                r.append("...");
                proof {
                    assert(text@.subrange(0, k as int) =~= text@.take(k as int));
                    let pre = text@.take(k as int);
                    lemma_str_cols_concat(pre, "..."@);
                    lemma_dots_cols("..."@, char_width('.') as int);
                }
                r
            }
        },
    }
}

} // verus!
