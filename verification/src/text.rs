//! Small operations on text, stated over sequences of characters.

use vstd::prelude::*;
use vstd::string::*;

verus! {

/// `str`'s `==` from the standard library: two string slices are equal exactly
/// when they hold the same characters. Verus takes this on trust.
pub assume_specification[ <str as PartialEq>::eq ](a: &str, b: &str) -> (r: bool)
    ensures
        r == (a@ == b@),
;

/// The characters of each string of a list.
pub open spec fn texts(strings: Seq<String>) -> Seq<Seq<char>> {
    strings.map_values(|s: String| s@)
}

/// How the standard library's `Debug` formatting writes a string: between
/// double quotes, with quotes, backslashes and unprintable characters escaped.
pub uninterp spec fn debug_text(s: Seq<char>) -> Seq<char>;

/// Formats `s` with the standard library's `{:?}`. Verus takes on trust that
/// the result depends on the characters of `s` alone.
#[verifier::external_body]
pub(crate) fn quoted(s: &str) -> (r: String)
    ensures
        r@ == debug_text(s@),
{
    format!("{:?}", s)
}

/// Whether `s` ends with `suffix`.
pub fn ends_with(s: &str, suffix: &str) -> (r: bool)
    ensures
        r == suffix@.is_suffix_of(s@),
{
    let n = s.unicode_len();
    let m = suffix.unicode_len();
    if m > n {
        return false;
    }
    let tail = s.substring_char(n - m, n);
    *tail == *suffix
}

/// `s` with every occurrence of `pat` taken out, scanning from the left and
/// never looking back into what an occurrence covered. An empty `pat` occurs
/// nowhere.
pub open spec fn without(s: Seq<char>, pat: Seq<char>) -> Seq<char>
    decreases s.len(),
{
    if pat.len() == 0 || s.len() < pat.len() {
        s
    } else if s.take(pat.len() as int) == pat {
        without(s.skip(pat.len() as int), pat)
    } else {
        seq![s[0]] + without(s.skip(1), pat)
    }
}

/// Removes every occurrence of `pat` from `s`.
pub fn remove_all(s: &str, pat: &str) -> (r: String)
    ensures
        r@ == without(s@, pat@),
{
    let n = s.unicode_len();
    let m = pat.unicode_len();
    if m == 0 || n < m {
        return String::from_str(s);
    }
    let mut out = String::new();
    // Characters from `kept` up to `i` are known to stay and are not yet copied.
    let mut kept: usize = 0;
    let mut i: usize = 0;
    proof {
        assert(s@.skip(0) == s@);
    }
    while i <= n - m
        invariant
            n == s@.len(),
            m == pat@.len(),
            0 < m <= n,
            kept <= i <= n,
            without(s@, pat@) == out@ + s@.subrange(kept as int, i as int) + without(
                s@.skip(i as int),
                pat@,
            ),
        decreases n - i,
    {
        let window = s.substring_char(i, i + m);
        proof {
            assert(s@.skip(i as int).take(m as int) == s@.subrange(i as int, i + m));
        }
        if *window == *pat {
            out.append(s.substring_char(kept, i));
            proof {
                assert(s@.skip(i as int).skip(m as int) == s@.skip(i + m));
            }
            i = i + m;
            kept = i;
        } else {
            proof {
                assert(s@.skip(i as int).skip(1) == s@.skip(i + 1));
            }
            i = i + 1;
        }
    }
    out.append(s.substring_char(kept, n));
    out
}

/// Whether `c` takes a single byte in UTF-8.
pub open spec fn is_single_byte(c: char) -> bool {
    (c as u32) < 0x80
}

/// `s` without its first character.
pub fn after_first(s: &str) -> (rest: &str)
    requires
        s@.len() > 0,
    ensures
        rest@ == s@.drop_first(),
{
    let n = s.unicode_len();
    s.substring_char(1, n)
}

/// The character that writes the digit `d`.
pub open spec fn digit(d: nat) -> char
    recommends
        d < 10,
{
    if d == 0 {
        '0'
    } else if d == 1 {
        '1'
    } else if d == 2 {
        '2'
    } else if d == 3 {
        '3'
    } else if d == 4 {
        '4'
    } else if d == 5 {
        '5'
    } else if d == 6 {
        '6'
    } else if d == 7 {
        '7'
    } else if d == 8 {
        '8'
    } else {
        '9'
    }
}

/// `n` written in base ten, without leading zeros.
pub open spec fn decimal(n: nat) -> Seq<char>
    decreases n,
{
    if n < 10 {
        seq![digit(n)]
    } else {
        decimal(n / 10).push(digit(n % 10))
    }
}

fn digit_text(d: u64) -> (r: &'static str)
    requires
        d < 10,
    ensures
        r@ == seq![digit(d as nat)],
{
    proof {
        reveal_strlit("0");
        reveal_strlit("1");
        reveal_strlit("2");
        reveal_strlit("3");
        reveal_strlit("4");
        reveal_strlit("5");
        reveal_strlit("6");
        reveal_strlit("7");
        reveal_strlit("8");
        reveal_strlit("9");
    }
    if d == 0 {
        "0"
    } else if d == 1 {
        "1"
    } else if d == 2 {
        "2"
    } else if d == 3 {
        "3"
    } else if d == 4 {
        "4"
    } else if d == 5 {
        "5"
    } else if d == 6 {
        "6"
    } else if d == 7 {
        "7"
    } else if d == 8 {
        "8"
    } else {
        "9"
    }
}

/// Writes `n` in base ten.
pub fn decimal_string(n: u64) -> (r: String)
    ensures
        r@ == decimal(n as nat),
    decreases n,
{
    if n < 10 {
        String::from_str(digit_text(n))
    } else {
        let mut s = decimal_string(n / 10);
        s.append(digit_text(n % 10));
        s
    }
}

} // verus!
