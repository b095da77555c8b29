//! Recognition of the text that `f32::from_str` accepts. The standard
//! library documents the accepted strings, once lowercased, as
//!
//! ```text
//! Float  ::= Sign? ( 'inf' | 'infinity' | 'nan' | Number )
//! Number ::= ( Digit+ | Digit+ '.' Digit* | Digit* '.' Digit+ ) Exp?
//! Exp    ::= 'e' Sign? Digit+
//! Sign   ::= [+-]
//! Digit  ::= [0-9]
//! ```
//!
//! Only whether a text is accepted matters here; the value itself is left as
//! text for the consumer to convert.
use vstd::prelude::*;
use vstd::string::*;

verus! {

pub open spec fn is_digit(c: char) -> bool {
    '0' <= c <= '9'
}

/// Number of consecutive digits in `s` starting at `i`.
pub open spec fn digits_from(s: Seq<char>, i: int) -> int
    decreases s.len() - i,
{
    if 0 <= i < s.len() && is_digit(s[i]) {
        1 + digits_from(s, i + 1)
    } else {
        0
    }
}

/// Length of an optional sign at `i`.
pub open spec fn sign_len(s: Seq<char>, i: int) -> int {
    if 0 <= i < s.len() && (s[i] == '+' || s[i] == '-') {
        1
    } else {
        0
    }
}

/// `c` is the lowercase letter `w`, in either case.
pub open spec fn same_letter(c: char, w: char) -> bool {
    c == w || (c as u32) + 32 == w as u32
}

/// The rest of `s` from `i` spells the lowercase word `w`, ignoring case.
pub open spec fn word_from(s: Seq<char>, i: int, w: Seq<char>) -> bool {
    &&& s.len() - i == w.len()
    &&& forall|k: int| 0 <= k < w.len() ==> same_letter(#[trigger] s[i + k], w[k])
}

/// The rest of `s` from `i` is `Sign? Digit+`.
pub open spec fn exponent_from(s: Seq<char>, i: int) -> bool {
    let m = i + sign_len(s, i);
    digits_from(s, m) > 0 && m + digits_from(s, m) == s.len()
}

/// The rest of `s` from `i` is `Number`.
pub open spec fn number_from(s: Seq<char>, i: int) -> bool {
    let n_int = digits_from(s, i);
    let j = i + n_int;
    let has_point = j < s.len() && s[j] == '.';
    let n_frac = if has_point {
        digits_from(s, j + 1)
    } else {
        0
    };
    let k = if has_point {
        j + 1 + n_frac
    } else {
        j
    };
    &&& n_int + n_frac > 0
    &&& (k == s.len() || ((s[k] == 'e' || s[k] == 'E') && exponent_from(s, k + 1)))
}

/// `s` is a text that `f32::from_str` accepts.
pub open spec fn is_float_text(s: Seq<char>) -> bool {
    let i = sign_len(s, 0);
    ||| word_from(s, i, seq!['i', 'n', 'f'])
    ||| word_from(s, i, seq!['i', 'n', 'f', 'i', 'n', 'i', 't', 'y'])
    ||| word_from(s, i, seq!['n', 'a', 'n'])
    ||| number_from(s, i)
}

fn count_digits(s: &str, n: usize, i: usize) -> (r: usize)
    requires
        n == s@.len(),
        i <= n,
    ensures
        r == i + digits_from(s@, i as int),
        r <= n,
{
    let mut j: usize = i;
    while j < n && '0' <= s.get_char(j) && s.get_char(j) <= '9'
        invariant
            i <= j <= n == s@.len(),
            digits_from(s@, i as int) == (j - i) + digits_from(s@, j as int),
        decreases n - j,
    {
        j = j + 1;
    }
    j
}

fn sign_at(s: &str, n: usize, i: usize) -> (r: usize)
    requires
        n == s@.len(),
        i <= n,
    ensures
        r == sign_len(s@, i as int),
{
    if i < n && (s.get_char(i) == '+' || s.get_char(i) == '-') {
        1
    } else {
        0
    }
}

fn is_word_at(s: &str, n: usize, i: usize, w: &str) -> (r: bool)
    requires
        n == s@.len(),
        i <= n,
        forall|k: int| 0 <= k < w@.len() ==> 'a' <= #[trigger] w@[k] <= 'z',
    ensures
        r == word_from(s@, i as int, w@),
{
    let m = w.unicode_len();
    if n - i != m {
        return false;
    }
    let mut k: usize = 0;
    while k < m
        invariant
            n - i == m == w@.len(),
            n == s@.len(),
            i <= n,
            k <= m,
            forall|q: int| 0 <= q < w@.len() ==> 'a' <= #[trigger] w@[q] <= 'z',
            forall|q: int| 0 <= q < k ==> same_letter(#[trigger] s@[i + q], w@[q]),
        decreases m - k,
    {
        let c = s.get_char(i + k);
        let lw = w.get_char(k);
        if !(c == lw || (c as u32) + 32 == lw as u32) {
            return false;
        }
        k = k + 1;
    }
    true
}

/// Whether `f32::from_str` accepts `s`.
pub fn is_float_literal(s: &str) -> (r: bool)
    ensures
        r == is_float_text(s@),
{
    proof {
        reveal_strlit("inf");
        reveal_strlit("infinity");
        reveal_strlit("nan");
    }
    assert("inf"@ =~= seq!['i', 'n', 'f']);
    assert("infinity"@ =~= seq!['i', 'n', 'f', 'i', 'n', 'i', 't', 'y']);
    assert("nan"@ =~= seq!['n', 'a', 'n']);
    let n = s.unicode_len();
    let i = sign_at(s, n, 0);
    if is_word_at(s, n, i, "inf") || is_word_at(s, n, i, "infinity") || is_word_at(s, n, i, "nan") {
        return true;
    }
    let j = count_digits(s, n, i);
    let has_point = j < n && s.get_char(j) == '.';
    let k = if has_point {
        count_digits(s, n, j + 1)
    } else {
        j
    };
    if k == i || (has_point && k == i + 1) {
        return false;
    }
    if k == n {
        return true;
    }
    let e = s.get_char(k);
    if e != 'e' && e != 'E' {
        return false;
    }
    let m = k + 1 + sign_at(s, n, k + 1);
    let d = count_digits(s, n, m);
    d > m && d == n
}

} // verus!
