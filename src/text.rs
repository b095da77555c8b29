//! Character-level helpers: white space, trimming, and picking the last
//! complete line out of a block of text.
use vstd::prelude::*;
use vstd::string::*;

verus! {

/// The Unicode `White_Space` property, the set `char::is_whitespace` tests.
pub open spec fn is_white_space(c: char) -> bool {
    let u = c as u32;
    ||| 0x9 <= u <= 0xd
    ||| u == 0x20
    ||| u == 0x85
    ||| u == 0xa0
    ||| u == 0x1680
    ||| 0x2000 <= u <= 0x200a
    ||| u == 0x2028
    ||| u == 0x2029
    ||| u == 0x202f
    ||| u == 0x205f
    ||| u == 0x3000
}

/// `s` without its leading white space.
pub open spec fn trim_start(s: Seq<char>) -> Seq<char>
    decreases s.len(),
{
    if s.len() > 0 && is_white_space(s[0]) {
        trim_start(s.drop_first())
    } else {
        s
    }
}

/// `s` without its trailing white space.
pub open spec fn trim_end(s: Seq<char>) -> Seq<char>
    decreases s.len(),
{
    if s.len() > 0 && is_white_space(s.last()) {
        trim_end(s.drop_last())
    } else {
        s
    }
}

/// `s` without white space at either end.
pub open spec fn trim(s: Seq<char>) -> Seq<char> {
    trim_end(trim_start(s))
}

/// Position of the last `c` in `s`, if there is one.
pub open spec fn last_index_of(s: Seq<char>, c: char) -> Option<int>
    decreases s.len(),
{
    if s.len() == 0 {
        None
    } else if s.last() == c {
        Some(s.len() - 1)
    } else {
        last_index_of(s.drop_last(), c)
    }
}

/// The last complete line of a block read from a running stream: split at
/// each newline, the last segment may be cut short and is dropped, and the
/// segment before it is the line, without trailing white space (a `\r`).
/// Without a newline there are fewer than two segments and no line.
pub open spec fn last_line_of(s: Seq<char>) -> Option<Seq<char>> {
    match last_index_of(s, '\n') {
        None => None,
        Some(i) => {
            let start = match last_index_of(s.subrange(0, i), '\n') {
                None => 0,
                Some(j) => j + 1,
            };
            Some(trim_end(s.subrange(start, i)))
        },
    }
}

pub fn is_white_space_char(c: char) -> (r: bool)
    ensures
        r == is_white_space(c),
{
    let u = c as u32;
    (0x9 <= u && u <= 0xd) || u == 0x20 || u == 0x85 || u == 0xa0 || u == 0x1680 || (0x2000 <= u
        && u <= 0x200a) || u == 0x2028 || u == 0x2029 || u == 0x202f || u == 0x205f || u == 0x3000
}

/// Bounds of `s[lo..hi]` once white space is trimmed from both ends.
pub fn trim_bounds(s: &str, lo: usize, hi: usize) -> (r: (usize, usize))
    requires
        lo <= hi <= s@.len(),
    ensures
        lo <= r.0 <= r.1 <= hi,
        s@.subrange(r.0 as int, r.1 as int) == trim(s@.subrange(lo as int, hi as int)),
{
    let mut a: usize = lo;
    while a < hi && is_white_space_char(s.get_char(a))
        invariant
            lo <= a <= hi <= s@.len(),
            trim_start(s@.subrange(lo as int, hi as int)) == trim_start(
                s@.subrange(a as int, hi as int),
            ),
        decreases hi - a,
    {
        assert(s@.subrange(a as int, hi as int).drop_first() =~= s@.subrange(
            a + 1,
            hi as int,
        ));
        a = a + 1;
    }
    assert(trim_start(s@.subrange(a as int, hi as int)) == s@.subrange(a as int, hi as int));
    let b = trim_end_bound(s, a, hi);
    (a, b)
}

/// End of `s[lo..hi]` once trailing white space is trimmed.
pub fn trim_end_bound(s: &str, lo: usize, hi: usize) -> (r: usize)
    requires
        lo <= hi <= s@.len(),
    ensures
        lo <= r <= hi,
        s@.subrange(lo as int, r as int) == trim_end(s@.subrange(lo as int, hi as int)),
{
    let mut b: usize = hi;
    while b > lo && is_white_space_char(s.get_char(b - 1))
        invariant
            lo <= b <= hi <= s@.len(),
            trim_end(s@.subrange(lo as int, hi as int)) == trim_end(
                s@.subrange(lo as int, b as int),
            ),
        decreases b - lo,
    {
        assert(s@.subrange(lo as int, b as int).drop_last() =~= s@.subrange(
            lo as int,
            b - 1,
        ));
        b = b - 1;
    }
    assert(trim_end(s@.subrange(lo as int, b as int)) == s@.subrange(lo as int, b as int));
    b
}

/// Position of the last `c` in `s[lo..hi]`, counted from the start of `s`.
pub fn rfind_char(s: &str, lo: usize, hi: usize, c: char) -> (r: Option<usize>)
    requires
        lo <= hi <= s@.len(),
    ensures
        match last_index_of(s@.subrange(lo as int, hi as int), c) {
            None => r is None,
            Some(k) => r is Some && r->0 == lo + k,
        },
        r is Some ==> lo <= r->0 < hi && s@[r->0 as int] == c,
{
    let mut i: usize = hi;
    while i > lo
        invariant
            lo <= i <= hi <= s@.len(),
            last_index_of(s@.subrange(lo as int, hi as int), c) == last_index_of(
                s@.subrange(lo as int, i as int),
                c,
            ),
        decreases i - lo,
    {
        if s.get_char(i - 1) == c {
            return Some(i - 1);
        }
        assert(s@.subrange(lo as int, i as int).drop_last() =~= s@.subrange(
            lo as int,
            i - 1,
        ));
        i = i - 1;
    }
    None
}

/// The last complete line of `s`: see `last_line_of`.
pub fn last_line(s: &str) -> (r: Option<String>)
    ensures
        match last_line_of(s@) {
            None => r is None,
            Some(l) => r is Some && r->0@ == l,
        },
{
    let n = s.unicode_len();
    assert(s@.subrange(0, n as int) =~= s@);
    let i = match rfind_char(s, 0, n, '\n') {
        None => return None,
        Some(i) => i,
    };
    assert(last_index_of(s@, '\n') == Some(i as int));
    let start: usize = match rfind_char(s, 0, i, '\n') {
        None => 0,
        Some(j) => j + 1,
    };
    let end = trim_end_bound(s, start, i);
    Some(s.substring_char(start, end).to_owned())
}

} // verus!
