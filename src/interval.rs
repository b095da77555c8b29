//! The polling interval as a user writes it: a whole number and a unit
//! (`ms`, `s` or `min`), turned into the milliseconds a `StartLog` carries.
use vstd::prelude::*;
use vstd::string::*;
use crate::decimal::is_digit;

verus! {

/// The value of a digit character.
pub open spec fn digit_value(c: char) -> int {
    c as int - '0' as int
}

pub open spec fn all_digits(s: Seq<char>) -> bool {
    forall|i: int| 0 <= i < s.len() ==> is_digit(#[trigger] s[i])
}

/// The number that the digits `s` write in base ten.
pub open spec fn decimal_value(s: Seq<char>) -> int
    decreases s.len(),
{
    if s.len() == 0 {
        0
    } else {
        decimal_value(s.drop_last()) * 10 + digit_value(s.last())
    }
}

/// `s` without a leading `+`.
pub open spec fn unsigned_digits(s: Seq<char>) -> Seq<char> {
    if s.len() > 0 && s[0] == '+' {
        s.drop_first()
    } else {
        s
    }
}

/// The number that `u128::from_str` reads from `s`, where it accepts `s`.
pub open spec fn count_of(s: Seq<char>) -> Option<int> {
    let d = unsigned_digits(s);
    if d.len() > 0 && all_digits(d) && decimal_value(d) <= u128::MAX {
        Some(decimal_value(d))
    } else {
        None
    }
}

/// Milliseconds per unit; a missing or unknown unit counts as milliseconds.
pub open spec fn unit_factor(unit: Option<Seq<char>>) -> int {
    match unit {
        Some(u) => if u == seq!['s'] {
            1000
        } else if u == seq!['m', 'i', 'n'] {
            60_000
        } else {
            1
        },
        None => 1,
    }
}

/// The interval in milliseconds, where the count is a number and the
/// product fits in a `u128`.
pub open spec fn interval_of(text: Seq<char>, unit: Option<Seq<char>>) -> Option<int> {
    match count_of(text) {
        Some(n) => if n * unit_factor(unit) <= u128::MAX {
            Some(n * unit_factor(unit))
        } else {
            None
        },
        None => None,
    }
}

pub open spec fn opt_view(unit: Option<&str>) -> Option<Seq<char>> {
    match unit {
        Some(u) => Some(u@),
        None => None,
    }
}

proof fn lemma_decimal_value_grows(s: Seq<char>, k: int)
    requires
        all_digits(s),
        0 <= k <= s.len(),
    ensures
        0 <= decimal_value(s.subrange(0, k)) <= decimal_value(s),
    decreases s.len(),
{
    if s.len() > 0 {
        assert(all_digits(s.drop_last())) by {
            assert forall|i: int| 0 <= i < s.drop_last().len() implies is_digit(
                #[trigger] s.drop_last()[i],
            ) by {
                assert(s.drop_last()[i] == s[i]);
            }
        }
        if k == s.len() {
            assert(s.subrange(0, k) =~= s);
            lemma_decimal_value_grows(s.drop_last(), 0);
        } else {
            assert(s.subrange(0, k) =~= s.drop_last().subrange(0, k));
            lemma_decimal_value_grows(s.drop_last(), k);
        }
        assert(is_digit(s[s.len() - 1]));
    } else {
        assert(s.subrange(0, k) =~= s);
    }
}

fn unit_factor_of(unit: Option<&str>) -> (r: u128)
    ensures
        r == unit_factor(opt_view(unit)),
{
    proof {
        reveal_strlit("s");
        reveal_strlit("min");
    }
    match unit {
        None => 1,
        Some(u) => {
            let n = u.unicode_len();
            if n == 1 && u.get_char(0) == 's' {
                assert(u@ =~= seq!['s']);
                1000
            } else if n == 3 && u.get_char(0) == 'm' && u.get_char(1) == 'i' && u.get_char(2)
                == 'n' {
                assert(u@ =~= seq!['m', 'i', 'n']);
                60_000
            } else {
                assert(u@ != seq!['s'] && u@ != seq!['m', 'i', 'n']) by {
                    if u@ == seq!['s'] {
                        assert(u@[0] == 's');
                    }
                    if u@ == seq!['m', 'i', 'n'] {
                        assert(u@[0] == 'm' && u@[1] == 'i' && u@[2] == 'n');
                    }
                }
                1
            }
        },
    }
}

/// The number `u128::from_str` reads from `s`.
pub fn parse_count(s: &str) -> (r: Option<u128>)
    ensures
        match count_of(s@) {
            None => r is None,
            Some(n) => r is Some && r->0 == n,
        },
{
    let n = s.unicode_len();
    let start: usize = if n > 0 && s.get_char(0) == '+' {
        1
    } else {
        0
    };
    let ghost d = unsigned_digits(s@);
    assert(d =~= s@.subrange(start as int, n as int));
    if start == n {
        return None;
    }
    let mut v: u128 = 0;
    let mut i: usize = start;
    while i < n
        invariant
            start <= i <= n == s@.len(),
            d == s@.subrange(start as int, n as int),
            d == unsigned_digits(s@),
            all_digits(d.subrange(0, i - start)),
            v == decimal_value(d.subrange(0, i - start)),
        decreases n - i,
    {
        let c = s.get_char(i);
        if !('0' <= c && c <= '9') {
            assert(d[i - start] == c);
            assert(!is_digit(d[i - start]));
            assert(!all_digits(d));
            return None;
        }
        let ghost prev = d.subrange(0, i - start);
        let ghost next = d.subrange(0, i + 1 - start);
        assert(next.drop_last() =~= prev);
        assert(next.last() == c);
        assert(all_digits(next)) by {
            assert forall|j: int| 0 <= j < next.len() implies is_digit(#[trigger] next[j]) by {
                if j < prev.len() {
                    assert(next[j] == prev[j]);
                }
            }
        }
        let digit = (c as u32 - '0' as u32) as u128;
        let grown = match v.checked_mul(10) {
            Some(t) => t.checked_add(digit),
            None => None,
        };
        match grown {
            Some(t) => {
                v = t;
            },
            None => {
                proof {
                    assert(decimal_value(next) == decimal_value(prev) * 10 + digit_value(c));
                    assert(decimal_value(next) > u128::MAX);
                    let rest = s@.subrange(start as int, n as int);
                    if all_digits(rest) {
                        assert(next =~= rest.subrange(0, i + 1 - start));
                        lemma_decimal_value_grows(rest, i + 1 - start);
                    }
                }
                return None;
            },
        }
        i = i + 1;
    }
    assert(d.subrange(0, n - start) =~= d);
    assert(all_digits(d));
    assert(d.len() > 0);
    assert(v == decimal_value(d));
    Some(v)
}

/// The interval in milliseconds that `text`, counted in `unit`, stands for.
pub fn log_interval_ms(text: &str, unit: Option<&str>) -> (r: Option<u128>)
    ensures
        match interval_of(text@, opt_view(unit)) {
            None => r is None,
            Some(v) => r is Some && r->0 == v,
        },
{
    match parse_count(text) {
        None => None,
        Some(count) => count.checked_mul(unit_factor_of(unit)),
    }
}

} // verus!
