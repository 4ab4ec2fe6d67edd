use vstd::prelude::*;

use crate::text::text_eq;

verus! {

pub open spec fn is_digit(c: char) -> bool {
    '0' <= c <= '9'
}

pub open spec fn all_digits(s: Seq<char>) -> bool {
    forall|i: int| 0 <= i < s.len() ==> is_digit(#[trigger] s[i])
}

/// The value of a run of decimal digits, most significant first.
pub open spec fn digits_value(s: Seq<char>) -> int
    decreases s.len(),
{
    if s.len() == 0 {
        0
    } else {
        digits_value(s.drop_last()) * 10 + (s.last() as int - '0' as int)
    }
}

/// The value of one or more digits, or `None` when `s` is empty or holds
/// another character.
pub open spec fn unsigned_value(s: Seq<char>) -> Option<int> {
    if s.len() > 0 && all_digits(s) {
        Some(digits_value(s))
    } else {
        None
    }
}

/// The integer that `s` writes in decimal, as Rust's integer parsing reads
/// it: an optional `+` (or, when `signed`, `-`) and then at least one digit.
pub open spec fn decimal_value(s: Seq<char>, signed: bool) -> Option<int> {
    if s.len() > 0 && s[0] == '+' {
        unsigned_value(s.drop_first())
    } else if signed && s.len() > 0 && s[0] == '-' {
        match unsigned_value(s.drop_first()) {
            Some(v) => Some(-v),
            None => None,
        }
    } else {
        unsigned_value(s)
    }
}

/// What parsing `s` as an `i32` gives.
pub open spec fn parsed_i32(s: Seq<char>) -> Option<i32> {
    match decimal_value(s, true) {
        Some(v) => if i32::MIN <= v <= i32::MAX {
            Some(v as i32)
        } else {
            None
        },
        None => None,
    }
}

/// What parsing `s` as a `u32` gives.
pub open spec fn parsed_u32(s: Seq<char>) -> Option<u32> {
    match decimal_value(s, false) {
        Some(v) => if 0 <= v <= u32::MAX {
            Some(v as u32)
        } else {
            None
        },
        None => None,
    }
}

/// The value used for a setting whose text is not an `i32`: the default
/// window height, the default window width, or zero for any other setting.
pub open spec fn i32_fallback(which: Seq<char>) -> i32 {
    if which == "height"@ {
        800
    } else if which == "width"@ {
        600
    } else {
        0
    }
}

proof fn lemma_digits_value_nonneg(s: Seq<char>)
    requires
        all_digits(s),
    ensures
        digits_value(s) >= 0,
    decreases s.len(),
{
    if s.len() > 0 {
        assert(is_digit(s[s.len() - 1]));
        lemma_digits_value_nonneg(s.drop_last());
    }
}

/// A run of digits is worth at least any of its prefixes.
proof fn lemma_digits_value_prefix(s: Seq<char>, k: int)
    requires
        all_digits(s),
        0 <= k <= s.len(),
    ensures
        digits_value(s) >= digits_value(s.subrange(0, k)),
    decreases s.len(),
{
    if k < s.len() {
        let t = s.drop_last();
        assert(all_digits(t)) by {
            assert forall|i: int| 0 <= i < t.len() implies is_digit(#[trigger] t[i]) by {
                assert(t[i] == s[i]);
            }
        }
        assert(t.subrange(0, k) =~= s.subrange(0, k));
        lemma_digits_value_prefix(t, k);
        assert(is_digit(s[s.len() - 1]));
        lemma_digits_value_nonneg(t);
    } else {
        assert(s.subrange(0, k) =~= s);
    }
}

/// Reads the digits of `s` from position `start`: their value, or `None` when
/// there are none, one is not a digit, or the value passes 2^32.
fn digits_from(s: &str, start: usize) -> (r: Option<u64>)
    requires
        start <= s@.len(),
    ensures
        ({
            let d = s@.subrange(start as int, s@.len() as int);
            match r {
                Some(v) => unsigned_value(d) == Some(v as int) && v <= 0x1_0000_0000,
                None => match unsigned_value(d) {
                    Some(v) => v > 0x1_0000_0000,
                    None => true,
                },
            }
        }),
{
    let n = s.unicode_len();
    if start == n {
        return None;
    }
    let mut acc: u64 = 0;
    let mut i: usize = start;
    while i < n
        invariant
            n == s@.len(),
            start < n,
            start <= i <= n,
            all_digits(s@.subrange(start as int, i as int)),
            acc as int == digits_value(s@.subrange(start as int, i as int)),
            acc <= 0x1_0000_0000,
        decreases n - i,
    {
        let c = s.get_char(i);
        let ghost d = s@.subrange(start as int, n as int);
        if c < '0' || c > '9' {
            assert(d[i - start] == c);
            assert(!all_digits(d));
            return None;
        }
        let next = acc * 10 + (c as u64 - '0' as u64);
        let ghost pre = s@.subrange(start as int, i as int);
        let ghost cur = s@.subrange(start as int, i + 1);
        assert(cur.drop_last() =~= pre);
        assert(cur.last() == c);
        assert(all_digits(cur)) by {
            assert forall|j: int| 0 <= j < cur.len() implies is_digit(#[trigger] cur[j]) by {
                if j < pre.len() {
                    assert(cur[j] == pre[j]);
                }
            }
        }
        if next > 0x1_0000_0000 {
            proof {
                if all_digits(d) {
                    assert(d.subrange(0, i + 1 - start) =~= cur);
                    lemma_digits_value_prefix(d, i + 1 - start);
                }
            }
            return None;
        }
        acc = next;
        i = i + 1;
    }
    assert(s@.subrange(start as int, i as int) =~= s@.subrange(start as int, n as int));
    Some(acc)
}

/// Reads `s` as a decimal integer; `None` when it is no such integer or its
/// magnitude passes 2^32.
fn decimal_from(s: &str, signed: bool) -> (r: Option<i64>)
    ensures
        match r {
            Some(v) => decimal_value(s@, signed) == Some(v as int),
            None => match decimal_value(s@, signed) {
                Some(v) => v > 0x1_0000_0000 || v < -0x1_0000_0000,
                None => true,
            },
        },
{
    let n = s.unicode_len();
    if n > 0 && s.get_char(0) == '+' {
        assert(s@.subrange(1, n as int) =~= s@.drop_first());
        match digits_from(s, 1) {
            Some(v) => Some(v as i64),
            None => None,
        }
    } else if signed && n > 0 && s.get_char(0) == '-' {
        assert(s@.subrange(1, n as int) =~= s@.drop_first());
        match digits_from(s, 1) {
            Some(v) => Some(-(v as i64)),
            None => None,
        }
    } else {
        assert(s@.subrange(0, n as int) =~= s@);
        match digits_from(s, 0) {
            Some(v) => Some(v as i64),
            None => None,
        }
    }
}

/// Reads a setting's text as an `i32`. Text that is no `i32` gives the
/// setting's fallback: 800 for "height", 600 for "width", 0 otherwise.
pub fn string_to_i32(input: String, which: &str) -> (r: i32)
    ensures
        r == match parsed_i32(input@) {
            Some(v) => v,
            None => i32_fallback(which@),
        },
{
    match decimal_from(input.as_str(), true) {
        Some(v) => {
            if -2147483648 <= v && v <= 2147483647 {
                return v as i32;
            }
        },
        None => {},
    }
    if text_eq(which, "height") {
        800
    } else if text_eq(which, "width") {
        600
    } else {
        0
    }
}

/// Reads a setting's text as a `u32`, or 0 when it is no `u32`.
pub fn string_to_u32(input: String) -> (r: u32)
    ensures
        r == match parsed_u32(input@) {
            Some(v) => v,
            None => 0,
        },
{
    match decimal_from(input.as_str(), false) {
        Some(v) => {
            if 0 <= v && v <= 4294967295 {
                v as u32
            } else {
                0
            }
        },
        None => 0,
    }
}

} // verus!
