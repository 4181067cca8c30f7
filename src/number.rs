//! Decimal integer reading with the rules of std's `FromStr` for integers:
//! an optional sign, then one or more ASCII digits, within the type's range.
use vstd::prelude::*;

verus! {

pub open spec fn is_digit(c: char) -> bool {
    '0' <= c && c <= '9'
}

pub open spec fn all_digits(s: Seq<char>) -> bool {
    s.len() > 0 && forall|i: int| 0 <= i < s.len() ==> is_digit(#[trigger] s[i])
}

pub open spec fn digit_value(c: char) -> nat {
    ((c as u32) - ('0' as u32)) as nat
}

/// The value of a run of decimal digits.
pub open spec fn digits_value(s: Seq<char>) -> nat
    decreases s.len(),
{
    if s.len() == 0 {
        0
    } else {
        digits_value(s.drop_last()) * 10 + digit_value(s.last())
    }
}

/// The integer that a signed type's `FromStr` reads from `s`, before its range check.
pub open spec fn signed_value(s: Seq<char>) -> Option<int> {
    if s.len() > 0 && s[0] == '-' {
        if all_digits(s.drop_first()) {
            Some(-digits_value(s.drop_first()))
        } else {
            None
        }
    } else if s.len() > 0 && s[0] == '+' {
        if all_digits(s.drop_first()) {
            Some(digits_value(s.drop_first()) as int)
        } else {
            None
        }
    } else if all_digits(s) {
        Some(digits_value(s) as int)
    } else {
        None
    }
}

/// The integer that an unsigned type's `FromStr` reads from `s`, before its range check.
pub open spec fn unsigned_value(s: Seq<char>) -> Option<int> {
    if s.len() > 0 && s[0] == '+' {
        if all_digits(s.drop_first()) {
            Some(digits_value(s.drop_first()) as int)
        } else {
            None
        }
    } else if all_digits(s) {
        Some(digits_value(s) as int)
    } else {
        None
    }
}

/// `s` read as an integer within `[lo, hi]`, as std's `FromStr` reads it.
pub open spec fn int_in(s: Seq<char>, signed: bool, lo: int, hi: int) -> Option<int> {
    let v = if signed { signed_value(s) } else { unsigned_value(s) };
    if v is Some && lo <= v->0 <= hi {
        v
    } else {
        None
    }
}

proof fn lemma_prefix_le(s: Seq<char>, k: int)
    requires
        0 <= k <= s.len(),
    ensures
        digits_value(s.subrange(0, k)) <= digits_value(s),
    decreases s.len(),
{
    if k < s.len() {
        assert(s.drop_last().subrange(0, k) =~= s.subrange(0, k));
        lemma_prefix_le(s.drop_last(), k);
    } else {
        assert(s.subrange(0, k) =~= s);
    }
}

/// The digits `v[start..]` read as a number no larger than `limit`.
fn digits_upto(v: &Vec<char>, start: usize, limit: u64) -> (r: Option<u64>)
    requires
        start <= v@.len(),
    ensures
        ({
            let t = v@.subrange(start as int, v@.len() as int);
            r == if all_digits(t) && digits_value(t) <= limit {
                Some(digits_value(t) as u64)
            } else {
                None::<u64>
            }
        }),
{
    let ghost t = v@.subrange(start as int, v@.len() as int);
    if start == v.len() {
        return None;
    }
    let mut acc: u64 = 0;
    let mut over = false;
    let mut k: usize = start;
    while k < v.len()
        invariant
            start <= k <= v@.len(),
            t == v@.subrange(start as int, v@.len() as int),
            forall|i: int| start <= i < k ==> is_digit(#[trigger] v@[i]),
            !over ==> acc == digits_value(v@.subrange(start as int, k as int)) && acc <= limit,
            over ==> digits_value(v@.subrange(start as int, k as int)) > limit,
        decreases v@.len() - k,
    {
        let c = v[k];
        if !('0' <= c && c <= '9') {
            assert(!is_digit(t[k - start]));
            return None;
        }
        let ghost pre = v@.subrange(start as int, k as int);
        let ghost next = v@.subrange(start as int, k + 1);
        assert(next.drop_last() =~= pre);
        let d = ((c as u32) - ('0' as u32)) as u64;
        if !over {
            if d > limit {
                over = true;
            } else if acc > (limit - d) / 10 {
                over = true;
                assert(acc * 10 + d > limit) by (nonlinear_arith)
                    requires
                        acc > (limit - d) / 10,
                        d <= limit,
                ;
            } else {
                assert(acc * 10 + d <= limit) by (nonlinear_arith)
                    requires
                        acc <= (limit - d) / 10,
                        d <= limit,
                ;
                acc = acc * 10 + d;
            }
        } else {
            assert(digits_value(next) >= digits_value(pre)) by (nonlinear_arith)
                requires
                    digits_value(next) == digits_value(pre) * 10 + digit_value(v@[k as int]),
            ;
        }
        k = k + 1;
    }
    assert(v@.subrange(start as int, k as int) =~= t);
    assert(all_digits(t));
    if over {
        None
    } else {
        Some(acc)
    }
}

/// `v` read as an `i64`, as `i64::from_str` reads it.
pub fn parse_i64(v: &Vec<char>) -> (r: Option<i64>)
    ensures
        r is Some <==> int_in(v@, true, i64::MIN as int, i64::MAX as int) is Some,
        r is Some ==> r->0 as int == int_in(v@, true, i64::MIN as int, i64::MAX as int)->0,
{
    if v.len() > 0 && v[0] == '-' {
        assert(v@.subrange(1, v@.len() as int) =~= v@.drop_first());
        match digits_upto(v, 1, 9223372036854775808u64) {
            Some(m) => {
                if m == 9223372036854775808u64 {
                    Some(-9223372036854775807i64 - 1)
                } else {
                    Some(-(m as i64))
                }
            }
            None => None,
        }
    } else if v.len() > 0 && v[0] == '+' {
        assert(v@.subrange(1, v@.len() as int) =~= v@.drop_first());
        match digits_upto(v, 1, 9223372036854775807u64) {
            Some(m) => Some(m as i64),
            None => None,
        }
    } else {
        assert(v@.subrange(0, v@.len() as int) =~= v@);
        match digits_upto(v, 0, 9223372036854775807u64) {
            Some(m) => Some(m as i64),
            None => None,
        }
    }
}

/// `v` read as an `i32`, as `i32::from_str` reads it.
pub fn parse_i32(v: &Vec<char>) -> (r: Option<i32>)
    ensures
        r is Some <==> int_in(v@, true, i32::MIN as int, i32::MAX as int) is Some,
        r is Some ==> r->0 as int == int_in(v@, true, i32::MIN as int, i32::MAX as int)->0,
{
    match parse_i64(v) {
        Some(x) => {
            if x < -2147483648i64 || x > 2147483647i64 {
                None
            } else {
                Some(x as i32)
            }
        }
        None => {
            proof {
                let sv = signed_value(v@);
                if sv is Some && i32::MIN <= sv->0 <= i32::MAX {
                    assert(int_in(v@, true, i64::MIN as int, i64::MAX as int) is Some);
                }
            }
            None
        }
    }
}

/// `v` read as a `u16`, as `u16::from_str` reads it.
pub fn parse_u16(v: &Vec<char>) -> (r: Option<u16>)
    ensures
        r is Some <==> int_in(v@, false, 0, u16::MAX as int) is Some,
        r is Some ==> r->0 as int == int_in(v@, false, 0, u16::MAX as int)->0,
{
    let start: usize = if v.len() > 0 && v[0] == '+' {
        1
    } else {
        0
    };
    assert(v@.subrange(1, v@.len() as int) =~= v@.drop_first());
    assert(v@.subrange(0, v@.len() as int) =~= v@);
    match digits_upto(v, start, 65535u64) {
        Some(m) => Some(m as u16),
        None => None,
    }
}

} // verus!
