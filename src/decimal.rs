use vstd::prelude::*;

verus! {

/// The value of a decimal digit.
pub open spec fn dec_digit_value(c: char) -> Option<nat> {
    if '0' <= c && c <= '9' {
        Some((c as u32 - '0' as u32) as nat)
    } else {
        None
    }
}

/// The value of a run of decimal digits; `None` if any character is not one.
pub open spec fn dec_run_value(s: Seq<char>) -> Option<nat>
    decreases s.len(),
{
    if s.len() == 0 {
        Some(0)
    } else {
        match (dec_run_value(s.drop_last()), dec_digit_value(s.last())) {
            (Some(a), Some(d)) => Some(a * 10 + d),
            _ => None,
        }
    }
}

/// The value of a signed decimal text: an optional `+` or `-`, then at least one digit.
pub open spec fn signed_value(s: Seq<char>) -> Option<int> {
    let neg = s.len() > 0 && s[0] == '-';
    let d = if s.len() > 0 && (s[0] == '-' || s[0] == '+') {
        s.drop_first()
    } else {
        s
    };
    if d.len() == 0 {
        None
    } else {
        match dec_run_value(d) {
            Some(v) => Some(if neg { -v } else { v as int }),
            None => None,
        }
    }
}

/// A decimal text as an `i32`, as `str::parse` reads it.
pub open spec fn i32_value(s: Seq<char>) -> Option<i32> {
    match signed_value(s) {
        Some(v) => if i32::MIN <= v <= i32::MAX {
            Some(v as i32)
        } else {
            None
        },
        None => None,
    }
}

/// A decimal text as a `u32`, as `str::parse` reads it: no `-` sign.
pub open spec fn u32_value(s: Seq<char>) -> Option<u32> {
    match signed_value(s) {
        Some(v) => if !(s.len() > 0 && s[0] == '-') && 0 <= v <= u32::MAX {
            Some(v as u32)
        } else {
            None
        },
        None => None,
    }
}

/// A decimal text as a `u64`, as `str::parse` reads it: no `-` sign.
pub open spec fn u64_value(s: Seq<char>) -> Option<u64> {
    match signed_value(s) {
        Some(v) => if !(s.len() > 0 && s[0] == '-') && 0 <= v <= u64::MAX {
            Some(v as u64)
        } else {
            None
        },
        None => None,
    }
}

/// Once a prefix holds a character that is no decimal digit, so does the whole run.
proof fn lemma_dec_run_none_extends(s: Seq<char>, k: nat)
    requires
        k <= s.len(),
        dec_run_value(s.subrange(0, k as int)) is None,
    ensures
        dec_run_value(s) is None,
    decreases s.len() - k,
{
    if k < s.len() {
        assert(s.subrange(0, (k + 1) as int).drop_last() =~= s.subrange(0, k as int));
        lemma_dec_run_none_extends(s, k + 1);
    } else {
        assert(s.subrange(0, k as int) =~= s);
    }
}

/// Reads a signed decimal text: whether it is negative, and its magnitude capped at
/// `2^64`. `None` where `signed_value` has none.
fn signed_capped(s: &str) -> (r: Option<(bool, u128)>)
    ensures
        r is None <==> signed_value(s@) is None,
        r matches Some((neg, m)) ==> neg == (s@.len() > 0 && s@[0] == '-') && ({
            let v = signed_value(s@).unwrap();
            let mag = if v < 0 { -v } else { v };
            m == if mag < 0x1_0000_0000_0000_0000 { mag } else { 0x1_0000_0000_0000_0000 }
        }),
{
    let n = s.unicode_len();
    let ghost t = s@;
    let neg = n > 0 && s.get_char(0) == '-';
    let mut start: usize = 0;
    if n > 0 && (s.get_char(0) == '-' || s.get_char(0) == '+') {
        start = 1;
    }
    let ghost d = t.subrange(start as int, n as int);
    assert(d =~= if t.len() > 0 && (t[0] == '-' || t[0] == '+') {
        t.drop_first()
    } else {
        t
    });
    if start >= n {
        return None;
    }
    let cap: u128 = 0x1_0000_0000_0000_0000;
    let mut v: u128 = 0;
    let mut i: usize = start;
    while i < n
        invariant
            start <= i <= n,
            n == t.len(),
            t == s@,
            d == t.subrange(start as int, n as int),
            d.len() > 0,
            signed_value(t) is None <==> dec_run_value(d) is None,
            cap == 0x1_0000_0000_0000_0000u128,
            dec_run_value(t.subrange(start as int, i as int)) matches Some(a) && v == if a < cap {
                a
            } else {
                cap as nat
            },
        decreases n - i,
    {
        let c = s.get_char(i);
        assert(t.subrange(start as int, i + 1).drop_last() =~= t.subrange(start as int, i as int));
        if '0' <= c && c <= '9' {
            let next = v * 10 + (c as u32 - '0' as u32) as u128;
            v = if next < cap { next } else { cap };
        } else {
            assert(dec_run_value(t.subrange(start as int, i + 1)) is None);
            assert(d.subrange(0, i + 1 - start) =~= t.subrange(start as int, i + 1));
            proof {
                lemma_dec_run_none_extends(d, (i + 1 - start) as nat);
            }
            return None;
        }
        i += 1;
    }
    assert(t.subrange(start as int, i as int) =~= d);
    Some((neg, v))
}

/// Parses an `i32` as `str::parse` does.
pub fn parse_i32(s: &str) -> (r: Option<i32>)
    ensures
        r == i32_value(s@),
{
    match signed_capped(s) {
        Some((neg, m)) => {
            if neg && m <= 0x8000_0000 {
                Some((0 - (m as i64)) as i32)
            } else if !neg && m <= 0x7FFF_FFFF {
                Some(m as i32)
            } else {
                None
            }
        },
        None => None,
    }
}

/// Parses a `u32` as `str::parse` does.
pub fn parse_u32(s: &str) -> (r: Option<u32>)
    ensures
        r == u32_value(s@),
{
    match signed_capped(s) {
        Some((neg, m)) => {
            if !neg && m <= 0xFFFF_FFFF {
                Some(m as u32)
            } else {
                None
            }
        },
        None => None,
    }
}

/// Parses a `u64` as `str::parse` does.
pub fn parse_u64(s: &str) -> (r: Option<u64>)
    ensures
        r == u64_value(s@),
{
    match signed_capped(s) {
        Some((neg, m)) => {
            if !neg && m <= 0xFFFF_FFFF_FFFF_FFFF {
                Some(m as u64)
            } else {
                None
            }
        },
        None => None,
    }
}

} // verus!
