use vstd::prelude::*;

verus! {

/// The value of a hexadecimal digit, either case.
pub open spec fn hex_digit_value(c: char) -> Option<nat> {
    if '0' <= c && c <= '9' {
        Some((c as u32 - '0' as u32) as nat)
    } else if 'a' <= c && c <= 'f' {
        Some((c as u32 - 'a' as u32 + 10) as nat)
    } else if 'A' <= c && c <= 'F' {
        Some((c as u32 - 'A' as u32 + 10) as nat)
    } else {
        None
    }
}

/// The value of a run of hexadecimal digits; `None` if any character is not one.
pub open spec fn hex_run_value(s: Seq<char>) -> Option<nat>
    decreases s.len(),
{
    if s.len() == 0 {
        Some(0)
    } else {
        match (hex_run_value(s.drop_last()), hex_digit_value(s.last())) {
            (Some(a), Some(d)) => Some(a * 16 + d),
            _ => None,
        }
    }
}

/// `s` without every leading `0x`.
pub open spec fn strip_hex_prefix(s: Seq<char>) -> Seq<char>
    decreases s.len(),
{
    if s.len() >= 2 && s[0] == '0' && s[1] == 'x' {
        strip_hex_prefix(s.subrange(2, s.len() as int))
    } else {
        s
    }
}

/// The 16-bit value that a hexadecimal text stands for: any leading `0x` is dropped, then an
/// optional `+` and at least one hexadecimal digit, with a value below `0x10000`.
pub open spec fn hex_u16_value(s: Seq<char>) -> Option<u16> {
    let t = strip_hex_prefix(s);
    let d = if t.len() > 0 && t[0] == '+' {
        t.drop_first()
    } else {
        t
    };
    if d.len() == 0 {
        None
    } else {
        match hex_run_value(d) {
            Some(v) => if v < 0x10000 {
                Some(v as u16)
            } else {
                None
            },
            None => None,
        }
    }
}

fn digit_value(c: char) -> (r: Option<u32>)
    ensures
        r matches Some(v) ==> hex_digit_value(c) == Some(v as nat) && v < 16,
        r is None ==> hex_digit_value(c) is None,
{
    if '0' <= c && c <= '9' {
        Some(c as u32 - '0' as u32)
    } else if 'a' <= c && c <= 'f' {
        Some(c as u32 - 'a' as u32 + 10)
    } else if 'A' <= c && c <= 'F' {
        Some(c as u32 - 'A' as u32 + 10)
    } else {
        None
    }
}

/// Parses a vendor or product id such as `0x4B42` or `feed`.
pub fn hex_to_u16(hex_string: &str) -> (r: Option<u16>)
    ensures
        r == hex_u16_value(hex_string@),
{
    let n = hex_string.unicode_len();
    let ghost s = hex_string@;
    let mut start: usize = 0;
    assert(s.subrange(0, n as int) =~= s);
    while start < n && n - start >= 2 && hex_string.get_char(start) == '0' && hex_string.get_char(
        start + 1,
    ) == 'x'
        invariant
            start <= n,
            n == s.len(),
            s == hex_string@,
            strip_hex_prefix(s) == strip_hex_prefix(s.subrange(start as int, n as int)),
        decreases n - start,
    {
        assert(s.subrange(start as int, n as int).subrange(2, n - start) =~= s.subrange(
            start + 2,
            n as int,
        ));
        start += 2;
    }
    let ghost t = s.subrange(start as int, n as int);
    assert(strip_hex_prefix(s) == t);
    if start < n && hex_string.get_char(start) == '+' {
        assert(t.len() > 0 && t[0] == '+');
        assert(s.subrange(start as int, n as int).drop_first() =~= s.subrange(start + 1, n as int));
        start += 1;
    }
    let ghost d = s.subrange(start as int, n as int);
    assert(d == if t.len() > 0 && t[0] == '+' {
        t.drop_first()
    } else {
        t
    });
    if start >= n {
        return None;
    }
    // The value so far, capped at 0x10000.
    let mut v: u32 = 0;
    let mut i: usize = start;
    while i < n
        invariant
            start <= i <= n,
            n == s.len(),
            s == hex_string@,
            d == s.subrange(start as int, n as int),
            d.len() > 0,
            hex_u16_value(s) == match hex_run_value(d) {
                Some(v) => if v < 0x10000 {
                    Some(v as u16)
                } else {
                    None
                },
                None => None,
            },
            hex_run_value(s.subrange(start as int, i as int)) matches Some(a) && v == if a < 0x10000 {
                a
            } else {
                0x10000
            },
        decreases n - i,
    {
        let c = hex_string.get_char(i);
        assert(s.subrange(start as int, i + 1).drop_last() =~= s.subrange(start as int, i as int));
        match digit_value(c) {
            Some(dv) => {
                let next = v * 16 + dv;
                v = if next < 0x10000 { next } else { 0x10000 };
            },
            None => {
                assert(hex_run_value(s.subrange(start as int, i + 1)) is None);
                assert(d.subrange(0, i + 1 - start) =~= s.subrange(start as int, i + 1));
                proof {
                    lemma_hex_run_none_extends(d, (i + 1 - start) as nat);
                }
                return None;
            },
        }
        i += 1;
    }
    assert(s.subrange(start as int, i as int) =~= d);
    if v < 0x10000 {
        Some(v as u16)
    } else {
        None
    }
}

/// Once a prefix holds a character that is no hexadecimal digit, so does the whole run.
proof fn lemma_hex_run_none_extends(s: Seq<char>, k: nat)
    requires
        k <= s.len(),
        hex_run_value(s.subrange(0, k as int)) is None,
    ensures
        hex_run_value(s) is None,
    decreases s.len() - k,
{
    if k < s.len() {
        assert(s.subrange(0, (k + 1) as int).drop_last() =~= s.subrange(0, k as int));
        lemma_hex_run_none_extends(s, k + 1);
    } else {
        assert(s.subrange(0, k as int) =~= s);
    }
}

} // verus!
