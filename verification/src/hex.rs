//! Parsing of hexadecimal chain-tip heights.
//!
//! A tip header's `number` field is a hexadecimal string, normally prefixed
//! `0x`; the prefix is tolerated but not required, and every leading `0x`
//! pair is stripped before the digits are read.

use vstd::prelude::*;

verus! {

/// True of the ASCII bytes that stand for a hexadecimal digit.
pub open spec fn is_hex_digit(b: u8) -> bool {
    (48 <= b <= 57) || (97 <= b <= 102) || (65 <= b <= 70)
}

/// The numeric value of one hexadecimal digit byte.
pub open spec fn hex_digit_value(b: u8) -> nat {
    if 48 <= b <= 57 {
        (b - 48) as nat
    } else if 97 <= b <= 102 {
        (b - 87) as nat
    } else if 65 <= b <= 70 {
        (b - 55) as nat
    } else {
        0
    }
}

/// The byte sequence with every leading `0x` pair removed.
pub open spec fn strip_hex_prefix(s: Seq<u8>) -> Seq<u8>
    decreases s.len(),
{
    if s.len() >= 2 && s[0] == 48 && s[1] == 120 {
        strip_hex_prefix(s.subrange(2, s.len() as int))
    } else {
        s
    }
}

/// The value of a run of hexadecimal digit bytes, most significant first.
pub open spec fn hex_digits_value(s: Seq<u8>) -> nat
    decreases s.len(),
{
    if s.len() == 0 {
        0
    } else {
        hex_digits_value(s.drop_last()) * 16 + hex_digit_value(s.last())
    }
}

/// True when every byte of `s` is a hexadecimal digit.
pub open spec fn all_hex_digits(s: Seq<u8>) -> bool {
    forall|i: int| 0 <= i < s.len() ==> is_hex_digit(#[trigger] s[i])
}

/// What parsing a height means: after stripping any `0x` prefix, the rest
/// must be a non-empty run of hexadecimal digits whose value fits in a
/// `u64`; anything else is a parse error.
pub open spec fn hex_u64_value(s: Seq<u8>) -> Option<u64> {
    let d = strip_hex_prefix(s);
    if d.len() > 0 && all_hex_digits(d) && hex_digits_value(d) <= u64::MAX {
        Some(hex_digits_value(d) as u64)
    } else {
        None
    }
}

/// The value of a run of digits never falls when more digits follow.
proof fn lemma_hex_value_prefix_le(s: Seq<u8>, k: int)
    requires
        0 <= k <= s.len(),
    ensures
        hex_digits_value(s.take(k)) <= hex_digits_value(s),
    decreases s.len(),
{
    if k == s.len() {
        assert(s.take(k) =~= s);
    } else {
        assert(s.drop_last().take(k) =~= s.take(k));
        lemma_hex_value_prefix_le(s.drop_last(), k);
    }
}

/// Parses a hexadecimal height from `s`, stripping every leading `0x` pair,
/// exactly as `hex_u64_value` states.
pub fn parse_hex_u64(s: &[u8]) -> (r: Option<u64>)
    ensures
        r == hex_u64_value(s@),
{
    let n = s.len();
    let mut i: usize = 0;
    proof {
        assert(s@.subrange(0, n as int) =~= s@);
    }
    while i < n && i + 1 < n && s[i] == 48 && s[i + 1] == 120
        invariant
            n == s@.len(),
            i <= n,
            strip_hex_prefix(s@) == strip_hex_prefix(s@.subrange(i as int, n as int)),
        decreases n - i,
    {
        proof {
            assert(s@.subrange(i as int, n as int).subrange(2, (n - i) as int) =~= s@.subrange(
                i as int + 2,
                n as int,
            ));
        }
        i = i + 2;
    }
    proof {
        assert(strip_hex_prefix(s@) =~= s@.subrange(i as int, n as int));
    }
    if i == n {
        return None;
    }
    let ghost digits = s@.subrange(i as int, n as int);
    let mut acc: u64 = 0;
    let mut j: usize = i;
    while j < n
        invariant
            n == s@.len(),
            i <= j <= n,
            i < n,
            digits == s@.subrange(i as int, n as int),
            strip_hex_prefix(s@) == digits,
            all_hex_digits(s@.subrange(i as int, j as int)),
            acc == hex_digits_value(s@.subrange(i as int, j as int)),
        decreases n - j,
    {
        let b: u8 = s[j];
        let d: u64;
        if 48 <= b && b <= 57 {
            d = (b - 48) as u64;
        } else if 97 <= b && b <= 102 {
            d = (b - 87) as u64;
        } else if 65 <= b && b <= 70 {
            d = (b - 55) as u64;
        } else {
            proof {
                assert(digits[j - i] == s@[j as int]);
                assert(!is_hex_digit(digits[j - i]));
            }
            return None;
        }
        if acc >= 0x1000_0000_0000_0000 {
            proof {
                let consumed = s@.subrange(i as int, j as int + 1);
                assert(consumed.drop_last() =~= s@.subrange(i as int, j as int));
                assert(consumed.last() == s@[j as int]);
                assert(hex_digits_value(consumed) >= acc * 16);
                if all_hex_digits(digits) {
                    assert(consumed =~= digits.take(j - i + 1));
                    lemma_hex_value_prefix_le(digits, j - i + 1);
                    assert(hex_digits_value(digits) > u64::MAX);
                }
            }
            return None;
        }
        proof {
            assert(s@.subrange(i as int, j as int + 1).drop_last() =~= s@.subrange(
                i as int,
                j as int,
            ));
            assert(s@.subrange(i as int, j as int + 1).last() == s@[j as int]);
            assert(hex_digit_value(s@[j as int]) == d);
        }
        acc = acc * 16 + d;
        j = j + 1;
    }
    proof {
        assert(digits =~= s@.subrange(i as int, n as int));
    }
    Some(acc)
}

} // verus!
