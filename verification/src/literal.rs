//! Numeric literal parsing: signed numbers with an optional `#`/`$`/`%`
//! radix prefix, parsed against a default radix. A negative literal is
//! parsed as an absolute value, range-checked against the signed 16-bit
//! range and wrapped to its two's-complement cell.

use vstd::prelude::*;

verus! {

/// The value a byte stands for as a digit: `0`-`9`, then letters of either
/// case from 10 up; `None` for anything else.
pub open spec fn digit_of(c: u8) -> Option<u32> {
    if 0x30 <= c <= 0x39 {
        Some((c - 0x30) as u32)
    } else if 0x61 <= c <= 0x7A {
        Some((c - 0x61 + 10) as u32)
    } else if 0x41 <= c <= 0x5A {
        Some((c - 0x41 + 10) as u32)
    } else {
        None
    }
}

/// Every byte of `s` is a digit below `radix`, and there is at least one.
pub open spec fn all_digits(s: Seq<u8>, radix: u32) -> bool {
    s.len() > 0 && forall|i: int|
        0 <= i < s.len() ==> (#[trigger] digit_of(s[i]) matches Some(d) && d < radix)
}

/// The number the digit string `s` denotes in base `radix`.
pub open spec fn digits_int(s: Seq<u8>, radix: u32) -> int
    decreases s.len(),
{
    if s.len() == 0 {
        0
    } else {
        digits_int(s.drop_last(), radix) * radix + (match digit_of(s.last()) {
            Some(d) => d as int,
            None => 0,
        })
    }
}

/// An unsigned 16-bit parse of `s` in base `radix`: one optional leading
/// `+`, then digits below the radix whose value fits 16 bits.
pub open spec fn unsigned_parse(s: Seq<u8>, radix: u32) -> Option<u16> {
    let t = if s.len() > 0 && s[0] == 0x2B {
        s.subrange(1, s.len() as int)
    } else {
        s
    };
    if all_digits(t, radix) && digits_int(t, radix) <= 0xFFFF {
        Some(digits_int(t, radix) as u16)
    } else {
        None
    }
}

/// The two's-complement cell of the negation of `a`.
pub open spec fn neg16(a: u16) -> u16 {
    if a == 0 {
        0
    } else {
        (0x10000 - a) as u16
    }
}

/// A signed parse: a leading `-` negates the rest, whose absolute value
/// must fit the signed 16-bit range.
pub open spec fn signed_parse(s: Seq<u8>, radix: u32) -> Option<u16> {
    if s.len() == 0 {
        None
    } else if s[0] == 0x2D {
        match unsigned_parse(s.subrange(1, s.len() as int), radix) {
            Some(a) => if a <= 0x7FFF {
                Some(neg16(a))
            } else {
                None
            },
            None => None,
        }
    } else {
        unsigned_parse(s, radix)
    }
}

/// The whole literal syntax: an optional radix prefix (`#` decimal, `$`
/// hexadecimal, `%` binary), then a signed number in the chosen radix.
pub open spec fn parse_literal_spec(s: Seq<u8>, default_radix: u32) -> Option<u16> {
    if s.len() == 0 {
        None
    } else if s[0] == 0x23 {
        signed_parse(s.subrange(1, s.len() as int), 10)
    } else if s[0] == 0x24 {
        signed_parse(s.subrange(1, s.len() as int), 16)
    } else if s[0] == 0x25 {
        signed_parse(s.subrange(1, s.len() as int), 2)
    } else {
        signed_parse(s, default_radix)
    }
}

/// A digit string keeps at least its prefix's value as it grows.
proof fn lemma_digits_prefix_grow(s: Seq<u8>, radix: u32, j: int)
    requires
        1 <= radix,
        0 <= j <= s.len(),
        all_digits(s, radix),
    ensures
        digits_int(s.subrange(0, j), radix) <= digits_int(s, radix),
        digits_int(s, radix) >= 0,
    decreases s.len() - j,
{
    if j == s.len() {
        assert(s.subrange(0, j) =~= s);
        lemma_digits_nonneg(s, radix);
    } else {
        lemma_digits_prefix_grow(s, radix, j + 1);
        let p = s.subrange(0, j);
        let q = s.subrange(0, j + 1);
        assert(q.drop_last() =~= p);
        lemma_digits_nonneg(p, radix);
        let d = match digit_of(q.last()) {
            Some(d) => d as int,
            None => 0,
        };
        assert(digits_int(q, radix) == digits_int(p, radix) * radix + d);
        assert(digits_int(p, radix) * radix >= digits_int(p, radix)) by (nonlinear_arith)
            requires
                digits_int(p, radix) >= 0,
                radix >= 1,
        ;
    }
}

/// A digit string's value is never negative.
proof fn lemma_digits_nonneg(s: Seq<u8>, radix: u32)
    ensures
        digits_int(s, radix) >= 0,
    decreases s.len(),
{
    if s.len() > 0 {
        lemma_digits_nonneg(s.drop_last(), radix);
        let v = digits_int(s.drop_last(), radix);
        assert(v * radix >= 0) by (nonlinear_arith)
            requires
                v >= 0,
        ;
    }
}

/// The digit a byte stands for, when below `radix`.
fn digit_value(c: u8, radix: u32) -> (r: Option<u32>)
    ensures
        r is Some <==> (digit_of(c) matches Some(d) && d < radix),
        r is Some ==> digit_of(c) == Some(r->0),
{
    let v: u32 = if 0x30 <= c && c <= 0x39 {
        (c - 0x30) as u32
    } else if 0x61 <= c && c <= 0x7A {
        (c - 0x61) as u32 + 10
    } else if 0x41 <= c && c <= 0x5A {
        (c - 0x41) as u32 + 10
    } else {
        return None;
    };
    if v < radix {
        Some(v)
    } else {
        None
    }
}

/// Parses an unsigned digit string (with an optional leading `+`).
fn parse_unsigned(source: &[u8], radix: u32) -> (r: Option<u16>)
    ensures
        r == unsigned_parse(source@, radix),
{
    let n: usize = source.len();
    let start: usize = if n > 0 && source[0] == 0x2B {
        1
    } else {
        0
    };
    let ghost t = if source@.len() > 0 && source@[0] == 0x2B {
        source@.subrange(1, source@.len() as int)
    } else {
        source@
    };
    proof {
        assert(t =~= source@.subrange(start as int, n as int));
    }

    if n == start {
        return None;
    }

    let mut acc: u32 = 0;
    let mut i: usize = start;
    while i < n
        invariant
            start <= i <= n,
            n == source@.len(),
            t =~= source@.subrange(start as int, n as int),
            acc <= 0xFFFF,
            all_digits(source@.subrange(start as int, i as int), radix) || i == start,
            acc == digits_int(source@.subrange(start as int, i as int), radix),
        decreases n - i,
    {
        let d = match digit_value(source[i], radix) {
            Some(d) => d,
            None => {
                proof {
                    assert(t[i - start] == source@[i as int]);
                    assert(!all_digits(t, radix));
                }
                return None;
            },
        };
        proof {
            assert(source@.subrange(start as int, i as int + 1).drop_last() =~= source@.subrange(
                start as int,
                i as int,
            ));
            assert(source@.subrange(start as int, i as int + 1).last() == source@[i as int]);
            let p = source@.subrange(start as int, i as int + 1);
            assert forall|j: int| 0 <= j < p.len() implies (#[trigger] digit_of(p[j]) matches Some(
                dd,
            ) && dd < radix) by {
                if j < i - start {
                    assert(p[j] == source@.subrange(start as int, i as int)[j]);
                } else {
                    assert(p[j] == source@[i as int]);
                }
            }
            assert(all_digits(p, radix));
            assert(acc as int * radix as int <= 0xFFFF * 0xFFFFFFFFu64) by (nonlinear_arith)
                requires
                    0 <= acc <= 0xFFFF,
                    0 <= radix <= 0xFFFFFFFFu32,
            ;
        }
        let next_acc: u64 = acc as u64 * radix as u64 + d as u64;
        if next_acc > 0xFFFF {
            proof {
                let p = source@.subrange(start as int, i as int + 1);
                assert(digits_int(p, radix) == acc * radix + d);
                if all_digits(t, radix) {
                    lemma_digits_prefix_grow(t, radix, i as int + 1 - start as int);
                    assert(p =~= t.subrange(0, i as int + 1 - start));
                }
            }
            return None;
        }
        acc = next_acc as u32;
        proof {
            assert(acc == digits_int(source@.subrange(start as int, i as int + 1), radix));
        }
        i = i + 1;
    }

    proof {
        assert(source@.subrange(start as int, n as int) =~= t);
    }
    Some(acc as u16)
}

/// Parses an optional `-` sign and an absolute value, range-checked
/// against the signed 16-bit range and wrapped to its cell.
fn try_parse(source: &[u8], radix: u32) -> (r: Option<u16>)
    ensures
        r == signed_parse(source@, radix),
{
    let n: usize = source.len();
    if n == 0 {
        return None;
    }

    if source[0] == 0x2D {
        let rest = &source[1..n];
        proof {
            assert(rest@ =~= source@.subrange(1, n as int));
        }
        match parse_unsigned(rest, radix) {
            Some(absolute) => {
                if absolute <= 0x7FFF {
                    if absolute == 0 {
                        Some(0)
                    } else {
                        Some(0u16.wrapping_sub(absolute))
                    }
                } else {
                    None
                }
            },
            None => None,
        }
    } else {
        parse_unsigned(source, radix)
    }
}

/// Tries to parse a numeric literal: an optional radix prefix (`#`
/// decimal, `$` hexadecimal, `%` binary), an optional sign, and digits in
/// the resulting radix. `None` when the bytes do not form a literal.
pub fn parse_literal(source: &[u8], default_radix: u32) -> (r: Option<u16>)
    ensures
        r == parse_literal_spec(source@, default_radix),
{
    let n: usize = source.len();
    if n == 0 {
        return None;
    }

    let first = source[0];
    if first == 0x23 || first == 0x24 || first == 0x25 {
        let rest = &source[1..n];
        proof {
            assert(rest@ =~= source@.subrange(1, n as int));
        }
        if first == 0x23 {
            try_parse(rest, 10)
        } else if first == 0x24 {
            try_parse(rest, 16)
        } else {
            try_parse(rest, 2)
        }
    } else {
        try_parse(source, default_radix)
    }
}

} // verus!
