//! The two numeric leaves of the configuration language: unsigned integers
//! in decimal or `0x`-hex, and memory sizes with binary-unit suffixes.

use vstd::prelude::*;
use crate::error::ParseError;
use crate::error::ParseErrorV;
use crate::strutil::spec_starts_with;
use crate::strutil::str_starts_with;

verus! {

/// `c` is a digit of the chosen radix (hex digits in either case).
pub open spec fn spec_is_digit(c: char, hex: bool) -> bool {
    ('0' <= c && c <= '9') || (hex && (('a' <= c && c <= 'f') || ('A' <= c && c <= 'F')))
}

/// The value of one digit.
pub open spec fn spec_digit_val(c: char, hex: bool) -> nat {
    if '0' <= c && c <= '9' {
        ((c as int) - ('0' as int)) as nat
    } else if hex && 'a' <= c && c <= 'f' {
        ((c as int) - ('a' as int) + 10) as nat
    } else if hex && 'A' <= c && c <= 'F' {
        ((c as int) - ('A' as int) + 10) as nat
    } else {
        0
    }
}

/// The value of a digit string, most significant digit first.
pub open spec fn spec_digits_val(s: Seq<char>, hex: bool) -> nat
    decreases s.len(),
{
    if s.len() == 0 {
        0
    } else {
        spec_digits_val(s.drop_last(), hex) * (if hex {
            16nat
        } else {
            10nat
        }) + spec_digit_val(s.last(), hex)
    }
}

/// A longer prefix of a digit string never has a smaller value.
pub proof fn lemma_digits_val_prefix_le(s: Seq<char>, j: int, k: int, hex: bool)
    requires
        0 <= j <= k <= s.len(),
    ensures
        spec_digits_val(s.subrange(0, j), hex) <= spec_digits_val(s.subrange(0, k), hex),
    decreases k - j,
{
    if j < k {
        lemma_digits_val_prefix_le(s, j, k - 1, hex);
        let p = s.subrange(0, k);
        assert(p.drop_last() =~= s.subrange(0, k - 1));
        let v = spec_digits_val(p.drop_last(), hex);
        if hex {
            assert(v * 16nat >= v);
        } else {
            assert(v * 10nat >= v);
        }
    }
}

/// The digit body of a numeral: everything after one optional leading `+`.
pub open spec fn spec_strip_plus(s: Seq<char>) -> Seq<char> {
    if s.len() > 0 && s[0] == '+' {
        s.subrange(1, s.len() as int)
    } else {
        s
    }
}

/// A well-formed digit body: non-empty, digits only, value within 64 bits.
pub open spec fn spec_digits_ok(t: Seq<char>, hex: bool) -> bool {
    t.len() > 0 && (forall|i: int| 0 <= i < t.len() ==> spec_is_digit(t[i], hex))
        && spec_digits_val(t, hex) <= u64::MAX
}

/// An unsigned integer of the chosen radix: an optional leading `+`, then
/// one or more digits, the whole value fitting in 64 bits.
pub open spec fn spec_parse_uint(s: Seq<char>, hex: bool) -> Option<u64> {
    if spec_digits_ok(spec_strip_plus(s), hex) {
        Some(spec_digits_val(spec_strip_plus(s), hex) as u64)
    } else {
        None
    }
}

/// A numeric literal: `0x`-prefixed hex, else decimal.
pub open spec fn spec_parse_number(s: Seq<char>) -> Option<u64> {
    if spec_starts_with(s, "0x"@) {
        spec_parse_uint(s.subrange("0x"@.len() as int, s.len() as int), true)
    } else {
        spec_parse_uint(s, false)
    }
}

/// The multiplier of a unit letter, if `c` is one.
pub open spec fn spec_unit_multiplier(c: char) -> Option<nat> {
    if c == 'T' {
        Some(0x10000000000nat)
    } else if c == 'G' {
        Some(0x40000000nat)
    } else if c == 'M' {
        Some(0x100000nat)
    } else if c == 'K' {
        Some(0x400nat)
    } else {
        None
    }
}

/// A memory size in bytes: strip one optional trailing `B`, then one
/// optional unit letter from `{T,G,M,K}`; the remaining prefix must be a
/// non-empty decimal numeral, and the product must fit in 64 bits.
pub open spec fn spec_parse_memory(s: Seq<char>) -> Option<u64> {
    let b1 = if s.len() > 0 && s.last() == 'B' {
        s.drop_last()
    } else {
        s
    };
    if b1.len() == 0 {
        None
    } else {
        let stripped = match spec_unit_multiplier(b1.last()) {
            Some(_) => b1.drop_last(),
            None => b1,
        };
        let mult = match spec_unit_multiplier(b1.last()) {
            Some(m) => m,
            None => 1nat,
        };
        match spec_parse_uint(stripped, false) {
            Some(n) => if (n as nat) * mult <= u64::MAX {
                Some(((n as nat) * mult) as u64)
            } else {
                None
            },
            None => None,
        }
    }
}

/// Digit test and value in one step.
pub(crate) fn digit_of(c: char, hex: bool) -> (r: Option<u64>)
    ensures
        match r {
            Some(v) => spec_is_digit(c, hex) && v == spec_digit_val(c, hex),
            None => !spec_is_digit(c, hex),
        },
{
    if '0' <= c && c <= '9' {
        Some((c as u32 - '0' as u32) as u64)
    } else if hex && 'a' <= c && c <= 'f' {
        Some((c as u32 - 'a' as u32 + 10) as u64)
    } else if hex && 'A' <= c && c <= 'F' {
        Some((c as u32 - 'A' as u32 + 10) as u64)
    } else {
        None
    }
}

/// Parse an unsigned integer of the chosen radix.
fn parse_uint(s: &str, hex: bool) -> (r: Option<u64>)
    ensures
        r == spec_parse_uint(s@, hex),
{
    let n = s.unicode_len();
    let start: usize = if n > 0 && s.get_char(0) == '+' {
        1
    } else {
        0
    };
    let ghost t = spec_strip_plus(s@);
    proof {
        assert(t =~= s@.subrange(start as int, n as int));
    }
    if start == n {
        return None;
    }
    let radix: u64 = if hex {
        16
    } else {
        10
    };
    let mut acc: u64 = 0;
    let mut i: usize = start;
    while i < n
        invariant
            start <= i <= n,
            n == s@.len(),
            start == 0 || start == 1,
            t == spec_strip_plus(s@),
            t =~= s@.subrange(start as int, n as int),
            radix == (if hex { 16int } else { 10int }),
            forall|j: int| 0 <= j < i - start ==> spec_is_digit(t[j], hex),
            acc == spec_digits_val(t.subrange(0, i - start), hex),
        decreases n - i,
    {
        let c = s.get_char(i);
        proof {
            assert(t[i - start] == s@[i as int]);
        }
        match digit_of(c, hex) {
            Some(d) => {
                let ghost pre = t.subrange(0, i - start);
                let ghost post = t.subrange(0, i + 1 - start);
                proof {
                    assert(post.drop_last() =~= pre);
                    assert(post.last() == t[i - start]);
                }
                let stepped = match acc.checked_mul(radix) {
                    Some(m) => m.checked_add(d),
                    None => None,
                };
                match stepped {
                    Some(v) => {
                        acc = v;
                    },
                    None => {
                        proof {
                            assert(spec_digits_val(post, hex) > u64::MAX);
                            lemma_digits_val_prefix_le(t, i + 1 - start, t.len() as int, hex);
                            assert(t.subrange(0, t.len() as int) =~= t);
                        }
                        return None;
                    },
                }
            },
            None => {
                proof {
                    assert(0 <= i - start < t.len());
                    assert(!spec_is_digit(t[i - start], hex));
                    assert(!spec_digits_ok(t, hex));
                }
                return None;
            },
        }
        i = i + 1;
    }
    proof {
        assert(t.subrange(0, i - start) =~= t);
    }
    Some(acc)
}

/// Parse a decimal or `0x`-prefixed hex unsigned integer.  Fails, and does
/// not wrap, on overflow or malformed digits.
pub fn parse_number(s: &str) -> (r: Result<u64, ParseError>)
    ensures
        match r {
            Ok(v) => spec_parse_number(s@) == Some(v),
            Err(e) => spec_parse_number(s@) is None && e@ == ParseErrorV::MalformedNumber(s@),
        },
{
    let hex = str_starts_with(s, "0x");
    let body: &str = if hex {
        let plen = "0x".unicode_len();
        s.substring_char(plen, s.unicode_len())
    } else {
        s
    };
    match parse_uint(body, hex) {
        Some(v) => Ok(v),
        None => Err(ParseError::MalformedNumber(s.to_owned())),
    }
}

/// Parse a decimal unsigned integer that must fit in 16 bits.
pub fn parse_u16_dec(s: &str) -> (r: Option<u16>)
    ensures
        r == match spec_parse_uint(s@, false) {
            Some(q) => if q <= 0xffff {
                Some(q as u16)
            } else {
                None
            },
            None => None,
        },
{
    match parse_uint(s, false) {
        Some(q) => if q <= 0xffff {
            Some(q as u16)
        } else {
            None
        },
        None => None,
    }
}

/// Parse a memory size with an optional binary-unit suffix into bytes.
pub fn parse_memory(s: &str) -> (r: Result<u64, ParseError>)
    ensures
        match r {
            Ok(v) => spec_parse_memory(s@) == Some(v),
            Err(e) => spec_parse_memory(s@) is None && e@ == ParseErrorV::InvalidMemorySize(s@),
        },
{
    let n = s.unicode_len();
    let b1: &str = if n > 0 && s.get_char(n - 1) == 'B' {
        s.substring_char(0, n - 1)
    } else {
        s
    };
    proof {
        if s@.len() > 0 && s@.last() == 'B' {
            assert(b1@ =~= s@.drop_last());
        }
    }
    let m = b1.unicode_len();
    if m == 0 {
        return Err(ParseError::InvalidMemorySize(s.to_owned()));
    }
    let last = b1.get_char(m - 1);
    let mult: u64 = if last == 'T' {
        0x10000000000
    } else if last == 'G' {
        0x40000000
    } else if last == 'M' {
        0x100000
    } else if last == 'K' {
        0x400
    } else {
        1
    };
    let stripped: &str = if last == 'T' || last == 'G' || last == 'M' || last == 'K' {
        b1.substring_char(0, m - 1)
    } else {
        b1
    };
    proof {
        if spec_unit_multiplier(b1@.last()) is Some {
            assert(stripped@ =~= b1@.drop_last());
        }
    }
    match parse_uint(stripped, false) {
        Some(nv) => match nv.checked_mul(mult) {
            Some(v) => Ok(v),
            None => Err(ParseError::InvalidMemorySize(s.to_owned())),
        },
        None => Err(ParseError::InvalidMemorySize(s.to_owned())),
    }
}

} // verus!
