//! The socket-address leaf used by `listen=tcp:`: dotted-quad IPv4
//! `a.b.c.d:port`, and bracketed IPv6 `[groups%scope]:port` with `::`
//! compression and an optional embedded dotted quad, all modeled as plain
//! values.

use vstd::prelude::*;
use crate::numeric::spec_is_digit;
use crate::numeric::spec_digit_val;
use crate::numeric::spec_digits_val;
use crate::numeric::lemma_digits_val_prefix_le;
use crate::numeric::digit_of;
use crate::strutil::spec_find;
use crate::strutil::spec_split;
use crate::strutil::find_char;
use crate::strutil::lemma_spec_find_characterization;
use crate::strutil::split_once_char;
use crate::strutil::split_str;

verus! {

/// A socket address: the typed form of what stands after `tcp:`.
#[derive(Debug, Clone, Copy, PartialEq, Eq, Structural)]
pub enum SocketAddrCli {
    /// `a.b.c.d:port`.
    V4 { ip0: u8, ip1: u8, ip2: u8, ip3: u8, port: u16 },
    /// `[g0:g1:g2:g3:g4:g5:g6:g7%scope]:port`, sixteen-bit groups most
    /// significant first; a scope of zero means none was written.
    V6 {
        g0: u16,
        g1: u16,
        g2: u16,
        g3: u16,
        g4: u16,
        g5: u16,
        g6: u16,
        g7: u16,
        scope: u32,
        port: u16,
    },
}

/// A bounded decimal field: non-empty, digits only, value at most `max`.
pub open spec fn spec_parse_dec_bounded(s: Seq<char>, max: u64) -> Option<u64> {
    if s.len() > 0 && (forall|i: int| 0 <= i < s.len() ==> spec_is_digit(s[i], false))
        && spec_digits_val(s, false) <= max {
        Some(spec_digits_val(s, false) as u64)
    } else {
        None
    }
}

/// One dotted-quad octet: a bounded decimal field without a leading zero.
pub open spec fn spec_parse_octet(s: Seq<char>) -> Option<u8> {
    if s.len() > 1 && s[0] == '0' {
        None
    } else {
        match spec_parse_dec_bounded(s, 255) {
            Some(v) => Some(v as u8),
            None => None,
        }
    }
}

/// Parse a bounded decimal field.
fn parse_dec_bounded(s: &str, max: u64) -> (r: Option<u64>)
    requires
        max <= 0xffffffff,
    ensures
        r == spec_parse_dec_bounded(s@, max),
{
    let n = s.unicode_len();
    if n == 0 {
        return None;
    }
    let mut acc: u64 = 0;
    let mut i: usize = 0;
    while i < n
        invariant
            0 <= i <= n,
            n == s@.len(),
            max <= 0xffffffff,
            acc <= max,
            forall|j: int| 0 <= j < i ==> spec_is_digit(s@[j], false),
            acc == spec_digits_val(s@.subrange(0, i as int), false),
        decreases n - i,
    {
        let c = s.get_char(i);
        let ghost pre = s@.subrange(0, i as int);
        let ghost post = s@.subrange(0, i + 1);
        proof {
            assert(post.drop_last() =~= pre);
            assert(post.last() == s@[i as int]);
        }
        if '0' <= c && c <= '9' {
            let d = (c as u32 - '0' as u32) as u64;
            acc = acc * 10 + d;
            if acc > max {
                proof {
                    lemma_digits_val_prefix_le(s@, i + 1, s@.len() as int, false);
                    assert(s@.subrange(0, s@.len() as int) =~= s@);
                }
                return None;
            }
        } else {
            return None;
        }
        i = i + 1;
    }
    proof {
        assert(s@.subrange(0, i as int) =~= s@);
    }
    Some(acc)
}

/// Parse one dotted-quad octet.
fn parse_octet(s: &str) -> (r: Option<u8>)
    ensures
        r == spec_parse_octet(s@),
{
    if s.unicode_len() > 1 && s.get_char(0) == '0' {
        return None;
    }
    match parse_dec_bounded(s, 255) {
        Some(v) => Some(v as u8),
        None => None,
    }
}

/// An `a.b.c.d:port` address: exactly one colon, exactly four octets, a
/// decimal port within 16 bits.
pub open spec fn spec_parse_v4_socket_addr(s: Seq<char>) -> Option<SocketAddrCli> {
    match spec_find(s, ':') {
        None => None,
        Some(i) => {
            let ip = s.subrange(0, i);
            let rest = s.subrange(i + 1, s.len() as int);
            if spec_find(rest, ':') is Some {
                None
            } else {
                let toks = spec_split(ip, '.');
                if toks.len() == 4 {
                    match spec_parse_octet(toks[0]) {
                        None => None,
                        Some(a) => match spec_parse_octet(toks[1]) {
                            None => None,
                            Some(b) => match spec_parse_octet(toks[2]) {
                                None => None,
                                Some(c) => match spec_parse_octet(toks[3]) {
                                    None => None,
                                    Some(d) => match spec_parse_dec_bounded(rest, 0xffff) {
                                        None => None,
                                        Some(p) => Some(
                                            SocketAddrCli::V4 {
                                                ip0: a,
                                                ip1: b,
                                                ip2: c,
                                                ip3: d,
                                                port: p as u16,
                                            },
                                        ),
                                    },
                                },
                            },
                        },
                    }
                } else {
                    None
                }
            }
        },
    }
}

/// Parse an `a.b.c.d:port` address.
fn parse_v4_socket_addr(s: &str) -> (r: Option<SocketAddrCli>)
    ensures
        r == spec_parse_v4_socket_addr(s@),
{
    match split_once_char(s, ':') {
        None => None,
        Some((ip, rest)) => {
            if let Some(_) = find_char(rest, ':') {
                return None;
            }
            let toks = split_str(ip, '.');
            let ghost tv = spec_split(ip@, '.');
            if toks.len() != 4 {
                return None;
            }
            proof {
                assert(tv[0] == toks@[0int]@);
                assert(tv[1] == toks@[1int]@);
                assert(tv[2] == toks@[2int]@);
                assert(tv[3] == toks@[3int]@);
            }
            let a = match parse_octet(toks[0].as_str()) {
                Some(v) => v,
                None => {
                    return None;
                },
            };
            let b = match parse_octet(toks[1].as_str()) {
                Some(v) => v,
                None => {
                    return None;
                },
            };
            let c = match parse_octet(toks[2].as_str()) {
                Some(v) => v,
                None => {
                    return None;
                },
            };
            let d = match parse_octet(toks[3].as_str()) {
                Some(v) => v,
                None => {
                    return None;
                },
            };
            let p = match parse_dec_bounded(rest, 0xffff) {
                Some(v) => v,
                None => {
                    return None;
                },
            };
            Some(SocketAddrCli::V4 { ip0: a, ip1: b, ip2: c, ip3: d, port: p as u16 })
        },
    }
}

/// One hexadecimal group of an IPv6 address: one to four hex digits of
/// either case, leading zeros allowed.
pub open spec fn spec_parse_h16(t: Seq<char>) -> Option<u16> {
    if 1 <= t.len() <= 4 && (forall|i: int| 0 <= i < t.len() ==> spec_is_digit(t[i], true)) {
        Some(spec_digits_val(t, true) as u16)
    } else {
        None
    }
}

/// Parse one hexadecimal group.
fn parse_h16(s: &str) -> (r: Option<u16>)
    ensures
        r == spec_parse_h16(s@),
{
    let n = s.unicode_len();
    if n < 1 || n > 4 {
        return None;
    }
    let mut acc: u64 = 0;
    let mut i: usize = 0;
    while i < n
        invariant
            0 <= i <= n,
            1 <= n <= 4,
            n == s@.len(),
            forall|j: int| 0 <= j < i ==> spec_is_digit(s@[j], true),
            acc == spec_digits_val(s@.subrange(0, i as int), true),
            acc < (if i == 0 {
                1u64
            } else if i == 1 {
                16u64
            } else if i == 2 {
                256u64
            } else if i == 3 {
                4096u64
            } else {
                65536u64
            }),
        decreases n - i,
    {
        let c = s.get_char(i);
        let ghost pre = s@.subrange(0, i as int);
        let ghost post = s@.subrange(0, i + 1);
        proof {
            assert(post.drop_last() =~= pre);
            assert(post.last() == s@[i as int]);
        }
        match digit_of(c, true) {
            Some(d) => {
                proof {
                    assert(spec_digit_val(s@[i as int], true) <= 15);
                }
                acc = acc * 16 + d;
            },
            None => {
                return None;
            },
        }
        i = i + 1;
    }
    proof {
        assert(s@.subrange(0, i as int) =~= s@);
    }
    Some(acc as u16)
}

/// An embedded dotted quad at the end of an IPv6 address: four octets
/// packed into the last two sixteen-bit groups.
pub open spec fn spec_parse_v4_group(t: Seq<char>) -> Option<(u16, u16)> {
    let toks = spec_split(t, '.');
    if toks.len() == 4 {
        match spec_parse_octet(toks[0]) {
            None => None,
            Some(a) => match spec_parse_octet(toks[1]) {
                None => None,
                Some(b) => match spec_parse_octet(toks[2]) {
                    None => None,
                    Some(c) => match spec_parse_octet(toks[3]) {
                        None => None,
                        Some(d) => Some(
                            (
                                ((a as int) * 256 + (b as int)) as u16,
                                ((c as int) * 256 + (d as int)) as u16,
                            ),
                        ),
                    },
                },
            },
        }
    } else {
        None
    }
}

/// Parse an embedded dotted quad into two groups.
fn parse_v4_group(s: &str) -> (r: Option<(u16, u16)>)
    ensures
        r == spec_parse_v4_group(s@),
{
    let toks = split_str(s, '.');
    let ghost tv = spec_split(s@, '.');
    if toks.len() != 4 {
        return None;
    }
    proof {
        assert(tv[0] == toks@[0int]@);
        assert(tv[1] == toks@[1int]@);
        assert(tv[2] == toks@[2int]@);
        assert(tv[3] == toks@[3int]@);
    }
    let a = match parse_octet(toks[0].as_str()) {
        Some(v) => v,
        None => {
            return None;
        },
    };
    let b = match parse_octet(toks[1].as_str()) {
        Some(v) => v,
        None => {
            return None;
        },
    };
    let c = match parse_octet(toks[2].as_str()) {
        Some(v) => v,
        None => {
            return None;
        },
    };
    let d = match parse_octet(toks[3].as_str()) {
        Some(v) => v,
        None => {
            return None;
        },
    };
    Some(((a as u16) * 256 + (b as u16), (c as u16) * 256 + (d as u16)))
}

/// A run of colon-separated groups: every token a hex group, except that
/// the last may be an embedded dotted quad where the position allows one.
pub open spec fn spec_parse_groups(toks: Seq<Seq<char>>, allow_v4: bool) -> Option<Seq<u16>>
    decreases toks.len(),
{
    if toks.len() == 0 {
        Some(Seq::empty())
    } else if toks.len() == 1 {
        match spec_parse_h16(toks[0]) {
            Some(v) => Some(seq![v]),
            None => if allow_v4 {
                match spec_parse_v4_group(toks[0]) {
                    Some(p) => Some(seq![p.0, p.1]),
                    None => None,
                }
            } else {
                None
            },
        }
    } else {
        match spec_parse_h16(toks[0]) {
            None => None,
            Some(v) => match spec_parse_groups(toks.drop_first(), allow_v4) {
                Some(g) => Some(seq![v] + g),
                None => None,
            },
        }
    }
}

/// Parse a run of groups.
fn parse_groups(toks: &Vec<String>, allow_v4: bool) -> (r: Option<Vec<u16>>)
    ensures
        match r {
            Some(v) => spec_parse_groups(toks.deep_view(), allow_v4) == Some(v@),
            None => spec_parse_groups(toks.deep_view(), allow_v4) is None,
        },
{
    let ghost tv = toks.deep_view();
    let mut out: Vec<u16> = Vec::new();
    let n = toks.len();
    let mut i: usize = 0;
    proof {
        assert(tv.subrange(0, n as int) =~= tv);
        assert(out@ =~= Seq::<u16>::empty());
        if let Some(g) = spec_parse_groups(tv, allow_v4) {
            assert(Seq::<u16>::empty() + g =~= g);
        }
    }
    while i < n
        invariant
            0 <= i <= n,
            n == toks.len(),
            tv == toks.deep_view(),
            tv.len() == n,
            spec_parse_groups(tv, allow_v4) == match spec_parse_groups(
                tv.subrange(i as int, n as int),
                allow_v4,
            ) {
                Some(g) => Some(out@ + g),
                None => None::<Seq<u16>>,
            },
        decreases n - i,
    {
        let ghost rem = tv.subrange(i as int, n as int);
        let ghost prev = out@;
        proof {
            assert(rem.drop_first() =~= tv.subrange(i + 1, n as int));
            assert(rem[0] == tv[i as int]);
            assert(tv[i as int] == toks@[i as int]@);
        }
        match parse_h16(toks[i].as_str()) {
            Some(v) => {
                out.push(v);
                proof {
                    assert(out@ =~= prev.push(v));
                    if rem.len() > 1 {
                        if let Some(g) = spec_parse_groups(rem.drop_first(), allow_v4) {
                            assert(prev + (seq![v] + g) =~= out@ + g);
                        }
                    } else {
                        assert(rem.drop_first() =~= Seq::<Seq<char>>::empty());
                        assert(prev + seq![v] =~= out@ + Seq::<u16>::empty());
                    }
                }
            },
            None => {
                if i + 1 == n && allow_v4 {
                    match parse_v4_group(toks[i].as_str()) {
                        Some(p) => {
                            out.push(p.0);
                            out.push(p.1);
                            proof {
                                assert(out@ =~= prev.push(p.0).push(p.1));
                                assert(prev + seq![p.0, p.1] =~= out@ + Seq::<u16>::empty());
                                assert(rem.drop_first() =~= Seq::<Seq<char>>::empty());
                            }
                        },
                        None => {
                            return None;
                        },
                    }
                } else {
                    return None;
                }
            },
        }
        i = i + 1;
    }
    proof {
        assert(tv.subrange(i as int, n as int) =~= Seq::<Seq<char>>::empty());
        assert(out@ + Seq::<u16>::empty() =~= out@);
    }
    Some(out)
}

/// Index of the first `::` in `s`, if any.
pub open spec fn spec_find_dc(s: Seq<char>) -> Option<int>
    decreases s.len(),
{
    if s.len() < 2 {
        None
    } else if s[0] == ':' && s[1] == ':' {
        Some(0)
    } else {
        match spec_find_dc(s.subrange(1, s.len() as int)) {
            Some(i) => Some(i + 1),
            None => None,
        }
    }
}

/// `spec_find_dc` returns the first `::`: the found position starts one,
/// and none starts earlier; `None` means no `::` occurs at all.
pub proof fn lemma_spec_find_dc_characterization(s: Seq<char>)
    ensures
        match spec_find_dc(s) {
            Some(i) => 0 <= i && i + 1 < s.len() && s[i] == ':' && s[i + 1] == ':' && forall|j: int|
                0 <= j < i ==> !((#[trigger] s[j]) == ':' && s[j + 1] == ':'),
            None => forall|j: int| 0 <= j && j + 1 < s.len() ==> !((#[trigger] s[j]) == ':' && s[j + 1] == ':'),
        },
    decreases s.len(),
{
    if s.len() < 2 {
    } else if s[0] == ':' && s[1] == ':' {
    } else {
        let t = s.subrange(1, s.len() as int);
        lemma_spec_find_dc_characterization(t);
        assert forall|j: int| 1 <= j && j + 1 < s.len() implies (#[trigger] s[j]) == t[j - 1] && s[j
            + 1] == t[j] by {}
    }
}

/// If a `::` starts at `i` and none starts earlier, `spec_find_dc` finds `i`.
proof fn lemma_spec_find_dc_is(s: Seq<char>, i: int)
    requires
        0 <= i,
        i + 1 < s.len(),
        s[i] == ':' && s[i + 1] == ':',
        forall|j: int| 0 <= j < i ==> !((#[trigger] s[j]) == ':' && s[j + 1] == ':'),
    ensures
        spec_find_dc(s) == Some(i),
    decreases s.len(),
{
    if i == 0 {
    } else {
        let t = s.subrange(1, s.len() as int);
        assert(t[i - 1] == s[i as int]);
        assert(t[i] == s[i + 1]);
        assert forall|j: int| 0 <= j < i - 1 implies !((#[trigger] t[j]) == ':' && t[j + 1] == ':') by {
            assert(t[j] == s[j + 1]);
            assert(t[j + 1] == s[j + 2]);
        }
        lemma_spec_find_dc_is(t, i - 1);
    }
}

/// If no `::` occurs in `s`, `spec_find_dc` returns `None`.
proof fn lemma_spec_find_dc_none(s: Seq<char>)
    requires
        forall|j: int| 0 <= j && j + 1 < s.len() ==> !((#[trigger] s[j]) == ':' && s[j + 1] == ':'),
    ensures
        spec_find_dc(s) is None,
{
    lemma_spec_find_dc_characterization(s);
}

/// First position where `::` stands, scanning left to right.
fn find_double_colon(s: &str) -> (r: Option<usize>)
    ensures
        match r {
            Some(i) => spec_find_dc(s@) == Some(i as int),
            None => spec_find_dc(s@) is None,
        },
{
    let n = s.unicode_len();
    if n < 2 {
        proof {
            lemma_spec_find_dc_none(s@);
        }
        return None;
    }
    let mut i: usize = 0;
    while i + 1 < n
        invariant
            0 <= i,
            i + 1 <= n,
            n == s@.len(),
            n >= 2,
            forall|j: int| 0 <= j < i ==> !((#[trigger] s@[j]) == ':' && s@[j + 1] == ':'),
        decreases n - i,
    {
        if s.get_char(i) == ':' && s.get_char(i + 1) == ':' {
            proof {
                lemma_spec_find_dc_is(s@, i as int);
            }
            return Some(i);
        }
        i = i + 1;
    }
    proof {
        lemma_spec_find_dc_none(s@);
    }
    None
}

/// The eight sixteen-bit groups of an IPv6 address: either eight explicit
/// groups, or fewer with a single `::` standing for at least one zero
/// group; an embedded dotted quad may close the address, counting as two
/// groups, but may not stand before a `::`.
pub open spec fn spec_parse_ipv6(s: Seq<char>) -> Option<Seq<u16>> {
    match spec_find_dc(s) {
        None => match spec_parse_groups(spec_split(s, ':'), true) {
            Some(g) => if g.len() == 8 {
                Some(g)
            } else {
                None
            },
            None => None,
        },
        Some(i) => {
            let head = s.subrange(0, i);
            let tail = s.subrange(i + 2, s.len() as int);
            let headg = if head.len() == 0 {
                Some(Seq::<u16>::empty())
            } else {
                spec_parse_groups(spec_split(head, ':'), false)
            };
            let tailg = if tail.len() == 0 {
                Some(Seq::<u16>::empty())
            } else {
                spec_parse_groups(spec_split(tail, ':'), true)
            };
            match headg {
                None => None,
                Some(h) => match tailg {
                    None => None,
                    Some(t) => if h.len() + t.len() < 8 {
                        Some(h + Seq::new((8 - h.len() - t.len()) as nat, |x: int| 0u16) + t)
                    } else {
                        None
                    },
                },
            }
        },
    }
}

/// Parse the eight groups of an IPv6 address.
fn parse_ipv6(s: &str) -> (r: Option<Vec<u16>>)
    ensures
        match r {
            Some(v) => spec_parse_ipv6(s@) == Some(v@) && v.len() == 8,
            None => spec_parse_ipv6(s@) is None,
        },
{
    match find_double_colon(s) {
        None => {
            let toks = split_str(s, ':');
            match parse_groups(&toks, true) {
                Some(g) => if g.len() == 8 {
                    Some(g)
                } else {
                    None
                },
                None => None,
            }
        },
        Some(i) => {
            proof {
                lemma_spec_find_dc_characterization(s@);
            }
            let n = s.unicode_len();
            let head = s.substring_char(0, i);
            let tail = s.substring_char(i + 2, n);
            let hg: Vec<u16> = if head.unicode_len() == 0 {
                Vec::new()
            } else {
                let htoks = split_str(head, ':');
                match parse_groups(&htoks, false) {
                    Some(g) => g,
                    None => {
                        return None;
                    },
                }
            };
            let tg: Vec<u16> = if tail.unicode_len() == 0 {
                Vec::new()
            } else {
                let ttoks = split_str(tail, ':');
                match parse_groups(&ttoks, true) {
                    Some(g) => g,
                    None => {
                        return None;
                    },
                }
            };
            proof {
                if hg@.len() == 0 {
                    assert(hg@ =~= Seq::<u16>::empty());
                }
                if tg@.len() == 0 {
                    assert(tg@ =~= Seq::<u16>::empty());
                }
            }
            if hg.len() >= 8 || tg.len() >= 8 || hg.len() + tg.len() >= 8 {
                return None;
            }
            let fill = 8 - hg.len() - tg.len();
            let ghost hseq = hg@;
            let ghost tseq = tg@;
            let mut out = hg;
            let mut c: usize = 0;
            proof {
                assert(out@ =~= hseq + Seq::new(0nat, |x: int| 0u16));
            }
            while c < fill
                invariant
                    0 <= c <= fill,
                    out@ =~= hseq + Seq::new(c as nat, |x: int| 0u16),
                decreases fill - c,
            {
                let ghost prev = out@;
                out.push(0);
                proof {
                    assert(Seq::new((c + 1) as nat, |x: int| 0u16) =~= Seq::new(
                        c as nat,
                        |x: int| 0u16,
                    ).push(0u16));
                    assert(out@ =~= prev.push(0u16));
                    assert(out@ =~= hseq + Seq::new((c + 1) as nat, |x: int| 0u16));
                }
                c = c + 1;
            }
            let ghost zeros = Seq::new(fill as nat, |x: int| 0u16);
            let m = tg.len();
            let mut k: usize = 0;
            proof {
                assert(out@ =~= hseq + zeros + tseq.subrange(0, 0));
            }
            while k < m
                invariant
                    0 <= k <= m,
                    m == tseq.len(),
                    tg@ == tseq,
                    m == tg.len(),
                    out@ =~= hseq + zeros + tseq.subrange(0, k as int),
                decreases m - k,
            {
                let ghost prev = out@;
                let v = tg[k];
                out.push(v);
                proof {
                    let ghost elem = tseq[k as int];
                    assert(tseq.subrange(0, k + 1) =~= tseq.subrange(0, k as int).push(elem));
                    assert(out@ =~= prev.push(v));
                    assert(out@ =~= hseq + zeros + tseq.subrange(0, k + 1));
                }
                k = k + 1;
            }
            proof {
                assert(tseq.subrange(0, m as int) =~= tseq);
                assert(out@ =~= hseq + zeros + tseq);
            }
            Some(out)
        },
    }
}

/// An `[ipv6%scope]:port` listener address: the bracketed address with an
/// optional decimal scope after `%`, then a colon and a decimal port
/// within 16 bits.
pub open spec fn spec_parse_v6_socket_addr(s: Seq<char>) -> Option<SocketAddrCli> {
    match spec_find(s, ']') {
        None => None,
        Some(j) => {
            if j < 1 || !(s.len() > 0 && s[0] == '[') {
                None
            } else {
                let inner = s.subrange(1, j);
                let after = s.subrange(j + 1, s.len() as int);
                if after.len() < 1 || after[0] != ':' {
                    None
                } else {
                    let port_txt = after.subrange(1, after.len() as int);
                    match spec_parse_dec_bounded(port_txt, 0xffff) {
                        None => None,
                        Some(p) => {
                            let addr_txt = match spec_find(inner, '%') {
                                None => inner,
                                Some(k) => inner.subrange(0, k),
                            };
                            let scope = match spec_find(inner, '%') {
                                None => Some(0u64),
                                Some(k) => spec_parse_dec_bounded(
                                    inner.subrange(k + 1, inner.len() as int),
                                    0xffffffff,
                                ),
                            };
                            match scope {
                                None => None,
                                Some(sc) => match spec_parse_ipv6(addr_txt) {
                                    None => None,
                                    Some(g) => Some(
                                        SocketAddrCli::V6 {
                                            g0: g[0],
                                            g1: g[1],
                                            g2: g[2],
                                            g3: g[3],
                                            g4: g[4],
                                            g5: g[5],
                                            g6: g[6],
                                            g7: g[7],
                                            scope: sc as u32,
                                            port: p as u16,
                                        },
                                    ),
                                },
                            }
                        },
                    }
                }
            }
        },
    }
}

/// Parse an `[ipv6%scope]:port` listener address.
fn parse_v6_socket_addr(s: &str) -> (r: Option<SocketAddrCli>)
    ensures
        r == spec_parse_v6_socket_addr(s@),
{
    let n = s.unicode_len();
    match find_char(s, ']') {
        None => None,
        Some(j) => {
            proof {
                lemma_spec_find_characterization(s@, ']');
            }
            if j < 1 || n == 0 || s.get_char(0) != '[' {
                return None;
            }
            let inner = s.substring_char(1, j);
            let after = s.substring_char(j + 1, n);
            if after.unicode_len() < 1 || after.get_char(0) != ':' {
                return None;
            }
            let port_txt = after.substring_char(1, after.unicode_len());
            let p = match parse_dec_bounded(port_txt, 0xffff) {
                Some(p) => p,
                None => {
                    return None;
                },
            };
            let scope: u64;
            let addr_txt: &str;
            match find_char(inner, '%') {
                None => {
                    addr_txt = inner;
                    scope = 0;
                },
                Some(k) => {
                    proof {
                        lemma_spec_find_characterization(inner@, '%');
                    }
                    addr_txt = inner.substring_char(0, k);
                    let sc_txt = inner.substring_char(k + 1, inner.unicode_len());
                    match parse_dec_bounded(sc_txt, 0xffffffff) {
                        Some(sc) => {
                            scope = sc;
                        },
                        None => {
                            return None;
                        },
                    }
                },
            }
            match parse_ipv6(addr_txt) {
                None => None,
                Some(g) => Some(
                    SocketAddrCli::V6 {
                        g0: g[0],
                        g1: g[1],
                        g2: g[2],
                        g3: g[3],
                        g4: g[4],
                        g5: g[5],
                        g6: g[6],
                        g7: g[7],
                        scope: scope as u32,
                        port: p as u16,
                    },
                ),
            }
        },
    }
}

/// A socket address: bracketed IPv6 where the text opens with `[`, dotted
/// IPv4 otherwise.
pub open spec fn spec_parse_socket_addr(s: Seq<char>) -> Option<SocketAddrCli> {
    if s.len() > 0 && s[0] == '[' {
        spec_parse_v6_socket_addr(s)
    } else {
        spec_parse_v4_socket_addr(s)
    }
}

/// Parse a socket address in either form.
pub fn parse_socket_addr(s: &str) -> (r: Option<SocketAddrCli>)
    ensures
        r == spec_parse_socket_addr(s@),
{
    if s.unicode_len() > 0 && s.get_char(0) == '[' {
        parse_v6_socket_addr(s)
    } else {
        parse_v4_socket_addr(s)
    }
}

/// The decimal digit `d` as a one-character string view.
pub open spec fn spec_digit_str(d: nat) -> Seq<char> {
    if d == 0 {
        "0"@
    } else if d == 1 {
        "1"@
    } else if d == 2 {
        "2"@
    } else if d == 3 {
        "3"@
    } else if d == 4 {
        "4"@
    } else if d == 5 {
        "5"@
    } else if d == 6 {
        "6"@
    } else if d == 7 {
        "7"@
    } else if d == 8 {
        "8"@
    } else {
        "9"@
    }
}

/// The decimal rendering of `n`, most significant digit first, no sign and
/// no leading zeros.
pub open spec fn spec_dec_string(n: nat) -> Seq<char>
    decreases n,
{
    if n < 10 {
        spec_digit_str(n)
    } else {
        spec_dec_string(n / 10) + spec_digit_str(n % 10)
    }
}

/// Append the decimal rendering of `n`.
fn push_dec(n: u64, out: &mut String)
    ensures
        final(out)@ == old(out)@ + spec_dec_string(n as nat),
    decreases n,
{
    if n >= 10 {
        push_dec(n / 10, out);
    }
    let d = n % 10;
    let ds: &str = if d == 0 {
        "0"
    } else if d == 1 {
        "1"
    } else if d == 2 {
        "2"
    } else if d == 3 {
        "3"
    } else if d == 4 {
        "4"
    } else if d == 5 {
        "5"
    } else if d == 6 {
        "6"
    } else if d == 7 {
        "7"
    } else if d == 8 {
        "8"
    } else {
        "9"
    };
    out.append(ds);
    proof {
        if n < 10 {
            assert(old(out)@ + spec_dec_string(n as nat) =~= out@);
        } else {
            assert(old(out)@ + spec_dec_string(n as nat) =~= out@);
        }
    }
}

/// The hexadecimal digit `d` as a one-character string view, lower case.
pub open spec fn spec_hex_digit_str(d: nat) -> Seq<char> {
    if d == 0 {
        "0"@
    } else if d == 1 {
        "1"@
    } else if d == 2 {
        "2"@
    } else if d == 3 {
        "3"@
    } else if d == 4 {
        "4"@
    } else if d == 5 {
        "5"@
    } else if d == 6 {
        "6"@
    } else if d == 7 {
        "7"@
    } else if d == 8 {
        "8"@
    } else if d == 9 {
        "9"@
    } else if d == 10 {
        "a"@
    } else if d == 11 {
        "b"@
    } else if d == 12 {
        "c"@
    } else if d == 13 {
        "d"@
    } else if d == 14 {
        "e"@
    } else {
        "f"@
    }
}

/// The hexadecimal rendering of `n`, lower case, no leading zeros.
pub open spec fn spec_hex_string(n: nat) -> Seq<char>
    decreases n,
{
    if n < 16 {
        spec_hex_digit_str(n)
    } else {
        spec_hex_string(n / 16) + spec_hex_digit_str(n % 16)
    }
}

/// Append the hexadecimal rendering of `n`.
fn push_hex(n: u64, out: &mut String)
    ensures
        final(out)@ == old(out)@ + spec_hex_string(n as nat),
    decreases n,
{
    if n >= 16 {
        push_hex(n / 16, out);
    }
    let d = n % 16;
    let ds: &str = if d == 0 {
        "0"
    } else if d == 1 {
        "1"
    } else if d == 2 {
        "2"
    } else if d == 3 {
        "3"
    } else if d == 4 {
        "4"
    } else if d == 5 {
        "5"
    } else if d == 6 {
        "6"
    } else if d == 7 {
        "7"
    } else if d == 8 {
        "8"
    } else if d == 9 {
        "9"
    } else if d == 10 {
        "a"
    } else if d == 11 {
        "b"
    } else if d == 12 {
        "c"
    } else if d == 13 {
        "d"
    } else if d == 14 {
        "e"
    } else {
        "f"
    };
    out.append(ds);
    proof {
        if n < 16 {
            assert(old(out)@ + spec_hex_string(n as nat) =~= out@);
        } else {
            assert(old(out)@ + spec_hex_string(n as nat) =~= out@);
        }
    }
}

/// The canonical rendering of an address: `a.b.c.d:port` for IPv4;
/// `[g0:...:g7%scope]:port` for IPv6, all eight groups written in lower-
/// case hex without zero compression, the scope omitted when zero.
pub open spec fn spec_addr_string(a: SocketAddrCli) -> Seq<char> {
    match a {
        SocketAddrCli::V4 { ip0, ip1, ip2, ip3, port } => spec_dec_string(ip0 as nat) + "."@
            + spec_dec_string(ip1 as nat) + "."@ + spec_dec_string(ip2 as nat) + "."@
            + spec_dec_string(ip3 as nat) + ":"@ + spec_dec_string(port as nat),
        SocketAddrCli::V6 { g0, g1, g2, g3, g4, g5, g6, g7, scope, port } => "["@
            + spec_hex_string(g0 as nat) + ":"@ + spec_hex_string(g1 as nat) + ":"@
            + spec_hex_string(g2 as nat) + ":"@ + spec_hex_string(g3 as nat) + ":"@
            + spec_hex_string(g4 as nat) + ":"@ + spec_hex_string(g5 as nat) + ":"@
            + spec_hex_string(g6 as nat) + ":"@ + spec_hex_string(g7 as nat) + (if scope != 0 {
            "%"@ + spec_dec_string(scope as nat)
        } else {
            Seq::empty()
        }) + "]:"@ + spec_dec_string(port as nat),
    }
}

impl SocketAddrCli {
    /// Render the address canonically.
    pub fn to_string(&self) -> (r: String)
        ensures
            r@ == spec_addr_string(*self),
    {
        let mut out = String::new();
        match self {
            SocketAddrCli::V4 { ip0, ip1, ip2, ip3, port } => {
                push_dec(*ip0 as u64, &mut out);
                out.append(".");
                push_dec(*ip1 as u64, &mut out);
                out.append(".");
                push_dec(*ip2 as u64, &mut out);
                out.append(".");
                push_dec(*ip3 as u64, &mut out);
                out.append(":");
                push_dec(*port as u64, &mut out);
            },
            SocketAddrCli::V6 { g0, g1, g2, g3, g4, g5, g6, g7, scope, port } => {
                out.append("[");
                push_hex(*g0 as u64, &mut out);
                out.append(":");
                push_hex(*g1 as u64, &mut out);
                out.append(":");
                push_hex(*g2 as u64, &mut out);
                out.append(":");
                push_hex(*g3 as u64, &mut out);
                out.append(":");
                push_hex(*g4 as u64, &mut out);
                out.append(":");
                push_hex(*g5 as u64, &mut out);
                out.append(":");
                push_hex(*g6 as u64, &mut out);
                out.append(":");
                push_hex(*g7 as u64, &mut out);
                if *scope != 0 {
                    out.append("%");
                    push_dec(*scope as u64, &mut out);
                }
                out.append("]:");
                push_dec(*port as u64, &mut out);
            },
        }
        proof {
            assert(out@ =~= spec_addr_string(*self));
        }
        out
    }
}

} // verus!
