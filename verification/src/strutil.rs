//! Character-level string utilities shared by all the grammars: finding a
//! separator, splitting on one, prefix tests and whole-string comparison,
//! each tied to a spec-level characterization over `Seq<char>`.

use vstd::prelude::*;

verus! {

/// Index of the first occurrence of `c` in `s`, if any.
pub open spec fn spec_find(s: Seq<char>, c: char) -> Option<int>
    decreases s.len(),
{
    if s.len() == 0 {
        None
    } else if s[0] == c {
        Some(0)
    } else {
        match spec_find(s.subrange(1, s.len() as int), c) {
            Some(i) => Some(i + 1),
            None => None,
        }
    }
}

/// `spec_find` returns the first occurrence: the found index holds `c` and
/// nothing before it does; `None` means `c` does not occur at all.
pub proof fn lemma_spec_find_characterization(s: Seq<char>, c: char)
    ensures
        match spec_find(s, c) {
            Some(i) => 0 <= i < s.len() && s[i] == c && forall|j: int| 0 <= j < i ==> s[j] != c,
            None => forall|j: int| 0 <= j < s.len() ==> s[j] != c,
        },
    decreases s.len(),
{
    if s.len() == 0 {
    } else if s[0] == c {
    } else {
        let t = s.subrange(1, s.len() as int);
        lemma_spec_find_characterization(t, c);
        assert forall|j: int| 1 <= j < s.len() implies s[j] == t[j - 1] by {}
    }
}

/// If `c` stands at `i` and nowhere before, then `i` is what `spec_find` returns.
pub proof fn lemma_spec_find_is(s: Seq<char>, c: char, i: int)
    requires
        0 <= i < s.len(),
        s[i] == c,
        forall|j: int| 0 <= j < i ==> s[j] != c,
    ensures
        spec_find(s, c) == Some(i),
    decreases s.len(),
{
    if i == 0 {
    } else {
        let t = s.subrange(1, s.len() as int);
        assert forall|j: int| 0 <= j < i - 1 implies t[j] != c by {
            assert(t[j] == s[j + 1]);
        }
        lemma_spec_find_is(t, c, i - 1);
    }
}

/// If `c` occurs nowhere in `s`, `spec_find` returns `None`.
pub proof fn lemma_spec_find_none(s: Seq<char>, c: char)
    requires
        forall|j: int| 0 <= j < s.len() ==> s[j] != c,
    ensures
        spec_find(s, c) is None,
{
    lemma_spec_find_characterization(s, c);
}

/// First index of `c` in `s`, scanning left to right.
pub fn find_char(s: &str, c: char) -> (r: Option<usize>)
    ensures
        match r {
            Some(i) => spec_find(s@, c) == Some(i as int),
            None => spec_find(s@, c) is None,
        },
{
    let n = s.unicode_len();
    let mut i: usize = 0;
    while i < n
        invariant
            0 <= i <= n,
            n == s@.len(),
            forall|j: int| 0 <= j < i ==> s@[j] != c,
        decreases n - i,
    {
        if s.get_char(i) == c {
            proof {
                lemma_spec_find_is(s@, c, i as int);
            }
            return Some(i);
        }
        i = i + 1;
    }
    proof {
        lemma_spec_find_none(s@, c);
    }
    None
}

/// Whole-string equality, stated over the views.
pub fn str_eq_str(a: &str, b: &str) -> (r: bool)
    ensures
        r == (a@ == b@),
{
    let n = a.unicode_len();
    if n != b.unicode_len() {
        return false;
    }
    let mut i: usize = 0;
    while i < n
        invariant
            0 <= i <= n,
            n == a@.len(),
            n == b@.len(),
            forall|j: int| 0 <= j < i ==> a@[j] == b@[j],
        decreases n - i,
    {
        if a.get_char(i) != b.get_char(i) {
            proof {
                if a@ == b@ {
                    assert(a@[i as int] == b@[i as int]);
                }
            }
            return false;
        }
        i = i + 1;
    }
    proof {
        assert(a@ =~= b@);
    }
    true
}

/// `p` is a prefix of `s`.
pub open spec fn spec_starts_with(s: Seq<char>, p: Seq<char>) -> bool {
    p.len() <= s.len() && s.subrange(0, p.len() as int) == p
}

/// Prefix test, stated over the views.
pub fn str_starts_with(s: &str, p: &str) -> (r: bool)
    ensures
        r == spec_starts_with(s@, p@),
{
    let plen = p.unicode_len();
    if plen > s.unicode_len() {
        return false;
    }
    let head = s.substring_char(0, plen);
    str_eq_str(head, p)
}

/// The segments of `s` between occurrences of `sep`.  Splitting never yields
/// an empty list: a string without the separator is one segment, itself.
pub open spec fn spec_split(s: Seq<char>, sep: char) -> Seq<Seq<char>>
    decreases s.len(),
    via spec_split_decreases
{
    match spec_find(s, sep) {
        None => seq![s],
        Some(i) => seq![s.subrange(0, i)] + spec_split(s.subrange(i + 1, s.len() as int), sep),
    }
}

#[via_fn]
proof fn spec_split_decreases(s: Seq<char>, sep: char) {
    lemma_spec_find_characterization(s, sep);
}

pub proof fn lemma_spec_split_nonempty(s: Seq<char>, sep: char)
    ensures
        spec_split(s, sep).len() >= 1,
{
}

/// Split into all the separated segments.
pub fn split_str(s: &str, sep: char) -> (r: Vec<String>)
    ensures
        r.deep_view() == spec_split(s@, sep),
        r.len() >= 1,
{
    let mut r: Vec<String> = Vec::new();
    let mut rest: &str = s;
    loop
        invariant_except_break
            spec_split(s@, sep) == r.deep_view() + spec_split(rest@, sep),
        ensures
            spec_split(s@, sep) == r.deep_view(),
        decreases rest@.len(),
    {
        let ghost prev = r.deep_view();
        match find_char(rest, sep) {
            Some(i) => {
                proof {
                    lemma_spec_find_characterization(rest@, sep);
                }
                let n = rest.unicode_len();
                let piece = rest.substring_char(0, i);
                r.push(piece.to_owned());
                proof {
                    assert(r.deep_view() =~= prev.push(piece@));
                    assert(r.deep_view() + spec_split(rest@.subrange(i + 1, rest@.len() as int), sep)
                        =~= prev + spec_split(rest@, sep));
                }
                rest = rest.substring_char(i + 1, n);
            },
            None => {
                r.push(rest.to_owned());
                proof {
                    assert(r.deep_view() =~= prev.push(rest@));
                    assert(r.deep_view() =~= prev + spec_split(rest@, sep));
                }
                break;
            },
        }
    }
    proof {
        lemma_spec_split_nonempty(s@, sep);
        assert(r.deep_view().len() == r.len());
    }
    r
}

/// Split at the first occurrence of `sep`, if there is one: the part before
/// it and the part after it, the separator itself in neither.
pub fn split_once_char<'a>(s: &'a str, sep: char) -> (r: Option<(&'a str, &'a str)>)
    ensures
        match r {
            Some((a, b)) => spec_find(s@, sep) matches Some(i) && a@ == s@.subrange(0, i) && b@
                == s@.subrange(i + 1, s@.len() as int),
            None => spec_find(s@, sep) is None,
        },
{
    match find_char(s, sep) {
        Some(i) => {
            proof {
                lemma_spec_find_characterization(s@, sep);
            }
            let n = s.unicode_len();
            Some((s.substring_char(0, i), s.substring_char(i + 1, n)))
        },
        None => None,
    }
}

} // verus!
