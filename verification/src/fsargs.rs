//! Shared-filesystem device arguments: a tag and a root path, with an
//! optional trailing option list.

use vstd::prelude::*;
use crate::error::ParseError;
use crate::error::ParseErrorV;
use crate::strutil::spec_split;
use crate::strutil::split_str;

verus! {

/// A `tag,path` filesystem argument.
#[derive(Debug, Clone, PartialEq, Eq)]
pub struct FsArgs {
    pub tag: String,
    pub path: String,
}

/// A `tag,path[,options...]` filesystem argument; the extra options are
/// joined with `;`.
#[derive(Debug, Clone, PartialEq, Eq)]
pub struct FsArgsWithOptions {
    /// The file system tag.
    pub tag: String,
    /// The root path.
    pub path: String,
    /// The extra options, joined with ';'.
    pub options: String,
}

/// A `tag,path` pair: exactly two comma segments.
pub open spec fn spec_parse_fs_args(s: Seq<char>) -> Result<(Seq<char>, Seq<char>), ParseErrorV> {
    let toks = spec_split(s, ',');
    if toks.len() == 2 {
        Ok((toks[0], toks[1]))
    } else {
        Err(ParseErrorV::EmptyOrMissingSegment(s))
    }
}

impl FsArgs {
    /// Parse a `tag,path` argument.
    pub fn from_str(s: &str) -> (r: Result<FsArgs, ParseError>)
        ensures
            match r {
                Ok(a) => spec_parse_fs_args(s@) == Ok::<_, ParseErrorV>((a.tag@, a.path@)),
                Err(e) => spec_parse_fs_args(s@) == Err::<(Seq<char>, Seq<char>), _>(e@),
            },
    {
        let toks = split_str(s, ',');
        let ghost tv = spec_split(s@, ',');
        if toks.len() != 2 {
            return Err(ParseError::EmptyOrMissingSegment(s.to_owned()));
        }
        proof {
            assert(tv[0] == toks@[0int]@);
            assert(tv[1] == toks@[1int]@);
        }
        Ok(FsArgs { tag: toks[0].clone(), path: toks[1].clone() })
    }
}

/// The segments after the second, joined: empty for none.
pub open spec fn spec_join_semi(toks: Seq<Seq<char>>) -> Seq<char>
    decreases toks.len(),
{
    if toks.len() == 0 {
        Seq::empty()
    } else {
        toks[0] + spec_join_tail(toks.drop_first())
    }
}

/// The tail of a `;`-joined list: each further segment after a `;`.
pub open spec fn spec_join_tail(toks: Seq<Seq<char>>) -> Seq<char>
    decreases toks.len(),
{
    if toks.len() == 0 {
        Seq::empty()
    } else {
        ";"@ + toks[0] + spec_join_tail(toks.drop_first())
    }
}

/// A `tag,path[,options...]` argument: at least two comma segments, the
/// rest joined with `;`.
pub open spec fn spec_parse_fs_args_with_options(s: Seq<char>) -> Result<
    (Seq<char>, Seq<char>, Seq<char>),
    ParseErrorV,
> {
    let toks = spec_split(s, ',');
    if toks.len() >= 2 {
        Ok((toks[0], toks[1], spec_join_semi(toks.subrange(2, toks.len() as int))))
    } else {
        Err(ParseErrorV::EmptyOrMissingSegment(s))
    }
}

impl FsArgsWithOptions {
    /// Parse a `tag,path[,options...]` argument.
    pub fn from_str(s: &str) -> (r: Result<FsArgsWithOptions, ParseError>)
        ensures
            match r {
                Ok(a) => spec_parse_fs_args_with_options(s@) == Ok::<_, ParseErrorV>(
                    (a.tag@, a.path@, a.options@),
                ),
                Err(e) => spec_parse_fs_args_with_options(s@) == Err::<
                    (Seq<char>, Seq<char>, Seq<char>),
                    _,
                >(e@),
            },
    {
        let toks = split_str(s, ',');
        let ghost tv = spec_split(s@, ',');
        let n = toks.len();
        if n < 2 {
            return Err(ParseError::EmptyOrMissingSegment(s.to_owned()));
        }
        proof {
            assert(tv[0] == toks@[0int]@);
            assert(tv[1] == toks@[1int]@);
        }
        let ghost opts = tv.subrange(2, n as int);
        let mut options = String::new();
        let mut i: usize = 2;
        if i < n {
            proof {
                assert(tv[2] == toks@[2int]@);
            }
            options.append(toks[2].as_str());
            i = 3;
        }
        proof {
            if n == 2 {
                assert(opts =~= Seq::<Seq<char>>::empty());
                assert(options@ =~= spec_join_semi(opts));
            } else {
                assert(opts[0] == tv[2]);
                assert(opts.drop_first() =~= tv.subrange(3, n as int));
            }
        }
        while i < n
            invariant
                3 <= i <= n || (i == 2 && n == 2),
                n == toks.len(),
                toks.deep_view() == tv,
                tv.len() == n,
                opts == tv.subrange(2, n as int),
                spec_join_semi(opts) == options@ + spec_join_tail(tv.subrange(i as int, n as int)),
            decreases n - i,
        {
            let ghost rem = tv.subrange(i as int, n as int);
            proof {
                assert(rem.drop_first() =~= tv.subrange(i + 1, n as int));
                assert(rem[0] == tv[i as int]);
                assert(tv[i as int] == toks@[i as int]@);
            }
            options.append(";");
            options.append(toks[i].as_str());
            i = i + 1;
        }
        proof {
            assert(tv.subrange(i as int, n as int) =~= Seq::<Seq<char>>::empty());
            assert(options@ =~= options@ + spec_join_tail(Seq::empty()));
        }
        Ok(FsArgsWithOptions { tag: toks[0].clone(), path: toks[1].clone(), options })
    }
}

} // verus!
