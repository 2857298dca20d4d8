//! The recursive disk-backend grammar: one raw token describes how disk
//! bytes are materialized (memory, file, layered diff, encrypted, cached),
//! with backends composing by nesting after a `:`-delimited keyword.

use vstd::prelude::*;
use crate::error::ParseError;
use crate::error::ParseErrorV;
use crate::numeric::spec_parse_memory;
use crate::numeric::parse_memory;
use crate::strutil::spec_find;
use crate::strutil::spec_starts_with;
use crate::strutil::lemma_spec_find_characterization;
use crate::strutil::split_once_char;
use crate::strutil::str_eq_str;
use crate::strutil::str_starts_with;

verus! {

/// The capacity a VMGS store is created with when the size literal
/// `VMGS_DEFAULT` stands where a size is expected: 4 MiB.
pub const VMGS_DEFAULT_CAPACITY: u64 = 0x400000;

/// How the bytes behind a `blob:` disk are laid out.
#[derive(Debug, Clone, Copy, PartialEq, Eq, Structural)]
pub enum BlobKind {
    /// The blob holds the disk bytes one to one.
    Flat,
    /// The blob holds a fixed VHD1 image.
    Vhd1,
}

/// The cipher of a `crypt:` disk, from a closed set.
#[derive(Debug, Clone, Copy, PartialEq, Eq, Structural)]
pub enum DiskCipher {
    /// AES-256 in XTS mode.
    XtsAes256,
}

/// A composable disk-backend descriptor: the typed form of one `--disk`-style
/// token.  Children are exclusively owned; the tree is immutable once built.
#[derive(Debug, PartialEq, Eq)]
pub enum DiskCliKind {
    /// `mem:<len>`: memory-backed disk.
    Memory(u64),
    /// `memdiff:<disk>`: memory-backed diff over a lower disk.
    MemoryDiff(Box<DiskCliKind>),
    /// `sql:<path>[;create=<len>]`: sqlite-backed disk.
    Sqlite { path: String, create_with_len: Option<u64> },
    /// `sqldiff:<path>[;create]:<disk>`: sqlite-backed diff over a lower disk.
    SqliteDiff { path: String, create: bool, disk: Box<DiskCliKind> },
    /// `autocache:[key]:<disk>`: sqlite cache under an externally supplied
    /// cache root.
    AutoCacheSqlite { cache_path: String, key: Option<String>, disk: Box<DiskCliKind> },
    /// `prwrap:<disk>`: persistent-reservations emulation over a lower disk.
    PersistentReservationsWrapper(Box<DiskCliKind>),
    /// `file:<path>[;create=<len>]`, or a bare path: file-backed disk.
    File { path: String, create_with_len: Option<u64> },
    /// `blob:<kind>:<url>`: read-only disk over a blob fetched from a URL.
    Blob { kind: BlobKind, url: String },
    /// `crypt:<cipher>:<key_file>:<disk>`: encryption over a lower disk.
    Crypt { cipher: DiskCipher, key_file: String, disk: Box<DiskCliKind> },
    /// A delay wrapper over a lower disk.  Reserved: no grammar arm
    /// produces it today.
    DelayDiskWrapper { delay_ms: u64, disk: Box<DiskCliKind> },
}

/// The mathematical shadow of [`DiskCliKind`]: the same tree over `Seq<char>`.
pub enum DiskKindView {
    Memory(u64),
    MemoryDiff(Box<DiskKindView>),
    Sqlite { path: Seq<char>, create_with_len: Option<u64> },
    SqliteDiff { path: Seq<char>, create: bool, disk: Box<DiskKindView> },
    AutoCacheSqlite { cache_path: Seq<char>, key: Option<Seq<char>>, disk: Box<DiskKindView> },
    PersistentReservationsWrapper(Box<DiskKindView>),
    File { path: Seq<char>, create_with_len: Option<u64> },
    Blob { kind: BlobKind, url: Seq<char> },
    Crypt { cipher: DiskCipher, key_file: Seq<char>, disk: Box<DiskKindView> },
    DelayDiskWrapper { delay_ms: u64, disk: Box<DiskKindView> },
}

/// The view of a disk descriptor: each `String` replaced by its `Seq<char>`.
pub open spec fn spec_disk_view(d: DiskCliKind) -> DiskKindView
    decreases d,
{
    match d {
        DiskCliKind::Memory(n) => DiskKindView::Memory(n),
        DiskCliKind::MemoryDiff(b) => DiskKindView::MemoryDiff(Box::new(spec_disk_view(*b))),
        DiskCliKind::Sqlite { path, create_with_len } => DiskKindView::Sqlite {
            path: path@,
            create_with_len,
        },
        DiskCliKind::SqliteDiff { path, create, disk } => DiskKindView::SqliteDiff {
            path: path@,
            create,
            disk: Box::new(spec_disk_view(*disk)),
        },
        DiskCliKind::AutoCacheSqlite { cache_path, key, disk } => DiskKindView::AutoCacheSqlite {
            cache_path: cache_path@,
            key: match key {
                Some(k) => Some(k@),
                None => None,
            },
            disk: Box::new(spec_disk_view(*disk)),
        },
        DiskCliKind::PersistentReservationsWrapper(b) => DiskKindView::PersistentReservationsWrapper(
            Box::new(spec_disk_view(*b)),
        ),
        DiskCliKind::File { path, create_with_len } => DiskKindView::File {
            path: path@,
            create_with_len,
        },
        DiskCliKind::Blob { kind, url } => DiskKindView::Blob { kind, url: url@ },
        DiskCliKind::Crypt { cipher, key_file, disk } => DiskKindView::Crypt {
            cipher,
            key_file: key_file@,
            disk: Box::new(spec_disk_view(*disk)),
        },
        DiskCliKind::DelayDiskWrapper { delay_ms, disk } => DiskKindView::DelayDiskWrapper {
            delay_ms,
            disk: Box::new(spec_disk_view(*disk)),
        },
    }
}

impl View for DiskCliKind {
    type V = DiskKindView;

    open spec fn view(&self) -> DiskKindView {
        spec_disk_view(*self)
    }
}

impl DeepView for DiskCliKind {
    type V = DiskKindView;

    open spec fn deep_view(&self) -> DiskKindView {
        spec_disk_view(*self)
    }
}

/// The platform path-root test behind the bare-path convenience: a path is
/// rooted if it begins with `/` or `\`, or begins with a drive letter,
/// a colon, and a separator (the `d:\x` collision between a drive prefix
/// and a disk-kind keyword).
pub open spec fn spec_path_has_root(p: Seq<char>) -> bool {
    (p.len() > 0 && (p[0] == '/' || p[0] == '\\')) || (p.len() >= 3 && (('a' <= p[0] && p[0]
        <= 'z') || ('A' <= p[0] && p[0] <= 'Z')) && p[1] == ':' && (p[2] == '/' || p[2] == '\\'))
}

/// A path and the optional size after `;create=`: the common suffix shape of
/// `file:` and `sql:` disks and of bare paths.  After a `;` the suffix must
/// read `create=<len>`, where `<len>` is a memory size or the literal
/// `VMGS_DEFAULT`.
pub open spec fn spec_parse_path_len(s: Seq<char>) -> Result<(Seq<char>, Option<u64>), ParseErrorV> {
    match spec_find(s, ';') {
        None => Ok((s, None)),
        Some(i) => {
            let path = s.subrange(0, i);
            let rest = s.subrange(i + 1, s.len() as int);
            if !spec_starts_with(rest, "create="@) {
                Err(ParseErrorV::EmptyOrMissingSegment(rest))
            } else {
                let lenstr = rest.subrange("create="@.len() as int, rest.len() as int);
                if lenstr == "VMGS_DEFAULT"@ {
                    Ok((path, Some(VMGS_DEFAULT_CAPACITY)))
                } else {
                    match spec_parse_memory(lenstr) {
                        Some(n) => Ok((path, Some(n))),
                        None => Err(ParseErrorV::InvalidMemorySize(lenstr)),
                    }
                }
            }
        },
    }
}

/// Split a path-with-options token into the path and the optional length to
/// create the backing store with.
pub fn parse_path_and_len(s: &str) -> (r: Result<(String, Option<u64>), ParseError>)
    ensures
        match r {
            Ok(pl) => spec_parse_path_len(s@) == Ok::<_, ParseErrorV>((pl.0@, pl.1)),
            Err(e) => spec_parse_path_len(s@) == Err::<(Seq<char>, Option<u64>), _>(e@),
        },
{
    match split_once_char(s, ';') {
        None => Ok((s.to_owned(), None)),
        Some((path, rest)) => {
            if !str_starts_with(rest, "create=") {
                Err(ParseError::EmptyOrMissingSegment(rest.to_owned()))
            } else {
                let plen = "create=".unicode_len();
                let lenstr = rest.substring_char(plen, rest.unicode_len());
                proof {
                    assert(lenstr@ == rest@.subrange("create="@.len() as int, rest@.len() as int));
                }
                if str_eq_str(lenstr, "VMGS_DEFAULT") {
                    Ok((path.to_owned(), Some(VMGS_DEFAULT_CAPACITY)))
                } else {
                    match parse_memory(lenstr) {
                        Ok(n) => Ok((path.to_owned(), Some(n))),
                        Err(e) => Err(e),
                    }
                }
            }
        },
    }
}

/// A whole token without a disk-kind keyword, taken as a bare file path.
pub open spec fn spec_parse_bare_file(s: Seq<char>) -> Result<DiskKindView, ParseErrorV> {
    match spec_parse_path_len(s) {
        Ok(pl) => Ok(DiskKindView::File { path: pl.0, create_with_len: pl.1 }),
        Err(e) => Err(e),
    }
}

/// The disk-backend grammar.  The token is split once on `:`; without a
/// colon it is a bare file path, and otherwise the keyword before the colon
/// selects the backend, recursing on the remainder where the backend wraps a
/// lower disk.  An unrecognized keyword falls back to a bare file path when
/// that path is rooted (a drive-letter prefix), and is an error otherwise.
/// The `autocache:` arm demands the externally supplied cache root.
pub open spec fn spec_parse_disk(s: Seq<char>, cache_root: Option<Seq<char>>) -> Result<
    DiskKindView,
    ParseErrorV,
>
    decreases s.len(),
    via spec_parse_disk_decreases
{
    match spec_find(s, ':') {
        None => spec_parse_bare_file(s),
        Some(i) => {
            let kind = s.subrange(0, i);
            let arg = s.subrange(i + 1, s.len() as int);
            if kind == "mem"@ {
                match spec_parse_memory(arg) {
                    Some(n) => Ok(DiskKindView::Memory(n)),
                    None => Err(ParseErrorV::InvalidMemorySize(arg)),
                }
            } else if kind == "memdiff"@ {
                match spec_parse_disk(arg, cache_root) {
                    Ok(d) => Ok(DiskKindView::MemoryDiff(Box::new(d))),
                    Err(e) => Err(e),
                }
            } else if kind == "sql"@ {
                match spec_parse_path_len(arg) {
                    Ok(pl) => Ok(DiskKindView::Sqlite { path: pl.0, create_with_len: pl.1 }),
                    Err(e) => Err(e),
                }
            } else if kind == "sqldiff"@ {
                match spec_find(arg, ':') {
                    None => Err(ParseErrorV::EmptyOrMissingSegment(arg)),
                    Some(j) => {
                        let path_and_opts = arg.subrange(0, j);
                        let child = arg.subrange(j + 1, arg.len() as int);
                        match spec_parse_disk(child, cache_root) {
                            Err(e) => Err(e),
                            Ok(d) => match spec_find(path_and_opts, ';') {
                                None => Ok(DiskKindView::SqliteDiff {
                                    path: path_and_opts,
                                    create: false,
                                    disk: Box::new(d),
                                }),
                                Some(k) => {
                                    let path = path_and_opts.subrange(0, k);
                                    let opt = path_and_opts.subrange(
                                        k + 1,
                                        path_and_opts.len() as int,
                                    );
                                    if opt == "create"@ {
                                        Ok(DiskKindView::SqliteDiff {
                                            path,
                                            create: true,
                                            disk: Box::new(d),
                                        })
                                    } else {
                                        Err(ParseErrorV::EmptyOrMissingSegment(opt))
                                    }
                                },
                            },
                        }
                    },
                }
            } else if kind == "autocache"@ {
                match spec_find(arg, ':') {
                    None => Err(ParseErrorV::EmptyOrMissingSegment(arg)),
                    Some(j) => {
                        let key = arg.subrange(0, j);
                        let child = arg.subrange(j + 1, arg.len() as int);
                        match cache_root {
                            None => Err(ParseErrorV::MissingCacheRootConfiguration(s)),
                            Some(root) => match spec_parse_disk(child, cache_root) {
                                Ok(d) => Ok(DiskKindView::AutoCacheSqlite {
                                    cache_path: root,
                                    key: if key.len() == 0 {
                                        None
                                    } else {
                                        Some(key)
                                    },
                                    disk: Box::new(d),
                                }),
                                Err(e) => Err(e),
                            },
                        }
                    },
                }
            } else if kind == "prwrap"@ {
                match spec_parse_disk(arg, cache_root) {
                    Ok(d) => Ok(DiskKindView::PersistentReservationsWrapper(Box::new(d))),
                    Err(e) => Err(e),
                }
            } else if kind == "file"@ {
                match spec_parse_path_len(arg) {
                    Ok(pl) => Ok(DiskKindView::File { path: pl.0, create_with_len: pl.1 }),
                    Err(e) => Err(e),
                }
            } else if kind == "blob"@ {
                match spec_find(arg, ':') {
                    None => Err(ParseErrorV::EmptyOrMissingSegment(arg)),
                    Some(j) => {
                        let bk = arg.subrange(0, j);
                        let url = arg.subrange(j + 1, arg.len() as int);
                        if bk == "flat"@ {
                            Ok(DiskKindView::Blob { kind: BlobKind::Flat, url })
                        } else if bk == "vhd1"@ {
                            Ok(DiskKindView::Blob { kind: BlobKind::Vhd1, url })
                        } else {
                            Err(ParseErrorV::UnknownBlobKind(bk))
                        }
                    },
                }
            } else if kind == "crypt"@ {
                match spec_find(arg, ':') {
                    None => Err(ParseErrorV::EmptyOrMissingSegment(arg)),
                    Some(j) => {
                        let cipher = arg.subrange(0, j);
                        let rest2 = arg.subrange(j + 1, arg.len() as int);
                        match spec_find(rest2, ':') {
                            None => Err(ParseErrorV::EmptyOrMissingSegment(arg)),
                            Some(k) => {
                                let key_file = rest2.subrange(0, k);
                                let child = rest2.subrange(k + 1, rest2.len() as int);
                                if cipher == "xts-aes-256"@ {
                                    match spec_parse_disk(child, cache_root) {
                                        Ok(d) => Ok(DiskKindView::Crypt {
                                            cipher: DiskCipher::XtsAes256,
                                            key_file,
                                            disk: Box::new(d),
                                        }),
                                        Err(e) => Err(e),
                                    }
                                } else {
                                    Err(ParseErrorV::UnknownCipher(cipher))
                                }
                            },
                        }
                    },
                }
            } else {
                match spec_parse_path_len(s) {
                    Ok(pl) => if spec_path_has_root(pl.0) {
                        Ok(DiskKindView::File { path: pl.0, create_with_len: pl.1 })
                    } else {
                        Err(ParseErrorV::UnknownDiskKind(kind))
                    },
                    Err(e) => Err(e),
                }
            }
        },
    }
}

#[via_fn]
proof fn spec_parse_disk_decreases(s: Seq<char>, cache_root: Option<Seq<char>>) {
    lemma_spec_find_characterization(s, ':');
    if let Some(i) = spec_find(s, ':') {
        let arg = s.subrange(i + 1, s.len() as int);
        lemma_spec_find_characterization(arg, ':');
        if let Some(j) = spec_find(arg, ':') {
            let rest2 = arg.subrange(j + 1, arg.len() as int);
            lemma_spec_find_characterization(rest2, ':');
        }
    }
}

/// The grammar is a pure function of the input text and the cache root:
/// two strings with the same characters parse to the same tree, deeply —
/// equality of results is structural, never referential.  Two independent
/// calls of [`DiskCliKind::parse`] on equal strings therefore return
/// descriptors with equal views.
pub proof fn lemma_disk_parse_deterministic(
    s1: Seq<char>,
    s2: Seq<char>,
    cache_root: Option<Seq<char>>,
)
    requires
        s1 == s2,
    ensures
        spec_parse_disk(s1, cache_root) == spec_parse_disk(s2, cache_root),
{
}

/// Rootedness test for the bare-path fallback.
fn path_has_root(p: &str) -> (r: bool)
    ensures
        r == spec_path_has_root(p@),
{
    let n = p.unicode_len();
    if n > 0 {
        let c0 = p.get_char(0);
        if c0 == '/' || c0 == '\\' {
            return true;
        }
        if n >= 3 && (('a' <= c0 && c0 <= 'z') || ('A' <= c0 && c0 <= 'Z')) {
            let c1 = p.get_char(1);
            let c2 = p.get_char(2);
            return c1 == ':' && (c2 == '/' || c2 == '\\');
        }
    }
    false
}

/// Bare-path arm shared by the no-colon case and the unknown-keyword
/// fallback.
fn parse_bare_file(s: &str) -> (r: Result<DiskCliKind, ParseError>)
    ensures
        match r {
            Ok(d) => spec_parse_bare_file(s@) == Ok::<_, ParseErrorV>(d@),
            Err(e) => spec_parse_bare_file(s@) == Err::<DiskKindView, _>(e@),
        },
{
    match parse_path_and_len(s) {
        Ok((path, create_with_len)) => Ok(DiskCliKind::File { path, create_with_len }),
        Err(e) => Err(e),
    }
}

impl DiskCliKind {
    /// Parse a disk-backend token.  The `autocache:` arm consumes the cache
    /// root given here; with `None` supplied it fails with
    /// `MissingCacheRootConfiguration`, as when the environment does not
    /// provide one.
    pub fn parse(s: &str, cache_root: Option<&str>) -> (r: Result<DiskCliKind, ParseError>)
        ensures
            match r {
                Ok(d) => spec_parse_disk(s@, cache_root.deep_view()) == Ok::<_, ParseErrorV>(d@),
                Err(e) => spec_parse_disk(s@, cache_root.deep_view()) == Err::<DiskKindView, _>(e@),
            },
        decreases s@.len(),
    {
        let ghost cr = cache_root.deep_view();
        match split_once_char(s, ':') {
            None => parse_bare_file(s),
            Some((kind, arg)) => {
                proof {
                    lemma_spec_find_characterization(s@, ':');
                }
                if str_eq_str(kind, "mem") {
                    match parse_memory(arg) {
                        Ok(n) => Ok(DiskCliKind::Memory(n)),
                        Err(e) => Err(e),
                    }
                } else if str_eq_str(kind, "memdiff") {
                    match Self::parse(arg, cache_root) {
                        Ok(d) => Ok(DiskCliKind::MemoryDiff(Box::new(d))),
                        Err(e) => Err(e),
                    }
                } else if str_eq_str(kind, "sql") {
                    match parse_path_and_len(arg) {
                        Ok((path, create_with_len)) => Ok(DiskCliKind::Sqlite {
                            path,
                            create_with_len,
                        }),
                        Err(e) => Err(e),
                    }
                } else if str_eq_str(kind, "sqldiff") {
                    match split_once_char(arg, ':') {
                        None => Err(ParseError::EmptyOrMissingSegment(arg.to_owned())),
                        Some((path_and_opts, child)) => {
                            proof {
                                lemma_spec_find_characterization(arg@, ':');
                            }
                            match Self::parse(child, cache_root) {
                                Err(e) => Err(e),
                                Ok(d) => match split_once_char(path_and_opts, ';') {
                                    None => Ok(DiskCliKind::SqliteDiff {
                                        path: path_and_opts.to_owned(),
                                        create: false,
                                        disk: Box::new(d),
                                    }),
                                    Some((path, opt)) => {
                                        proof {
                                            lemma_spec_find_characterization(path_and_opts@, ';');
                                        }
                                        if str_eq_str(opt, "create") {
                                            Ok(DiskCliKind::SqliteDiff {
                                                path: path.to_owned(),
                                                create: true,
                                                disk: Box::new(d),
                                            })
                                        } else {
                                            Err(ParseError::EmptyOrMissingSegment(opt.to_owned()))
                                        }
                                    },
                                },
                            }
                        },
                    }
                } else if str_eq_str(kind, "autocache") {
                    match split_once_char(arg, ':') {
                        None => Err(ParseError::EmptyOrMissingSegment(arg.to_owned())),
                        Some((key, child)) => {
                            proof {
                                lemma_spec_find_characterization(arg@, ':');
                            }
                            match cache_root {
                                None => Err(ParseError::MissingCacheRootConfiguration(
                                    s.to_owned(),
                                )),
                                Some(root) => match Self::parse(child, cache_root) {
                                    Ok(d) => Ok(DiskCliKind::AutoCacheSqlite {
                                        cache_path: root.to_owned(),
                                        key: if key.unicode_len() == 0 {
                                            None
                                        } else {
                                            Some(key.to_owned())
                                        },
                                        disk: Box::new(d),
                                    }),
                                    Err(e) => Err(e),
                                },
                            }
                        },
                    }
                } else if str_eq_str(kind, "prwrap") {
                    match Self::parse(arg, cache_root) {
                        Ok(d) => Ok(DiskCliKind::PersistentReservationsWrapper(Box::new(d))),
                        Err(e) => Err(e),
                    }
                } else if str_eq_str(kind, "file") {
                    match parse_path_and_len(arg) {
                        Ok((path, create_with_len)) => Ok(DiskCliKind::File {
                            path,
                            create_with_len,
                        }),
                        Err(e) => Err(e),
                    }
                } else if str_eq_str(kind, "blob") {
                    match split_once_char(arg, ':') {
                        None => Err(ParseError::EmptyOrMissingSegment(arg.to_owned())),
                        Some((bk, url)) => {
                            if str_eq_str(bk, "flat") {
                                Ok(DiskCliKind::Blob { kind: BlobKind::Flat, url: url.to_owned() })
                            } else if str_eq_str(bk, "vhd1") {
                                Ok(DiskCliKind::Blob { kind: BlobKind::Vhd1, url: url.to_owned() })
                            } else {
                                Err(ParseError::UnknownBlobKind(bk.to_owned()))
                            }
                        },
                    }
                } else if str_eq_str(kind, "crypt") {
                    match split_once_char(arg, ':') {
                        None => Err(ParseError::EmptyOrMissingSegment(arg.to_owned())),
                        Some((cipher, rest2)) => {
                            proof {
                                lemma_spec_find_characterization(arg@, ':');
                            }
                            match split_once_char(rest2, ':') {
                                None => Err(ParseError::EmptyOrMissingSegment(arg.to_owned())),
                                Some((key_file, child)) => {
                                    proof {
                                        lemma_spec_find_characterization(rest2@, ':');
                                    }
                                    if str_eq_str(cipher, "xts-aes-256") {
                                        match Self::parse(child, cache_root) {
                                            Ok(d) => Ok(DiskCliKind::Crypt {
                                                cipher: DiskCipher::XtsAes256,
                                                key_file: key_file.to_owned(),
                                                disk: Box::new(d),
                                            }),
                                            Err(e) => Err(e),
                                        }
                                    } else {
                                        Err(ParseError::UnknownCipher(cipher.to_owned()))
                                    }
                                },
                            }
                        },
                    }
                } else {
                    match parse_path_and_len(s) {
                        Ok((path, create_with_len)) => {
                            if path_has_root(path.as_str()) {
                                Ok(DiskCliKind::File { path, create_with_len })
                            } else {
                                Err(ParseError::UnknownDiskKind(kind.to_owned()))
                            }
                        },
                        Err(e) => Err(e),
                    }
                }
            },
        }
    }

    /// Parse a disk-backend token with no cache root supplied: exactly
    /// [`DiskCliKind::parse`] with `None`, the behaviour when the environment
    /// names no cache directory.
    pub fn from_str(s: &str) -> (r: Result<DiskCliKind, ParseError>)
        ensures
            match r {
                Ok(d) => spec_parse_disk(s@, None) == Ok::<_, ParseErrorV>(d@),
                Err(e) => spec_parse_disk(s@, None) == Err::<DiskKindView, _>(e@),
            },
    {
        Self::parse(s, None)
    }
}

} // verus!
