//! Serial-port bindings: the generic comma-separated `key[=value]` list,
//! and the binding forms dispatched on the first key, with `listen=tcp:`
//! taking a socket address.

use vstd::prelude::*;
use crate::error::ParseError;
use crate::error::ParseErrorV;
use crate::sockaddr::SocketAddrCli;
use crate::sockaddr::parse_socket_addr;
use crate::sockaddr::spec_parse_socket_addr;
use crate::strutil::spec_find;
use crate::strutil::spec_split;
use crate::strutil::spec_starts_with;
use crate::strutil::split_once_char;
use crate::strutil::split_str;
use crate::strutil::str_eq_str;
use crate::strutil::str_starts_with;

verus! {

/// One `key[=value]` token: the part before the first `=`, and the part
/// after it when there is one.
pub open spec fn spec_keyvalue(t: Seq<char>) -> (Seq<char>, Option<Seq<char>>) {
    match spec_find(t, '=') {
        None => (t, None),
        Some(i) => (t.subrange(0, i), Some(t.subrange(i + 1, t.len() as int))),
    }
}

/// The key/value pairs of a token list, in order; an empty key anywhere is
/// a hard error.  The list itself knows nothing of which keys are legal.
pub open spec fn spec_parse_kv_list(toks: Seq<Seq<char>>) -> Result<
    Seq<(Seq<char>, Option<Seq<char>>)>,
    ParseErrorV,
>
    decreases toks.len(),
{
    if toks.len() == 0 {
        Ok(Seq::empty())
    } else {
        let kv = spec_keyvalue(toks[0]);
        if kv.0.len() == 0 {
            Err(ParseErrorV::EmptyOrMissingSegment(toks[0]))
        } else {
            match spec_parse_kv_list(toks.drop_first()) {
                Ok(rest) => Ok(seq![kv] + rest),
                Err(e) => Err(e),
            }
        }
    }
}

/// A whole comma-separated `key[=value]` list.
pub open spec fn spec_parse_keyvalues(s: Seq<char>) -> Result<
    Seq<(Seq<char>, Option<Seq<char>>)>,
    ParseErrorV,
> {
    spec_parse_kv_list(spec_split(s, ','))
}

/// Split a comma-separated list of `key[=value]` options into ordered
/// key/value pairs.
pub fn parse_keyvalues(s: &str) -> (r: Result<Vec<(String, Option<String>)>, ParseError>)
    ensures
        match r {
            Ok(kvs) => spec_parse_keyvalues(s@) == Ok::<_, ParseErrorV>(kvs.deep_view())
                && kvs.len() >= 1,
            Err(e) => spec_parse_keyvalues(s@) == Err::<Seq<(Seq<char>, Option<Seq<char>>)>, _>(
                e@,
            ),
        },
{
    let toks = split_str(s, ',');
    let ghost tv = spec_split(s@, ',');
    let mut r: Vec<(String, Option<String>)> = Vec::new();
    let n = toks.len();
    let mut i: usize = 0;
    proof {
        assert(tv.subrange(0, n as int) =~= tv);
        assert(r.deep_view() =~= Seq::<(Seq<char>, Option<Seq<char>>)>::empty());
        if let Ok(rest) = spec_parse_kv_list(tv) {
            assert(Seq::<(Seq<char>, Option<Seq<char>>)>::empty() + rest =~= rest);
        }
    }
    while i < n
        invariant
            0 <= i <= n,
            n == toks.len(),
            toks.deep_view() == tv,
            tv == spec_split(s@, ','),
            tv.len() == n,
            r.len() == i,
            spec_parse_kv_list(tv) == match spec_parse_kv_list(tv.subrange(i as int, n as int)) {
                Ok(rest) => Ok::<_, ParseErrorV>(r.deep_view() + rest),
                Err(e) => Err(e),
            },
        decreases n - i,
    {
        let ghost rem = tv.subrange(i as int, n as int);
        let ghost prev = r.deep_view();
        proof {
            assert(rem.drop_first() =~= tv.subrange(i + 1, n as int));
            assert(rem[0] == tv[i as int]);
            assert(tv[i as int] == toks@[i as int]@);
        }
        match split_once_char(toks[i].as_str(), '=') {
            None => {
                if toks[i].as_str().unicode_len() == 0 {
                    return Err(ParseError::EmptyOrMissingSegment(toks[i].as_str().to_owned()));
                }
                r.push((toks[i].as_str().to_owned(), None));
                proof {
                    assert(r.deep_view() =~= prev.push(spec_keyvalue(rem[0])));
                }
            },
            Some((k, v)) => {
                if k.unicode_len() == 0 {
                    return Err(ParseError::EmptyOrMissingSegment(toks[i].as_str().to_owned()));
                }
                r.push((k.to_owned(), Some(v.to_owned())));
                proof {
                    assert(r.deep_view() =~= prev.push(spec_keyvalue(rem[0])));
                }
            },
        }
        proof {
            assert(prev + (seq![spec_keyvalue(rem[0])] + spec_parse_kv_list(
                rem.drop_first(),
            )->Ok_0) =~= r.deep_view() + spec_parse_kv_list(rem.drop_first())->Ok_0);
        }
        i = i + 1;
    }
    proof {
        assert(tv.subrange(i as int, n as int) =~= Seq::<Seq<char>>::empty());
        assert(r.deep_view() + Seq::<(Seq<char>, Option<Seq<char>>)>::empty() =~= r.deep_view());
        assert(r.len() >= 1) by {
            crate::strutil::lemma_spec_split_nonempty(s@, ',');
        }
    }
    Ok(r)
}

/// One serial-port binding form.
#[derive(Debug, PartialEq, Eq)]
pub enum SerialConfigCli {
    /// `none`: no binding.
    Disabled,
    /// `console`: bind to the current console.
    Console,
    /// `term[=<program>][,name=<title>]`: spawn a console window.
    NewConsole(Option<String>, Option<String>),
    /// `stderr`: bind to standard error.
    Stderr,
    /// `listen=<path>`: listen on a named pipe or Unix socket.
    Pipe(String),
    /// `listen=tcp:<ip>:<port>`: listen on a TCP socket.
    Tcp(SocketAddrCli),
    /// `file=<path>`: append to a file, overwriting it first.
    File(String),
}

/// The mathematical shadow of [`SerialConfigCli`].
pub enum SerialConfigView {
    Disabled,
    Console,
    NewConsole(Option<Seq<char>>, Option<Seq<char>>),
    Stderr,
    Pipe(Seq<char>),
    Tcp(SocketAddrCli),
    File(Seq<char>),
}

impl View for SerialConfigCli {
    type V = SerialConfigView;

    open spec fn view(&self) -> SerialConfigView {
        match self {
            SerialConfigCli::Disabled => SerialConfigView::Disabled,
            SerialConfigCli::Console => SerialConfigView::Console,
            SerialConfigCli::NewConsole(p, t) => SerialConfigView::NewConsole(
                match p {
                    Some(pp) => Some(pp@),
                    None => None,
                },
                match t {
                    Some(tt) => Some(tt@),
                    None => None,
                },
            ),
            SerialConfigCli::Stderr => SerialConfigView::Stderr,
            SerialConfigCli::Pipe(p) => SerialConfigView::Pipe(p@),
            SerialConfigCli::Tcp(a) => SerialConfigView::Tcp(*a),
            SerialConfigCli::File(p) => SerialConfigView::File(p@),
        }
    }
}

impl DeepView for SerialConfigCli {
    type V = SerialConfigView;

    open spec fn deep_view(&self) -> SerialConfigView {
        self.view()
    }
}

/// The value of the first pair in the entire list whose key is literally
/// `name` and that has a present value; a valueless `name` pair is passed
/// over.
pub open spec fn spec_window_name(kvs: Seq<(Seq<char>, Option<Seq<char>>)>) -> Option<Seq<char>>
    decreases kvs.len(),
{
    if kvs.len() == 0 {
        None
    } else if kvs[0].0 == "name"@ && kvs[0].1 is Some {
        kvs[0].1
    } else {
        spec_window_name(kvs.drop_first())
    }
}

/// The serial-binding grammar over an already-parsed key/value list,
/// dispatching on the first key.
pub open spec fn spec_serial_of_kvs(s: Seq<char>, kvs: Seq<(Seq<char>, Option<Seq<char>>)>) -> Result<
    SerialConfigView,
    ParseErrorV,
> {
    if kvs.len() == 0 {
        Err(ParseErrorV::UnknownSerialOption(s))
    } else {
        let key = kvs[0].0;
        let val = kvs[0].1;
        if key == "none"@ {
            Ok(SerialConfigView::Disabled)
        } else if key == "console"@ {
            Ok(SerialConfigView::Console)
        } else if key == "stderr"@ {
            Ok(SerialConfigView::Stderr)
        } else if key == "file"@ {
            match val {
                Some(p) => Ok(SerialConfigView::File(p)),
                None => Err(ParseErrorV::MissingRequiredValue(key)),
            }
        } else if key == "term"@ {
            match val {
                Some(p) => Ok(SerialConfigView::NewConsole(Some(p), spec_window_name(kvs))),
                None => Ok(SerialConfigView::NewConsole(None, spec_window_name(kvs))),
            }
        } else if key == "listen"@ {
            match val {
                None => Err(ParseErrorV::MissingRequiredValue(key)),
                Some(v) => if spec_starts_with(v, "tcp:"@) {
                    let addr = v.subrange("tcp:"@.len() as int, v.len() as int);
                    match spec_parse_socket_addr(addr) {
                        Some(a) => Ok(SerialConfigView::Tcp(a)),
                        None => Err(ParseErrorV::InvalidSocketAddress(addr)),
                    }
                } else {
                    Ok(SerialConfigView::Pipe(v))
                },
            }
        } else {
            Err(ParseErrorV::UnknownSerialOption(key))
        }
    }
}

/// The serial-binding grammar: run the key/value list parser, then dispatch
/// on the first key.
pub open spec fn spec_parse_serial(s: Seq<char>) -> Result<SerialConfigView, ParseErrorV> {
    match spec_parse_keyvalues(s) {
        Err(e) => Err(e),
        Ok(kvs) => spec_serial_of_kvs(s, kvs),
    }
}

/// The value of the first `name` pair that has one.
fn window_name(kvs: &Vec<(String, Option<String>)>) -> (r: Option<String>)
    ensures
        r.deep_view() == spec_window_name(kvs.deep_view()),
{
    let ghost kv = kvs.deep_view();
    let n = kvs.len();
    let mut i: usize = 0;
    proof {
        assert(kv.subrange(0, n as int) =~= kv);
    }
    while i < n
        invariant
            0 <= i <= n,
            n == kvs.len(),
            kv == kvs.deep_view(),
            kv.len() == n,
            spec_window_name(kv) == spec_window_name(kv.subrange(i as int, n as int)),
        decreases n - i,
    {
        let ghost rem = kv.subrange(i as int, n as int);
        proof {
            assert(rem.drop_first() =~= kv.subrange(i + 1, n as int));
            assert(rem[0] == kv[i as int]);
            assert(kv[i as int] == kvs@[i as int].deep_view());
        }
        if str_eq_str(kvs[i].0.as_str(), "name") {
            if let Some(v) = &kvs[i].1 {
                return Some(v.clone());
            }
        }
        i = i + 1;
    }
    proof {
        assert(kv.subrange(i as int, n as int) =~= Seq::<(Seq<char>, Option<Seq<char>>)>::empty());
    }
    None
}

impl SerialConfigCli {
    /// Parse one serial-port binding.
    pub fn from_str(s: &str) -> (r: Result<SerialConfigCli, ParseError>)
        ensures
            match r {
                Ok(c) => spec_parse_serial(s@) == Ok::<_, ParseErrorV>(c@),
                Err(e) => spec_parse_serial(s@) == Err::<SerialConfigView, _>(e@),
            },
    {
        let kvs = match parse_keyvalues(s) {
            Ok(kvs) => kvs,
            Err(e) => {
                return Err(e);
            },
        };
        let ghost kv = kvs.deep_view();
        proof {
            assert(kv[0] == kvs@[0int].deep_view());
        }
        let key = kvs[0].0.as_str();
        if str_eq_str(key, "none") {
            Ok(SerialConfigCli::Disabled)
        } else if str_eq_str(key, "console") {
            Ok(SerialConfigCli::Console)
        } else if str_eq_str(key, "stderr") {
            Ok(SerialConfigCli::Stderr)
        } else if str_eq_str(key, "file") {
            match &kvs[0].1 {
                Some(p) => Ok(SerialConfigCli::File(p.clone())),
                None => Err(ParseError::MissingRequiredValue(key.to_owned())),
            }
        } else if str_eq_str(key, "term") {
            let title = window_name(&kvs);
            match &kvs[0].1 {
                Some(p) => Ok(SerialConfigCli::NewConsole(Some(p.clone()), title)),
                None => Ok(SerialConfigCli::NewConsole(None, title)),
            }
        } else if str_eq_str(key, "listen") {
            match &kvs[0].1 {
                None => Err(ParseError::MissingRequiredValue(key.to_owned())),
                Some(v) => {
                    if str_starts_with(v.as_str(), "tcp:") {
                        let plen = "tcp:".unicode_len();
                        let addr = v.as_str().substring_char(plen, v.as_str().unicode_len());
                        proof {
                            assert(addr@ == v@.subrange("tcp:"@.len() as int, v@.len() as int));
                        }
                        match parse_socket_addr(addr) {
                            Some(a) => Ok(SerialConfigCli::Tcp(a)),
                            None => Err(ParseError::InvalidSocketAddress(addr.to_owned())),
                        }
                    } else {
                        Ok(SerialConfigCli::Pipe(v.clone()))
                    }
                },
            }
        } else {
            Err(ParseError::UnknownSerialOption(key.to_owned()))
        }
    }
}

/// A debugcon binding: a 16-bit port, a comma, and a serial binding.
#[derive(Debug, PartialEq, Eq)]
pub struct DebugconSerialConfigCli {
    pub port: u16,
    pub serial: SerialConfigCli,
}

/// The mathematical shadow of [`DebugconSerialConfigCli`].
pub struct DebugconSerialConfigView {
    pub port: u16,
    pub serial: SerialConfigView,
}

impl View for DebugconSerialConfigCli {
    type V = DebugconSerialConfigView;

    open spec fn view(&self) -> DebugconSerialConfigView {
        DebugconSerialConfigView { port: self.port, serial: self.serial@ }
    }
}

/// The debugcon grammar: a numeric port below 2^16, then the serial
/// grammar after the first comma.
pub open spec fn spec_parse_debugcon(s: Seq<char>) -> Result<DebugconSerialConfigView, ParseErrorV> {
    match spec_find(s, ',') {
        None => Err(ParseErrorV::EmptyOrMissingSegment(s)),
        Some(i) => {
            let port_str = s.subrange(0, i);
            let serial_str = s.subrange(i + 1, s.len() as int);
            match crate::numeric::spec_parse_number(port_str) {
                None => Err(ParseErrorV::MalformedNumber(port_str)),
                Some(p) => if p > 0xffff {
                    Err(ParseErrorV::MalformedNumber(port_str))
                } else {
                    match spec_parse_serial(serial_str) {
                        Ok(c) => Ok(DebugconSerialConfigView { port: p as u16, serial: c }),
                        Err(e) => Err(e),
                    }
                },
            }
        },
    }
}

impl DebugconSerialConfigCli {
    /// Parse a debugcon binding.
    pub fn from_str(s: &str) -> (r: Result<DebugconSerialConfigCli, ParseError>)
        ensures
            match r {
                Ok(c) => spec_parse_debugcon(s@) == Ok::<_, ParseErrorV>(c@),
                Err(e) => spec_parse_debugcon(s@) == Err::<DebugconSerialConfigView, _>(e@),
            },
    {
        match split_once_char(s, ',') {
            None => Err(ParseError::EmptyOrMissingSegment(s.to_owned())),
            Some((port_str, serial_str)) => {
                let p = match crate::numeric::parse_number(port_str) {
                    Ok(p) => p,
                    Err(e) => {
                        return Err(e);
                    },
                };
                if p > 0xffff {
                    return Err(ParseError::MalformedNumber(port_str.to_owned()));
                }
                match SerialConfigCli::from_str(serial_str) {
                    Ok(c) => Ok(DebugconSerialConfigCli { port: p as u16, serial: c }),
                    Err(e) => Err(e),
                }
            },
        }
    }
}

} // verus!
