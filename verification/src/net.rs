//! Network endpoints and NIC attachments: backend selection after an
//! optional run of `vtl2`/`uh`/`queues=` prefixes.

use vstd::prelude::*;
use crate::config::DeviceVtl;
use crate::error::ParseError;
use crate::error::ParseErrorV;
use crate::numeric::spec_parse_uint;
use crate::strutil::spec_find;
use crate::strutil::spec_split;
use crate::strutil::lemma_spec_find_characterization;
use crate::strutil::split_once_char;
use crate::strutil::split_str;
use crate::strutil::str_eq_str;

verus! {

/// A virtual NIC backend.
#[derive(Debug, PartialEq, Eq)]
pub enum EndpointConfigCli {
    /// `none`: a disconnected NIC.
    Disabled,
    /// `consomme[:<cidr>]`: user-mode NAT with an optional subnet.
    Consomme { cidr: Option<String> },
    /// `dio[:<id>]`: direct I/O over vmswitch, with an optional switch id.
    Dio { id: Option<String> },
    /// `tap:<name>`: a tap device of exactly that name.
    Tap { name: String },
}

/// The mathematical shadow of [`EndpointConfigCli`].
pub enum EndpointConfigView {
    Disabled,
    Consomme { cidr: Option<Seq<char>> },
    Dio { id: Option<Seq<char>> },
    Tap { name: Seq<char> },
}

impl View for EndpointConfigCli {
    type V = EndpointConfigView;

    open spec fn view(&self) -> EndpointConfigView {
        match self {
            EndpointConfigCli::Disabled => EndpointConfigView::Disabled,
            EndpointConfigCli::Consomme { cidr } => EndpointConfigView::Consomme {
                cidr: match cidr {
                    Some(c) => Some(c@),
                    None => None,
                },
            },
            EndpointConfigCli::Dio { id } => EndpointConfigView::Dio {
                id: match id {
                    Some(c) => Some(c@),
                    None => None,
                },
            },
            EndpointConfigCli::Tap { name } => EndpointConfigView::Tap { name: name@ },
        }
    }
}

impl DeepView for EndpointConfigCli {
    type V = EndpointConfigView;

    open spec fn deep_view(&self) -> EndpointConfigView {
        self.view()
    }
}

/// The endpoint grammar over the `:`-separated segments: `none` alone,
/// `consomme`/`dio` with any optional remainder whose first segment is
/// taken, or `tap` with exactly one trailing segment.
pub open spec fn spec_parse_endpoint(s: Seq<char>) -> Result<EndpointConfigView, ParseErrorV> {
    let toks = spec_split(s, ':');
    if toks.len() == 1 && toks[0] == "none"@ {
        Ok(EndpointConfigView::Disabled)
    } else if toks[0] == "consomme"@ {
        Ok(
            EndpointConfigView::Consomme {
                cidr: if toks.len() >= 2 {
                    Some(toks[1])
                } else {
                    None
                },
            },
        )
    } else if toks[0] == "dio"@ {
        Ok(
            EndpointConfigView::Dio {
                id: if toks.len() >= 2 {
                    Some(toks[1])
                } else {
                    None
                },
            },
        )
    } else if toks.len() == 2 && toks[0] == "tap"@ {
        Ok(EndpointConfigView::Tap { name: toks[1] })
    } else {
        Err(ParseErrorV::InvalidEndpointBackend(s))
    }
}

impl EndpointConfigCli {
    /// Parse a network endpoint.
    pub fn from_str(s: &str) -> (r: Result<EndpointConfigCli, ParseError>)
        ensures
            match r {
                Ok(c) => spec_parse_endpoint(s@) == Ok::<_, ParseErrorV>(c@),
                Err(e) => spec_parse_endpoint(s@) == Err::<EndpointConfigView, _>(e@),
            },
    {
        let toks = split_str(s, ':');
        let ghost tv = spec_split(s@, ':');
        proof {
            assert(tv[0] == toks@[0int]@);
            if tv.len() >= 2 {
                assert(tv[1] == toks@[1int]@);
            }
        }
        let head = toks[0].as_str();
        if toks.len() == 1 && str_eq_str(head, "none") {
            Ok(EndpointConfigCli::Disabled)
        } else if str_eq_str(head, "consomme") {
            Ok(
                EndpointConfigCli::Consomme {
                    cidr: if toks.len() >= 2 {
                        Some(toks[1].clone())
                    } else {
                        None
                    },
                },
            )
        } else if str_eq_str(head, "dio") {
            Ok(
                EndpointConfigCli::Dio {
                    id: if toks.len() >= 2 {
                        Some(toks[1].clone())
                    } else {
                        None
                    },
                },
            )
        } else if toks.len() == 2 && str_eq_str(head, "tap") {
            Ok(EndpointConfigCli::Tap { name: toks[1].clone() })
        } else {
            Err(ParseError::InvalidEndpointBackend(s.to_owned()))
        }
    }
}

/// A NIC attachment: prefix options, then an endpoint.
#[derive(Debug, PartialEq, Eq)]
pub struct NicConfigCli {
    pub vtl: DeviceVtl,
    pub endpoint: EndpointConfigCli,
    pub max_queues: Option<u16>,
    pub underhill: bool,
}

/// The mathematical shadow of [`NicConfigCli`].
pub struct NicConfigView {
    pub vtl: DeviceVtl,
    pub endpoint: EndpointConfigView,
    pub max_queues: Option<u16>,
    pub underhill: bool,
}

impl View for NicConfigCli {
    type V = NicConfigView;

    open spec fn view(&self) -> NicConfigView {
        NicConfigView {
            vtl: self.vtl,
            endpoint: self.endpoint@,
            max_queues: self.max_queues,
            underhill: self.underhill,
        }
    }
}

/// A `queues=` value: a decimal (or `+`-signed) count within 16 bits.
pub open spec fn spec_parse_queue_count(v: Seq<char>) -> Option<u16> {
    match spec_parse_uint(v, false) {
        Some(q) => if q <= 0xffff {
            Some(q as u16)
        } else {
            None
        },
        None => None,
    }
}

/// What remains once the prefix options stop: `uh` excluded alongside
/// `vtl2`, then the endpoint grammar on the remainder.
pub open spec fn spec_nic_finish(
    rem: Seq<char>,
    orig: Seq<char>,
    vtl: DeviceVtl,
    max_queues: Option<u16>,
    underhill: bool,
) -> Result<NicConfigView, ParseErrorV> {
    if underhill && vtl != DeviceVtl::Vtl0 {
        Err(ParseErrorV::IncompatibleOptionCombination(orig))
    } else {
        match spec_parse_endpoint(rem) {
            Ok(e) => Ok(NicConfigView { vtl, endpoint: e, max_queues, underhill }),
            Err(e) => Err(e),
        }
    }
}

/// The NIC grammar: repeatedly peel a `:`-delimited prefix; one holding `=`
/// must be `queues=<count>` and is consumed; `vtl2` and `uh` are consumed
/// as flags; anything else stops the peeling and the rest, that segment
/// included, is the endpoint.
pub open spec fn spec_parse_nic_rec(
    s: Seq<char>,
    orig: Seq<char>,
    vtl: DeviceVtl,
    max_queues: Option<u16>,
    underhill: bool,
) -> Result<NicConfigView, ParseErrorV>
    decreases s.len(),
    via spec_parse_nic_rec_decreases
{
    match spec_find(s, ':') {
        None => spec_nic_finish(s, orig, vtl, max_queues, underhill),
        Some(i) => {
            let opt = s.subrange(0, i);
            let rest = s.subrange(i + 1, s.len() as int);
            match spec_find(opt, '=') {
                Some(j) => {
                    let name = opt.subrange(0, j);
                    let val = opt.subrange(j + 1, opt.len() as int);
                    if name == "queues"@ {
                        match spec_parse_queue_count(val) {
                            Some(q) => spec_parse_nic_rec(rest, orig, vtl, Some(q), underhill),
                            None => Err(ParseErrorV::InvalidQueueCount(val)),
                        }
                    } else {
                        spec_nic_finish(s, orig, vtl, max_queues, underhill)
                    }
                },
                None => {
                    if opt == "vtl2"@ {
                        spec_parse_nic_rec(rest, orig, DeviceVtl::Vtl2, max_queues, underhill)
                    } else if opt == "uh"@ {
                        spec_parse_nic_rec(rest, orig, vtl, max_queues, true)
                    } else {
                        spec_nic_finish(s, orig, vtl, max_queues, underhill)
                    }
                },
            }
        },
    }
}

#[via_fn]
proof fn spec_parse_nic_rec_decreases(
    s: Seq<char>,
    orig: Seq<char>,
    vtl: DeviceVtl,
    max_queues: Option<u16>,
    underhill: bool,
) {
    lemma_spec_find_characterization(s, ':');
}

/// The NIC grammar from the start of a token.
pub open spec fn spec_parse_nic(s: Seq<char>) -> Result<NicConfigView, ParseErrorV> {
    spec_parse_nic_rec(s, s, DeviceVtl::Vtl0, None, false)
}

impl NicConfigCli {
    /// Parse a NIC attachment.
    pub fn from_str(s: &str) -> (r: Result<NicConfigCli, ParseError>)
        ensures
            match r {
                Ok(c) => spec_parse_nic(s@) == Ok::<_, ParseErrorV>(c@),
                Err(e) => spec_parse_nic(s@) == Err::<NicConfigView, _>(e@),
            },
    {
        let mut rem: &str = s;
        let mut vtl = DeviceVtl::Vtl0;
        let mut max_queues: Option<u16> = None;
        let mut underhill = false;
        loop
            invariant_except_break
                spec_parse_nic(s@) == spec_parse_nic_rec(rem@, s@, vtl, max_queues, underhill),
            ensures
                spec_parse_nic(s@) == spec_nic_finish(rem@, s@, vtl, max_queues, underhill),
            decreases rem@.len(),
        {
            match split_once_char(rem, ':') {
                None => {
                    break;
                },
                Some((opt, rest)) => {
                    proof {
                        lemma_spec_find_characterization(rem@, ':');
                    }
                    match split_once_char(opt, '=') {
                        Some((name, val)) => {
                            proof {
                                lemma_spec_find_characterization(opt@, '=');
                            }
                            if str_eq_str(name, "queues") {
                                match crate::numeric::parse_u16_dec(val) {
                                    Some(q) => {
                                        max_queues = Some(q);
                                        rem = rest;
                                    },
                                    None => {
                                        return Err(ParseError::InvalidQueueCount(val.to_owned()));
                                    },
                                }
                            } else {
                                break;
                            }
                        },
                        None => {
                            if str_eq_str(opt, "vtl2") {
                                vtl = DeviceVtl::Vtl2;
                                rem = rest;
                            } else if str_eq_str(opt, "uh") {
                                underhill = true;
                                rem = rest;
                            } else {
                                break;
                            }
                        },
                    }
                },
            }
        }
        if underhill && !matches!(vtl, DeviceVtl::Vtl0) {
            return Err(ParseError::IncompatibleOptionCombination(s.to_owned()));
        }
        match EndpointConfigCli::from_str(rem) {
            Ok(endpoint) => Ok(NicConfigCli { vtl, endpoint, max_queues, underhill }),
            Err(e) => Err(e),
        }
    }
}

} // verus!
