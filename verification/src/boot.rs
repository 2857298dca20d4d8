//! The PCAT boot-order resolver: user-named device kinds first, in user
//! order, then the remaining kinds in their default relative order — always
//! a full permutation of the four kinds.

use vstd::prelude::*;
use crate::config::PcatBootDevice;
use crate::error::ParseError;
use crate::error::ParseErrorV;
use crate::strutil::spec_split;
use crate::strutil::split_str;
use crate::strutil::str_eq_str;
use vstd::seq_lib::lemma_multiset_commutative;
use vstd::seq_lib::to_multiset_len;

verus! {

/// The default order in which the PCAT firmware probes device classes.
pub open spec fn spec_default_boot_order() -> Seq<PcatBootDevice> {
    seq![
        PcatBootDevice::Optical,
        PcatBootDevice::HardDrive,
        PcatBootDevice::Network,
        PcatBootDevice::Floppy,
    ]
}

/// The default PCAT boot order: optical, hard drive, network, floppy.
pub fn default_pcat_boot_order() -> (r: [PcatBootDevice; 4])
    ensures
        r@ == spec_default_boot_order(),
{
    let r = [
        PcatBootDevice::Optical,
        PcatBootDevice::HardDrive,
        PcatBootDevice::Network,
        PcatBootDevice::Floppy,
    ];
    proof {
        assert(r@ =~= spec_default_boot_order());
    }
    r
}

/// The device kind a boot-order token names, if any.
pub open spec fn spec_boot_device(t: Seq<char>) -> Option<PcatBootDevice> {
    if t == "optical"@ {
        Some(PcatBootDevice::Optical)
    } else if t == "hdd"@ {
        Some(PcatBootDevice::HardDrive)
    } else if t == "net"@ {
        Some(PcatBootDevice::Network)
    } else if t == "floppy"@ {
        Some(PcatBootDevice::Floppy)
    } else {
        None
    }
}

/// Which device kinds are still unclaimed, one slot per kind.
#[derive(Debug, Clone, Copy, PartialEq, Eq, Structural)]
pub struct BootAvail {
    pub optical: bool,
    pub hard_drive: bool,
    pub network: bool,
    pub floppy: bool,
}

/// All four kinds unclaimed.
pub open spec fn spec_avail_all() -> BootAvail {
    BootAvail { optical: true, hard_drive: true, network: true, floppy: true }
}

/// Whether `dev`'s slot is still unclaimed.
pub open spec fn spec_avail_has(a: BootAvail, dev: PcatBootDevice) -> bool {
    match dev {
        PcatBootDevice::Optical => a.optical,
        PcatBootDevice::HardDrive => a.hard_drive,
        PcatBootDevice::Network => a.network,
        PcatBootDevice::Floppy => a.floppy,
    }
}

/// Claim `dev`'s slot.
pub open spec fn spec_avail_take(a: BootAvail, dev: PcatBootDevice) -> BootAvail {
    match dev {
        PcatBootDevice::Optical => BootAvail { optical: false, ..a },
        PcatBootDevice::HardDrive => BootAvail { hard_drive: false, ..a },
        PcatBootDevice::Network => BootAvail { network: false, ..a },
        PcatBootDevice::Floppy => BootAvail { floppy: false, ..a },
    }
}

/// The unclaimed kinds, in their default relative order.
pub open spec fn spec_avail_remaining(a: BootAvail) -> Seq<PcatBootDevice> {
    (if a.optical {
        seq![PcatBootDevice::Optical]
    } else {
        Seq::empty()
    }) + (if a.hard_drive {
        seq![PcatBootDevice::HardDrive]
    } else {
        Seq::empty()
    }) + (if a.network {
        seq![PcatBootDevice::Network]
    } else {
        Seq::empty()
    }) + (if a.floppy {
        seq![PcatBootDevice::Floppy]
    } else {
        Seq::empty()
    })
}

/// Fold the user tokens left to right: each names a kind, claims its slot
/// — claiming twice is the duplicate error — and appends it to the order.
pub open spec fn spec_fold_boot(
    toks: Seq<Seq<char>>,
    avail: BootAvail,
    acc: Seq<PcatBootDevice>,
) -> Result<(BootAvail, Seq<PcatBootDevice>), ParseErrorV>
    decreases toks.len(),
{
    if toks.len() == 0 {
        Ok((avail, acc))
    } else {
        match spec_boot_device(toks[0]) {
            None => Err(ParseErrorV::UnknownBootDeviceKind(toks[0])),
            Some(dev) => {
                if !spec_avail_has(avail, dev) {
                    Err(ParseErrorV::DuplicateBootDevice(toks[0]))
                } else {
                    spec_fold_boot(toks.drop_first(), spec_avail_take(avail, dev), acc.push(dev))
                }
            },
        }
    }
}

/// The device kinds the user tokens name, in user order.
pub open spec fn spec_user_devices(toks: Seq<Seq<char>>) -> Seq<PcatBootDevice>
    decreases toks.len(),
{
    if toks.len() == 0 {
        Seq::empty()
    } else {
        match spec_boot_device(toks[0]) {
            Some(d) => seq![d] + spec_user_devices(toks.drop_first()),
            None => Seq::empty(),
        }
    }
}

/// The boot-order grammar: fold the comma-separated tokens over the claim
/// state, then append the unclaimed kinds in default relative order.
pub open spec fn spec_parse_boot_order(s: Seq<char>) -> Result<Seq<PcatBootDevice>, ParseErrorV> {
    match spec_fold_boot(spec_split(s, ','), spec_avail_all(), Seq::empty()) {
        Ok(st) => Ok(st.1 + spec_avail_remaining(st.0)),
        Err(e) => Err(e),
    }
}

/// The fold keeps the claimed and unclaimed kinds a permutation of what
/// they were, and appends exactly the user-named kinds in user order.
proof fn lemma_fold_boot(toks: Seq<Seq<char>>, avail: BootAvail, acc: Seq<PcatBootDevice>)
    ensures
        spec_fold_boot(toks, avail, acc) matches Ok(st) ==> {
            &&& (st.1 + spec_avail_remaining(st.0)).to_multiset() == (acc + spec_avail_remaining(
                avail,
            )).to_multiset()
            &&& st.1 == acc + spec_user_devices(toks)
        },
    decreases toks.len(),
{
    broadcast use lemma_multiset_commutative;

    if toks.len() == 0 {
        if let Ok(st) = spec_fold_boot(toks, avail, acc) {
            assert(acc + Seq::<PcatBootDevice>::empty() =~= acc);
        }
    } else {
        match spec_boot_device(toks[0]) {
            None => {},
            Some(dev) => {
                if spec_avail_has(avail, dev) {
                    let avail2 = spec_avail_take(avail, dev);
                    lemma_fold_boot(toks.drop_first(), avail2, acc.push(dev));
                    if let Ok(st) = spec_fold_boot(toks, avail, acc) {
                        assert(acc.push(dev) + spec_avail_remaining(avail2) =~= (acc + seq![dev])
                            + spec_avail_remaining(avail2));
                        assert(((acc + seq![dev]) + spec_avail_remaining(avail2)).to_multiset()
                            =~= (acc + spec_avail_remaining(avail)).to_multiset());
                        assert(acc.push(dev) + spec_user_devices(toks.drop_first()) =~= acc + (
                        seq![dev] + spec_user_devices(toks.drop_first())));
                    }
                }
            },
        }
    }
}

/// The law of the resolver: whenever a boot-order string parses, the result
/// holds exactly four entries, is a permutation of the four device kinds,
/// and begins with the user-named kinds in user order.
pub proof fn lemma_boot_order_permutation(s: Seq<char>)
    ensures
        spec_parse_boot_order(s) matches Ok(order) ==> {
            &&& order.len() == 4
            &&& order.to_multiset() == spec_default_boot_order().to_multiset()
            &&& spec_user_devices(spec_split(s, ',')).len() <= 4
            &&& order.subrange(0, spec_user_devices(spec_split(s, ',')).len() as int)
                == spec_user_devices(spec_split(s, ','))
        },
{
    broadcast use lemma_multiset_commutative, to_multiset_len;

    let toks = spec_split(s, ',');
    lemma_fold_boot(toks, spec_avail_all(), Seq::empty());
    if let Ok(st) = spec_fold_boot(toks, spec_avail_all(), Seq::empty()) {
        let order = st.1 + spec_avail_remaining(st.0);
        assert(Seq::<PcatBootDevice>::empty() + spec_avail_remaining(spec_avail_all())
            =~= spec_default_boot_order());
        assert(order.to_multiset() == spec_default_boot_order().to_multiset());
        assert(order.len() == order.to_multiset().len());
        assert(spec_default_boot_order().len() == spec_default_boot_order().to_multiset().len());
        assert(st.1 =~= Seq::<PcatBootDevice>::empty() + spec_user_devices(toks));
        assert(st.1 == spec_user_devices(toks));
        assert(order.subrange(0, st.1.len() as int) =~= st.1);
    }
}

/// With no user tokens at all, the resolver leaves the claim state
/// untouched and yields exactly the default order.
pub proof fn lemma_boot_order_empty()
    ensures
        spec_fold_boot(Seq::empty(), spec_avail_all(), Seq::empty()) matches Ok(st) && st.1
            + spec_avail_remaining(st.0) == spec_default_boot_order(),
{
    if let Ok(st) = spec_fold_boot(
        Seq::<Seq<char>>::empty(),
        spec_avail_all(),
        Seq::<PcatBootDevice>::empty(),
    ) {
        assert(st.1 + spec_avail_remaining(st.0) =~= spec_default_boot_order());
    }
}

/// A full PCAT boot order: the typed form of one `--pcat-boot-order` token.
#[derive(Debug, Clone, Copy, PartialEq, Eq)]
pub struct PcatBootOrderCli(pub [PcatBootDevice; 4]);

impl PcatBootOrderCli {
    /// Parse a comma-separated boot-device list into a full boot order.
    pub fn from_str(s: &str) -> (r: Result<PcatBootOrderCli, ParseError>)
        ensures
            match r {
                Ok(o) => spec_parse_boot_order(s@) == Ok::<_, ParseErrorV>(o.0@),
                Err(e) => spec_parse_boot_order(s@) == Err::<Seq<PcatBootDevice>, _>(e@),
            },
    {
        let toks = split_str(s, ',');
        let ghost tv = spec_split(s@, ',');
        let mut avail = BootAvail { optical: true, hard_drive: true, network: true, floppy: true };
        let mut order: Vec<PcatBootDevice> = Vec::new();
        let n = toks.len();
        let mut i: usize = 0;
        proof {
            assert(tv.subrange(0, n as int) =~= tv);
            assert(order@ =~= Seq::<PcatBootDevice>::empty());
        }
        while i < n
            invariant
                0 <= i <= n,
                n == toks.len(),
                toks.deep_view() == tv,
                tv == spec_split(s@, ','),
                tv.len() == n,
                spec_fold_boot(tv, spec_avail_all(), Seq::empty()) == spec_fold_boot(
                    tv.subrange(i as int, n as int),
                    avail,
                    order@,
                ),
            decreases n - i,
        {
            let ghost rem = tv.subrange(i as int, n as int);
            proof {
                assert(rem.drop_first() =~= tv.subrange(i + 1, n as int));
                assert(rem[0] == tv[i as int]);
                assert(tv[i as int] == toks@[i as int]@);
            }
            let tok = toks[i].as_str();
            let dev = if str_eq_str(tok, "optical") {
                PcatBootDevice::Optical
            } else if str_eq_str(tok, "hdd") {
                PcatBootDevice::HardDrive
            } else if str_eq_str(tok, "net") {
                PcatBootDevice::Network
            } else if str_eq_str(tok, "floppy") {
                PcatBootDevice::Floppy
            } else {
                return Err(ParseError::UnknownBootDeviceKind(tok.to_owned()));
            };
            let has = match dev {
                PcatBootDevice::Optical => avail.optical,
                PcatBootDevice::HardDrive => avail.hard_drive,
                PcatBootDevice::Network => avail.network,
                PcatBootDevice::Floppy => avail.floppy,
            };
            if has == false {
                return Err(ParseError::DuplicateBootDevice(tok.to_owned()));
            }
            match dev {
                PcatBootDevice::Optical => {
                    avail.optical = false;
                },
                PcatBootDevice::HardDrive => {
                    avail.hard_drive = false;
                },
                PcatBootDevice::Network => {
                    avail.network = false;
                },
                PcatBootDevice::Floppy => {
                    avail.floppy = false;
                },
            }
            order.push(dev);
            i = i + 1;
        }
        proof {
            assert(tv.subrange(i as int, n as int) =~= Seq::<Seq<char>>::empty());
        }
        let ghost folded = order@;
        if avail.optical {
            order.push(PcatBootDevice::Optical);
        }
        if avail.hard_drive {
            order.push(PcatBootDevice::HardDrive);
        }
        if avail.network {
            order.push(PcatBootDevice::Network);
        }
        if avail.floppy {
            order.push(PcatBootDevice::Floppy);
        }
        proof {
            assert(order@ =~= folded + spec_avail_remaining(avail));
            lemma_fold_boot(tv, spec_avail_all(), Seq::empty());
            let start = Seq::<PcatBootDevice>::empty() + spec_avail_remaining(spec_avail_all());
            assert(start =~= spec_default_boot_order());
            assert(order@.to_multiset() == start.to_multiset());
            to_multiset_len(order@);
            to_multiset_len(start);
            assert(order@.len() == 4);
        }
        let a = order[0];
        let b = order[1];
        let c = order[2];
        let d = order[3];
        let arr = [a, b, c, d];
        proof {
            assert(arr@ =~= order@);
        }
        Ok(PcatBootOrderCli(arr))
    }
}

} // verus!
