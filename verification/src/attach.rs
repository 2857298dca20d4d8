//! Per-bus device attachments: a disk-backend token followed by
//! comma-separated option flags folded into attachment fields.

use vstd::prelude::*;
use crate::config::DeviceVtl;
use crate::disk::DiskCliKind;
use crate::disk::DiskKindView;
use crate::disk::spec_parse_disk;
use crate::error::ParseError;
use crate::error::ParseErrorV;
use crate::strutil::spec_find;
use crate::strutil::spec_split;
use crate::strutil::split_once_char;
use crate::strutil::split_str;
use crate::strutil::str_eq_str;

verus! {

/// How an attachment is relayed to VTL0 through the paravisor.
#[derive(Debug, Clone, Copy, PartialEq, Eq, Structural)]
pub enum UnderhillDiskSource {
    /// Relayed as a SCSI device.
    Scsi,
    /// Relayed as an NVMe device.
    Nvme,
}

/// The key of one option token: everything before the first `=`, the whole
/// token when it has none.
pub open spec fn spec_opt_key(t: Seq<char>) -> Seq<char> {
    match spec_find(t, '=') {
        None => t,
        Some(i) => t.subrange(0, i),
    }
}

/// Option key of a token, splitting away anything after a first `=`.
fn opt_key<'a>(t: &'a str) -> (r: &'a str)
    ensures
        r@ == spec_opt_key(t@),
{
    match split_once_char(t, '=') {
        None => t,
        Some((k, _)) => k,
    }
}

/// A generic disk attachment: `<kind>[,flag...]` with flags `ro`, `dvd`
/// (implies `ro`), `vtl2`, `uh`, `uh-nvme`.
#[derive(Debug, PartialEq, Eq)]
pub struct DiskCli {
    pub vtl: DeviceVtl,
    pub kind: DiskCliKind,
    pub read_only: bool,
    pub is_dvd: bool,
    pub underhill: Option<UnderhillDiskSource>,
}

/// The mathematical shadow of [`DiskCli`].
pub struct DiskCliView {
    pub vtl: DeviceVtl,
    pub kind: DiskKindView,
    pub read_only: bool,
    pub is_dvd: bool,
    pub underhill: Option<UnderhillDiskSource>,
}

impl View for DiskCli {
    type V = DiskCliView;

    open spec fn view(&self) -> DiskCliView {
        DiskCliView {
            vtl: self.vtl,
            kind: self.kind@,
            read_only: self.read_only,
            is_dvd: self.is_dvd,
            underhill: self.underhill,
        }
    }
}

/// Fold the option tokens of a generic disk attachment, left to right, over
/// the running flag state.
pub open spec fn spec_fold_disk_opts(
    toks: Seq<Seq<char>>,
    read_only: bool,
    is_dvd: bool,
    vtl: DeviceVtl,
    underhill: Option<UnderhillDiskSource>,
) -> Result<(bool, bool, DeviceVtl, Option<UnderhillDiskSource>), ParseErrorV>
    decreases toks.len(),
{
    if toks.len() == 0 {
        Ok((read_only, is_dvd, vtl, underhill))
    } else {
        let key = spec_opt_key(toks[0]);
        if key == "ro"@ {
            spec_fold_disk_opts(toks.drop_first(), true, is_dvd, vtl, underhill)
        } else if key == "dvd"@ {
            spec_fold_disk_opts(toks.drop_first(), true, true, vtl, underhill)
        } else if key == "vtl2"@ {
            spec_fold_disk_opts(toks.drop_first(), read_only, is_dvd, DeviceVtl::Vtl2, underhill)
        } else if key == "uh"@ {
            spec_fold_disk_opts(
                toks.drop_first(),
                read_only,
                is_dvd,
                vtl,
                Some(UnderhillDiskSource::Scsi),
            )
        } else if key == "uh-nvme"@ {
            spec_fold_disk_opts(
                toks.drop_first(),
                read_only,
                is_dvd,
                vtl,
                Some(UnderhillDiskSource::Nvme),
            )
        } else {
            Err(ParseErrorV::UnknownAttachmentOption(key))
        }
    }
}

/// A generic disk attachment: the backend from the first comma segment, the
/// flags folded over the rest, and `uh`/`uh-nvme` excluded alongside `vtl2`.
pub open spec fn spec_parse_disk_cli(s: Seq<char>, cache_root: Option<Seq<char>>) -> Result<
    DiskCliView,
    ParseErrorV,
> {
    let toks = spec_split(s, ',');
    match spec_parse_disk(toks[0], cache_root) {
        Err(e) => Err(e),
        Ok(kind) => match spec_fold_disk_opts(
            toks.drop_first(),
            false,
            false,
            DeviceVtl::Vtl0,
            None,
        ) {
            Err(e) => Err(e),
            Ok(st) => if st.3 is Some && st.2 != DeviceVtl::Vtl0 {
                Err(ParseErrorV::IncompatibleOptionCombination(s))
            } else {
                Ok(
                    DiskCliView {
                        vtl: st.2,
                        kind,
                        read_only: st.0,
                        is_dvd: st.1,
                        underhill: st.3,
                    },
                )
            },
        },
    }
}

impl DiskCli {
    /// Parse a generic disk attachment, handing the cache root through to
    /// the disk-backend grammar.
    pub fn parse(s: &str, cache_root: Option<&str>) -> (r: Result<DiskCli, ParseError>)
        ensures
            match r {
                Ok(d) => spec_parse_disk_cli(s@, cache_root.deep_view()) == Ok::<_, ParseErrorV>(
                    d@,
                ),
                Err(e) => spec_parse_disk_cli(s@, cache_root.deep_view()) == Err::<DiskCliView, _>(
                    e@,
                ),
            },
    {
        let toks = split_str(s, ',');
        let ghost tv = spec_split(s@, ',');
        let kind = match DiskCliKind::parse(toks[0].as_str(), cache_root) {
            Ok(k) => k,
            Err(e) => {
                return Err(e);
            },
        };
        let mut read_only = false;
        let mut is_dvd = false;
        let mut vtl = DeviceVtl::Vtl0;
        let mut underhill: Option<UnderhillDiskSource> = None;
        let n = toks.len();
        let mut i: usize = 1;
        while i < n
            invariant
                1 <= i <= n,
                n == toks.len(),
                toks.deep_view() == tv,
                tv == spec_split(s@, ','),
                tv.len() == n,
                spec_parse_disk(tv[0], cache_root.deep_view()) == Ok::<_, ParseErrorV>(kind@),
                spec_fold_disk_opts(tv.drop_first(), false, false, DeviceVtl::Vtl0, None)
                    == spec_fold_disk_opts(
                    tv.subrange(i as int, n as int),
                    read_only,
                    is_dvd,
                    vtl,
                    underhill,
                ),
            decreases n - i,
        {
            let ghost rem = tv.subrange(i as int, n as int);
            proof {
                assert(rem.drop_first() =~= tv.subrange(i + 1, n as int));
                assert(rem[0] == tv[i as int]);
                assert(tv[i as int] == toks@[i as int]@);
            }
            let key = opt_key(toks[i].as_str());
            if str_eq_str(key, "ro") {
                read_only = true;
            } else if str_eq_str(key, "dvd") {
                is_dvd = true;
                read_only = true;
            } else if str_eq_str(key, "vtl2") {
                vtl = DeviceVtl::Vtl2;
            } else if str_eq_str(key, "uh") {
                underhill = Some(UnderhillDiskSource::Scsi);
            } else if str_eq_str(key, "uh-nvme") {
                underhill = Some(UnderhillDiskSource::Nvme);
            } else {
                return Err(ParseError::UnknownAttachmentOption(key.to_owned()));
            }
            i = i + 1;
        }
        proof {
            assert(tv.subrange(i as int, n as int) =~= Seq::<Seq<char>>::empty());
        }
        if underhill.is_some() && !matches!(vtl, DeviceVtl::Vtl0) {
            return Err(ParseError::IncompatibleOptionCombination(s.to_owned()));
        }
        Ok(DiskCli { vtl, kind, read_only, is_dvd, underhill })
    }

    /// Parse a generic disk attachment with no cache root supplied.
    pub fn from_str(s: &str) -> (r: Result<DiskCli, ParseError>)
        ensures
            match r {
                Ok(d) => spec_parse_disk_cli(s@, None) == Ok::<_, ParseErrorV>(d@),
                Err(e) => spec_parse_disk_cli(s@, None) == Err::<DiskCliView, _>(e@),
            },
    {
        Self::parse(s, None)
    }
}

/// An IDE drive attachment: `<kind>[,flag...]` with flags `ro`, `dvd`
/// (implies `ro`), `p`/`s` for the channel and `0`/`1` for the device slot.
/// A repeated channel or slot flag silently overwrites the earlier one.
#[derive(Debug, PartialEq, Eq)]
pub struct IdeDiskCli {
    pub kind: DiskCliKind,
    pub read_only: bool,
    pub channel: Option<u8>,
    pub device: Option<u8>,
    pub is_dvd: bool,
}

/// The mathematical shadow of [`IdeDiskCli`].
pub struct IdeDiskCliView {
    pub kind: DiskKindView,
    pub read_only: bool,
    pub channel: Option<u8>,
    pub device: Option<u8>,
    pub is_dvd: bool,
}

impl View for IdeDiskCli {
    type V = IdeDiskCliView;

    open spec fn view(&self) -> IdeDiskCliView {
        IdeDiskCliView {
            kind: self.kind@,
            read_only: self.read_only,
            channel: self.channel,
            device: self.device,
            is_dvd: self.is_dvd,
        }
    }
}

/// Fold the option tokens of an IDE attachment, left to right; the last
/// channel or slot flag wins.
pub open spec fn spec_fold_ide_opts(
    toks: Seq<Seq<char>>,
    read_only: bool,
    channel: Option<u8>,
    device: Option<u8>,
    is_dvd: bool,
) -> Result<(bool, Option<u8>, Option<u8>, bool), ParseErrorV>
    decreases toks.len(),
{
    if toks.len() == 0 {
        Ok((read_only, channel, device, is_dvd))
    } else {
        let key = spec_opt_key(toks[0]);
        if key == "ro"@ {
            spec_fold_ide_opts(toks.drop_first(), true, channel, device, is_dvd)
        } else if key == "p"@ {
            spec_fold_ide_opts(toks.drop_first(), read_only, Some(0u8), device, is_dvd)
        } else if key == "s"@ {
            spec_fold_ide_opts(toks.drop_first(), read_only, Some(1u8), device, is_dvd)
        } else if key == "0"@ {
            spec_fold_ide_opts(toks.drop_first(), read_only, channel, Some(0u8), is_dvd)
        } else if key == "1"@ {
            spec_fold_ide_opts(toks.drop_first(), read_only, channel, Some(1u8), is_dvd)
        } else if key == "dvd"@ {
            spec_fold_ide_opts(toks.drop_first(), true, channel, device, true)
        } else {
            Err(ParseErrorV::UnknownAttachmentOption(key))
        }
    }
}

/// An IDE attachment: the backend from the first comma segment, the flags
/// folded over the rest.
pub open spec fn spec_parse_ide_cli(s: Seq<char>, cache_root: Option<Seq<char>>) -> Result<
    IdeDiskCliView,
    ParseErrorV,
> {
    let toks = spec_split(s, ',');
    match spec_parse_disk(toks[0], cache_root) {
        Err(e) => Err(e),
        Ok(kind) => match spec_fold_ide_opts(toks.drop_first(), false, None, None, false) {
            Err(e) => Err(e),
            Ok(st) => Ok(
                IdeDiskCliView {
                    kind,
                    read_only: st.0,
                    channel: st.1,
                    device: st.2,
                    is_dvd: st.3,
                },
            ),
        },
    }
}

impl IdeDiskCli {
    /// Parse an IDE drive attachment, handing the cache root through to the
    /// disk-backend grammar.
    pub fn parse(s: &str, cache_root: Option<&str>) -> (r: Result<IdeDiskCli, ParseError>)
        ensures
            match r {
                Ok(d) => spec_parse_ide_cli(s@, cache_root.deep_view()) == Ok::<_, ParseErrorV>(
                    d@,
                ),
                Err(e) => spec_parse_ide_cli(s@, cache_root.deep_view()) == Err::<
                    IdeDiskCliView,
                    _,
                >(e@),
            },
    {
        let toks = split_str(s, ',');
        let ghost tv = spec_split(s@, ',');
        let kind = match DiskCliKind::parse(toks[0].as_str(), cache_root) {
            Ok(k) => k,
            Err(e) => {
                return Err(e);
            },
        };
        let mut read_only = false;
        let mut channel: Option<u8> = None;
        let mut device: Option<u8> = None;
        let mut is_dvd = false;
        let n = toks.len();
        let mut i: usize = 1;
        while i < n
            invariant
                1 <= i <= n,
                n == toks.len(),
                toks.deep_view() == tv,
                tv == spec_split(s@, ','),
                tv.len() == n,
                spec_parse_disk(tv[0], cache_root.deep_view()) == Ok::<_, ParseErrorV>(kind@),
                spec_fold_ide_opts(tv.drop_first(), false, None, None, false)
                    == spec_fold_ide_opts(
                    tv.subrange(i as int, n as int),
                    read_only,
                    channel,
                    device,
                    is_dvd,
                ),
            decreases n - i,
        {
            let ghost rem = tv.subrange(i as int, n as int);
            proof {
                assert(rem.drop_first() =~= tv.subrange(i + 1, n as int));
                assert(rem[0] == tv[i as int]);
                assert(tv[i as int] == toks@[i as int]@);
            }
            let key = opt_key(toks[i].as_str());
            if str_eq_str(key, "ro") {
                read_only = true;
            } else if str_eq_str(key, "p") {
                channel = Some(0);
            } else if str_eq_str(key, "s") {
                channel = Some(1);
            } else if str_eq_str(key, "0") {
                device = Some(0);
            } else if str_eq_str(key, "1") {
                device = Some(1);
            } else if str_eq_str(key, "dvd") {
                is_dvd = true;
                read_only = true;
            } else {
                return Err(ParseError::UnknownAttachmentOption(key.to_owned()));
            }
            i = i + 1;
        }
        proof {
            assert(tv.subrange(i as int, n as int) =~= Seq::<Seq<char>>::empty());
        }
        Ok(IdeDiskCli { kind, read_only, channel, device, is_dvd })
    }

    /// Parse an IDE drive attachment with no cache root supplied.
    pub fn from_str(s: &str) -> (r: Result<IdeDiskCli, ParseError>)
        ensures
            match r {
                Ok(d) => spec_parse_ide_cli(s@, None) == Ok::<_, ParseErrorV>(d@),
                Err(e) => spec_parse_ide_cli(s@, None) == Err::<IdeDiskCliView, _>(e@),
            },
    {
        Self::parse(s, None)
    }
}

/// A floppy drive attachment: `<kind>[,ro]`, where an empty token is its
/// own hard error.
#[derive(Debug, PartialEq, Eq)]
pub struct FloppyDiskCli {
    pub kind: DiskCliKind,
    pub read_only: bool,
}

/// The mathematical shadow of [`FloppyDiskCli`].
pub struct FloppyDiskCliView {
    pub kind: DiskKindView,
    pub read_only: bool,
}

impl View for FloppyDiskCli {
    type V = FloppyDiskCliView;

    open spec fn view(&self) -> FloppyDiskCliView {
        FloppyDiskCliView { kind: self.kind@, read_only: self.read_only }
    }
}

/// Fold the option tokens of a floppy attachment: only `ro` is accepted.
pub open spec fn spec_fold_floppy_opts(toks: Seq<Seq<char>>, read_only: bool) -> Result<
    bool,
    ParseErrorV,
>
    decreases toks.len(),
{
    if toks.len() == 0 {
        Ok(read_only)
    } else {
        let key = spec_opt_key(toks[0]);
        if key == "ro"@ {
            spec_fold_floppy_opts(toks.drop_first(), true)
        } else {
            Err(ParseErrorV::UnknownAttachmentOption(key))
        }
    }
}

/// A floppy attachment: an empty token is rejected outright, then the
/// backend comes from the first comma segment and `ro` may follow.
pub open spec fn spec_parse_floppy_cli(s: Seq<char>, cache_root: Option<Seq<char>>) -> Result<
    FloppyDiskCliView,
    ParseErrorV,
> {
    if s.len() == 0 {
        Err(ParseErrorV::EmptyOrMissingSegment(s))
    } else {
        let toks = spec_split(s, ',');
        match spec_parse_disk(toks[0], cache_root) {
            Err(e) => Err(e),
            Ok(kind) => match spec_fold_floppy_opts(toks.drop_first(), false) {
                Err(e) => Err(e),
                Ok(read_only) => Ok(FloppyDiskCliView { kind, read_only }),
            },
        }
    }
}

impl FloppyDiskCli {
    /// Parse a floppy drive attachment, handing the cache root through to
    /// the disk-backend grammar.
    pub fn parse(s: &str, cache_root: Option<&str>) -> (r: Result<FloppyDiskCli, ParseError>)
        ensures
            match r {
                Ok(d) => spec_parse_floppy_cli(s@, cache_root.deep_view()) == Ok::<_, ParseErrorV>(
                    d@,
                ),
                Err(e) => spec_parse_floppy_cli(s@, cache_root.deep_view()) == Err::<
                    FloppyDiskCliView,
                    _,
                >(e@),
            },
    {
        if s.unicode_len() == 0 {
            return Err(ParseError::EmptyOrMissingSegment(s.to_owned()));
        }
        let toks = split_str(s, ',');
        let ghost tv = spec_split(s@, ',');
        let kind = match DiskCliKind::parse(toks[0].as_str(), cache_root) {
            Ok(k) => k,
            Err(e) => {
                return Err(e);
            },
        };
        let mut read_only = false;
        let n = toks.len();
        let mut i: usize = 1;
        while i < n
            invariant
                1 <= i <= n,
                n == toks.len(),
                s@.len() > 0,
                toks.deep_view() == tv,
                tv == spec_split(s@, ','),
                tv.len() == n,
                spec_parse_disk(tv[0], cache_root.deep_view()) == Ok::<_, ParseErrorV>(kind@),
                spec_fold_floppy_opts(tv.drop_first(), false) == spec_fold_floppy_opts(
                    tv.subrange(i as int, n as int),
                    read_only,
                ),
            decreases n - i,
        {
            let ghost rem = tv.subrange(i as int, n as int);
            proof {
                assert(rem.drop_first() =~= tv.subrange(i + 1, n as int));
                assert(rem[0] == tv[i as int]);
                assert(tv[i as int] == toks@[i as int]@);
            }
            let key = opt_key(toks[i].as_str());
            if str_eq_str(key, "ro") {
                read_only = true;
            } else {
                return Err(ParseError::UnknownAttachmentOption(key.to_owned()));
            }
            i = i + 1;
        }
        proof {
            assert(tv.subrange(i as int, n as int) =~= Seq::<Seq<char>>::empty());
        }
        Ok(FloppyDiskCli { kind, read_only })
    }

    /// Parse a floppy drive attachment with no cache root supplied.
    pub fn from_str(s: &str) -> (r: Result<FloppyDiskCli, ParseError>)
        ensures
            match r {
                Ok(d) => spec_parse_floppy_cli(s@, None) == Ok::<_, ParseErrorV>(d@),
                Err(e) => spec_parse_floppy_cli(s@, None) == Err::<FloppyDiskCliView, _>(e@),
            },
    {
        Self::parse(s, None)
    }
}

/// When the VMGS store is reprovisioned before boot.
#[derive(Debug, Clone, Copy, PartialEq, Eq, Structural)]
pub enum ProvisionVmgs {
    /// Provision only when the store is empty.
    OnEmpty,
    /// Provision when the store fails to open.
    OnFailure,
    /// Provision unconditionally.
    Always,
}

/// The VM Guest State store attachment: `<kind>[,fmt|,fmt-on-fail]`.
#[derive(Debug, PartialEq, Eq)]
pub struct VmgsCli {
    pub kind: DiskCliKind,
    pub provision: ProvisionVmgs,
}

/// The mathematical shadow of [`VmgsCli`].
pub struct VmgsCliView {
    pub kind: DiskKindView,
    pub provision: ProvisionVmgs,
}

impl View for VmgsCli {
    type V = VmgsCliView;

    open spec fn view(&self) -> VmgsCliView {
        VmgsCliView { kind: self.kind@, provision: self.provision }
    }
}

/// A VMGS attachment: the backend before an optional single comma, and the
/// trailing option selecting when to provision: absent for on-empty,
/// `fmt-on-fail` for on-failure, `fmt` for always.
pub open spec fn spec_parse_vmgs_cli(s: Seq<char>, cache_root: Option<Seq<char>>) -> Result<
    VmgsCliView,
    ParseErrorV,
> {
    let kind_str = match spec_find(s, ',') {
        Some(i) => s.subrange(0, i),
        None => s,
    };
    match spec_parse_disk(kind_str, cache_root) {
        Err(e) => Err(e),
        Ok(kind) => match spec_find(s, ',') {
            None => Ok(VmgsCliView { kind, provision: ProvisionVmgs::OnEmpty }),
            Some(i) => {
                let opt = s.subrange(i + 1, s.len() as int);
                if opt == "fmt-on-fail"@ {
                    Ok(VmgsCliView { kind, provision: ProvisionVmgs::OnFailure })
                } else if opt == "fmt"@ {
                    Ok(VmgsCliView { kind, provision: ProvisionVmgs::Always })
                } else {
                    Err(ParseErrorV::UnknownAttachmentOption(opt))
                }
            },
        },
    }
}

impl VmgsCli {
    /// Parse a VMGS attachment, handing the cache root through to the
    /// disk-backend grammar.
    pub fn parse(s: &str, cache_root: Option<&str>) -> (r: Result<VmgsCli, ParseError>)
        ensures
            match r {
                Ok(d) => spec_parse_vmgs_cli(s@, cache_root.deep_view()) == Ok::<_, ParseErrorV>(
                    d@,
                ),
                Err(e) => spec_parse_vmgs_cli(s@, cache_root.deep_view()) == Err::<
                    VmgsCliView,
                    _,
                >(e@),
            },
    {
        match split_once_char(s, ',') {
            None => {
                let kind = match DiskCliKind::parse(s, cache_root) {
                    Ok(k) => k,
                    Err(e) => {
                        return Err(e);
                    },
                };
                Ok(VmgsCli { kind, provision: ProvisionVmgs::OnEmpty })
            },
            Some((kind_str, opt)) => {
                let kind = match DiskCliKind::parse(kind_str, cache_root) {
                    Ok(k) => k,
                    Err(e) => {
                        return Err(e);
                    },
                };
                if str_eq_str(opt, "fmt-on-fail") {
                    Ok(VmgsCli { kind, provision: ProvisionVmgs::OnFailure })
                } else if str_eq_str(opt, "fmt") {
                    Ok(VmgsCli { kind, provision: ProvisionVmgs::Always })
                } else {
                    Err(ParseError::UnknownAttachmentOption(opt.to_owned()))
                }
            },
        }
    }

    /// Parse a VMGS attachment with no cache root supplied.
    pub fn from_str(s: &str) -> (r: Result<VmgsCli, ParseError>)
        ensures
            match r {
                Ok(d) => spec_parse_vmgs_cli(s@, None) == Ok::<_, ParseErrorV>(d@),
                Err(e) => spec_parse_vmgs_cli(s@, None) == Err::<VmgsCliView, _>(e@),
            },
    {
        Self::parse(s, None)
    }
}

} // verus!
