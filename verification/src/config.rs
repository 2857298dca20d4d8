//! The typed configuration values the parsers produce that name fixed,
//! closed vocabularies: trust levels, hypervisor interfaces, boot devices,
//! and the small one-token option enums.

use vstd::prelude::*;

verus! {

/// Which virtual trust level a device is assigned to.
#[derive(Debug, Clone, Copy, PartialEq, Eq, Structural)]
pub enum DeviceVtl {
    /// The normal guest.
    Vtl0,
    /// The paravisor trust level.
    Vtl2,
}

/// A hypervisor interface the monitor can drive.
#[derive(Debug, Clone, Copy, PartialEq, Eq, Structural)]
pub enum Hypervisor {
    Kvm,
    MsHv,
    Whp,
}

/// A device class the PCAT firmware can try to boot from.
#[derive(Debug, Clone, Copy, PartialEq, Eq, Structural)]
pub enum PcatBootDevice {
    Optical,
    HardDrive,
    Network,
    Floppy,
}

/// x2apic configuration.
#[derive(Debug, Clone, Copy, PartialEq, Eq, Structural)]
pub enum X2ApicConfig {
    Auto,
    Supported,
    Unsupported,
    Enabled,
}

/// Placement policy for the VTL2 memory region.
#[derive(Debug, Clone, Copy, PartialEq, Eq)]
pub enum Vtl2BaseAddressType {
    /// No relocation: take the addresses from the file.
    File,
    /// Place VTL2 according to the memory layout, sized to the file image
    /// when no size is given.
    MemoryLayout { size: Option<u64> },
    /// Place VTL2 at a fixed base address.
    Absolute(u64),
    /// Let VTL2 allocate its own region, sized to the file image when no
    /// size is given.
    Vtl2Allocate { size: Option<u64> },
}

/// Which bus a virtio device is offered on.
#[derive(Debug, Clone, Copy, PartialEq, Eq)]
pub enum VirtioBusCli {
    Auto,
    Mmio,
    Pci,
    Vpci,
}

/// Which secure-boot certificate template to apply.
#[derive(Debug, Clone, Copy, PartialEq, Eq)]
pub enum SecureBootTemplateCli {
    Windows,
    UefiCa,
}

/// Policy for late-mapped VTL0 RAM access when VTL2 is enabled.
#[derive(Debug, Clone, Copy, PartialEq, Eq)]
pub enum Vtl0LateMapPolicyCli {
    Off,
    Log,
    Halt,
    Exception,
}

/// Isolation emulation mode.
#[derive(Debug, Clone, Copy, PartialEq, Eq)]
pub enum IsolationCli {
    Vbs,
}

/// UEFI console binding mode.
#[derive(Debug, Clone, Copy, PartialEq, Eq)]
pub enum UefiConsoleModeCli {
    Default,
    Com1,
    Com2,
    Disabled,
}

/// An optional path that encodes absence as the empty string, so that it can
/// ride through layers that only carry plain strings.
#[derive(Debug, Clone, PartialEq, Eq)]
pub struct OptionalPathBuf(pub Option<String>);

/// The hypervisor name `s` denotes, if any.
pub open spec fn spec_parse_hypervisor(s: Seq<char>) -> Option<Hypervisor> {
    if s == "kvm"@ {
        Some(Hypervisor::Kvm)
    } else if s == "mshv"@ {
        Some(Hypervisor::MsHv)
    } else if s == "whp"@ {
        Some(Hypervisor::Whp)
    } else {
        None
    }
}

/// A hypervisor name that is not recognized.
#[derive(Debug, Clone, PartialEq, Eq)]
pub struct UnknownHypervisor(pub String);

/// Select a hypervisor interface by name.
pub fn parse_hypervisor(s: &str) -> (r: Result<Hypervisor, UnknownHypervisor>)
    ensures
        match r {
            Ok(h) => spec_parse_hypervisor(s@) == Some(h),
            Err(e) => spec_parse_hypervisor(s@) is None && e.0@ == s@,
        },
{
    if crate::strutil::str_eq_str(s, "kvm") {
        Ok(Hypervisor::Kvm)
    } else if crate::strutil::str_eq_str(s, "mshv") {
        Ok(Hypervisor::MsHv)
    } else if crate::strutil::str_eq_str(s, "whp") {
        Ok(Hypervisor::Whp)
    } else {
        Err(UnknownHypervisor(s.to_owned()))
    }
}

/// The x2apic mode `s` denotes, if any.
pub open spec fn spec_parse_x2apic(s: Seq<char>) -> Option<X2ApicConfig> {
    if s == "auto"@ {
        Some(X2ApicConfig::Auto)
    } else if s == "supported"@ {
        Some(X2ApicConfig::Supported)
    } else if s == "off"@ {
        Some(X2ApicConfig::Unsupported)
    } else if s == "on"@ {
        Some(X2ApicConfig::Enabled)
    } else {
        None
    }
}

/// Select an x2apic mode by name.
pub fn parse_x2apic(s: &str) -> (r: Result<X2ApicConfig, &'static str>)
    ensures
        match r {
            Ok(c) => spec_parse_x2apic(s@) == Some(c),
            Err(_) => spec_parse_x2apic(s@) is None,
        },
{
    if crate::strutil::str_eq_str(s, "auto") {
        Ok(X2ApicConfig::Auto)
    } else if crate::strutil::str_eq_str(s, "supported") {
        Ok(X2ApicConfig::Supported)
    } else if crate::strutil::str_eq_str(s, "off") {
        Ok(X2ApicConfig::Unsupported)
    } else if crate::strutil::str_eq_str(s, "on") {
        Ok(X2ApicConfig::Enabled)
    } else {
        Err("expected auto, supported, off, or on")
    }
}

/// Whether simultaneous multithreading is exposed to the guest.
#[derive(Debug, Clone, Copy, PartialEq, Eq, Structural)]
pub enum SmtConfigCli {
    Auto,
    Force,
    Off,
}

/// An SMT mode that is not recognized.
#[derive(Debug, Clone, Copy, PartialEq, Eq, Structural)]
pub struct BadSmtConfig;

/// The SMT mode `s` denotes, if any.
pub open spec fn spec_parse_smt(s: Seq<char>) -> Option<SmtConfigCli> {
    if s == "auto"@ {
        Some(SmtConfigCli::Auto)
    } else if s == "force"@ {
        Some(SmtConfigCli::Force)
    } else if s == "off"@ {
        Some(SmtConfigCli::Off)
    } else {
        None
    }
}

impl SmtConfigCli {
    /// Select an SMT mode by name.
    pub fn from_str(s: &str) -> (r: Result<SmtConfigCli, BadSmtConfig>)
        ensures
            match r {
                Ok(c) => spec_parse_smt(s@) == Some(c),
                Err(_) => spec_parse_smt(s@) is None,
            },
    {
        if crate::strutil::str_eq_str(s, "auto") {
            Ok(SmtConfigCli::Auto)
        } else if crate::strutil::str_eq_str(s, "force") {
            Ok(SmtConfigCli::Force)
        } else if crate::strutil::str_eq_str(s, "off") {
            Ok(SmtConfigCli::Off)
        } else {
            Err(BadSmtConfig)
        }
    }
}

} // verus!
