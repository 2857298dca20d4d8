//! Loader definitions for the boot shim: the parameter block written at
//! image-build time, the memory-type codes the shim reports to usermode,
//! and the TDX trampoline context.

use vstd::prelude::*;

verus! {

/// Shim parameters set by the loader at image build time.  These contain
/// shim-base-relative offsets and sizes instead of absolute addresses.
/// Sizes are in bytes.
#[derive(Debug)]
pub struct ShimParamsRaw {
    /// The offset to the Linux kernel entry point.
    pub kernel_entry_offset: i64,
    /// The offset to the command-line structure.
    pub cmdline_offset: i64,
    /// The offset to the initrd.
    pub initrd_offset: i64,
    /// The size of the initrd.
    pub initrd_size: u64,
    /// The crc32 of the initrd.
    pub initrd_crc: u32,
    /// Isolation type supported by the image.
    pub supported_isolation_type: SupportedIsolationType,
    /// The offset to the start of the VTL2 memory region.
    pub memory_start_offset: i64,
    /// The size of the VTL2 memory region.
    pub memory_size: u64,
    /// The offset to the parameter region.
    pub parameter_region_offset: i64,
    /// The size of the parameter region.
    pub parameter_region_size: u64,
    /// The offset to the VTL2 reserved region.
    pub vtl2_reserved_region_offset: i64,
    /// The size of the VTL2 reserved region.
    pub vtl2_reserved_region_size: u64,
    /// The offset to the sidecar memory region.
    pub sidecar_offset: i64,
    /// The size of the sidecar memory region.
    pub sidecar_size: u64,
    /// The offset to the entry point for the sidecar.
    pub sidecar_entry_offset: i64,
    /// The offset to the populated portion of VTL2 memory.
    pub used_start: i64,
    /// The offset to the end of the populated portion of VTL2 memory.
    pub used_end: i64,
    /// The offset to the bounce buffer range, 0 if unavailable.
    pub bounce_buffer_start: i64,
    /// The size of the bounce buffer range, 0 if unavailable.
    pub bounce_buffer_size: u64,
    /// The offset to the page-tables start address, 0 if unavailable.
    pub page_tables_start: i64,
    /// The size of the boot shim page tables, 0 if unavailable.
    pub page_tables_size: u64,
}

/// An isolation type the shim can support, as an open code: `1` for VBS,
/// `2` for SNP, `3` for TDX; other values may arrive from newer images.
#[derive(Debug, Clone, Copy, PartialEq, Eq, Structural)]
pub struct SupportedIsolationType(pub u32);

/// VBS isolation is supported.
pub const ISOLATION_TYPE_VBS: u32 = 1;

/// AMD SEV-SNP isolation is supported.
pub const ISOLATION_TYPE_SNP: u32 = 2;

/// Intel TDX isolation is supported.
pub const ISOLATION_TYPE_TDX: u32 = 3;

/// The memory type reported from the boot shim to usermode: which VTL a
/// given memory range serves, as an open code.
#[derive(Debug, Clone, Copy, PartialEq, Eq, Structural)]
pub struct MemoryVtlType(pub u32);

/// This memory is for VTL0.
pub const MEMORY_TYPE_VTL0: u32 = 0;

/// This memory is used by VTL2 as regular ram.
pub const MEMORY_TYPE_VTL2_RAM: u32 = 1;

/// This memory holds VTL2 config data, reserved to the kernel.
pub const MEMORY_TYPE_VTL2_CONFIG: u32 = 2;

/// This memory is the VTL2 sidecar's image, reserved to the kernel.
pub const MEMORY_TYPE_VTL2_SIDECAR_IMAGE: u32 = 3;

/// This memory is VTL2 sidecar node memory, reserved to the kernel.
pub const MEMORY_TYPE_VTL2_SIDECAR_NODE: u32 = 4;

/// This range is mmio for VTL0.
pub const MEMORY_TYPE_VTL0_MMIO: u32 = 5;

/// This range is mmio for VTL2.
pub const MEMORY_TYPE_VTL2_MMIO: u32 = 6;

/// This memory holds VTL2 data that the kernel and usermode must preserve.
pub const MEMORY_TYPE_VTL2_RESERVED: u32 = 7;

/// This memory is a persisted GPA page pool for VTL2 usermode, reserved to
/// the kernel.
pub const MEMORY_TYPE_VTL2_GPA_POOL: u32 = 8;

impl MemoryVtlType {
    /// Whether this range is a ram type: VTL0 or VTL2 ram, config,
    /// sidecar image or node memory, the reserved region, or the GPA pool
    /// — not the mmio ranges and not an unknown code.
    pub open spec fn spec_ram(&self) -> bool {
        self.0 == MEMORY_TYPE_VTL0 || self.0 == MEMORY_TYPE_VTL2_RAM || self.0
            == MEMORY_TYPE_VTL2_CONFIG || self.0 == MEMORY_TYPE_VTL2_SIDECAR_IMAGE || self.0
            == MEMORY_TYPE_VTL2_SIDECAR_NODE || self.0 == MEMORY_TYPE_VTL2_RESERVED || self.0
            == MEMORY_TYPE_VTL2_GPA_POOL
    }

    /// Returns true if this range is a ram type.
    pub fn ram(&self) -> (r: bool)
        ensures
            r == self.spec_ram(),
    {
        self.0 == MEMORY_TYPE_VTL0 || self.0 == MEMORY_TYPE_VTL2_RAM || self.0
            == MEMORY_TYPE_VTL2_CONFIG || self.0 == MEMORY_TYPE_VTL2_SIDECAR_IMAGE || self.0
            == MEMORY_TYPE_VTL2_SIDECAR_NODE || self.0 == MEMORY_TYPE_VTL2_RESERVED || self.0
            == MEMORY_TYPE_VTL2_GPA_POOL
    }
}

/// The initial state of a TD virtual processor: loaded at the start of the
/// reset-vector page, and read from memory by the trampoline code, for the
/// bootstrap processor and application processors alike.
#[derive(Debug, Clone, Copy)]
pub struct TdxTrampolineContext {
    /// Mailbox command.
    pub mailbox_command: u16,
    /// Reserved.
    pub mailbox_reserved: u16,
    /// Mailbox APIC ID.
    pub mailbox_apic_id: u32,
    /// AP wakeup vector.
    pub mailbox_wakeup_vector: u64,
    /// Padding.
    pub padding_1: u32,
    /// Data selector.
    pub data_selector: u16,
    /// Static GDT limit.
    pub static_gdt_limit: u16,
    /// Static GDT base.
    pub static_gdt_base: u32,
    /// Task selector.
    pub task_selector: u16,
    /// IDTR limit.
    pub idtr_limit: u16,
    /// IDTR base.
    pub idtr_base: u64,
    /// Initial RIP.
    pub initial_rip: u64,
    /// CS.
    pub code_selector: u16,
    /// Padding.
    pub padding_2: [u16; 2],
    /// GDTR limit.
    pub gdtr_limit: u16,
    /// GDTR base.
    pub gdtr_base: u64,
    /// RSP.
    pub rsp: u64,
    /// RBP.
    pub rbp: u64,
    /// RSI.
    pub rsi: u64,
    /// R8.
    pub r8: u64,
    /// R9.
    pub r9: u64,
    /// R10.
    pub r10: u64,
    /// R11.
    pub r11: u64,
    /// CR0.
    pub cr0: u64,
    /// CR3.
    pub cr3: u64,
    /// CR4.
    pub cr4: u64,
    /// Transition CR3.
    pub transition_cr3: u32,
    /// Padding.
    pub padding_3: u32,
    /// Static GDT.
    pub static_gdt: [u8; 16],
}

} // verus!
