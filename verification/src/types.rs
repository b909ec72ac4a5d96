//! The data the library reports: one `HardwareInfo` per machine, one
//! `GpuInfo` per GPU.

use vstd::prelude::*;

verus! {

/// Everything that `detect` finds about a machine.
#[derive(Debug, Clone)]
pub struct HardwareInfo {
    pub ram_mb: u64,
    /// "DDR4", "DDR5", "LPDDR5", ... None if undetectable (e.g. Linux without root)
    pub ram_kind: Option<String>,
    pub gpus: Vec<GpuInfo>,
    /// Apple Silicon: CPU and GPU share ram_mb
    pub unified_memory: bool,
    /// macOS only: MTLDevice.recommendedMaxWorkingSetSize in MB, the
    /// authoritative "usable by GPU" number. None elsewhere.
    pub metal_max_working_set_mb: Option<u64>,
}

/// One GPU as a probe reports it.
#[derive(Debug, Clone)]
pub struct GpuInfo {
    pub vendor: GpuVendor,
    pub model: String,
    /// None = shared/unknown
    pub vram_mb: Option<u64>,
    /// true = iGPU / dynamic shared memory, not dedicated VRAM
    pub shared: bool,
    pub state: GpuState,
    /// Highest dedicated VRAM among detected GPUs
    pub primary: bool,
}

/// The maker of a GPU, known from its PCI vendor id.
#[derive(Debug, Clone, Copy, PartialEq, Eq, Structural)]
pub enum GpuVendor {
    Nvidia,
    Amd,
    Intel,
    Apple,
    Other(u16),  // PCI vendor id
}

/// Whether a usable driver API answered for a GPU.
#[derive(Debug, Clone, Copy, PartialEq, Eq, Structural)]
pub enum GpuState {
    /// A driver API answered for it.
    Usable,
    /// Hardware present (PCI vendor id seen) but no usable driver API.
    /// NVIDIA: NVML failed to load => proprietary driver absent (incl. nouveau).
    DriverMissing,
}

/// The vendor that a PCI vendor id names.
pub open spec fn vendor_of_pci_id(id: u16) -> GpuVendor {
    if id == 0x10de {
        GpuVendor::Nvidia
    } else if id == 0x1002 {
        GpuVendor::Amd
    } else if id == 0x8086 {
        GpuVendor::Intel
    } else if id == 0x106b {
        GpuVendor::Apple
    } else {
        GpuVendor::Other(id)
    }
}

/// Law: different PCI vendor ids give different vendors; an id that names
/// none of the known vendors is kept as it is.
pub proof fn law_pci_vendor_injective(a: u16, b: u16)
    ensures
        vendor_of_pci_id(a) == vendor_of_pci_id(b) ==> a == b,
        vendor_of_pci_id(a) matches GpuVendor::Other(x) ==> x == a,
{
}

/// What a `GpuInfo` says, with its model name taken by its characters.
pub struct GpuView {
    pub vendor: GpuVendor,
    pub model: Seq<char>,
    pub vram_mb: Option<u64>,
    pub shared: bool,
    pub state: GpuState,
    pub primary: bool,
}

impl View for GpuInfo {
    type V = GpuView;

    open spec fn view(&self) -> GpuView {
        GpuView {
            vendor: self.vendor,
            model: self.model@,
            vram_mb: self.vram_mb,
            shared: self.shared,
            state: self.state,
            primary: self.primary,
        }
    }
}

/// Bytes counted in whole megabytes (MiB), rounding down.
pub open spec fn mb_of_bytes(bytes: u64) -> u64 {
    (bytes / 1048576) as u64
}

/// Bytes counted in whole megabytes (MiB), rounding down.
pub fn bytes_to_mb(bytes: u64) -> (mb: u64)
    ensures
        mb == mb_of_bytes(bytes),
{
    bytes / 1048576
}

/// The characters of an optional string.
pub open spec fn opt_chars(s: Option<String>) -> Option<Seq<char>> {
    match s {
        Some(t) => Some(t@),
        None => None,
    }
}

/// The views of a sequence of GPUs.
pub open spec fn gpu_views(gpus: Seq<GpuInfo>) -> Seq<GpuView> {
    gpus.map_values(|g: GpuInfo| g@)
}

/// What a `HardwareInfo` says, with strings taken by their characters.
pub struct HardwareView {
    pub ram_mb: u64,
    pub ram_kind: Option<Seq<char>>,
    pub gpus: Seq<GpuView>,
    pub unified_memory: bool,
    pub metal_max_working_set_mb: Option<u64>,
}

impl View for HardwareInfo {
    type V = HardwareView;

    open spec fn view(&self) -> HardwareView {
        HardwareView {
            ram_mb: self.ram_mb,
            ram_kind: opt_chars(self.ram_kind),
            gpus: gpu_views(self.gpus@),
            unified_memory: self.unified_memory,
            metal_max_working_set_mb: self.metal_max_working_set_mb,
        }
    }
}

impl GpuVendor {
    /// The vendor that a PCI vendor id names; unknown ids are kept as `Other(id)`.
    pub fn from_pci_id(id: u16) -> (v: Self)
        ensures
            v == vendor_of_pci_id(id),
    {
        match id {
            0x10de => GpuVendor::Nvidia,
            0x1002 => GpuVendor::Amd,
            0x8086 => GpuVendor::Intel,
            0x106b => GpuVendor::Apple,
            other => GpuVendor::Other(other),
        }
    }
}

} // verus!
