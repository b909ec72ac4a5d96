//! Windows: what DXGI adapter enumeration says. DedicatedVideoMemory is
//! reliable (unlike WMI's 4 GB-capped AdapterRAM); NVIDIA adapters seen
//! here without NVML => DriverMissing.

use vstd::prelude::*;
use crate::gpu::heuristics::os_probe_state;
use crate::text::chars_of;
use crate::types::{
    gpu_views, mb_of_bytes, bytes_to_mb, vendor_of_pci_id, GpuInfo, GpuState, GpuVendor, GpuView,
};

verus! {

/// What was read of one DXGI adapter descriptor: `VendorId`,
/// `DedicatedVideoMemory` in bytes, and `Description` decoded from UTF-16.
pub struct DxgiAdapter {
    pub vendor_id: u32,
    pub dedicated_bytes: u64,
    pub description: String,
}

/// The end of `s.take(j)` once trailing NUL characters are removed
/// (`str::trim_end_matches('\0')`).
pub open spec fn trim_nul_end_to(s: Seq<char>, j: int) -> int
    decreases j,
{
    if 0 < j <= s.len() && s[j - 1] == '\0' {
        trim_nul_end_to(s, j - 1)
    } else {
        j
    }
}

/// A fixed-size UTF-16 description without its NUL padding.
pub open spec fn adapter_name(description: Seq<char>) -> Seq<char> {
    description.take(trim_nul_end_to(description, description.len() as int))
}

/// The description of an adapter without its trailing NUL padding.
pub fn trim_nul_end(description: &str) -> (r: String)
    ensures
        r@ == adapter_name(description@),
{
    let v = chars_of(description);
    let mut j = v.len();
    while j > 0 && v[j - 1] == '\0'
        invariant
            j <= v.len(),
            trim_nul_end_to(v@, v@.len() as int) == trim_nul_end_to(v@, j as int),
        decreases j,
    {
        j = j - 1;
    }
    description.substring_char(0, j).to_owned()
}

/// What one DXGI adapter reports: nothing for the software rasteriser
/// ("Microsoft Basic Render Driver", vendor 0x1414) and for NVIDIA adapters
/// that NVML has already reported. The software rasteriser is recognised by
/// the full `VendorId`; the vendor is then read from its low 16 bits.
pub open spec fn adapter_view(a: DxgiAdapter, nvml_succeeded: bool) -> Option<GpuView> {
    let id = a.vendor_id as u16;
    let mb = mb_of_bytes(a.dedicated_bytes);
    if a.vendor_id == 0x1414 || (vendor_of_pci_id(id) == GpuVendor::Nvidia && nvml_succeeded) {
        None
    } else {
        Some(
            GpuView {
                vendor: vendor_of_pci_id(id),
                model: adapter_name(a.description@),
                vram_mb: if mb > 0 {
                    Some(mb)
                } else {
                    None
                },
                shared: mb <= 1024,
                state: os_probe_state(vendor_of_pci_id(id)),
                primary: false,
            },
        )
    }
}

/// Law: NVML's success hides only NVIDIA adapters. An adapter of any other
/// vendor is reported the same whether or not NVML succeeded, and always
/// unless it is the software rasteriser; an NVIDIA adapter is hidden exactly
/// when NVML succeeded.
pub proof fn law_nvml_hides_only_nvidia(a: DxgiAdapter)
    ensures
        vendor_of_pci_id(a.vendor_id as u16) != GpuVendor::Nvidia ==> adapter_view(a, true)
            == adapter_view(a, false),
        vendor_of_pci_id(a.vendor_id as u16) != GpuVendor::Nvidia && a.vendor_id != 0x1414
            ==> adapter_view(a, true) is Some,
        vendor_of_pci_id(a.vendor_id as u16) == GpuVendor::Nvidia ==> (adapter_view(a, true) is None
            && adapter_view(a, false) is Some),
{
}

/// Interpret one DXGI adapter descriptor.
pub fn adapter_gpu(a: &DxgiAdapter, nvml_succeeded: bool) -> (r: Option<GpuInfo>)
    ensures
        match adapter_view(*a, nvml_succeeded) {
            Some(g) => r matches Some(x) && x@ == g,
            None => r is None,
        },
{
    // Skip "Microsoft Basic Render Driver" (software)
    if a.vendor_id == 0x1414 {
        return None;
    }
    let vendor = GpuVendor::from_pci_id(a.vendor_id as u16);
    if vendor == GpuVendor::Nvidia && nvml_succeeded {
        return None;
    }
    let dedicated_mb = bytes_to_mb(a.dedicated_bytes);
    Some(
        GpuInfo {
            vendor,
            model: trim_nul_end(a.description.as_str()),
            vram_mb: if dedicated_mb > 0 {
                Some(dedicated_mb)
            } else {
                None
            },
            shared: dedicated_mb <= 1024,  // iGPUs carve <=1 GB, rest is shared
            state: if vendor == GpuVendor::Nvidia {
                GpuState::DriverMissing
            } else {
                GpuState::Usable
            },
            primary: false,
        },
    )
}

/// What the DXGI adapters report, in enumeration order.
pub open spec fn windows_gpus(adapters: Seq<DxgiAdapter>, nvml_succeeded: bool) -> Seq<GpuView>
    decreases adapters.len(),
{
    if adapters.len() == 0 {
        Seq::empty()
    } else {
        let rest = windows_gpus(adapters.drop_last(), nvml_succeeded);
        match adapter_view(adapters.last(), nvml_succeeded) {
            Some(g) => rest.push(g),
            None => rest,
        }
    }
}

/// Law: every GPU that DXGI reports is unmarked, NVIDIA exactly when its
/// driver API is missing, and never NVIDIA once NVML has succeeded.
pub proof fn law_windows_reports(adapters: Seq<DxgiAdapter>, nvml_succeeded: bool)
    ensures
        forall|i: int|
            0 <= i < windows_gpus(adapters, nvml_succeeded).len() ==> {
                let g = #[trigger] windows_gpus(adapters, nvml_succeeded)[i];
                &&& !g.primary
                &&& (g.state == GpuState::DriverMissing <==> g.vendor == GpuVendor::Nvidia)
                &&& !(nvml_succeeded && g.vendor == GpuVendor::Nvidia)
            },
    decreases adapters.len(),
{
    if adapters.len() > 0 {
        law_windows_reports(adapters.drop_last(), nvml_succeeded);
    }
}

/// Probe 2 on Windows: the GPUs that the DXGI adapters show.
pub fn probe(adapters: &Vec<DxgiAdapter>, nvml_succeeded: bool) -> (gpus: Vec<GpuInfo>)
    ensures
        gpu_views(gpus@) == windows_gpus(adapters@, nvml_succeeded),
{
    let mut gpus: Vec<GpuInfo> = Vec::new();
    let mut i: usize = 0;
    while i < adapters.len()
        invariant
            i <= adapters.len(),
            gpu_views(gpus@) == windows_gpus(adapters@.take(i as int), nvml_succeeded),
        decreases adapters.len() - i,
    {
        assert(adapters@.take(i + 1).drop_last() =~= adapters@.take(i as int));
        assert(adapters@.take(i + 1).last() == adapters@[i as int]);
        let ghost before = gpus@;
        match adapter_gpu(&adapters[i], nvml_succeeded) {
            Some(g) => {
                gpus.push(g);
                assert(gpu_views(gpus@) =~= gpu_views(before).push(g@));
            },
            None => {},
        }
        i = i + 1;
    }
    assert(adapters@.take(adapters.len() as int) =~= adapters@);
    gpus
}

} // verus!
