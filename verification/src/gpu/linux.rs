//! Linux: what the entries of /sys/class/drm say. amdgpu/i915/xe expose
//! mem_info_vram_total; anything else falls back to the PCI vendor id with
//! no VRAM figure. NVIDIA seen here without NVML having succeeded =>
//! DriverMissing.

use vstd::prelude::*;
use crate::gpu::heuristics::os_probe_state;
use crate::text::{
    chars_of, contains, parse_u64, parse_unsigned, parse_unsigned_range, starts_with, str_contains,
    str_starts_with, trim, trim_bounds, trimmed,
};
use crate::types::{
    bytes_to_mb, gpu_views, mb_of_bytes, opt_chars, vendor_of_pci_id, GpuInfo, GpuState, GpuVendor,
    GpuView,
};

verus! {

/// What was read for one entry of /sys/class/drm: its name and, under its
/// `device` directory, the files `vendor`, `device` and `mem_info_vram_total`
/// (None where a file could not be read).
pub struct DrmEntry {
    pub name: String,
    pub vendor: Option<String>,
    pub device: Option<String>,
    pub vram_total: Option<String>,
}

/// A GPU's own entry (card0, card1, ...), not a connector like card0-HDMI-A-1.
pub open spec fn is_card_name(name: Seq<char>) -> bool {
    starts_with(name, "card"@) && !contains(name, "-"@)
}

/// Whether `name` names a GPU rather than one of its connectors.
pub fn is_card(name: &str) -> (b: bool)
    ensures
        b == is_card_name(name@),
{
    str_starts_with(name, "card") && !str_contains(name, "-")
}

/// The position after every leading "0x" of `s`, starting at `i`
/// (`str::trim_start_matches("0x")`).
pub open spec fn strip_0x_from(s: Seq<char>, i: int) -> int
    decreases s.len() - i,
{
    if 0 <= i && i + 2 <= s.len() && s[i] == '0' && s[i + 1] == 'x' {
        strip_0x_from(s, i + 2)
    } else {
        i
    }
}

/// A sysfs hex id: the text trimmed, its leading "0x"s removed, then read
/// as a hexadecimal `u16`.
pub open spec fn hex_u16_of(text: Seq<char>) -> Option<u16> {
    let t = trimmed(text);
    match parse_unsigned(t.skip(strip_0x_from(t, 0)), 16, 0xffff) {
        Some(n) => Some(n as u16),
        None => None,
    }
}

/// Read a sysfs hex id such as "0x10de\n".
pub fn parse_hex_u16(text: &str) -> (r: Option<u16>)
    ensures
        r == hex_u16_of(text@),
{
    let v = chars_of(text);
    let (a, b) = trim_bounds(&v);
    let ghost t = v@.subrange(a as int, b as int);
    let mut k = a;
    while b - k >= 2 && v[k] == '0' && v[k + 1] == 'x'
        invariant
            a <= k <= b <= v.len(),
            t == v@.subrange(a as int, b as int),
            strip_0x_from(t, 0) == strip_0x_from(t, k - a),
        decreases b - k,
    {
        assert(t[k - a] == v@[k as int] && t[k - a + 1] == v@[k + 1]);
        k = k + 2;
    }
    assert(strip_0x_from(t, k - a) == k - a);
    assert(t.skip(k - a) =~= v@.subrange(k as int, b as int));
    match parse_unsigned_range(&v, k, b, 16, 0xffff) {
        Some(n) => Some(n as u16),
        None => None,
    }
}

/// The VRAM in megabytes that a `mem_info_vram_total` file gives (a byte
/// count, whitespace around it allowed).
pub open spec fn vram_total_mb(text: Option<Seq<char>>) -> Option<u64> {
    match text {
        Some(t) => match parse_u64(trimmed(t)) {
            Some(bytes) => Some(mb_of_bytes(bytes)),
            None => None,
        },
        None => None,
    }
}

/// Read a `mem_info_vram_total` file's content as megabytes.
pub fn parse_vram_total(text: &Option<String>) -> (r: Option<u64>)
    ensures
        r == vram_total_mb(opt_chars(*text)),
{
    match text {
        Some(t) => {
            let v = chars_of(t.as_str());
            let (a, b) = trim_bounds(&v);
            match parse_unsigned_range(&v, a, b, 10, u64::MAX) {
                Some(bytes) => Some(bytes_to_mb(bytes)),
                None => None,
            }
        },
        None => None,
    }
}

/// The characters of an optional file's content, empty when it is missing.
pub open spec fn or_empty(text: Option<Seq<char>>) -> Seq<char> {
    match text {
        Some(t) => t,
        None => Seq::empty(),
    }
}

/// "vendor <vendor id> device <device id>" from the trimmed `vendor` and
/// `device` files.
pub open spec fn pci_hint(vendor: Option<Seq<char>>, device: Option<Seq<char>>) -> Seq<char> {
    "vendor "@ + trimmed(or_empty(vendor)) + " device "@ + trimmed(or_empty(device))
}

/// The trimmed content of an optional file, empty when it is missing.
fn trimmed_or_empty(text: &Option<String>) -> (r: &str)
    ensures
        r@ == trimmed(or_empty(opt_chars(*text))),
{
    match text {
        Some(t) => trim(t.as_str()),
        None => {
            let e = "";
            proof {
                reveal_strlit("");
                assert(trimmed(Seq::<char>::empty()) =~= Seq::<char>::empty());
            }
            e
        },
    }
}

/// Without a pci.ids database, report "vendor 0xVVVV device 0xDDDD".
/// Good enough for a hint; a pci.ids lookup is a later nicety.
pub fn pci_device_hint(vendor: &Option<String>, device: &Option<String>) -> (hint: String)
    ensures
        hint@ == pci_hint(opt_chars(*vendor), opt_chars(*device)),
{
    let mut hint = "vendor ".to_owned();
    hint.append(trimmed_or_empty(vendor));
    hint.append(" device ");
    hint.append(trimmed_or_empty(device));
    hint
}

/// What one /sys/class/drm entry reports: nothing for connectors, for
/// entries without a readable vendor id, and for NVIDIA cards that NVML has
/// already reported.
pub open spec fn card_view(e: DrmEntry, nvml_succeeded: bool) -> Option<GpuView> {
    if !is_card_name(e.name@) {
        None
    } else {
        match e.vendor {
            None => None,
            Some(vt) => match hex_u16_of(vt@) {
                None => None,
                Some(id) => {
                    let vendor = vendor_of_pci_id(id);
                    let model = pci_hint(opt_chars(e.vendor), opt_chars(e.device));
                    if vendor == GpuVendor::Nvidia {
                        if nvml_succeeded {
                            None
                        } else {
                            Some(
                                GpuView {
                                    vendor,
                                    model,
                                    vram_mb: None,
                                    shared: false,
                                    state: GpuState::DriverMissing,
                                    primary: false,
                                },
                            )
                        }
                    } else {
                        let vram_mb = vram_total_mb(opt_chars(e.vram_total));
                        Some(
                            GpuView {
                                vendor,
                                model,
                                vram_mb,
                                shared: match vram_mb {
                                    Some(v) => v <= 1024,
                                    None => true,
                                },
                                state: os_probe_state(vendor),
                                primary: false,
                            },
                        )
                    }
                },
            },
        }
    }
}

/// What the /sys/class/drm entries report, in order.
pub open spec fn linux_gpus(entries: Seq<DrmEntry>, nvml_succeeded: bool) -> Seq<GpuView>
    decreases entries.len(),
{
    if entries.len() == 0 {
        Seq::empty()
    } else {
        let rest = linux_gpus(entries.drop_last(), nvml_succeeded);
        match card_view(entries.last(), nvml_succeeded) {
            Some(g) => rest.push(g),
            None => rest,
        }
    }
}

/// Law: every GPU that /sys/class/drm reports is unmarked, NVIDIA exactly
/// when its driver API is missing, and never NVIDIA once NVML has succeeded.
pub proof fn law_linux_reports(entries: Seq<DrmEntry>, nvml_succeeded: bool)
    ensures
        forall|i: int|
            0 <= i < linux_gpus(entries, nvml_succeeded).len() ==> {
                let g = #[trigger] linux_gpus(entries, nvml_succeeded)[i];
                &&& !g.primary
                &&& (g.state == GpuState::DriverMissing <==> g.vendor == GpuVendor::Nvidia)
                &&& !(nvml_succeeded && g.vendor == GpuVendor::Nvidia)
            },
    decreases entries.len(),
{
    if entries.len() > 0 {
        law_linux_reports(entries.drop_last(), nvml_succeeded);
    }
}

/// Law: NVML's success hides only NVIDIA cards. A card whose vendor id names
/// any other vendor is reported, the same whether or not NVML succeeded; an
/// NVIDIA card is hidden exactly when NVML succeeded.
pub proof fn law_nvml_hides_only_nvidia_cards(e: DrmEntry, id: u16)
    requires
        is_card_name(e.name@),
        e.vendor matches Some(t) && hex_u16_of(t@) == Some(id),
    ensures
        vendor_of_pci_id(id) != GpuVendor::Nvidia ==> card_view(e, true) == card_view(e, false)
            && card_view(e, true) is Some,
        vendor_of_pci_id(id) == GpuVendor::Nvidia ==> (card_view(e, true) is None && card_view(
            e,
            false,
        ) is Some),
{
}

/// Interpret one /sys/class/drm entry.
pub fn card_gpu(e: &DrmEntry, nvml_succeeded: bool) -> (r: Option<GpuInfo>)
    ensures
        match card_view(*e, nvml_succeeded) {
            Some(g) => r matches Some(x) && x@ == g,
            None => r is None,
        },
{
    // card0, card1... skip connectors like card0-HDMI-A-1
    if !is_card(e.name.as_str()) {
        return None;
    }
    let vendor_id = match &e.vendor {
        Some(t) => match parse_hex_u16(t.as_str()) {
            Some(id) => id,
            None => {
                return None;
            },
        },
        None => {
            return None;
        },
    };
    let vendor = GpuVendor::from_pci_id(vendor_id);
    if vendor == GpuVendor::Nvidia {
        if nvml_succeeded {
            return None;  // already reported with exact numbers
        }
        return Some(
            GpuInfo {
                vendor,
                model: pci_device_hint(&e.vendor, &e.device),
                vram_mb: None,
                shared: false,
                state: GpuState::DriverMissing,  // hardware present, NVML absent
                primary: false,
            },
        );
    }
    let vram_mb = parse_vram_total(&e.vram_total);
    // Heuristic: iGPUs (Intel non-Arc, AMD APU) report small/absent VRAM
    let shared = match vram_mb {
        Some(v) => v <= 1024,
        None => true,
    };
    Some(
        GpuInfo {
            vendor,
            model: pci_device_hint(&e.vendor, &e.device),
            vram_mb,
            shared,
            state: GpuState::Usable,
            primary: false,
        },
    )
}

/// Probes 2+3 on Linux: the GPUs that the /sys/class/drm entries show.
pub fn probe(entries: &Vec<DrmEntry>, nvml_succeeded: bool) -> (gpus: Vec<GpuInfo>)
    ensures
        gpu_views(gpus@) == linux_gpus(entries@, nvml_succeeded),
{
    let mut gpus: Vec<GpuInfo> = Vec::new();
    let mut i: usize = 0;
    while i < entries.len()
        invariant
            i <= entries.len(),
            gpu_views(gpus@) == linux_gpus(entries@.take(i as int), nvml_succeeded),
        decreases entries.len() - i,
    {
        assert(entries@.take(i + 1).drop_last() =~= entries@.take(i as int));
        assert(entries@.take(i + 1).last() == entries@[i as int]);
        let ghost before = gpus@;
        match card_gpu(&entries[i], nvml_succeeded) {
            Some(g) => {
                gpus.push(g);
                assert(gpu_views(gpus@) =~= gpu_views(before).push(g@));
            },
            None => {},
        }
        i = i + 1;
    }
    assert(entries@.take(entries.len() as int) =~= entries@);
    gpus
}

} // verus!
