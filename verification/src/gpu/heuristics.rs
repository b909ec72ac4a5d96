//! Platform-neutral interpretation logic: the probes fetch, this decides.

use vstd::prelude::*;
use crate::text::{
    chars_of, contains, is_ws, nth_word, skip_ws_from, word_end_from, occurs_at_exec, parse_u64, parse_unsigned_range, skip_ws,
    str_contains, word_bounds, word_end,
};
use crate::json::{get, json_get, json_text_value, parse_json_text, JsonValue};
use crate::types::{gpu_views, vendor_of_pci_id, GpuInfo, GpuState, GpuVendor, GpuView};

verus! {

/// What `parse_vram_mb` gives for the characters `s`: a number and a unit
/// ("GB" or "MB") as the first two whitespace-separated words; gigabytes are
/// counted as 1024 megabytes, and a count of megabytes that does not fit in
/// a `u64` gives nothing.
pub open spec fn vram_mb_of(s: Seq<char>) -> Option<u64> {
    match parse_u64(nth_word(s, 0)) {
        None => None,
        Some(n) => if nth_word(s, 1) == "GB"@ {
            if n * 1024 <= u64::MAX {
                Some((n * 1024) as u64)
            } else {
                None
            }
        } else if nth_word(s, 1) == "MB"@ {
            Some(n)
        } else {
            None
        },
    }
}

/// The word that starts at `i` ends at the first whitespace `e`.
proof fn lemma_word_end_at(s: Seq<char>, i: int, e: int)
    requires
        0 <= i <= e < s.len(),
        forall|k: int| i <= k < e ==> !is_ws(#[trigger] s[k]),
        is_ws(s[e]),
    ensures
        word_end_from(s, i) == e,
    decreases e - i,
{
    if i < e {
        lemma_word_end_at(s, i + 1, e);
    }
}

/// The words of `w` followed by a space and a two-letter unit.
proof fn lemma_number_and_unit(w: Seq<char>, unit: Seq<char>)
    requires
        w.len() > 0,
        forall|k: int| 0 <= k < w.len() ==> !is_ws(#[trigger] w[k]),
        unit.len() == 2,
        !is_ws(unit[0]),
        !is_ws(unit[1]),
    ensures
        nth_word(w + seq![' '] + unit, 0) == w,
        nth_word(w + seq![' '] + unit, 1) == unit,
{
    let s = w + seq![' '] + unit;
    let n = w.len() as int;
    assert(s[0] == w[0]);
    assert(skip_ws_from(s, 0) == 0);
    assert forall|k: int| 0 <= k < n implies !is_ws(#[trigger] s[k]) by {
        assert(s[k] == w[k]);
    }
    assert(s[n] == ' ');
    lemma_word_end_at(s, 0, n);
    assert(word_bounds(s, 0) == (0int, n));
    assert(s.subrange(0, n) =~= w);
    assert(s[n + 1] == unit[0] && s[n + 2] == unit[1]);
    assert(skip_ws_from(s, n + 1) == n + 1);
    assert(skip_ws_from(s, n) == n + 1);
    assert(word_end_from(s, n + 3) == n + 3);
    assert(word_end_from(s, n + 2) == n + 3);
    assert(word_end_from(s, n + 1) == n + 3);
    assert(word_bounds(s, 1) == (n + 1, n + 3));
    assert(s.subrange(n + 1, n + 3) =~= unit);
}

/// Law: for the same number, "<n> GB" is 1024 times "<n> MB", and nothing
/// when that many megabytes do not fit in a `u64`.
pub proof fn law_gb_is_1024_mb(w: Seq<char>)
    requires
        w.len() > 0,
        forall|k: int| 0 <= k < w.len() ==> !is_ws(#[trigger] w[k]),
    ensures
        vram_mb_of(w + " GB"@) == match vram_mb_of(w + " MB"@) {
            Some(n) => if n * 1024 <= u64::MAX {
                Some((n * 1024) as u64)
            } else {
                None
            },
            None => None,
        },
{
    reveal_strlit(" GB");
    reveal_strlit(" MB");
    reveal_strlit("GB");
    reveal_strlit("MB");
    assert(" GB"@ =~= seq![' '] + "GB"@);
    assert(" MB"@ =~= seq![' '] + "MB"@);
    assert(w + " GB"@ =~= w + seq![' '] + "GB"@);
    assert(w + " MB"@ =~= w + seq![' '] + "MB"@);
    lemma_number_and_unit(w, "GB"@);
    lemma_number_and_unit(w, "MB"@);
    assert("MB"@ != "GB"@) by {
        assert("MB"@[0] != "GB"@[0]);
    }
}

/// Whether `v[a..e]` holds exactly the characters of `pat`.
fn range_is(v: &Vec<char>, a: usize, e: usize, pat: &str) -> (b: bool)
    requires
        a <= e <= v.len(),
    ensures
        b == (v@.subrange(a as int, e as int) == pat@),
{
    let p = chars_of(pat);
    if e - a != p.len() {
        return false;
    }
    occurs_at_exec(v, &p, a)
}

/// "8 GB" / "1536 MB" strings from system_profiler.
pub fn parse_vram_mb(s: &str) -> (r: Option<u64>)
    ensures
        r == vram_mb_of(s@),
{
    let v = chars_of(s);
    let a1 = skip_ws(&v, 0);
    let e1 = word_end(&v, a1);
    let a2 = skip_ws(&v, e1);
    let e2 = word_end(&v, a2);
    proof {
        assert(word_bounds(s@, 0) == (a1 as int, e1 as int));
        assert(word_bounds(s@, 1) == (a2 as int, e2 as int));
    }
    let n = match parse_unsigned_range(&v, a1, e1, 10, u64::MAX) {
        None => {
            return None;
        },
        Some(n) => n,
    };
    if range_is(&v, a2, e2, "GB") {
        n.checked_mul(1024)
    } else if range_is(&v, a2, e2, "MB") {
        Some(n)
    } else {
        None
    }
}

/// The vendor that an Intel Mac's GPU model name names.
pub open spec fn intel_mac_vendor(model: Seq<char>) -> GpuVendor {
    if contains(model, "Intel"@) {
        GpuVendor::Intel
    } else if contains(model, "AMD"@) || contains(model, "Radeon"@) {
        GpuVendor::Amd
    } else if contains(model, "NVIDIA"@) || contains(model, "GeForce"@) {
        GpuVendor::Nvidia
    } else {
        GpuVendor::Other(0)
    }
}

/// Whether an Intel Mac's GPU with this VRAM is an iGPU (at most 1536 MB,
/// or no figure at all).
pub open spec fn intel_mac_shared(vram_mb: Option<u64>) -> bool {
    match vram_mb {
        None => true,
        Some(v) => v <= 1536,
    }
}

/// What an Intel Mac reports for a GPU with this model name and VRAM.
pub open spec fn intel_mac_view(model: Seq<char>, vram_mb: Option<u64>) -> GpuView {
    GpuView {
        vendor: intel_mac_vendor(model),
        model,
        vram_mb,
        shared: intel_mac_shared(vram_mb),
        state: GpuState::Usable,
        primary: false,
    }
}

/// Interpret one entry of SPDisplaysDataType (Intel Macs).
pub fn intel_mac_gpu(model: &str, vram_mb: Option<u64>) -> (g: GpuInfo)
    ensures
        g@ == intel_mac_view(model@, vram_mb),
{
    let vendor = if str_contains(model, "Intel") {
        GpuVendor::Intel
    } else if str_contains(model, "AMD") || str_contains(model, "Radeon") {
        GpuVendor::Amd
    } else if str_contains(model, "NVIDIA") || str_contains(model, "GeForce") {
        GpuVendor::Nvidia
    } else {
        GpuVendor::Other(0)
    };
    // Intel-Mac iGPUs carve out <=1536 MB dynamic VRAM
    let shared = match vram_mb {
        None => true,
        Some(v) => v <= 1536,
    };
    GpuInfo {
        shared,
        vendor,
        model: model.to_owned(),
        vram_mb,
        state: GpuState::Usable,
        primary: false,
    }
}

/// The display entries of a SPDisplaysDataType document: its
/// "SPDisplaysDataType" member, when that is an array.
pub open spec fn intel_mac_cards(doc: JsonValue) -> Option<Seq<JsonValue>> {
    match json_get(doc, "SPDisplaysDataType"@) {
        Some(JsonValue::Array(cards)) => Some(cards@),
        _ => None,
    }
}

/// The model name of a display entry: its "sppci_model" string, else "GPU".
pub open spec fn card_model(card: JsonValue) -> Seq<char> {
    match json_get(card, "sppci_model"@) {
        Some(JsonValue::Str(m)) => m@,
        _ => "GPU"@,
    }
}

/// The VRAM of a display entry: its "spdisplays_vram" string read by
/// `parse_vram_mb`, else nothing.
pub open spec fn card_vram(card: JsonValue) -> Option<u64> {
    match json_get(card, "spdisplays_vram"@) {
        Some(JsonValue::Str(v)) => vram_mb_of(v@),
        _ => None,
    }
}

/// What a SPDisplaysDataType document reports: one GPU per display entry,
/// in order, or none when there is no document or it has no such array.
pub open spec fn intel_mac_views(doc: Option<JsonValue>) -> Seq<GpuView> {
    match doc {
        Some(d) => match intel_mac_cards(d) {
            Some(cards) => cards.map_values(
                |c: JsonValue| intel_mac_view(card_model(c), card_vram(c)),
            ),
            None => Seq::empty(),
        },
        None => Seq::empty(),
    }
}

/// Law: each display entry of the SPDisplaysDataType array gives the GPU at
/// its own position, from its own members: a string "sppci_model" m gives
/// model m and the vendor that m names, and a string "spdisplays_vram" v
/// gives the VRAM that `parse_vram_mb` reads from v.
pub proof fn law_each_card_gives_its_gpu(doc: JsonValue, i: int)
    requires
        intel_mac_cards(doc) is Some,
        0 <= i < intel_mac_cards(doc)->0.len(),
    ensures
        ({
            let cards = intel_mac_cards(doc)->0;
            let gpus = intel_mac_views(Some(doc));
            &&& gpus.len() == cards.len()
            &&& (json_get(cards[i], "sppci_model"@) matches Some(JsonValue::Str(m)) ==> gpus[i].model
                == m@ && gpus[i].vendor == intel_mac_vendor(m@))
            &&& (json_get(cards[i], "spdisplays_vram"@) matches Some(JsonValue::Str(v))
                ==> gpus[i].vram_mb == vram_mb_of(v@))
            &&& gpus[i].state == GpuState::Usable
            &&& !gpus[i].primary
        }),
{
}

/// Interpret a parsed SPDisplaysDataType document (Intel Macs).
pub fn intel_mac_gpus(doc: &JsonValue) -> (gpus: Vec<GpuInfo>)
    ensures
        gpu_views(gpus@) == intel_mac_views(Some(*doc)),
{
    let mut gpus: Vec<GpuInfo> = Vec::new();
    let cards = match get(doc, "SPDisplaysDataType") {
        Some(JsonValue::Array(cards)) => cards,
        _ => {
            assert(gpu_views(gpus@) =~= intel_mac_views(Some(*doc)));
            return gpus;
        },
    };
    let mut i: usize = 0;
    while i < cards.len()
        invariant
            intel_mac_cards(*doc) == Some(cards@),
            i <= cards.len(),
            gpus.len() == i,
            forall|j: int|
                0 <= j < i ==> (#[trigger] gpus@[j])@ == intel_mac_view(
                    card_model(cards@[j]),
                    card_vram(cards@[j]),
                ),
        decreases cards.len() - i,
    {
        let card = &cards[i];
        let model: &str = match get(card, "sppci_model") {
            Some(JsonValue::Str(m)) => m.as_str(),
            _ => "GPU",
        };
        let vram_mb = match get(card, "spdisplays_vram") {
            Some(JsonValue::Str(v)) => parse_vram_mb(v.as_str()),
            _ => None,
        };
        gpus.push(intel_mac_gpu(model, vram_mb));
        i = i + 1;
    }
    assert(gpu_views(gpus@) =~= intel_mac_views(Some(*doc)));
    gpus
}

/// Parse full SPDisplaysDataType -json output (Intel Macs).
pub fn parse_intel_mac_json(json: &str) -> (gpus: Vec<GpuInfo>)
    ensures
        gpu_views(gpus@) == intel_mac_views(json_text_value(json@)),
{
    match parse_json_text(json) {
        Some(doc) => intel_mac_gpus(&doc),
        None => {
            let gpus = Vec::new();
            assert(gpu_views(gpus@) =~= intel_mac_views(None));
            gpus
        },
    }
}

/// Whether `dxgi_gpu` skips an adapter: the software rasteriser, or an
/// NVIDIA adapter that NVML has already reported.
pub open spec fn dxgi_skips(vendor_id: u16, nvml_succeeded: bool) -> bool {
    vendor_id == 0x1414 || (vendor_of_pci_id(vendor_id) == GpuVendor::Nvidia && nvml_succeeded)
}

/// The state of an adapter that the OS enumerates: NVIDIA hardware seen
/// without NVML has no usable driver API.
pub open spec fn os_probe_state(vendor: GpuVendor) -> GpuState {
    if vendor == GpuVendor::Nvidia {
        GpuState::DriverMissing
    } else {
        GpuState::Usable
    }
}

/// Interpret one DXGI adapter descriptor (Windows). None = skip this adapter.
pub fn dxgi_gpu(vendor_id: u16, dedicated_mb: u64, model: String, nvml_succeeded: bool) -> (r:
    Option<GpuInfo>)
    ensures
        r is None <==> dxgi_skips(vendor_id, nvml_succeeded),
        r matches Some(g) ==> g@ == (GpuView {
            vendor: vendor_of_pci_id(vendor_id),
            model: model@,
            vram_mb: if dedicated_mb > 0 {
                Some(dedicated_mb)
            } else {
                None
            },
            shared: dedicated_mb <= 1024,
            state: os_probe_state(vendor_of_pci_id(vendor_id)),
            primary: false,
        }),
{
    // Microsoft Basic Render Driver (software rasteriser)
    if vendor_id == 0x1414 {
        return None;
    }
    let vendor = GpuVendor::from_pci_id(vendor_id);
    if vendor == GpuVendor::Nvidia && nvml_succeeded {
        return None;  // NVML already reported it with exact numbers
    }
    Some(
        GpuInfo {
            vendor,
            model,
            vram_mb: if dedicated_mb > 0 {
                Some(dedicated_mb)
            } else {
                None
            },
            shared: dedicated_mb <= 1024,  // iGPUs carve <=1 GB dedicated
            state: if vendor == GpuVendor::Nvidia {
                GpuState::DriverMissing
            } else {
                GpuState::Usable
            },
            primary: false,
        },
    )
}

} // verus!
