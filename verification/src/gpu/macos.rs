//! macOS: Apple Silicon (one GPU, unified memory, Metal) and Intel Macs.

use vstd::prelude::*;
use crate::text::{contains, occurs_at, str_contains};
use crate::types::{gpu_views, mb_of_bytes, bytes_to_mb, GpuInfo, GpuState, GpuVendor, GpuView};

verus! {

/// Whether the CPU brand string (`sysctl -n machdep.cpu.brand_string`, None
/// when it could not be read) names an Apple chip.
pub open spec fn apple_brand(brand: Option<Seq<char>>) -> bool {
    match brand {
        Some(b) => contains(b, "Apple"@),
        None => false,
    }
}

/// Apple Silicon is recognised by "Apple" in the CPU brand string.
pub fn is_apple_silicon(brand: &Option<String>) -> (b: bool)
    ensures
        b == apple_brand(match brand {
            Some(s) => Some(s@),
            None => None,
        }),
{
    match brand {
        Some(s) => str_contains(s.as_str(), "Apple"),
        None => false,
    }
}

/// The name names a Pro, Max or Ultra tier of some chip.
pub open spec fn is_tiered(model: Seq<char>) -> bool {
    contains(model, " Pro"@) || contains(model, " Max"@) || contains(model, " Ultra"@)
}

/// Apple's published unified-memory bandwidth (theoretical GB/s) for the chip
/// that a Metal device name names: the first row of the table whose chip name
/// occurs in `model`. Tiered chips ("M4 Pro") come before the bases ("M4"),
/// and a tier that the table lacks ("M5 Pro", "M4 Ultra") has no figure, so
/// a tiered chip never matches its base row; Max-tier chips use the lower
/// memory-config bin. Unknown and future chips have no figure.
pub open spec fn apple_peak_bandwidth(model: Seq<char>) -> Option<u64> {
    if contains(model, "M1 Ultra"@) {
        Some(800)
    } else if contains(model, "M1 Max"@) {
        Some(400)
    } else if contains(model, "M1 Pro"@) {
        Some(200)
    } else if contains(model, "M2 Ultra"@) {
        Some(800)
    } else if contains(model, "M2 Max"@) {
        Some(400)
    } else if contains(model, "M2 Pro"@) {
        Some(200)
    } else if contains(model, "M3 Ultra"@) {
        Some(800)
    } else if contains(model, "M3 Max"@) {
        Some(300)
    } else if contains(model, "M3 Pro"@) {
        Some(150)
    } else if contains(model, "M4 Max"@) {
        Some(410)
    } else if contains(model, "M4 Pro"@) {
        Some(273)
    } else if is_tiered(model) {
        None
    } else if contains(model, "M1"@) {
        Some(68)
    } else if contains(model, "M2"@) {
        Some(100)
    } else if contains(model, "M3"@) {
        Some(102)
    } else if contains(model, "M4"@) {
        Some(120)
    } else if contains(model, "M5"@) {
        Some(153)
    } else {
        None
    }
}

/// Law: a Pro, Max or Ultra chip never gets the figure of its base chip's
/// row ("M4 Pro" never matches the "M4" row).
pub proof fn law_tier_never_matches_base(model: Seq<char>)
    ensures
        contains(model, "M1 Pro"@) || contains(model, "M1 Max"@) || contains(model, "M1 Ultra"@)
            ==> apple_peak_bandwidth(model) != Some(68u64),
        contains(model, "M2 Pro"@) || contains(model, "M2 Max"@) || contains(model, "M2 Ultra"@)
            ==> apple_peak_bandwidth(model) != Some(100u64),
        contains(model, "M3 Pro"@) || contains(model, "M3 Max"@) || contains(model, "M3 Ultra"@)
            ==> apple_peak_bandwidth(model) != Some(102u64),
        contains(model, "M4 Pro"@) || contains(model, "M4 Max"@) || contains(model, "M4 Ultra"@)
            ==> apple_peak_bandwidth(model) != Some(120u64),
        contains(model, "M5 Pro"@) || contains(model, "M5 Max"@) || contains(model, "M5 Ultra"@)
            ==> apple_peak_bandwidth(model) != Some(153u64),
{
    reveal_strlit(" Pro");
    reveal_strlit(" Max");
    reveal_strlit(" Ultra");
    reveal_strlit("M1 Pro");
    reveal_strlit("M1 Max");
    reveal_strlit("M1 Ultra");
    reveal_strlit("M2 Pro");
    reveal_strlit("M2 Max");
    reveal_strlit("M2 Ultra");
    reveal_strlit("M3 Pro");
    reveal_strlit("M3 Max");
    reveal_strlit("M3 Ultra");
    reveal_strlit("M4 Pro");
    reveal_strlit("M4 Max");
    reveal_strlit("M4 Ultra");
    reveal_strlit("M5 Pro");
    reveal_strlit("M5 Max");
    reveal_strlit("M5 Ultra");
    assert("M1 Pro"@.subrange(2, "M1 Pro"@.len() as int) =~= " Pro"@);
    lemma_tier_word(model, "M1 Pro"@, " Pro"@);
    assert("M1 Max"@.subrange(2, "M1 Max"@.len() as int) =~= " Max"@);
    lemma_tier_word(model, "M1 Max"@, " Max"@);
    assert("M1 Ultra"@.subrange(2, "M1 Ultra"@.len() as int) =~= " Ultra"@);
    lemma_tier_word(model, "M1 Ultra"@, " Ultra"@);
    assert("M2 Pro"@.subrange(2, "M2 Pro"@.len() as int) =~= " Pro"@);
    lemma_tier_word(model, "M2 Pro"@, " Pro"@);
    assert("M2 Max"@.subrange(2, "M2 Max"@.len() as int) =~= " Max"@);
    lemma_tier_word(model, "M2 Max"@, " Max"@);
    assert("M2 Ultra"@.subrange(2, "M2 Ultra"@.len() as int) =~= " Ultra"@);
    lemma_tier_word(model, "M2 Ultra"@, " Ultra"@);
    assert("M3 Pro"@.subrange(2, "M3 Pro"@.len() as int) =~= " Pro"@);
    lemma_tier_word(model, "M3 Pro"@, " Pro"@);
    assert("M3 Max"@.subrange(2, "M3 Max"@.len() as int) =~= " Max"@);
    lemma_tier_word(model, "M3 Max"@, " Max"@);
    assert("M3 Ultra"@.subrange(2, "M3 Ultra"@.len() as int) =~= " Ultra"@);
    lemma_tier_word(model, "M3 Ultra"@, " Ultra"@);
    assert("M4 Pro"@.subrange(2, "M4 Pro"@.len() as int) =~= " Pro"@);
    lemma_tier_word(model, "M4 Pro"@, " Pro"@);
    assert("M4 Max"@.subrange(2, "M4 Max"@.len() as int) =~= " Max"@);
    lemma_tier_word(model, "M4 Max"@, " Max"@);
    assert("M4 Ultra"@.subrange(2, "M4 Ultra"@.len() as int) =~= " Ultra"@);
    lemma_tier_word(model, "M4 Ultra"@, " Ultra"@);
    assert("M5 Pro"@.subrange(2, "M5 Pro"@.len() as int) =~= " Pro"@);
    lemma_tier_word(model, "M5 Pro"@, " Pro"@);
    assert("M5 Max"@.subrange(2, "M5 Max"@.len() as int) =~= " Max"@);
    lemma_tier_word(model, "M5 Max"@, " Max"@);
    assert("M5 Ultra"@.subrange(2, "M5 Ultra"@.len() as int) =~= " Ultra"@);
    lemma_tier_word(model, "M5 Ultra"@, " Ultra"@);
}

/// A chip-and-tier name that occurs in `model` brings its tier word with it.
proof fn lemma_tier_word(model: Seq<char>, name: Seq<char>, tier: Seq<char>)
    requires
        name.len() == tier.len() + 2,
        name.subrange(2, name.len() as int) == tier,
    ensures
        contains(model, name) ==> contains(model, tier),
{
    if contains(model, name) {
        let i = choose|i: int| occurs_at(model, name, i);
        assert(model.subrange(i + 2, i + 2 + tier.len()) =~= name.subrange(2, name.len() as int));
        assert(occurs_at(model, tier, i + 2));
    }
}

/// Law: a Pro, Max or Ultra chip that the table lists no row for gets no
/// figure, rather than the figure of its base chip.
pub proof fn law_missing_tier_has_no_figure(model: Seq<char>)
    requires
        is_tiered(model),
        !contains(model, "M1 Ultra"@),
        !contains(model, "M1 Max"@),
        !contains(model, "M1 Pro"@),
        !contains(model, "M2 Ultra"@),
        !contains(model, "M2 Max"@),
        !contains(model, "M2 Pro"@),
        !contains(model, "M3 Ultra"@),
        !contains(model, "M3 Max"@),
        !contains(model, "M3 Pro"@),
        !contains(model, "M4 Max"@),
        !contains(model, "M4 Pro"@),
    ensures
        apple_peak_bandwidth(model) is None,
{
}

/// Apple publishes fixed unified-memory bandwidth per chip; no query API
/// exists, so a table off the Metal device name is the honest source.
/// Theoretical GB/s; longest match first ("M4 Pro" before "M4").
pub fn apple_peak_bandwidth_gb_s(model: &str) -> (r: Option<u64>)
    ensures
        r == apple_peak_bandwidth(model@),
{
    if str_contains(model, "M1 Ultra") {
        Some(800)
    } else if str_contains(model, "M1 Max") {
        Some(400)
    } else if str_contains(model, "M1 Pro") {
        Some(200)
    } else if str_contains(model, "M2 Ultra") {
        Some(800)
    } else if str_contains(model, "M2 Max") {
        Some(400)
    } else if str_contains(model, "M2 Pro") {
        Some(200)
    } else if str_contains(model, "M3 Ultra") {
        Some(800)
    } else if str_contains(model, "M3 Max") {
        Some(300)
    } else if str_contains(model, "M3 Pro") {
        Some(150)
    } else if str_contains(model, "M4 Max") {
        Some(410)
    } else if str_contains(model, "M4 Pro") {
        Some(273)
    } else if str_contains(model, " Pro") || str_contains(model, " Max") || str_contains(
        model,
        " Ultra",
    ) {
        // a tier the table lacks (e.g. "M5 Pro"): unknown, not its base chip
        None
    } else if str_contains(model, "M1") {
        // bases last so "M4 Pro" never matches the "M4" row
        Some(68)
    } else if str_contains(model, "M2") {
        Some(100)
    } else if str_contains(model, "M3") {
        Some(102)
    } else if str_contains(model, "M4") {
        Some(120)
    } else if str_contains(model, "M5") {
        Some(153)
    } else {
        None
    }
}

/// The Metal device's name, "Apple GPU" when Metal gave none.
pub open spec fn metal_model(metal: Option<(Option<String>, Option<u64>)>) -> Seq<char> {
    match metal {
        Some((Some(name), _)) => name@,
        _ => "Apple GPU"@,
    }
}

/// Metal's recommendedMaxWorkingSetSize in megabytes, when Metal gave it.
pub open spec fn metal_working_set_mb(metal: Option<(Option<String>, Option<u64>)>) -> Option<
    u64,
> {
    match metal {
        Some((_, Some(bytes))) => Some(mb_of_bytes(bytes)),
        _ => None,
    }
}

/// The one GPU of an Apple Silicon Mac: unified memory, so no VRAM figure
/// of its own (HardwareInfo.ram_mb is the pool), and primary.
pub open spec fn apple_silicon_view(metal: Option<(Option<String>, Option<u64>)>) -> GpuView {
    GpuView {
        vendor: GpuVendor::Apple,
        model: metal_model(metal),
        vram_mb: None,
        shared: true,
        state: GpuState::Usable,
        primary: true,
    }
}

/// Apple Silicon: one GPU, unified memory. `metal` is what the system
/// default Metal device gave: its name and its recommendedMaxWorkingSetSize
/// in bytes (None when there is no device). Metal's working-set size is the
/// authoritative usable number.
pub fn probe_apple_silicon(metal: &Option<(Option<String>, Option<u64>)>) -> (r: (
    Vec<GpuInfo>,
    Option<u64>,
))
    ensures
        gpu_views(r.0@) == seq![apple_silicon_view(*metal)],
        r.1 == metal_working_set_mb(*metal),
{
    let model: String = match metal {
        Some((Some(name), _)) => name.clone(),
        _ => "Apple GPU".to_owned(),
    };
    let max_ws_mb = match metal {
        Some((_, Some(bytes))) => Some(bytes_to_mb(*bytes)),
        _ => None,
    };
    let gpu = GpuInfo {
        vendor: GpuVendor::Apple,
        model,
        vram_mb: None,  // unified: HardwareInfo.ram_mb is the pool
        shared: true,
        state: GpuState::Usable,
        primary: true,
    };
    let mut gpus: Vec<GpuInfo> = Vec::new();
    gpus.push(gpu);
    assert(gpu_views(gpus@) =~= seq![apple_silicon_view(*metal)]);
    (gpus, max_ws_mb)
}

} // verus!
