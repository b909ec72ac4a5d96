//! GPU discovery: what each probe's readings mean, and how the probes'
//! results are combined.

pub mod heuristics;
pub mod linux;
pub mod macos;
pub mod nvidia;
pub mod windows;

use vstd::prelude::*;
use crate::gpu::heuristics::{intel_mac_views, parse_intel_mac_json};
use crate::gpu::linux::{law_linux_reports, linux_gpus, DrmEntry};
use crate::gpu::macos::{apple_silicon_view, metal_working_set_mb, probe_apple_silicon};
use crate::gpu::nvidia::{nvml_answer, nvml_view};
use crate::gpu::windows::{law_windows_reports, windows_gpus, DxgiAdapter};
use crate::json::json_text_value;
use crate::types::{gpu_views, GpuInfo, GpuState, GpuVendor, GpuView};

verus! {

/// The VRAM figure of `g`, with no figure counted as 0.
pub open spec fn vram_or_zero(g: GpuView) -> int {
    match g.vram_mb {
        Some(v) => v as int,
        None => 0,
    }
}

/// How strongly `g` claims to be the primary GPU: a dedicated (non-shared)
/// GPU outranks every shared one, and among equals more VRAM ranks higher.
/// This is the order of the pair `(!shared, vram_mb.unwrap_or(0))`.
pub open spec fn primary_rank(g: GpuView) -> int {
    (if g.shared {
        0
    } else {
        u64::MAX as int + 1
    }) + vram_or_zero(g)
}

/// `idx` is the first of the GPUs in `gpus` with the highest rank.
pub open spec fn is_first_highest(gpus: Seq<GpuView>, idx: int) -> bool {
    &&& 0 <= idx < gpus.len()
    &&& forall|j: int| 0 <= j < gpus.len() ==> primary_rank(#[trigger] gpus[j]) <= primary_rank(
        gpus[idx],
    )
    &&& forall|j: int| 0 <= j < idx ==> primary_rank(#[trigger] gpus[j]) < primary_rank(gpus[idx])
}

/// The position of the GPU that becomes primary: the first with the
/// highest rank.
pub open spec fn primary_index(gpus: Seq<GpuView>) -> int {
    choose|idx: int| is_first_highest(gpus, idx)
}

/// `g` marked as the primary GPU.
pub open spec fn with_primary(g: GpuView) -> GpuView {
    GpuView { primary: true, ..g }
}

/// `gpus` once the primary GPU is marked: unchanged when empty, else the
/// first GPU of highest rank gets `primary` set and nothing else changes.
pub open spec fn marked(gpus: Seq<GpuView>) -> Seq<GpuView> {
    if gpus.len() == 0 {
        gpus
    } else {
        gpus.update(primary_index(gpus), with_primary(gpus[primary_index(gpus)]))
    }
}

/// At most one position is the first of highest rank.
proof fn lemma_first_highest_unique(gpus: Seq<GpuView>, a: int, b: int)
    requires
        is_first_highest(gpus, a),
        is_first_highest(gpus, b),
    ensures
        a == b,
{
    if a < b {
        assert(primary_rank(gpus[a]) < primary_rank(gpus[b]));
        assert(primary_rank(gpus[a]) <= primary_rank(gpus[a]));
    } else if b < a {
        assert(primary_rank(gpus[b]) < primary_rank(gpus[a]));
    }
}

/// The first GPU of highest rank among the first `n`.
proof fn first_highest_in_prefix(gpus: Seq<GpuView>, n: int) -> (idx: int)
    requires
        1 <= n <= gpus.len(),
    ensures
        0 <= idx < n,
        forall|j: int| 0 <= j < n ==> primary_rank(#[trigger] gpus[j]) <= primary_rank(gpus[idx]),
        forall|j: int| 0 <= j < idx ==> primary_rank(#[trigger] gpus[j]) < primary_rank(gpus[idx]),
    decreases n,
{
    if n == 1 {
        0
    } else {
        let b = first_highest_in_prefix(gpus, n - 1);
        if primary_rank(gpus[n - 1]) > primary_rank(gpus[b]) {
            n - 1
        } else {
            b
        }
    }
}

/// Law: a non-empty list always has a primary candidate, the first GPU of
/// highest rank.
pub proof fn law_primary_is_first_highest(gpus: Seq<GpuView>)
    requires
        gpus.len() > 0,
    ensures
        is_first_highest(gpus, primary_index(gpus)),
{
    let idx = first_highest_in_prefix(gpus, gpus.len() as int);
    assert(is_first_highest(gpus, idx));
}

/// Law: marking the primary GPU changes nothing but one `primary` flag: the
/// list keeps its length, and every GPU but the chosen one is untouched.
pub proof fn law_marking_touches_one_gpu(gpus: Seq<GpuView>, j: int)
    requires
        0 <= j < gpus.len(),
    ensures
        marked(gpus).len() == gpus.len(),
        j != primary_index(gpus) ==> marked(gpus)[j] == gpus[j],
        j == primary_index(gpus) ==> marked(gpus)[j] == with_primary(gpus[j]),
{
    law_primary_is_first_highest(gpus);
}

/// Law: when no GPU was marked primary before, exactly one is afterwards,
/// the first of highest rank.
pub proof fn law_exactly_one_primary(gpus: Seq<GpuView>)
    requires
        gpus.len() > 0,
        forall|j: int| 0 <= j < gpus.len() ==> !(#[trigger] gpus[j]).primary,
    ensures
        forall|j: int|
            0 <= j < gpus.len() ==> ((#[trigger] marked(gpus)[j]).primary <==> j == primary_index(
                gpus,
            )),
{
    law_primary_is_first_highest(gpus);
}

/// Law: the primary GPU has the highest pair `(!shared, vram_mb.unwrap_or(0))`:
/// no GPU is dedicated while the primary one is shared, no GPU of the same
/// kind has more VRAM (a missing figure counting as 0 MB), and every GPU
/// before it of the same kind has less. So a dedicated GPU without a VRAM
/// figure is never primary while another dedicated GPU has a figure above 0.
pub proof fn law_primary_highest_key(gpus: Seq<GpuView>)
    requires
        gpus.len() > 0,
    ensures
        ({
            let p = gpus[primary_index(gpus)];
            forall|j: int|
                0 <= j < gpus.len() ==> {
                    &&& !(!(#[trigger] gpus[j]).shared && p.shared)
                    &&& (gpus[j].shared == p.shared ==> match gpus[j].vram_mb {
                        Some(v) => v as int,
                        None => 0,
                    } <= match p.vram_mb {
                        Some(v) => v as int,
                        None => 0,
                    })
                    &&& (j < primary_index(gpus) && gpus[j].shared == p.shared ==> match gpus[
                        j
                    ].vram_mb {
                        Some(v) => v as int,
                        None => 0,
                    } < match p.vram_mb {
                        Some(v) => v as int,
                        None => 0,
                    })
                }
        }),
        forall|j: int, k: int|
            0 <= j < gpus.len() && 0 <= k < gpus.len() && !(#[trigger] gpus[j]).shared && !(
            #[trigger] gpus[k]).shared && gpus[k].vram_mb is None && (gpus[j].vram_mb matches Some(
                v,
            ) && v > 0) ==> primary_index(gpus) != k,
{
    law_primary_is_first_highest(gpus);
    let p = primary_index(gpus);
    assert forall|j: int| 0 <= j < gpus.len() implies primary_rank(#[trigger] gpus[j])
        <= primary_rank(gpus[p]) by {}
}

/// Law: primary = highest dedicated VRAM. When some GPU is dedicated (not
/// shared), the primary one is dedicated, no dedicated GPU has more VRAM, and
/// every dedicated GPU before it has less.
pub proof fn law_primary_has_most_dedicated_vram(gpus: Seq<GpuView>, k: int)
    requires
        0 <= k < gpus.len(),
        !gpus[k].shared,
    ensures
        !gpus[primary_index(gpus)].shared,
        forall|j: int|
            0 <= j < gpus.len() && !(#[trigger] gpus[j]).shared ==> vram_or_zero(gpus[j])
                <= vram_or_zero(gpus[primary_index(gpus)]),
        forall|j: int|
            0 <= j < primary_index(gpus) && !(#[trigger] gpus[j]).shared ==> vram_or_zero(gpus[j])
                < vram_or_zero(gpus[primary_index(gpus)]),
{
    law_primary_is_first_highest(gpus);
    let p = primary_index(gpus);
    assert(primary_rank(gpus[k]) <= primary_rank(gpus[p]));
}

/// Law: when every GPU is shared and none has a VRAM figure, the primary one
/// is the first GPU.
pub proof fn law_all_shared_first_wins(gpus: Seq<GpuView>)
    requires
        gpus.len() > 0,
        forall|j: int| 0 <= j < gpus.len() ==> (#[trigger] gpus[j]).vram_mb is None,
        forall|j: int| 0 <= j < gpus.len() ==> (#[trigger] gpus[j]).shared,
    ensures
        primary_index(gpus) == 0,
{
    law_primary_is_first_highest(gpus);
    let p = primary_index(gpus);
    if p > 0 {
        assert(primary_rank(gpus[0]) < primary_rank(gpus[p]));
    }
}

/// Whether `a` outranks `b` for the primary role.
fn outranks(a: &GpuInfo, b: &GpuInfo) -> (r: bool)
    ensures
        r == (primary_rank(a@) > primary_rank(b@)),
{
    let va: u64 = match a.vram_mb {
        Some(v) => v,
        None => 0,
    };
    let vb: u64 = match b.vram_mb {
        Some(v) => v,
        None => 0,
    };
    if a.shared != b.shared {
        !a.shared
    } else {
        va > vb
    }
}

/// Primary = highest dedicated VRAM, the first of them on ties; with no
/// dedicated GPU, the shared GPU with the most VRAM, again the first on ties
/// (so the first GPU when none has a figure).
pub fn mark_primary(gpus: &mut Vec<GpuInfo>)
    ensures
        gpu_views(final(gpus)@) == marked(gpu_views(old(gpus)@)),
{
    if gpus.len() == 0 {
        return;
    }
    let ghost views = gpu_views(gpus@);
    let mut best: usize = 0;
    let mut i: usize = 1;
    while i < gpus.len()
        invariant
            views == gpu_views(gpus@),
            1 <= i <= gpus.len(),
            best < i,
            forall|j: int| 0 <= j < i ==> primary_rank(#[trigger] views[j]) <= primary_rank(
                views[best as int],
            ),
            forall|j: int| 0 <= j < best ==> primary_rank(#[trigger] views[j]) < primary_rank(
                views[best as int],
            ),
        decreases gpus.len() - i,
    {
        if outranks(&gpus[i], &gpus[best]) {
            best = i;
        }
        i = i + 1;
    }
    proof {
        assert(is_first_highest(views, best as int));
        lemma_first_highest_unique(views, best as int, primary_index(views));
    }
    let ghost before = gpus@;
    let mut g = gpus.remove(best);
    g.primary = true;
    gpus.insert(best, g);
    assert(gpus@ =~= before.update(best as int, g));
    assert(gpu_views(gpus@) =~= marked(views));
}

/// What the operating system's GPU interface gave, per platform.
pub enum GpuSource {
    /// Linux: the entries of /sys/class/drm.
    Linux(Vec<DrmEntry>),
    /// Windows: the DXGI adapters, in enumeration order.
    Windows(Vec<DxgiAdapter>),
    /// Apple Silicon: the system default Metal device's name and
    /// recommendedMaxWorkingSetSize in bytes (None without a device).
    AppleSilicon(Option<(Option<String>, Option<u64>)>),
    /// Intel Mac: the output of `system_profiler SPDisplaysDataType -json`
    /// (None when it could not be run).
    IntelMac(Option<String>),
    /// A platform without a GPU interface.
    Unsupported,
}

/// The GPUs that the OS interface reports, given whether NVML succeeded.
pub open spec fn os_gpus_of(source: GpuSource, nvml_succeeded: bool) -> Seq<GpuView> {
    match source {
        GpuSource::Linux(entries) => linux_gpus(entries@, nvml_succeeded),
        GpuSource::Windows(adapters) => windows_gpus(adapters@, nvml_succeeded),
        GpuSource::AppleSilicon(metal) => seq![apple_silicon_view(metal)],
        GpuSource::IntelMac(Some(json)) => intel_mac_views(json_text_value(json@)),
        GpuSource::IntelMac(None) => Seq::empty(),
        GpuSource::Unsupported => Seq::empty(),
    }
}

/// Metal's working-set size in megabytes: given on Apple Silicon only.
pub open spec fn metal_ws_of(source: GpuSource) -> Option<u64> {
    match source {
        GpuSource::AppleSilicon(metal) => metal_working_set_mb(metal),
        _ => None,
    }
}

/// All GPUs in probe order (NVML's, then the OS interface's), with the
/// primary one marked, given what NVML answered.
pub open spec fn all_gpus(nvml: Option<Seq<GpuView>>, source: GpuSource) -> Seq<GpuView> {
    let first = match nvml {
        Some(v) => v,
        None => Seq::empty(),
    };
    marked(first + os_gpus_of(source, nvml is Some))
}

/// Law: on Linux and Windows each NVIDIA GPU is reported once. When NVML
/// answered, no GPU after NVML's is NVIDIA; a GPU whose driver API is
/// missing is an NVIDIA GPU that the OS interface showed while NVML did not
/// answer.
pub proof fn law_nvidia_reported_once(nvml: Option<Seq<GpuView>>, source: GpuSource)
    requires
        source is Linux || source is Windows,
        nvml matches Some(v) ==> nvml_answer(v),
    ensures
        nvml matches Some(v) ==> forall|j: int|
            v.len() <= j < all_gpus(nvml, source).len() ==> (#[trigger] all_gpus(
                nvml,
                source,
            )[j]).vendor != GpuVendor::Nvidia,
        forall|j: int|
            0 <= j < all_gpus(nvml, source).len() && (#[trigger] all_gpus(nvml, source)[j]).state
                == GpuState::DriverMissing ==> nvml is None && all_gpus(nvml, source)[j].vendor
                == GpuVendor::Nvidia,
{
    let first = match nvml {
        Some(v) => v,
        None => Seq::empty(),
    };
    let os = os_gpus_of(source, nvml is Some);
    let list = first + os;
    match source {
        GpuSource::Linux(entries) => law_linux_reports(entries@, nvml is Some),
        GpuSource::Windows(adapters) => law_windows_reports(adapters@, nvml is Some),
        _ => {},
    }
    assert(all_gpus(nvml, source) == marked(list));
    if list.len() > 0 {
        law_marking_touches_one_gpu(list, 0);
    }
    assert(all_gpus(nvml, source).len() == list.len());
    assert forall|j: int| 0 <= j < list.len() implies {
        &&& (#[trigger] all_gpus(nvml, source)[j]).vendor == list[j].vendor
        &&& all_gpus(nvml, source)[j].state == list[j].state
        &&& (j < first.len() ==> list[j].state == GpuState::Usable)
        &&& (first.len() <= j ==> {
            &&& (list[j].state == GpuState::DriverMissing <==> list[j].vendor == GpuVendor::Nvidia)
            &&& !(nvml is Some && list[j].vendor == GpuVendor::Nvidia)
        })
    } by {
        law_marking_touches_one_gpu(list, j);
        if j < first.len() {
            let v = nvml->0;
            assert(list[j] == v[j]);
            assert(exists|name: Option<Seq<char>>, total: u64| #[trigger] v[j] == nvml_view(
                name,
                total,
            ));
        } else {
            assert(list[j] == os[j - first.len()]);
        }
    }
}

/// Law: on Apple Silicon without NVIDIA hardware there is exactly one GPU,
/// the Apple GPU, marked primary, with no VRAM of its own (unified memory);
/// Metal's working-set size is reported there and nowhere else.
pub proof fn law_apple_silicon_single_gpu(
    metal: Option<(Option<String>, Option<u64>)>,
    other: GpuSource,
)
    requires
        !(other is AppleSilicon),
    ensures
        all_gpus(None, GpuSource::AppleSilicon(metal)) == seq![apple_silicon_view(metal)],
        apple_silicon_view(metal).primary,
        apple_silicon_view(metal).vram_mb is None,
        metal_ws_of(other) is None,
{
    let list = Seq::<GpuView>::empty() + seq![apple_silicon_view(metal)];
    assert(list =~= seq![apple_silicon_view(metal)]);
    law_primary_is_first_highest(list);
    assert(primary_index(list) == 0);
    assert(with_primary(list[0]) == list[0]);
    assert(marked(list) =~= list);
}

/// The views of an optional list of GPUs.
pub open spec fn opt_gpu_views(gpus: Option<Vec<GpuInfo>>) -> Option<Seq<GpuView>> {
    match gpus {
        Some(v) => Some(gpu_views(v@)),
        None => None,
    }
}

/// The GPUs that the OS interface reports, given whether NVML succeeded,
/// and Metal's working-set size in megabytes where there is one.
pub fn os_probe(source: &GpuSource, nvml_succeeded: bool) -> (r: (Vec<GpuInfo>, Option<u64>))
    ensures
        gpu_views(r.0@) == os_gpus_of(*source, nvml_succeeded),
        r.1 == metal_ws_of(*source),
{
    match source {
        GpuSource::Linux(entries) => (linux::probe(entries, nvml_succeeded), None),
        GpuSource::Windows(adapters) => (windows::probe(adapters, nvml_succeeded), None),
        GpuSource::AppleSilicon(metal) => probe_apple_silicon(metal),
        GpuSource::IntelMac(Some(json)) => (parse_intel_mac_json(json.as_str()), None),
        _ => {
            let gpus = Vec::new();
            assert(gpu_views(gpus@) =~= Seq::<GpuView>::empty());
            (gpus, None)
        },
    }
}

/// Combines NVML's answer with the OS interface's: NVML's GPUs first, the
/// primary one marked. Returns (gpus, metal_max_working_set_mb).
pub fn combine(nvml_gpus: Option<Vec<GpuInfo>>, source: &GpuSource) -> (r: (
    Vec<GpuInfo>,
    Option<u64>,
))
    ensures
        gpu_views(r.0@) == all_gpus(opt_gpu_views(nvml_gpus), *source),
        r.1 == metal_ws_of(*source),
{
    let ghost first = match &nvml_gpus {
        Some(v) => v@,
        None => Seq::empty(),
    };
    let nvml_ok = nvml_gpus.is_some();
    let mut gpus = match nvml_gpus {
        Some(v) => v,
        None => Vec::new(),
    };
    let (mut os, metal_ws) = os_probe(source, nvml_ok);
    let ghost os_view = os@;
    gpus.append(&mut os);
    assert(gpus@ =~= first + os_view);
    assert(gpu_views(gpus@) =~= gpu_views(first) + gpu_views(os_view));
    mark_primary(&mut gpus);
    (gpus, metal_ws)
}

/// Vendor API first (NVML), then OS interface. Returns (gpus,
/// metal_max_working_set_mb). Whatever NVML answers, the result is that
/// answer combined with what the OS interface reports.
pub fn probe_all(source: &GpuSource) -> (r: (Vec<GpuInfo>, Option<u64>))
    ensures
        exists|nvml: Option<Seq<GpuView>>|
            {
                &&& (nvml matches Some(v) ==> nvml_answer(v))
                &&& gpu_views(r.0@) == #[trigger] all_gpus(nvml, *source)
            },
        r.1 == metal_ws_of(*source),
{
    let nvml_gpus = nvidia::probe();
    let ghost answer = opt_gpu_views(nvml_gpus);
    let r = combine(nvml_gpus, source);
    assert(gpu_views(r.0@) == all_gpus(answer, *source));
    r
}

} // verus!
