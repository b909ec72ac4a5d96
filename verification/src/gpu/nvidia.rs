//! Probe 1 (highest authority, all OSes): NVML, loaded from the driver at
//! run time. No answer here just means "no usable NVIDIA driver"; the
//! callers fall through to the OS probes.

use vstd::prelude::*;
use nvml_wrapper::{Device, Nvml};
use crate::gpu::opt_gpu_views;
use crate::types::{opt_chars, gpu_views, mb_of_bytes, bytes_to_mb, GpuInfo, GpuState, GpuVendor, GpuView};

verus! {

/// An initialised NVML library handle, carried through unread.
#[verifier::external_type_specification]
#[verifier::external_body]
pub struct ExNvml(Nvml);

/// An NVML device handle, carried through unread.
#[verifier::external_type_specification]
#[verifier::external_body]
pub struct ExNvmlDevice<'nvml>(Device<'nvml>);

/// `Nvml::init`: loads and initialises NVML; nothing when the library or the
/// driver is missing. Nothing is claimed of the outcome, which depends on
/// the machine.
#[verifier::external_body]
fn nvml_init() -> Option<Nvml> {
    Nvml::init().ok()
}

/// `Nvml::device_count`: the number of devices, or nothing on an NVML error.
/// Nothing is claimed of the outcome, which depends on the machine.
#[verifier::external_body]
fn nvml_device_count(nvml: &Nvml) -> Option<u32> {
    nvml.device_count().ok()
}

/// `Nvml::device_by_index`: the handle of device `index`, or nothing on an
/// NVML error. Nothing is claimed of the outcome, which depends on the machine.
#[verifier::external_body]
fn nvml_device_by_index<'a>(nvml: &'a Nvml, index: u32) -> Option<Device<'a>> {
    nvml.device_by_index(index).ok()
}

/// `Device::memory_info`, its `total` field: the installed frame-buffer
/// memory in bytes, or nothing on an NVML error. Nothing is claimed of the
/// outcome, which depends on the machine.
#[verifier::external_body]
fn nvml_memory_total(device: &Device) -> Option<u64> {
    device.memory_info().ok().map(|m| m.total)
}

/// `Device::name`: the product name, or nothing on an NVML error. Nothing is
/// claimed of the outcome, which depends on the machine.
#[verifier::external_body]
fn nvml_device_name(device: &Device) -> Option<String> {
    device.name().ok()
}

/// What NVML reports for one device with this name (None when NVML gave
/// none) and this much memory in bytes: exact numbers, dedicated VRAM.
pub open spec fn nvml_view(name: Option<Seq<char>>, total_bytes: u64) -> GpuView {
    GpuView {
        vendor: GpuVendor::Nvidia,
        model: match name {
            Some(n) => n,
            None => "NVIDIA GPU"@,
        },
        vram_mb: Some(mb_of_bytes(total_bytes)),
        shared: false,
        state: GpuState::Usable,
        primary: false,
    }
}

/// `gpus` is a possible answer of NVML: at least one GPU, each as NVML
/// reports a device.
pub open spec fn nvml_answer(gpus: Seq<GpuView>) -> bool {
    &&& gpus.len() > 0
    &&& forall|i: int|
        0 <= i < gpus.len() ==> exists|name: Option<Seq<char>>, total: u64| #[trigger]
            gpus[i] == nvml_view(name, total)
}

/// The GPU that NVML reports for a device with this name and memory.
pub fn nvml_gpu(name: Option<String>, total_bytes: u64) -> (g: GpuInfo)
    ensures
        g@ == nvml_view(
            match name {
                Some(n) => Some(n@),
                None => None,
            },
            total_bytes,
        ),
{
    let model = match name {
        Some(n) => n,
        None => "NVIDIA GPU".to_owned(),
    };
    GpuInfo {
        vendor: GpuVendor::Nvidia,
        model,
        vram_mb: Some(bytes_to_mb(total_bytes)),
        shared: false,
        state: GpuState::Usable,
        primary: false,  // set when the probes are combined
    }
}

/// What NVML gave for one device: its name (None when NVML gave none) and
/// its total memory in bytes; None when the device handle or its memory
/// could not be read.
pub open spec fn reading_view(reading: Option<(Option<String>, u64)>) -> GpuView {
    match reading {
        Some((name, total)) => nvml_view(opt_chars(name), total),
        None => nvml_view(None, 0),
    }
}

/// What NVML reports given what it gave for the devices it counted, in
/// order: nothing when no device was counted or one of them could not be
/// read, else one GPU per device.
pub open spec fn nvml_outcome(readings: Seq<Option<(Option<String>, u64)>>) -> Option<
    Seq<GpuView>,
> {
    if readings.len() == 0 || exists|i: int| 0 <= i < readings.len() && (#[trigger] readings[i]) is None {
        None
    } else {
        Some(readings.map_values(|r: Option<(Option<String>, u64)>| reading_view(r)))
    }
}

/// Law: every answer that NVML's readings lead to is a possible NVML answer.
pub proof fn law_nvml_outcome_is_answer(readings: Seq<Option<(Option<String>, u64)>>)
    ensures
        nvml_outcome(readings) matches Some(v) ==> nvml_answer(v),
{
    if let Some(v) = nvml_outcome(readings) {
        assert forall|j: int| 0 <= j < v.len() implies exists|
            name: Option<Seq<char>>,
            total: u64,
        | #[trigger] v[j] == nvml_view(name, total) by {
            assert(readings[j] is Some);
            let (name, total) = readings[j]->0;
            assert(v[j] == nvml_view(opt_chars(name), total));
        }
    }
}

/// The GPUs that NVML reports given what it gave for the devices it counted.
pub fn nvml_gpus(readings: &Vec<Option<(Option<String>, u64)>>) -> (r: Option<Vec<GpuInfo>>)
    ensures
        opt_gpu_views(r) == nvml_outcome(readings@),
{
    let mut gpus: Vec<GpuInfo> = Vec::new();
    let mut i: usize = 0;
    while i < readings.len()
        invariant
            i <= readings.len(),
            gpus.len() == i,
            forall|j: int| 0 <= j < i ==> (#[trigger] readings@[j]) is Some,
            forall|j: int|
                0 <= j < i ==> gpu_views(gpus@)[j] == reading_view(#[trigger] readings@[j]),
        decreases readings.len() - i,
    {
        let g = match &readings[i] {
            Some((name, total)) => {
                let n: Option<String> = match name {
                    Some(x) => Some(x.clone()),
                    None => None,
                };
                nvml_gpu(n, *total)
            },
            None => {
                assert(readings@[i as int] is None);
                return None;
            },
        };
        let ghost before = gpus@;
        gpus.push(g);
        proof {
            assert forall|j: int| 0 <= j < i + 1 implies gpu_views(gpus@)[j] == reading_view(
                #[trigger] readings@[j],
            ) by {
                if j < i {
                    assert(gpus@[j] == before[j]);
                }
            }
        }
        i = i + 1;
    }
    if gpus.len() == 0 {
        None
    } else {
        assert(!exists|k: int| 0 <= k < readings@.len() && (#[trigger] readings@[k]) is None);
        assert(gpu_views(gpus@) =~= readings@.map_values(
            |r: Option<(Option<String>, u64)>| reading_view(r),
        ));
        Some(gpus)
    }
}

/// `readings` is how reading `count` devices in index order ends: one
/// reading per device up to the first that fails, which is the last.
pub open spec fn readings_shape(readings: Seq<Option<(Option<String>, u64)>>, count: u32) -> bool {
    &&& readings.len() <= count
    &&& forall|i: int| 0 <= i < readings.len() - 1 ==> (#[trigger] readings[i]) is Some
    &&& readings.len() < count ==> readings.len() > 0 && readings.last() is None
}

/// Reads devices 0, 1, ..., `count - 1` in turn with `read`, stopping after
/// the first that fails: reading `i` is what `read` gave for index `i`.
pub fn collect_readings<F: Fn(u32) -> Option<(Option<String>, u64)>>(count: u32, read: F) -> (r:
    Vec<Option<(Option<String>, u64)>>)
    requires
        forall|i: u32| i < count ==> call_requires(read, (i,)),
    ensures
        readings_shape(r@, count),
        forall|i: int| 0 <= i < r.len() ==> call_ensures(read, (i as u32,), #[trigger] r@[i]),
{
    let mut readings: Vec<Option<(Option<String>, u64)>> = Vec::new();
    let mut i: u32 = 0;
    while i < count
        invariant_except_break
            i <= count,
            readings.len() == i,
            forall|j: int| 0 <= j < readings.len() ==> (#[trigger] readings@[j]) is Some,
        invariant
            forall|k: u32| k < count ==> call_requires(read, (k,)),
            forall|j: int|
                0 <= j < readings.len() ==> call_ensures(read, (j as u32,), #[trigger] readings@[j]),
        ensures
            readings_shape(readings@, count),
        decreases count - i,
    {
        let reading = read(i);
        let failed = reading.is_none();
        readings.push(reading);
        if failed {
            break;
        }
        i = i + 1;
    }
    readings
}

/// What NVML gives for device `index`: its name (nothing when NVML gave
/// none) and its total memory in bytes; nothing when the device handle or
/// its memory could not be read. It depends on the machine.
fn device_reading(nvml: &Nvml, index: u32) -> Option<(Option<String>, u64)> {
    match nvml_device_by_index(nvml, index) {
        Some(dev) => match nvml_memory_total(&dev) {
            Some(total) => Some((nvml_device_name(&dev), total)),
            None => None,
        },
        None => None,
    }
}

/// Law: readings taken for `count` devices that all succeeded are exactly
/// `count`, so NVML's answer, when there is one, has exactly one GPU per
/// counted device.
pub proof fn law_answer_has_counted_devices(readings: Seq<Option<(Option<String>, u64)>>, count: u32)
    requires
        readings_shape(readings, count),
    ensures
        nvml_outcome(readings) matches Some(v) ==> v.len() == count,
{
    if nvml_outcome(readings) is Some && readings.len() < count {
        assert(readings[readings.len() - 1] is None);
    }
}

/// The GPUs that NVML reports for the `count` devices it counted: devices
/// 0 to `count - 1` are read in order up to the first that fails, and
/// `nvml_gpus` makes the answer of the readings. When there is an answer, it
/// has exactly `count` GPUs.
pub fn probe_devices(nvml: &Nvml, count: u32) -> (r: Option<Vec<GpuInfo>>)
    ensures
        exists|readings: Seq<Option<(Option<String>, u64)>>|
            #[trigger] readings_shape(readings, count) && nvml_outcome(readings) == opt_gpu_views(r),
        r matches Some(v) ==> v.len() == count && nvml_answer(gpu_views(v@)),
{
    let readings = collect_readings(count, |i: u32| device_reading(nvml, i));
    let r = nvml_gpus(&readings);
    proof {
        law_nvml_outcome_is_answer(readings@);
        law_answer_has_counted_devices(readings@, count);
    }
    r
}

/// The GPUs that NVML reports, or nothing when NVML is unusable, fails on a
/// device, or finds none. Which of these it is depends on the machine: the
/// result is what `nvml_gpus` makes of the readings of the devices that NVML
/// counted, read in index order up to the first that fails.
pub fn probe() -> (r: Option<Vec<GpuInfo>>)
    ensures
        exists|count: u32, readings: Seq<Option<(Option<String>, u64)>>|
            #[trigger] readings_shape(readings, count) && nvml_outcome(readings) == opt_gpu_views(r),
        r matches Some(v) ==> nvml_answer(gpu_views(v@)),
{
    // DriverNotLoaded / lib not found => None
    let nvml = match nvml_init() {
        Some(n) => n,
        None => {
            assert(readings_shape(Seq::empty(), 0));
            assert(nvml_outcome(Seq::empty()) == opt_gpu_views(None));
            return None;
        },
    };
    let count = match nvml_device_count(&nvml) {
        Some(c) => c,
        None => {
            assert(readings_shape(Seq::empty(), 0));
            assert(nvml_outcome(Seq::empty()) == opt_gpu_views(None));
            return None;
        },
    };
    probe_devices(&nvml, count)
}

} // verus!
