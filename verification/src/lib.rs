//! Hardware detection for local AI: RAM, GPUs, VRAM, unified memory and
//! memory kind. No opinions, only measurements: one call, one struct.
//!
//! The readings that only the operating system can give (files under /sys,
//! DXGI, Metal, system_profiler) reach this library as plain values; all
//! interpretation of them, NVML and the RAM size happen here.

pub mod gpu;
pub mod json;
pub mod ram;
pub mod text;
pub mod types;

pub use crate::types::{GpuInfo, GpuState, GpuVendor, HardwareInfo};

use vstd::prelude::*;
use crate::gpu::nvidia::nvml_answer;
use crate::gpu::{all_gpus, metal_ws_of, probe_all, GpuSource};
use crate::ram::{ram_kind, ram_kind_of, total_ram_mb, RamKindSource};
use crate::types::{mb_of_bytes, GpuView};

verus! {

/// Everything about the machine: its GPUs (NVML first, then what the OS
/// interface in `gpu_source` shows, the primary one marked), its RAM size,
/// the memory kind that `ram_source` shows, and on Apple Silicon unified
/// memory and Metal's working-set size.
pub fn detect(gpu_source: &GpuSource, ram_source: &RamKindSource) -> (info: HardwareInfo)
    ensures
        exists|nvml: Option<Seq<GpuView>>|
            {
                &&& (nvml matches Some(v) ==> nvml_answer(v))
                &&& info@.gpus == #[trigger] all_gpus(nvml, *gpu_source)
            },
        info@.metal_max_working_set_mb == metal_ws_of(*gpu_source),
        info@.unified_memory == (*gpu_source is AppleSilicon),
        info@.ram_kind == ram_kind_of(*ram_source),
        exists|bytes: u64| info@.ram_mb == mb_of_bytes(bytes),
{
    let (gpus, metal_max_working_set_mb) = probe_all(gpu_source);
    let unified_memory = match gpu_source {
        GpuSource::AppleSilicon(_) => true,
        _ => false,
    };
    HardwareInfo {
        ram_mb: total_ram_mb(),
        ram_kind: ram_kind(ram_source),
        gpus,
        unified_memory,
        metal_max_working_set_mb,
    }
}

} // verus!
