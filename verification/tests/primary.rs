use hwprobe::gpu::linux::DrmEntry;
use hwprobe::gpu::windows::DxgiAdapter;
use hwprobe::gpu::{combine, mark_primary, probe_all, GpuSource};
use hwprobe::ram::RamKindSource;
use hwprobe::types::bytes_to_mb;
use hwprobe::{detect, GpuInfo, GpuState, GpuVendor};

fn gpu(model: &str, vram_mb: Option<u64>, shared: bool) -> GpuInfo {
    GpuInfo {
        vendor: GpuVendor::Other(1),
        model: model.to_string(),
        vram_mb,
        shared,
        state: GpuState::Usable,
        primary: false,
    }
}

fn primaries(gpus: &[GpuInfo]) -> Vec<usize> {
    gpus.iter().enumerate().filter(|(_, g)| g.primary).map(|(i, _)| i).collect()
}

#[test]
fn primary_is_highest_dedicated_vram() {
    let mut gpus = vec![gpu("igpu", Some(16384), true), gpu("small", Some(4096), false), gpu("big", Some(8192), false)];
    mark_primary(&mut gpus);
    assert_eq!(primaries(&gpus), vec![2]);
    assert_eq!(gpus[0].model, "igpu");
    assert_eq!(gpus[1].model, "small");
}

#[test]
fn primary_ties_go_to_the_first() {
    let mut gpus = vec![gpu("a", Some(8192), false), gpu("b", Some(8192), false)];
    mark_primary(&mut gpus);
    assert_eq!(primaries(&gpus), vec![0]);

    let mut gpus = vec![gpu("a", None, true), gpu("b", None, true), gpu("c", None, true)];
    mark_primary(&mut gpus);
    assert_eq!(primaries(&gpus), vec![0]);

    // No dedicated VRAM anywhere: the first non-shared GPU.
    let mut gpus = vec![gpu("a", None, true), gpu("b", None, false), gpu("c", None, false)];
    mark_primary(&mut gpus);
    assert_eq!(primaries(&gpus), vec![1]);
}

#[test]
fn primary_of_nothing() {
    let mut gpus: Vec<GpuInfo> = Vec::new();
    mark_primary(&mut gpus);
    assert!(gpus.is_empty());
}

#[test]
fn combine_puts_nvml_first() {
    let nvml = vec![GpuInfo {
        vendor: GpuVendor::Nvidia,
        model: "RTX 3070".to_string(),
        vram_mb: Some(8192),
        shared: false,
        state: GpuState::Usable,
        primary: false,
    }];
    let source = GpuSource::Linux(vec![
        DrmEntry { name: "card0".into(), vendor: Some("0x8086".into()), device: Some("0x46a6".into()), vram_total: None },
        DrmEntry { name: "card1".into(), vendor: Some("0x10de".into()), device: Some("0x2484".into()), vram_total: None },
    ]);
    let (gpus, ws) = combine(Some(nvml), &source);
    assert_eq!(ws, None);
    assert_eq!(gpus.len(), 2);
    assert_eq!(gpus[0].vendor, GpuVendor::Nvidia);
    assert_eq!(gpus[0].state, GpuState::Usable);
    assert_eq!(gpus[1].vendor, GpuVendor::Intel);
    assert_eq!(primaries(&gpus), vec![0]);

    let (gpus, _) = combine(None, &source);
    assert_eq!(gpus.len(), 2);
    assert_eq!(gpus[1].state, GpuState::DriverMissing);
    // Both shared/unknown VRAM: the non-shared NVIDIA card wins.
    assert_eq!(primaries(&gpus), vec![1]);
}

#[test]
fn combine_windows_and_macs() {
    let source = GpuSource::Windows(vec![DxgiAdapter { vendor_id: 0x1002, dedicated_bytes: 16 << 30, description: "RX 7800 XT".into() }]);
    let (gpus, ws) = combine(None, &source);
    assert_eq!(gpus.len(), 1);
    assert!(gpus[0].primary);
    assert_eq!(ws, None);

    let source = GpuSource::AppleSilicon(Some((Some("Apple M3".into()), Some(8 << 30))));
    let (gpus, ws) = combine(None, &source);
    assert_eq!(gpus.len(), 1);
    assert!(gpus[0].primary);
    assert_eq!(ws, Some(8192));

    let json = r#"{ "SPDisplaysDataType": [ { "sppci_model": "Intel UHD Graphics 630", "spdisplays_vram": "1536 MB" }, { "sppci_model": "AMD Radeon Pro 5500M", "spdisplays_vram": "8 GB" } ] }"#;
    let (gpus, _) = combine(None, &GpuSource::IntelMac(Some(json.to_string())));
    assert_eq!(primaries(&gpus), vec![1]);
    let (gpus, _) = combine(None, &GpuSource::IntelMac(None));
    assert!(gpus.is_empty());
}

#[test]
fn probe_all_and_detect_without_os_interface() {
    let (gpus, ws) = probe_all(&GpuSource::Unsupported);
    assert_eq!(ws, None);
    assert!(gpus.iter().all(|g| g.vendor == GpuVendor::Nvidia));
    assert!(gpus.is_empty() || primaries(&gpus).len() == 1);

    let info = detect(&GpuSource::Unsupported, &RamKindSource::Unsupported);
    assert!(!info.unified_memory);
    assert_eq!(info.ram_kind, None);
    assert_eq!(info.metal_max_working_set_mb, None);
    assert!(info.ram_mb > 0);

    let info = detect(&GpuSource::AppleSilicon(None), &RamKindSource::WindowsCim(Some("34\r\n".into())));
    assert!(info.unified_memory);
    assert_eq!(info.ram_kind.as_deref(), Some("DDR5"));
    assert!(info.gpus.iter().any(|g| g.vendor == GpuVendor::Apple));
}

#[test]
fn megabytes_round_down() {
    assert_eq!(bytes_to_mb(0), 0);
    assert_eq!(bytes_to_mb(1048575), 0);
    assert_eq!(bytes_to_mb(1048576), 1);
    assert_eq!(bytes_to_mb(u64::MAX), 17592186044415);
}
