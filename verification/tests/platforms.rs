use hwprobe::gpu::linux::{self, card_gpu, is_card, parse_hex_u16, parse_vram_total, pci_device_hint, DrmEntry};
use hwprobe::gpu::macos::{apple_peak_bandwidth_gb_s, is_apple_silicon, probe_apple_silicon};
use hwprobe::gpu::nvidia::{self, collect_readings, nvml_gpu, nvml_gpus};
use hwprobe::gpu::windows::{self, adapter_gpu, trim_nul_end, DxgiAdapter};
use hwprobe::{GpuState, GpuVendor};

fn drm(name: &str, vendor: Option<&str>, device: Option<&str>, vram: Option<&str>) -> DrmEntry {
    DrmEntry {
        name: name.to_string(),
        vendor: vendor.map(|s| s.to_string()),
        device: device.map(|s| s.to_string()),
        vram_total: vram.map(|s| s.to_string()),
    }
}

#[test]
fn linux_card_names() {
    assert!(is_card("card0"));
    assert!(is_card("card12"));
    assert!(!is_card("card0-HDMI-A-1"));
    assert!(!is_card("renderD128"));
    assert!(!is_card("version"));
}

#[test]
fn linux_hex_ids() {
    assert_eq!(parse_hex_u16("0x10de\n"), Some(0x10de));
    assert_eq!(parse_hex_u16("  0x1002  "), Some(0x1002));
    assert_eq!(parse_hex_u16("8086"), Some(0x8086));
    assert_eq!(parse_hex_u16("0xABCD"), Some(0xabcd));
    assert_eq!(parse_hex_u16("0x0x10de"), Some(0x10de));
    assert_eq!(parse_hex_u16("+ff"), Some(0xff));
    assert_eq!(parse_hex_u16("0x"), None);
    assert_eq!(parse_hex_u16("0x10000"), None);
    assert_eq!(parse_hex_u16("0xg"), None);
    assert_eq!(parse_hex_u16(""), None);
}

#[test]
fn linux_vram_total_and_hint() {
    assert_eq!(parse_vram_total(&Some("17163091968\n".to_string())), Some(16368));
    assert_eq!(parse_vram_total(&Some("1048575".to_string())), Some(0));
    assert_eq!(parse_vram_total(&Some("lots".to_string())), None);
    assert_eq!(parse_vram_total(&None), None);
    let hint = pci_device_hint(&Some("0x10de\n".to_string()), &Some("0x2484\n".to_string()));
    assert_eq!(hint, "vendor 0x10de device 0x2484");
    assert_eq!(pci_device_hint(&Some("0x1002".to_string()), &None), "vendor 0x1002 device ");
}

#[test]
fn linux_cards() {
    let amd = card_gpu(&drm("card1", Some("0x1002\n"), Some("0x744c\n"), Some("17163091968\n")), false).unwrap();
    assert_eq!(amd.vendor, GpuVendor::Amd);
    assert_eq!(amd.vram_mb, Some(16368));
    assert!(!amd.shared);
    assert_eq!(amd.state, GpuState::Usable);
    assert_eq!(amd.model, "vendor 0x1002 device 0x744c");

    let igpu = card_gpu(&drm("card0", Some("0x8086"), Some("0x46a6"), None), false).unwrap();
    assert_eq!(igpu.vendor, GpuVendor::Intel);
    assert_eq!(igpu.vram_mb, None);
    assert!(igpu.shared);

    let apu = card_gpu(&drm("card0", Some("0x1002"), Some("0x1681"), Some("536870912")), false).unwrap();
    assert_eq!(apu.vram_mb, Some(512));
    assert!(apu.shared);

    let nv = card_gpu(&drm("card0", Some("0x10de"), Some("0x2484"), None), false).unwrap();
    assert_eq!(nv.vendor, GpuVendor::Nvidia);
    assert_eq!(nv.state, GpuState::DriverMissing);
    assert_eq!(nv.vram_mb, None);
    assert!(!nv.shared);

    assert!(card_gpu(&drm("card0", Some("0x10de"), Some("0x2484"), None), true).is_none());
    assert!(card_gpu(&drm("card0-DP-1", Some("0x1002"), None, None), false).is_none());
    assert!(card_gpu(&drm("card0", None, None, None), false).is_none());
    assert!(card_gpu(&drm("card0", Some("zz"), None, None), false).is_none());
}

#[test]
fn linux_probe_keeps_order() {
    let entries = vec![
        drm("card0-HDMI-A-1", Some("0x1002"), None, None),
        drm("card0", Some("0x8086"), Some("0x46a6"), None),
        drm("card1", Some("0x10de"), Some("0x2484"), None),
        drm("card2", Some("0x1002"), Some("0x744c"), Some("17163091968")),
    ];
    let gpus = linux::probe(&entries, false);
    assert_eq!(gpus.len(), 3);
    assert_eq!(gpus[0].vendor, GpuVendor::Intel);
    assert_eq!(gpus[1].vendor, GpuVendor::Nvidia);
    assert_eq!(gpus[2].vendor, GpuVendor::Amd);
    let gpus = linux::probe(&entries, true);
    assert_eq!(gpus.len(), 2);
    assert!(gpus.iter().all(|g| g.vendor != GpuVendor::Nvidia));
}

fn adapter(vendor_id: u32, dedicated_bytes: u64, description: &str) -> DxgiAdapter {
    DxgiAdapter { vendor_id, dedicated_bytes, description: description.to_string() }
}

#[test]
fn windows_adapters() {
    assert_eq!(trim_nul_end("RTX 3070\0\0\0"), "RTX 3070");
    assert_eq!(trim_nul_end("\0"), "");
    assert_eq!(trim_nul_end("a\0b\0"), "a\0b");

    let g = adapter_gpu(&adapter(0x10de, 8 << 30, "NVIDIA GeForce RTX 3070\0\0"), false).unwrap();
    assert_eq!(g.model, "NVIDIA GeForce RTX 3070");
    assert_eq!(g.vram_mb, Some(8192));
    assert_eq!(g.state, GpuState::DriverMissing);
    assert!(adapter_gpu(&adapter(0x10de, 8 << 30, "RTX"), true).is_none());
    assert!(adapter_gpu(&adapter(0x1414, 0, "Microsoft Basic Render Driver"), false).is_none());
    let g = adapter_gpu(&adapter(0x8086, 128 << 20, "Intel Iris Xe"), false).unwrap();
    assert!(g.shared);
    assert_eq!(g.vram_mb, Some(128));
    // Only the full vendor id 0x1414 is the software rasteriser.
    let g = adapter_gpu(&adapter(0x11414, 0, "Odd"), false).unwrap();
    assert_eq!(g.vendor, GpuVendor::Other(0x1414));
    let g = adapter_gpu(&adapter(0x8086, 1 << 19, "Tiny"), false).unwrap();
    assert_eq!(g.vram_mb, None);

    let gpus = windows::probe(
        &vec![
            adapter(0x1002, 16 << 30, "AMD Radeon RX 7800 XT"),
            adapter(0x1414, 0, "Microsoft Basic Render Driver"),
            adapter(0x8086, 128 << 20, "Intel UHD"),
        ],
        false,
    );
    assert_eq!(gpus.len(), 2);
    assert_eq!(gpus[0].vendor, GpuVendor::Amd);
    assert_eq!(gpus[1].vendor, GpuVendor::Intel);
}

#[test]
fn apple_silicon_brand_and_bandwidth() {
    assert!(is_apple_silicon(&Some("Apple M2 Pro".to_string())));
    assert!(!is_apple_silicon(&Some("Intel(R) Core(TM) i9-9880H CPU @ 2.30GHz".to_string())));
    assert!(!is_apple_silicon(&None));

    assert_eq!(apple_peak_bandwidth_gb_s("Apple M4 Pro"), Some(273));
    assert_eq!(apple_peak_bandwidth_gb_s("Apple M4"), Some(120));
    assert_eq!(apple_peak_bandwidth_gb_s("Apple M4 Max"), Some(410));
    assert_eq!(apple_peak_bandwidth_gb_s("Apple M1 Ultra"), Some(800));
    assert_eq!(apple_peak_bandwidth_gb_s("Apple M3 Max"), Some(300));
    assert_eq!(apple_peak_bandwidth_gb_s("Apple M1"), Some(68));
    assert_eq!(apple_peak_bandwidth_gb_s("Apple M5"), Some(153));
    assert_eq!(apple_peak_bandwidth_gb_s("Apple GPU"), None);
    // Tiers that the table lacks have no figure, not their base chip's.
    assert_eq!(apple_peak_bandwidth_gb_s("Apple M5 Pro"), None);
    assert_eq!(apple_peak_bandwidth_gb_s("Apple M5 Max"), None);
    assert_eq!(apple_peak_bandwidth_gb_s("Apple M4 Ultra"), None);
    assert_eq!(apple_peak_bandwidth_gb_s("Apple M6"), None);
}

#[test]
fn apple_silicon_probe() {
    let (gpus, ws) = probe_apple_silicon(&Some((Some("Apple M2 Max".to_string()), Some(100 << 30))));
    assert_eq!(gpus.len(), 1);
    assert_eq!(gpus[0].vendor, GpuVendor::Apple);
    assert_eq!(gpus[0].model, "Apple M2 Max");
    assert_eq!(gpus[0].vram_mb, None);
    assert!(gpus[0].shared);
    assert!(gpus[0].primary);
    assert_eq!(ws, Some(102400));

    let (gpus, ws) = probe_apple_silicon(&None);
    assert_eq!(gpus[0].model, "Apple GPU");
    assert_eq!(ws, None);
}

#[test]
fn nvml_devices() {
    let g = nvml_gpu(Some("NVIDIA GeForce RTX 4090".to_string()), 24 << 30);
    assert_eq!(g.vendor, GpuVendor::Nvidia);
    assert_eq!(g.model, "NVIDIA GeForce RTX 4090");
    assert_eq!(g.vram_mb, Some(24576));
    assert!(!g.shared);
    assert_eq!(g.state, GpuState::Usable);
    assert!(!g.primary);
    assert_eq!(nvml_gpu(None, 0).model, "NVIDIA GPU");

    // Whatever this machine has: no answer, or NVIDIA GPUs with VRAM figures.
    if let Some(gpus) = nvidia::probe() {
        assert!(!gpus.is_empty());
        assert!(gpus.iter().all(|g| g.vendor == GpuVendor::Nvidia && g.vram_mb.is_some()));
    }
}

#[test]
fn nvml_readings() {
    assert!(nvml_gpus(&vec![]).is_none());
    assert!(nvml_gpus(&vec![Some((None, 1 << 30)), None]).is_none());
    let gpus = nvml_gpus(&vec![Some((Some("A100".to_string()), 40 << 30)), Some((None, 8 << 30))]).unwrap();
    assert_eq!(gpus.len(), 2);
    assert_eq!(gpus[0].model, "A100");
    assert_eq!(gpus[0].vram_mb, Some(40960));
    assert_eq!(gpus[1].model, "NVIDIA GPU");
    assert_eq!(gpus[1].vram_mb, Some(8192));
    assert!(gpus.iter().all(|g| g.vendor == GpuVendor::Nvidia && !g.shared && !g.primary));
}

#[test]
fn nvml_reading_order() {
    let all = collect_readings(3, |i| Some((None, u64::from(i))));
    assert_eq!(all, vec![Some((None, 0)), Some((None, 1)), Some((None, 2))]);
    let stopped = collect_readings(4, |i| if i == 1 { None } else { Some((None, u64::from(i))) });
    assert_eq!(stopped, vec![Some((None, 0)), None]);
    assert!(collect_readings(0, |_| None).is_empty());
}
