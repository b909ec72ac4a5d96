use hwprobe::gpu::heuristics::{dxgi_gpu, intel_mac_gpu, parse_intel_mac_json, parse_vram_mb};
use hwprobe::{GpuState, GpuVendor};

#[test]
fn vram_strings() {
    assert_eq!(parse_vram_mb("8 GB"), Some(8192));
    assert_eq!(parse_vram_mb("1536 MB"), Some(1536));
    assert_eq!(parse_vram_mb("garbage"), None);
    assert_eq!(parse_vram_mb(""), None);
}

#[test]
fn intel_mac_igpu_and_dgpu() {
    let igpu = intel_mac_gpu("Intel Iris Plus Graphics", Some(1536));
    assert_eq!(igpu.vendor, GpuVendor::Intel);
    assert!(igpu.shared);

    let dgpu = intel_mac_gpu("Radeon Pro 5500M", Some(8192));
    assert_eq!(dgpu.vendor, GpuVendor::Amd);
    assert!(!dgpu.shared);
}

#[test]
fn intel_mac_json_dual_gpu() {
    // Shape of a 16" MBP 2019: iGPU + Radeon dGPU
    let json = r#"{
      "SPDisplaysDataType": [
        { "sppci_model": "Intel UHD Graphics 630", "spdisplays_vram": "1536 MB" },
        { "sppci_model": "AMD Radeon Pro 5500M", "spdisplays_vram": "8 GB" }
      ]
    }"#;
    let gpus = parse_intel_mac_json(json);
    assert_eq!(gpus.len(), 2);
    assert!(gpus[0].shared);
    assert_eq!(gpus[1].vram_mb, Some(8192));
    assert!(!gpus[1].shared);
}

#[test]
fn intel_mac_json_malformed() {
    assert!(parse_intel_mac_json("not json").is_empty());
    assert!(parse_intel_mac_json("{}").is_empty());
}

#[test]
fn dxgi_skips_software_and_reported_nvidia() {
    assert!(dxgi_gpu(0x1414, 0, "Microsoft Basic Render Driver".into(), false).is_none());
    assert!(dxgi_gpu(0x10de, 8192, "RTX 3070".into(), true).is_none());
}

#[test]
fn dxgi_nvidia_without_nvml_is_driver_missing() {
    let g = dxgi_gpu(0x10de, 8192, "RTX 3070".into(), false).unwrap();
    assert_eq!(g.state, GpuState::DriverMissing);
}

#[test]
fn dxgi_amd_and_igpu() {
    let amd = dxgi_gpu(0x1002, 16384, "RX 7800 XT".into(), false).unwrap();
    assert_eq!(amd.vendor, GpuVendor::Amd);
    assert!(!amd.shared);

    let igpu = dxgi_gpu(0x8086, 128, "Intel Iris Xe".into(), false).unwrap();
    assert!(igpu.shared);
}

#[test]
fn vram_strings_words_and_whitespace() {
    assert_eq!(parse_vram_mb("  8   GB  "), Some(8192));
    assert_eq!(parse_vram_mb("8 GB extra words"), Some(8192));
    assert_eq!(parse_vram_mb("\t2\nMB"), Some(2));
    assert_eq!(parse_vram_mb("\u{3000}4\u{2003}GB"), Some(4096));
    assert_eq!(parse_vram_mb("+8 GB"), Some(8192));
    assert_eq!(parse_vram_mb("0 MB"), Some(0));
}

#[test]
fn vram_strings_rejected() {
    assert_eq!(parse_vram_mb("8"), None);
    assert_eq!(parse_vram_mb("8 gb"), None);
    assert_eq!(parse_vram_mb("8 KB"), None);
    assert_eq!(parse_vram_mb("8GB"), None);
    assert_eq!(parse_vram_mb("-8 GB"), None);
    assert_eq!(parse_vram_mb("+ GB"), None);
    assert_eq!(parse_vram_mb("1.5 GB"), None);
    assert_eq!(parse_vram_mb("   "), None);
}

#[test]
fn vram_strings_limits() {
    // The largest count of gigabytes whose megabytes fit in a u64.
    assert_eq!(parse_vram_mb("18014398509481983 GB"), Some(18014398509481983 * 1024));
    assert_eq!(parse_vram_mb("18014398509481984 GB"), None);
    assert_eq!(parse_vram_mb("18446744073709551615 MB"), Some(u64::MAX));
    assert_eq!(parse_vram_mb("18446744073709551616 MB"), None);
}

#[test]
fn vram_gb_is_1024_mb() {
    for n in ["0", "1", "3", "12", "1536", "4096"] {
        let gb = parse_vram_mb(&format!("{n} GB"));
        let mb = parse_vram_mb(&format!("{n} MB"));
        assert_eq!(gb, mb.map(|m| m * 1024));
    }
}

#[test]
fn intel_mac_vendors_and_sharing() {
    let g = intel_mac_gpu("NVIDIA GeForce GT 750M", Some(2048));
    assert_eq!(g.vendor, GpuVendor::Nvidia);
    assert!(!g.shared);
    assert_eq!(g.state, GpuState::Usable);
    assert!(!g.primary);
    assert_eq!(g.model, "NVIDIA GeForce GT 750M");

    let g = intel_mac_gpu("AMD FirePro D700", None);
    assert_eq!(g.vendor, GpuVendor::Amd);
    assert!(g.shared);
    assert_eq!(g.vram_mb, None);

    // "Intel" is looked for first.
    assert_eq!(intel_mac_gpu("Intel AMD", Some(4096)).vendor, GpuVendor::Intel);
    assert_eq!(intel_mac_gpu("GeForce 9400M", Some(256)).vendor, GpuVendor::Nvidia);
    assert_eq!(intel_mac_gpu("Mystery GPU", Some(1537)).vendor, GpuVendor::Other(0));
    assert!(!intel_mac_gpu("Mystery GPU", Some(1537)).shared);
}

#[test]
fn intel_mac_json_defaults() {
    let json = r#"{ "SPDisplaysDataType": [ { "spdisplays_vram": 4 }, { "sppci_model": 7, "spdisplays_vram": "2 GB" } ] }"#;
    let gpus = parse_intel_mac_json(json);
    assert_eq!(gpus.len(), 2);
    assert_eq!(gpus[0].model, "GPU");
    assert_eq!(gpus[0].vram_mb, None);
    assert!(gpus[0].shared);
    assert_eq!(gpus[0].vendor, GpuVendor::Other(0));
    assert_eq!(gpus[1].model, "GPU");
    assert_eq!(gpus[1].vram_mb, Some(2048));
    assert!(!gpus[1].shared);
    assert!(parse_intel_mac_json(r#"{ "SPDisplaysDataType": {} }"#).is_empty());
    assert!(parse_intel_mac_json("[1, 2]").is_empty());
}

#[test]
fn dxgi_fields() {
    let g = dxgi_gpu(0x8086, 0, "Intel UHD".into(), true).unwrap();
    assert_eq!(g.vram_mb, None);
    assert!(g.shared);
    assert_eq!(g.state, GpuState::Usable);
    assert_eq!(g.model, "Intel UHD");
    let g = dxgi_gpu(0x1234, 1025, "Other".into(), false).unwrap();
    assert_eq!(g.vendor, GpuVendor::Other(0x1234));
    assert_eq!(g.vram_mb, Some(1025));
    assert!(!g.shared);
    assert!(!g.primary);
    assert!(dxgi_gpu(0x1002, 1024, "APU".into(), true).unwrap().shared);
}
