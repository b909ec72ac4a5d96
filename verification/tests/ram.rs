use hwprobe::json::JsonValue;
use hwprobe::ram::{
    cim_memory_kind, dmi_memory_kind, profiler_memory_kind, ram_kind, smbios_memory_type,
    total_ram_mb, valid_kind, DmiEntry, RamKindSource,
};

fn raw_with_type(code: u8) -> Vec<u8> {
    let mut raw = vec![0u8; 0x20];
    raw[0] = 17;
    raw[0x12] = code;
    raw
}

#[test]
fn smbios_codes() {
    assert_eq!(smbios_memory_type(0x1a), Some("DDR4"));
    assert_eq!(smbios_memory_type(0x1e), Some("LPDDR4"));
    assert_eq!(smbios_memory_type(0x22), Some("DDR5"));
    assert_eq!(smbios_memory_type(0x23), Some("LPDDR5"));
    assert_eq!(smbios_memory_type(0x18), Some("DDR3"));
    assert_eq!(smbios_memory_type(0x1d), Some("LPDDR3"));
    assert_eq!(smbios_memory_type(0x02), None);
    assert_eq!(smbios_memory_type(0xff), None);
}

#[test]
fn dmi_entries() {
    let e = |name: &str, raw: Option<Vec<u8>>| DmiEntry { name: name.to_string(), raw };
    assert_eq!(dmi_memory_kind(&vec![]), None);
    assert_eq!(
        dmi_memory_kind(&vec![e("16-0", None), e("17-0", Some(raw_with_type(0x02))), e("17-1", Some(raw_with_type(0x22)))]),
        Some("DDR5".to_string())
    );
    // An unreadable type-17 entry ends the search (no root).
    assert_eq!(dmi_memory_kind(&vec![e("17-0", None), e("17-1", Some(raw_with_type(0x22)))]), None);
    // Too short to hold the memory type.
    assert_eq!(dmi_memory_kind(&vec![e("17-0", Some(vec![0; 0x12])), e("17-1", Some(raw_with_type(0x1a)))]), Some("DDR4".to_string()));
}

#[test]
fn cim_output() {
    assert_eq!(cim_memory_kind("26\r\n"), Some("DDR4".to_string()));
    assert_eq!(cim_memory_kind(" 34 "), Some("DDR5".to_string()));
    assert_eq!(cim_memory_kind("35"), Some("LPDDR5".to_string()));
    assert_eq!(cim_memory_kind("0"), None);
    assert_eq!(cim_memory_kind("300"), None);
    assert_eq!(cim_memory_kind(""), None);
    assert_eq!(cim_memory_kind("DDR4"), None);
}

#[test]
fn profiler_kinds() {
    assert_eq!(valid_kind("LPDDR5"), Some("LPDDR5".to_string()));
    assert_eq!(valid_kind("unknown"), None);
    assert_eq!(valid_kind("Unknown"), None);
    assert_eq!(valid_kind("UNKNOWN"), None);
    assert_eq!(valid_kind("unknowns"), Some("unknowns".to_string()));

    let kind = |text: &str| ram_kind(&RamKindSource::MacProfiler(Some(text.as_bytes().to_vec())));
    assert_eq!(kind(r#"{ "SPMemoryDataType": [ { "SPMemoryDataType": "16 GB", "dimm_type": "LPDDR5" } ] }"#), Some("LPDDR5".to_string()));
    assert_eq!(kind(r#"{ "SPMemoryDataType": [ { "_items": [ { "dimm_size": "8 GB" }, { "dimm_type": "DDR4" } ] } ] }"#), Some("DDR4".to_string()));
    assert_eq!(kind(r#"{ "SPMemoryDataType": [ { "dimm_type": "unknown" }, { "dimm_type": "DDR4" } ] }"#), None);
    assert_eq!(kind(r#"{ "SPMemoryDataType": [ { "_items": [] }, { "dimm_type": 4 } ] }"#), None);
    assert_eq!(kind(r#"{ "SPMemoryDataType": [ { "_items": [] }, { "dimm_type": "DDR3" } ] }"#), Some("DDR3".to_string()));
    assert_eq!(kind(r#"{ "SPMemoryDataType": {} }"#), None);

    let doc = JsonValue::Object(vec![(
        "SPMemoryDataType".to_string(),
        JsonValue::Array(vec![JsonValue::Object(vec![("dimm_type".to_string(), JsonValue::Str("DDR5".to_string()))])]),
    )]);
    assert_eq!(profiler_memory_kind(&doc), Some("DDR5".to_string()));
}

#[test]
fn ram_kind_sources() {
    let e = DmiEntry { name: "17-0".to_string(), raw: Some(raw_with_type(0x23)) };
    assert_eq!(ram_kind(&RamKindSource::LinuxDmi(vec![e])), Some("LPDDR5".to_string()));
    assert_eq!(ram_kind(&RamKindSource::WindowsCim(Some("24".to_string()))), Some("DDR3".to_string()));
    assert_eq!(ram_kind(&RamKindSource::WindowsCim(None)), None);
    let out = br#"{ "SPMemoryDataType": [ { "dimm_type": "LPDDR4" } ] }"#.to_vec();
    assert_eq!(ram_kind(&RamKindSource::MacProfiler(Some(out))), Some("LPDDR4".to_string()));
    assert_eq!(ram_kind(&RamKindSource::MacProfiler(Some(b"not json".to_vec()))), None);
    assert_eq!(ram_kind(&RamKindSource::MacProfiler(None)), None);
    assert_eq!(ram_kind(&RamKindSource::Unsupported), None);
}

#[test]
fn this_machine_has_ram() {
    assert!(total_ram_mb() > 0);
}
