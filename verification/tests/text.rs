use hwprobe::json::{get, JsonValue};
use hwprobe::text::{chars_of, is_whitespace, str_contains, str_eq_ignore_ascii_case, str_equal, str_starts_with, trim};
use hwprobe::types::GpuVendor;

#[test]
fn whitespace_like_std() {
    for c in ['\t', '\n', '\r', ' ', '\u{85}', '\u{a0}', '\u{1680}', '\u{2000}', '\u{200a}', '\u{2028}', '\u{3000}', 'a', '0', '\u{200b}', '\u{feff}', 'é'] {
        assert_eq!(is_whitespace(c), c.is_whitespace(), "{c:?}");
    }
}

#[test]
fn trimming_and_searching() {
    assert_eq!(trim("  a b \n"), "a b");
    assert_eq!(trim("\u{3000}x\u{a0}"), "x");
    assert_eq!(trim(" \t "), "");
    assert_eq!(chars_of("héllo"), vec!['h', 'é', 'l', 'l', 'o']);
    assert!(str_contains("Apple M2", "Apple"));
    assert!(str_contains("abc", ""));
    assert!(!str_contains("Appl", "Apple"));
    assert!(str_starts_with("card0", "card"));
    assert!(!str_starts_with("car", "card"));
    assert!(str_equal("x", "x"));
    assert!(!str_equal("x", "xy"));
    assert!(str_eq_ignore_ascii_case("UnKnOwN", "unknown"));
    assert!(!str_eq_ignore_ascii_case("unknöwn", "unknown"));
}

#[test]
fn json_member_lookup() {
    let v = JsonValue::Object(vec![
        ("a".to_string(), JsonValue::Array(vec![JsonValue::Number, JsonValue::Null])),
        ("b".to_string(), JsonValue::Str("x".to_string())),
        ("b".to_string(), JsonValue::Bool(true)),
    ]);
    assert!(matches!(get(&v, "a"), Some(JsonValue::Array(items)) if items.len() == 2));
    assert!(matches!(get(&v, "b"), Some(JsonValue::Str(s)) if s == "x"));
    assert!(get(&v, "c").is_none());
    assert!(get(&JsonValue::Array(vec![]), "a").is_none());
    assert!(get(&JsonValue::Str("a".to_string()), "a").is_none());
}

#[test]
fn pci_vendor_ids() {
    assert_eq!(GpuVendor::from_pci_id(0x10de), GpuVendor::Nvidia);
    assert_eq!(GpuVendor::from_pci_id(0x1002), GpuVendor::Amd);
    assert_eq!(GpuVendor::from_pci_id(0x8086), GpuVendor::Intel);
    assert_eq!(GpuVendor::from_pci_id(0x106b), GpuVendor::Apple);
    assert_eq!(GpuVendor::from_pci_id(0x1414), GpuVendor::Other(0x1414));
    assert_eq!(GpuVendor::from_pci_id(0), GpuVendor::Other(0));
}
