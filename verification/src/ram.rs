//! RAM: total size, and memory kind (DDR4/DDR5/LPDDR5...) best-effort per
//! OS. None is a legitimate answer for the kind.

use vstd::prelude::*;
use sysinfo::System;
use crate::json::{get, json_bytes_value, json_get, parse_json_bytes, JsonValue};
use crate::text::{
    chars_of, eq_ignore_ascii_case, parse_unsigned, parse_unsigned_range, starts_with,
    str_eq_ignore_ascii_case, str_starts_with, trim_bounds, trimmed,
};
use crate::types::{bytes_to_mb, mb_of_bytes, opt_chars};

verus! {

/// A sysinfo system handle, carried through unread.
#[verifier::external_type_specification]
#[verifier::external_body]
pub struct ExSystem(System);

/// `System::new`: a handle with nothing loaded yet.
#[verifier::external_body]
fn system_new() -> System {
    System::new()
}

/// `System::refresh_memory`: loads the memory figures into the handle.
/// Nothing is claimed of what it reads, which depends on the machine.
#[verifier::external_body]
fn system_refresh_memory(sys: &mut System) {
    sys.refresh_memory()
}

/// `System::total_memory`: the RAM size in bytes that the handle holds.
/// Nothing is claimed of it, as it depends on the machine.
#[verifier::external_body]
fn system_total_memory(sys: &System) -> u64 {
    sys.total_memory()
}

/// The machine's RAM in whole megabytes, as the operating system reports it.
pub fn total_ram_mb() -> (mb: u64)
    ensures
        exists|bytes: u64| mb == mb_of_bytes(bytes),
{
    let mut sys = system_new();
    system_refresh_memory(&mut sys);
    let bytes = system_total_memory(&sys);
    bytes_to_mb(bytes)
}

/// The memory kind that an SMBIOS type-17 memory-type code names, for the
/// kinds this library reports.
pub open spec fn smbios_kind(code: u8) -> Option<Seq<char>> {
    if code == 0x1a {
        Some("DDR4"@)
    } else if code == 0x1e {
        Some("LPDDR4"@)
    } else if code == 0x22 {
        Some("DDR5"@)
    } else if code == 0x23 {
        Some("LPDDR5"@)
    } else if code == 0x18 {
        Some("DDR3"@)
    } else if code == 0x1d {
        Some("LPDDR3"@)
    } else {
        None
    }
}

/// SMBIOS type-17 memory type code to its name.
pub fn smbios_memory_type(code: u8) -> (r: Option<&'static str>)
    ensures
        r is None <==> smbios_kind(code) is None,
        r matches Some(s) ==> smbios_kind(code) == Some(s@),
{
    match code {
        0x1a => Some("DDR4"),
        0x1e => Some("LPDDR4"),
        0x22 => Some("DDR5"),
        0x23 => Some("LPDDR5"),
        0x18 => Some("DDR3"),
        0x1d => Some("LPDDR3"),
        _ => None,
    }
}

/// The memory kind named by `code`, as an owned string.
fn smbios_memory_kind(code: u8) -> (r: Option<String>)
    ensures
        opt_chars(r) == smbios_kind(code),
{
    match smbios_memory_type(code) {
        Some(k) => Some(k.to_owned()),
        None => None,
    }
}

/// What was read for one entry of /sys/firmware/dmi/entries: its name and
/// the content of its `raw` file (None when it could not be read, e.g.
/// without root).
pub struct DmiEntry {
    pub name: String,
    pub raw: Option<Vec<u8>>,
}

/// Offset of the memory-type byte in an SMBIOS type-17 structure.
pub const SMBIOS_MEMORY_TYPE_OFFSET: usize = 0x12;

/// The memory kind that the DMI entries show: the first type-17 entry
/// ("17-...") whose memory type is a known kind; nothing as soon as a
/// type-17 entry cannot be read (never escalate).
pub open spec fn dmi_kind(entries: Seq<DmiEntry>) -> Option<Seq<char>>
    decreases entries.len(),
{
    if entries.len() == 0 {
        None
    } else if !starts_with(entries[0].name@, "17-"@) {
        dmi_kind(entries.drop_first())
    } else {
        match entries[0].raw {
            None => None,
            Some(raw) => if raw@.len() > SMBIOS_MEMORY_TYPE_OFFSET && smbios_kind(
                raw@[SMBIOS_MEMORY_TYPE_OFFSET as int],
            ) is Some {
                smbios_kind(raw@[SMBIOS_MEMORY_TYPE_OFFSET as int])
            } else {
                dmi_kind(entries.drop_first())
            },
        }
    }
}

/// Linux: SMBIOS type-17 memory-device kind from the DMI entries.
pub fn dmi_memory_kind(entries: &Vec<DmiEntry>) -> (r: Option<String>)
    ensures
        opt_chars(r) == dmi_kind(entries@),
{
    let mut i: usize = 0;
    assert(entries@.skip(0) =~= entries@);
    while i < entries.len()
        invariant
            i <= entries.len(),
            dmi_kind(entries@) == dmi_kind(entries@.skip(i as int)),
        decreases entries.len() - i,
    {
        let ghost rest = entries@.skip(i as int);
        assert(rest[0] == entries@[i as int]);
        assert(rest.drop_first() =~= entries@.skip(i + 1));
        let e = &entries[i];
        if str_starts_with(e.name.as_str(), "17-") {
            match &e.raw {
                None => {
                    return None;
                },
                Some(raw) => {
                    if raw.len() > SMBIOS_MEMORY_TYPE_OFFSET {
                        let kind = smbios_memory_kind(raw[SMBIOS_MEMORY_TYPE_OFFSET]);
                        if kind.is_some() {
                            return kind;
                        }
                    }
                },
            }
        }
        i = i + 1;
    }
    assert(entries@.skip(i as int) =~= Seq::<DmiEntry>::empty());
    None
}

/// `Win32_PhysicalMemory.SMBIOSMemoryType` printed by PowerShell: the
/// trimmed output read as a decimal `u8`, then named like an SMBIOS code.
pub open spec fn cim_kind(stdout: Seq<char>) -> Option<Seq<char>> {
    match parse_unsigned(trimmed(stdout), 10, 255) {
        Some(code) => smbios_kind(code as u8),
        None => None,
    }
}

/// Windows: the memory kind from the PowerShell CIM query's output.
pub fn cim_memory_kind(stdout: &str) -> (r: Option<String>)
    ensures
        opt_chars(r) == cim_kind(stdout@),
{
    let v = chars_of(stdout);
    let (a, b) = trim_bounds(&v);
    match parse_unsigned_range(&v, a, b, 10, 255) {
        Some(code) => smbios_memory_kind(code as u8),
        None => None,
    }
}

/// A memory kind as system_profiler reports it; VMs report the literal
/// string "unknown" (any case), which counts as undetected.
pub open spec fn valid_kind_of(t: Seq<char>) -> Option<Seq<char>> {
    if eq_ignore_ascii_case(t, "unknown"@) {
        None
    } else {
        Some(t)
    }
}

/// Keep a reported memory kind unless it is "unknown".
pub fn valid_kind(t: &str) -> (r: Option<String>)
    ensures
        opt_chars(r) == valid_kind_of(t@),
{
    if str_eq_ignore_ascii_case(t, "unknown") {
        None
    } else {
        Some(t.to_owned())
    }
}

/// The "dimm_type" string of a JSON value, if it has one.
pub open spec fn dimm_type_of(v: JsonValue) -> Option<Seq<char>> {
    match json_get(v, "dimm_type"@) {
        Some(JsonValue::Str(t)) => Some(t@),
        _ => None,
    }
}

/// The first "dimm_type" string among `dimms`.
pub open spec fn first_dimm_type(dimms: Seq<JsonValue>) -> Option<Seq<char>>
    decreases dimms.len(),
{
    if dimms.len() == 0 {
        None
    } else {
        match dimm_type_of(dimms[0]) {
            Some(t) => Some(t),
            None => first_dimm_type(dimms.drop_first()),
        }
    }
}

/// The "dimm_type" of a memory item: at top level (Apple Silicon), else the
/// first in its nested "_items" (Intel Macs).
pub open spec fn item_dimm_type(item: JsonValue) -> Option<Seq<char>> {
    match dimm_type_of(item) {
        Some(t) => Some(t),
        None => match json_get(item, "_items"@) {
            Some(JsonValue::Array(sub)) => first_dimm_type(sub@),
            _ => None,
        },
    }
}

/// The first "dimm_type" that the memory items give.
pub open spec fn first_item_dimm_type(items: Seq<JsonValue>) -> Option<Seq<char>>
    decreases items.len(),
{
    if items.len() == 0 {
        None
    } else {
        match item_dimm_type(items[0]) {
            Some(t) => Some(t),
            None => first_item_dimm_type(items.drop_first()),
        }
    }
}

/// The memory kind that a `system_profiler SPMemoryDataType -json` document
/// gives: the first dimm_type found, unless it is "unknown".
pub open spec fn profiler_kind(doc: Option<JsonValue>) -> Option<Seq<char>> {
    match doc {
        Some(d) => match json_get(d, "SPMemoryDataType"@) {
            Some(JsonValue::Array(items)) => match first_item_dimm_type(items@) {
                Some(t) => valid_kind_of(t),
                None => None,
            },
            _ => None,
        },
        None => None,
    }
}

/// The "dimm_type" string of a JSON value, if it has one.
fn dimm_type(v: &JsonValue) -> (r: Option<&String>)
    ensures
        opt_chars(match r {
            Some(s) => Some(*s),
            None => None,
        }) == dimm_type_of(*v),
{
    match get(v, "dimm_type") {
        Some(JsonValue::Str(t)) => Some(t),
        _ => None,
    }
}

/// The first "dimm_type" string among `dimms`.
fn first_dimm(dimms: &Vec<JsonValue>) -> (r: Option<&String>)
    ensures
        opt_chars(match r {
            Some(s) => Some(*s),
            None => None,
        }) == first_dimm_type(dimms@),
{
    let mut i: usize = 0;
    assert(dimms@.skip(0) =~= dimms@);
    while i < dimms.len()
        invariant
            i <= dimms.len(),
            first_dimm_type(dimms@) == first_dimm_type(dimms@.skip(i as int)),
        decreases dimms.len() - i,
    {
        assert(dimms@.skip(i as int)[0] == dimms@[i as int]);
        assert(dimms@.skip(i as int).drop_first() =~= dimms@.skip(i + 1));
        let t = dimm_type(&dimms[i]);
        if t.is_some() {
            return t;
        }
        i = i + 1;
    }
    assert(dimms@.skip(i as int) =~= Seq::<JsonValue>::empty());
    None
}

/// The "dimm_type" of one memory item.
fn item_dimm(item: &JsonValue) -> (r: Option<&String>)
    ensures
        opt_chars(match r {
            Some(s) => Some(*s),
            None => None,
        }) == item_dimm_type(*item),
{
    let t = dimm_type(item);
    if t.is_some() {
        return t;
    }
    match get(item, "_items") {
        Some(JsonValue::Array(sub)) => first_dimm(sub),
        _ => None,
    }
}

/// macOS: the memory kind from a parsed SPMemoryDataType document.
pub fn profiler_memory_kind(doc: &JsonValue) -> (r: Option<String>)
    ensures
        opt_chars(r) == profiler_kind(Some(*doc)),
{
    let items = match get(doc, "SPMemoryDataType") {
        Some(JsonValue::Array(items)) => items,
        _ => {
            return None;
        },
    };
    let mut i: usize = 0;
    assert(items@.skip(0) =~= items@);
    while i < items.len()
        invariant
            i <= items.len(),
            profiler_kind(Some(*doc)) == match first_item_dimm_type(items@) {
                Some(t) => valid_kind_of(t),
                None => None,
            },
            first_item_dimm_type(items@) == first_item_dimm_type(items@.skip(i as int)),
        decreases items.len() - i,
    {
        assert(items@.skip(i as int)[0] == items@[i as int]);
        assert(items@.skip(i as int).drop_first() =~= items@.skip(i + 1));
        match item_dimm(&items[i]) {
            Some(t) => {
                return valid_kind(t.as_str());
            },
            None => {},
        }
        i = i + 1;
    }
    assert(items@.skip(i as int) =~= Seq::<JsonValue>::empty());
    None
}

/// The memory kinds that SMBIOS codes are reported as.
pub open spec fn known_kind(k: Seq<char>) -> bool {
    ||| k == "DDR3"@
    ||| k == "DDR4"@
    ||| k == "DDR5"@
    ||| k == "LPDDR3"@
    ||| k == "LPDDR4"@
    ||| k == "LPDDR5"@
}

/// Law: a memory kind read from SMBIOS codes (Linux DMI, Windows CIM) is
/// always one of the known kinds, and system_profiler's "unknown" is never
/// reported.
pub proof fn law_reported_kinds(entries: Seq<DmiEntry>, out: Seq<char>, doc: Option<JsonValue>)
    ensures
        dmi_kind(entries) matches Some(k) ==> known_kind(k),
        cim_kind(out) matches Some(k) ==> known_kind(k),
        profiler_kind(doc) matches Some(k) ==> !eq_ignore_ascii_case(k, "unknown"@),
    decreases entries.len(),
{
    if entries.len() > 0 {
        law_reported_kinds(entries.drop_first(), out, doc);
    }
}

/// Where the memory kind is read from, per platform.
pub enum RamKindSource {
    /// Linux: the entries of /sys/firmware/dmi/entries (none when the
    /// directory cannot be read).
    LinuxDmi(Vec<DmiEntry>),
    /// Windows: the PowerShell CIM query's output (None when it could not run).
    WindowsCim(Option<String>),
    /// macOS: the output of `system_profiler SPMemoryDataType -json` (None
    /// when it could not run).
    MacProfiler(Option<Vec<u8>>),
    /// A platform without a memory-kind source.
    Unsupported,
}

/// The memory kind that a source gives.
pub open spec fn ram_kind_of(source: RamKindSource) -> Option<Seq<char>> {
    match source {
        RamKindSource::LinuxDmi(entries) => dmi_kind(entries@),
        RamKindSource::WindowsCim(Some(out)) => cim_kind(out@),
        RamKindSource::MacProfiler(Some(out)) => profiler_kind(json_bytes_value(out@)),
        _ => None,
    }
}

/// DDR4/DDR5/LPDDR5... best-effort, per-OS. None is a legitimate answer.
pub fn ram_kind(source: &RamKindSource) -> (r: Option<String>)
    ensures
        opt_chars(r) == ram_kind_of(*source),
{
    match source {
        RamKindSource::LinuxDmi(entries) => dmi_memory_kind(entries),
        RamKindSource::WindowsCim(Some(out)) => cim_memory_kind(out.as_str()),
        RamKindSource::MacProfiler(Some(out)) => match parse_json_bytes(out.as_slice()) {
            Some(doc) => profiler_memory_kind(&doc),
            None => None,
        },
        _ => None,
    }
}

} // verus!
