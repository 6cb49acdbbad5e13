use vstd::prelude::*;
use crate::error::HwinfoError;
use crate::foreign::ForeignArray;
use crate::record::{all_decoded_from, all_well_encoded, decode_array, Record};
use crate::text::{decode_text, text_of, text_ok, RawText};

verus! {

/// Snapshot of one foreign RAM-module record.
pub struct RawRamModule {
    pub id: i32,
    pub vendor: RawText,
    pub name: RawText,
    pub model: RawText,
    pub serial_number: RawText,
    pub total_bytes: i64,
    pub frequency_hz: i64,
}

/// One installed memory module; its id is local to the process.
#[derive(Debug, Clone)]
pub struct RamModule {
    pub id: i32,
    pub vendor: String,
    pub name: String,
    pub model: String,
    pub serial_number: String,
    pub total_bytes: i64,
    pub frequency_hz: i64,
}

impl Record for RamModule {
    type Raw = RawRamModule;

    open spec fn well_encoded(raw: &RawRamModule) -> bool {
        &&& text_ok(raw.vendor)
        &&& text_ok(raw.name)
        &&& text_ok(raw.model)
        &&& text_ok(raw.serial_number)
    }

    open spec fn decoded_from(&self, raw: &RawRamModule) -> bool {
        &&& self.id == raw.id
        &&& self.vendor@ == text_of(raw.vendor)
        &&& self.name@ == text_of(raw.name)
        &&& self.model@ == text_of(raw.model)
        &&& self.serial_number@ == text_of(raw.serial_number)
        &&& self.total_bytes == raw.total_bytes
        &&& self.frequency_hz == raw.frequency_hz
    }

    fn from_raw(raw: &RawRamModule) -> (r: Result<RamModule, HwinfoError>) {
        let vendor = decode_text(&raw.vendor)?;
        let name = decode_text(&raw.name)?;
        let model = decode_text(&raw.model)?;
        let serial_number = decode_text(&raw.serial_number)?;
        Ok(RamModule {
            id: raw.id,
            vendor,
            name,
            model,
            serial_number,
            total_bytes: raw.total_bytes,
            frequency_hz: raw.frequency_hz,
        })
    }
}

/// Snapshot of the foreign memory record, with its embedded module array.
pub struct RawMemoryInfo {
    pub total_bytes: i64,
    pub free_bytes: i64,
    pub available_bytes: i64,
    pub modules: ForeignArray<RawRamModule>,
}

/// Memory totals and the installed modules, in the foreign array's order.
#[derive(Debug, Clone)]
pub struct MemoryInfo {
    pub total_bytes: i64,
    pub free_bytes: i64,
    pub available_bytes: i64,
    pub modules: Vec<RamModule>,
}

impl Record for MemoryInfo {
    type Raw = RawMemoryInfo;

    open spec fn well_encoded(raw: &RawMemoryInfo) -> bool {
        all_well_encoded::<RamModule>(raw.modules.elements())
    }

    open spec fn decoded_from(&self, raw: &RawMemoryInfo) -> bool {
        &&& self.total_bytes == raw.total_bytes
        &&& self.free_bytes == raw.free_bytes
        &&& self.available_bytes == raw.available_bytes
        &&& all_decoded_from(self.modules@, raw.modules.elements())
    }

    fn from_raw(raw: &RawMemoryInfo) -> (r: Result<MemoryInfo, HwinfoError>) {
        let modules = decode_array::<RamModule>(&raw.modules)?;
        Ok(MemoryInfo {
            total_bytes: raw.total_bytes,
            free_bytes: raw.free_bytes,
            available_bytes: raw.available_bytes,
            modules,
        })
    }
}

} // verus!
