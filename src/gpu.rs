use vstd::prelude::*;
use crate::error::HwinfoError;
use crate::record::Record;
use crate::text::{decode_text, text_of, text_ok, RawText};

verus! {

/// Snapshot of one foreign GPU record.
pub struct RawGpu {
    pub id: i32,
    pub vendor: RawText,
    pub name: RawText,
    pub driver_version: RawText,
    pub memory_bytes: i64,
    pub frequency_mhz: i64,
    pub num_cores: i32,
    pub vendor_id: RawText,
    pub device_id: RawText,
}

/// One display adapter, discrete or integrated.
#[derive(Debug, Clone)]
pub struct Gpu {
    pub id: i32,
    pub vendor: String,
    pub name: String,
    pub driver_version: String,
    pub memory_bytes: i64,
    pub frequency_mhz: i64,
    pub num_cores: i32,
    pub vendor_id: String,
    pub device_id: String,
}

impl Record for Gpu {
    type Raw = RawGpu;

    open spec fn well_encoded(raw: &RawGpu) -> bool {
        &&& text_ok(raw.vendor)
        &&& text_ok(raw.name)
        &&& text_ok(raw.driver_version)
        &&& text_ok(raw.vendor_id)
        &&& text_ok(raw.device_id)
    }

    open spec fn decoded_from(&self, raw: &RawGpu) -> bool {
        &&& self.id == raw.id
        &&& self.vendor@ == text_of(raw.vendor)
        &&& self.name@ == text_of(raw.name)
        &&& self.driver_version@ == text_of(raw.driver_version)
        &&& self.memory_bytes == raw.memory_bytes
        &&& self.frequency_mhz == raw.frequency_mhz
        &&& self.num_cores == raw.num_cores
        &&& self.vendor_id@ == text_of(raw.vendor_id)
        &&& self.device_id@ == text_of(raw.device_id)
    }

    fn from_raw(raw: &RawGpu) -> (r: Result<Gpu, HwinfoError>) {
        let vendor = decode_text(&raw.vendor)?;
        let name = decode_text(&raw.name)?;
        let driver_version = decode_text(&raw.driver_version)?;
        let vendor_id = decode_text(&raw.vendor_id)?;
        let device_id = decode_text(&raw.device_id)?;
        Ok(Gpu {
            id: raw.id,
            vendor,
            name,
            driver_version,
            memory_bytes: raw.memory_bytes,
            frequency_mhz: raw.frequency_mhz,
            num_cores: raw.num_cores,
            vendor_id,
            device_id,
        })
    }
}

} // verus!
