use vstd::prelude::*;
use crate::error::HwinfoError;
use crate::foreign::ForeignArray;
use crate::record::Record;
use crate::text::{
    decode_text, decode_text_array, text_array_of, text_array_ok, text_of, text_ok, texts_view,
    RawText,
};

verus! {

/// Snapshot of one foreign CPU record.
pub struct RawCpu {
    pub id: i32,
    pub vendor: RawText,
    pub model_name: RawText,
    pub num_physical_cores: i32,
    pub num_logical_cores: i32,
    pub max_clock_speed_mhz: i64,
    pub regular_clock_speed_mhz: i64,
    pub l1_cache_size_bytes: i64,
    pub l2_cache_size_bytes: i64,
    pub l3_cache_size_bytes: i64,
    pub flags: ForeignArray<RawText>,
}

/// One physical CPU socket.
#[derive(Debug, Clone)]
pub struct Cpu {
    pub id: i32,
    pub vendor: String,
    pub model_name: String,
    pub num_physical_cores: i32,
    pub num_logical_cores: i32,
    pub max_clock_speed_mhz: i64,
    pub regular_clock_speed_mhz: i64,
    pub l1_cache_size_bytes: i64,
    pub l2_cache_size_bytes: i64,
    pub l3_cache_size_bytes: i64,
    pub flags: Vec<String>,
}

impl Record for Cpu {
    type Raw = RawCpu;

    open spec fn well_encoded(raw: &RawCpu) -> bool {
        &&& text_ok(raw.vendor)
        &&& text_ok(raw.model_name)
        &&& text_array_ok(raw.flags)
    }

    open spec fn decoded_from(&self, raw: &RawCpu) -> bool {
        &&& self.id == raw.id
        &&& self.vendor@ == text_of(raw.vendor)
        &&& self.model_name@ == text_of(raw.model_name)
        &&& self.num_physical_cores == raw.num_physical_cores
        &&& self.num_logical_cores == raw.num_logical_cores
        &&& self.max_clock_speed_mhz == raw.max_clock_speed_mhz
        &&& self.regular_clock_speed_mhz == raw.regular_clock_speed_mhz
        &&& self.l1_cache_size_bytes == raw.l1_cache_size_bytes
        &&& self.l2_cache_size_bytes == raw.l2_cache_size_bytes
        &&& self.l3_cache_size_bytes == raw.l3_cache_size_bytes
        &&& texts_view(self.flags@) == text_array_of(raw.flags)
    }

    fn from_raw(raw: &RawCpu) -> (r: Result<Cpu, HwinfoError>) {
        let vendor = decode_text(&raw.vendor)?;
        let model_name = decode_text(&raw.model_name)?;
        let flags = decode_text_array(&raw.flags)?;
        Ok(Cpu {
            id: raw.id,
            vendor,
            model_name,
            num_physical_cores: raw.num_physical_cores,
            num_logical_cores: raw.num_logical_cores,
            max_clock_speed_mhz: raw.max_clock_speed_mhz,
            regular_clock_speed_mhz: raw.regular_clock_speed_mhz,
            l1_cache_size_bytes: raw.l1_cache_size_bytes,
            l2_cache_size_bytes: raw.l2_cache_size_bytes,
            l3_cache_size_bytes: raw.l3_cache_size_bytes,
            flags,
        })
    }
}

} // verus!
