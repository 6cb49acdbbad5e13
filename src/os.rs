use vstd::prelude::*;
use crate::error::HwinfoError;
use crate::record::Record;
use crate::text::{decode_text, text_of, text_ok, RawText};

verus! {

/// Snapshot of the foreign operating-system record.
pub struct RawOs {
    pub name: RawText,
    pub version: RawText,
    pub kernel: RawText,
    pub is_32_bit: bool,
    pub is_64_bit: bool,
    pub is_little_endian: bool,
}

/// The operating system.
#[derive(Debug, Clone)]
pub struct Os {
    pub name: String,
    pub version: String,
    pub kernel: String,
    pub is_32_bit: bool,
    pub is_64_bit: bool,
    pub is_little_endian: bool,
}

impl Record for Os {
    type Raw = RawOs;

    open spec fn well_encoded(raw: &RawOs) -> bool {
        &&& text_ok(raw.name)
        &&& text_ok(raw.version)
        &&& text_ok(raw.kernel)
    }

    open spec fn decoded_from(&self, raw: &RawOs) -> bool {
        &&& self.name@ == text_of(raw.name)
        &&& self.version@ == text_of(raw.version)
        &&& self.kernel@ == text_of(raw.kernel)
        &&& self.is_32_bit == raw.is_32_bit
        &&& self.is_64_bit == raw.is_64_bit
        &&& self.is_little_endian == raw.is_little_endian
    }

    fn from_raw(raw: &RawOs) -> (r: Result<Os, HwinfoError>) {
        let name = decode_text(&raw.name)?;
        let version = decode_text(&raw.version)?;
        let kernel = decode_text(&raw.kernel)?;
        Ok(Os {
            name,
            version,
            kernel,
            is_32_bit: raw.is_32_bit,
            is_64_bit: raw.is_64_bit,
            is_little_endian: raw.is_little_endian,
        })
    }
}

} // verus!
