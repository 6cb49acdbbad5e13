use vstd::prelude::*;
use crate::error::HwinfoError;
use crate::record::Record;
use crate::text::{decode_text, text_of, text_ok, RawText};

verus! {

/// Snapshot of the foreign mainboard record.
pub struct RawMainBoard {
    pub vendor: RawText,
    pub name: RawText,
    pub version: RawText,
    pub serial_number: RawText,
}

/// The mainboard.
#[derive(Debug, Clone)]
pub struct MainBoard {
    pub vendor: String,
    pub name: String,
    pub version: String,
    pub serial_number: String,
}

impl Record for MainBoard {
    type Raw = RawMainBoard;

    open spec fn well_encoded(raw: &RawMainBoard) -> bool {
        &&& text_ok(raw.vendor)
        &&& text_ok(raw.name)
        &&& text_ok(raw.version)
        &&& text_ok(raw.serial_number)
    }

    open spec fn decoded_from(&self, raw: &RawMainBoard) -> bool {
        &&& self.vendor@ == text_of(raw.vendor)
        &&& self.name@ == text_of(raw.name)
        &&& self.version@ == text_of(raw.version)
        &&& self.serial_number@ == text_of(raw.serial_number)
    }

    fn from_raw(raw: &RawMainBoard) -> (r: Result<MainBoard, HwinfoError>) {
        let vendor = decode_text(&raw.vendor)?;
        let name = decode_text(&raw.name)?;
        let version = decode_text(&raw.version)?;
        let serial_number = decode_text(&raw.serial_number)?;
        Ok(MainBoard {
            vendor,
            name,
            version,
            serial_number,
        })
    }
}

} // verus!
