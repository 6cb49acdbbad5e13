use vstd::prelude::*;
use crate::error::HwinfoError;
use crate::record::Record;
use crate::text::{decode_text, text_of, text_ok, RawText};

verus! {

/// Snapshot of one foreign battery record.
pub struct RawBattery {
    pub id: i32,
    pub vendor: RawText,
    pub model: RawText,
    pub serial_number: RawText,
    pub technology: RawText,
    pub energy_full_mwh: u32,
    pub energy_now_mwh: u32,
    pub is_charging: bool,
}

/// One battery.
#[derive(Debug, Clone)]
pub struct Battery {
    pub id: i32,
    pub vendor: String,
    pub model: String,
    pub serial_number: String,
    pub technology: String,
    pub energy_full_mwh: u32,
    pub energy_now_mwh: u32,
    pub is_charging: bool,
}

impl Record for Battery {
    type Raw = RawBattery;

    open spec fn well_encoded(raw: &RawBattery) -> bool {
        &&& text_ok(raw.vendor)
        &&& text_ok(raw.model)
        &&& text_ok(raw.serial_number)
        &&& text_ok(raw.technology)
    }

    open spec fn decoded_from(&self, raw: &RawBattery) -> bool {
        &&& self.id == raw.id
        &&& self.vendor@ == text_of(raw.vendor)
        &&& self.model@ == text_of(raw.model)
        &&& self.serial_number@ == text_of(raw.serial_number)
        &&& self.technology@ == text_of(raw.technology)
        &&& self.energy_full_mwh == raw.energy_full_mwh
        &&& self.energy_now_mwh == raw.energy_now_mwh
        &&& self.is_charging == raw.is_charging
    }

    fn from_raw(raw: &RawBattery) -> (r: Result<Battery, HwinfoError>) {
        let vendor = decode_text(&raw.vendor)?;
        let model = decode_text(&raw.model)?;
        let serial_number = decode_text(&raw.serial_number)?;
        let technology = decode_text(&raw.technology)?;
        Ok(Battery {
            id: raw.id,
            vendor,
            model,
            serial_number,
            technology,
            energy_full_mwh: raw.energy_full_mwh,
            energy_now_mwh: raw.energy_now_mwh,
            is_charging: raw.is_charging,
        })
    }
}

} // verus!
