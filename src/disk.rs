use vstd::prelude::*;
use crate::error::HwinfoError;
use crate::foreign::ForeignArray;
use crate::record::Record;
use crate::text::{decode_text, decode_text_array, text_array_of, text_array_ok, text_of, text_ok, texts_view, RawText};

verus! {

/// Snapshot of one foreign disk record.
pub struct RawDisk {
    pub id: i32,
    pub vendor: RawText,
    pub model: RawText,
    pub serial_number: RawText,
    pub size_bytes: i64,
    pub free_size_bytes: i64,
    pub volumes: ForeignArray<RawText>,
}

/// One disk drive.
#[derive(Debug, Clone)]
pub struct Disk {
    pub id: i32,
    pub vendor: String,
    pub model: String,
    pub serial_number: String,
    pub size_bytes: i64,
    pub free_size_bytes: i64,
    pub volumes: Vec<String>,
}

impl Record for Disk {
    type Raw = RawDisk;

    open spec fn well_encoded(raw: &RawDisk) -> bool {
        &&& text_ok(raw.vendor)
        &&& text_ok(raw.model)
        &&& text_ok(raw.serial_number)
        &&& text_array_ok(raw.volumes)
    }

    open spec fn decoded_from(&self, raw: &RawDisk) -> bool {
        &&& self.id == raw.id
        &&& self.vendor@ == text_of(raw.vendor)
        &&& self.model@ == text_of(raw.model)
        &&& self.serial_number@ == text_of(raw.serial_number)
        &&& self.size_bytes == raw.size_bytes
        &&& self.free_size_bytes == raw.free_size_bytes
        &&& texts_view(self.volumes@) == text_array_of(raw.volumes)
    }

    fn from_raw(raw: &RawDisk) -> (r: Result<Disk, HwinfoError>) {
        let vendor = decode_text(&raw.vendor)?;
        let model = decode_text(&raw.model)?;
        let serial_number = decode_text(&raw.serial_number)?;
        let volumes = decode_text_array(&raw.volumes)?;
        Ok(Disk {
            id: raw.id,
            vendor,
            model,
            serial_number,
            size_bytes: raw.size_bytes,
            free_size_bytes: raw.free_size_bytes,
            volumes,
        })
    }
}

} // verus!
