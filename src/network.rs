use vstd::prelude::*;
use crate::error::HwinfoError;
use crate::record::Record;
use crate::text::{decode_text, text_of, text_ok, RawText};

verus! {

/// Snapshot of one foreign network-interface record.
pub struct RawNetwork {
    pub interface_index: RawText,
    pub description: RawText,
    pub mac_address: RawText,
    pub ipv4_address: RawText,
    pub ipv6_address: RawText,
}

/// One network interface.
#[derive(Debug, Clone)]
pub struct Network {
    pub interface_index: String,
    pub description: String,
    pub mac_address: String,
    pub ipv4_address: String,
    pub ipv6_address: String,
}

impl Record for Network {
    type Raw = RawNetwork;

    open spec fn well_encoded(raw: &RawNetwork) -> bool {
        &&& text_ok(raw.interface_index)
        &&& text_ok(raw.description)
        &&& text_ok(raw.mac_address)
        &&& text_ok(raw.ipv4_address)
        &&& text_ok(raw.ipv6_address)
    }

    open spec fn decoded_from(&self, raw: &RawNetwork) -> bool {
        &&& self.interface_index@ == text_of(raw.interface_index)
        &&& self.description@ == text_of(raw.description)
        &&& self.mac_address@ == text_of(raw.mac_address)
        &&& self.ipv4_address@ == text_of(raw.ipv4_address)
        &&& self.ipv6_address@ == text_of(raw.ipv6_address)
    }

    fn from_raw(raw: &RawNetwork) -> (r: Result<Network, HwinfoError>) {
        let interface_index = decode_text(&raw.interface_index)?;
        let description = decode_text(&raw.description)?;
        let mac_address = decode_text(&raw.mac_address)?;
        let ipv4_address = decode_text(&raw.ipv4_address)?;
        let ipv6_address = decode_text(&raw.ipv6_address)?;
        Ok(Network {
            interface_index,
            description,
            mac_address,
            ipv4_address,
            ipv6_address,
        })
    }
}

} // verus!
