use vstd::prelude::*;

verus! {

pub const RAZER_VENDOR_ID: u16 = 0x1532;

pub const ORNATA_V3_PRODUCT_ID: u16 = 0x02A1;

/// Whether a USB device descriptor names the supported keyboard.
pub fn is_supported_device(vendor_id: u16, product_id: u16) -> (r: bool)
    ensures
        r == (vendor_id == RAZER_VENDOR_ID && product_id == ORNATA_V3_PRODUCT_ID),
{
    vendor_id == RAZER_VENDOR_ID && product_id == ORNATA_V3_PRODUCT_ID
}

} // verus!
