use vstd::prelude::*;

verus! {

/// USB vendor id of the keyboards driven here.
pub const RV_VENDOR: u16 = 0x1e7d;

/// USB product ids of the keyboards driven here.
pub const RV_PRODUCT_A: u16 = 0x3098;

pub const RV_PRODUCT_B: u16 = 0x307a;

/// The HID interface that takes the lighting reports.
pub const RV_LED_INTERFACE: i32 = 3;

/// Whether a HID interface with these ids is a keyboard's lighting interface.
pub fn is_led_interface(vendor_id: u16, product_id: u16, interface_number: i32) -> (r: bool)
    ensures
        r == (interface_number == RV_LED_INTERFACE && vendor_id == RV_VENDOR && (product_id
            == RV_PRODUCT_A || product_id == RV_PRODUCT_B)),
{
    interface_number == RV_LED_INTERFACE && vendor_id == RV_VENDOR && (product_id == RV_PRODUCT_A
        || product_id == RV_PRODUCT_B)
}

} // verus!
