//! Library for driving a Wooting keyboard's vendor-specific HID feature-report
//! protocol, and for deciding profile switches from foreground-window activity.
//!
//! The library itself performs no I/O: it encodes request frames, validates and
//! decodes response frames, and computes the actions an autoswitch loop should
//! take. A thin unverified shell owns the HID handle and the operating-system
//! queries and feeds plain values in and out.

use vstd::prelude::*;

pub mod autoswitch;
pub mod error;
pub mod frame;
pub mod lekker;

verus! {

/// USB vendor identifier shared by all supported keyboards.
pub const VENDOR_ID: u16 = 12771;

/// HID usage page of the vendor-specific feature-report interface.
pub const USAGE_PAGE: u16 = 4919;

/// True exactly for the product identifiers of the supported keyboard models.
pub fn is_supported_product(product_id: u16) -> (r: bool)
    ensures
        r == (product_id == 4624 || product_id == 4640 || product_id == 4864),
{
    product_id == 4624 || product_id == 4640 || product_id == 4864
}

} // verus!
