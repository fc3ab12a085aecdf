//! What the library takes from the native binding and from `std` on trust.

use vstd::prelude::*;
use std::time::Duration;

verus! {

/// `libusb1_sys::constants::LIBUSB_ENDPOINT_DIR_MASK`, the mask that leaves
/// the direction bit of an endpoint address: bit 7.
#[verifier::external_body]
pub(crate) fn endpoint_dir_mask() -> (mask: u8)
    ensures
        mask == 0x80u8,
{
    libusb1_sys::constants::LIBUSB_ENDPOINT_DIR_MASK
}

/// `libusb1_sys::constants::LIBUSB_ENDPOINT_IN`, the direction bit of an
/// endpoint that sends to the host: bit 7 set.
#[verifier::external_body]
pub(crate) fn endpoint_in() -> (bits: u8)
    ensures
        bits == 0x80u8,
{
    libusb1_sys::constants::LIBUSB_ENDPOINT_IN
}

/// `libusb1_sys::constants::LIBUSB_ENDPOINT_OUT`, the direction bit of an
/// endpoint that receives from the host: bit 7 clear.
#[verifier::external_body]
pub(crate) fn endpoint_out() -> (bits: u8)
    ensures
        bits == 0x00u8,
{
    libusb1_sys::constants::LIBUSB_ENDPOINT_OUT
}

/// The number of whole milliseconds in a duration, as
/// `std::time::Duration::as_millis` counts them.
pub uninterp spec fn duration_millis(d: Duration) -> u128;

/// `std::time::Duration::as_millis`: the whole milliseconds that the duration
/// holds. The result depends on the duration alone.
#[verifier::external_body]
pub(crate) fn duration_as_millis(d: &Duration) -> (ms: u128)
    ensures
        ms == duration_millis(*d),
{
    d.as_millis()
}

} // verus!
