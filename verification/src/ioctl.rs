//! The control codes of the synchronous request/response exchange against
//! an open device handle.

use vstd::prelude::*;

verus! {

/// Device type of a vendor-defined device.
pub const FILE_DEVICE_UNKNOWN: u32 = 0x22;

/// Buffered transfer method.
pub const METHOD_BUFFERED: u32 = 0;

/// No particular access required.
pub const FILE_ANY_ACCESS: u32 = 0;

/// The control-code layout: device type in bits 16..=31, required access
/// in bits 14..=15, function in bits 2..=13, transfer method in bits 0..=1.
pub open spec fn spec_ctl_code(device_type: u32, function: u32, method: u32, access: u32) -> u32 {
    (device_type << 16) | (access << 14) | (function << 2) | method
}

/// Builds a control code from its four fields.
pub fn ctl_code(device_type: u32, function: u32, method: u32, access: u32) -> (r: u32)
    ensures
        r == spec_ctl_code(device_type, function, method, access),
{
    (device_type << 16) | (access << 14) | (function << 2) | method
}

/// Request: read the interface's MAC address.
pub const TAP_IOCTL_GET_MAC: u32 = (0x22 << 16) | (1 << 2);

/// Request: read the driver's version triple.
pub const TAP_IOCTL_GET_VERSION: u32 = (0x22 << 16) | (2 << 2);

/// Request: read the interface's MTU.
pub const TAP_IOCTL_GET_MTU: u32 = (0x22 << 16) | (3 << 2);

/// Request: set the media status (connected or disconnected).
pub const TAP_IOCTL_SET_MEDIA_STATUS: u32 = (0x22 << 16) | (6 << 2);

/// The named request codes are exactly the control codes of functions 1, 2,
/// 3 and 6 on the vendor-defined device type, buffered, any access.
pub proof fn lemma_tap_request_codes()
    ensures
        TAP_IOCTL_GET_MAC == spec_ctl_code(FILE_DEVICE_UNKNOWN, 1, METHOD_BUFFERED, FILE_ANY_ACCESS),
        TAP_IOCTL_GET_VERSION == spec_ctl_code(
            FILE_DEVICE_UNKNOWN,
            2,
            METHOD_BUFFERED,
            FILE_ANY_ACCESS,
        ),
        TAP_IOCTL_GET_MTU == spec_ctl_code(FILE_DEVICE_UNKNOWN, 3, METHOD_BUFFERED, FILE_ANY_ACCESS),
        TAP_IOCTL_SET_MEDIA_STATUS == spec_ctl_code(
            FILE_DEVICE_UNKNOWN,
            6,
            METHOD_BUFFERED,
            FILE_ANY_ACCESS,
        ),
{
    assert((0x22u32 << 16) | (1u32 << 2) == (0x22u32 << 16) | (0u32 << 14) | (1u32 << 2) | 0u32)
        by (bit_vector);
    assert((0x22u32 << 16) | (2u32 << 2) == (0x22u32 << 16) | (0u32 << 14) | (2u32 << 2) | 0u32)
        by (bit_vector);
    assert((0x22u32 << 16) | (3u32 << 2) == (0x22u32 << 16) | (0u32 << 14) | (3u32 << 2) | 0u32)
        by (bit_vector);
    assert((0x22u32 << 16) | (6u32 << 2) == (0x22u32 << 16) | (0u32 << 14) | (6u32 << 2) | 0u32)
        by (bit_vector);
}

/// The media-status payload of the set-media-status request: one for
/// connected, zero for disconnected.
pub fn media_status_value(connected: bool) -> (r: u32)
    ensures
        r == (if connected { 1u32 } else { 0u32 }),
{
    if connected { 1 } else { 0 }
}

} // verus!
