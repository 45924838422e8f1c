//! Composition of Linux ioctl request codes for the event-device interface.
//!
//! A request code packs four sub-fields into one 32-bit word: the transfer
//! direction in the top two bits, the argument size in bits 16..30, the
//! "magic" identifying byte in bits 8..16, and the request number in the low
//! eight bits.

use vstd::prelude::*;

verus! {

/// The event class for key/button capabilities.
pub const EV_KEY: u32 = 0x01;

/// The packing of the four ioctl sub-fields: direction, magic byte,
/// request number, argument size.
pub open spec fn ioc_code(dir: u32, magic: u32, nr: u32, size: u32) -> u32 {
    (dir << 30) | (magic << 8) | nr | (size << 16)
}

/// Pack an ioctl request code from its four sub-fields.
pub fn ioc(a: u32, b: u32, c: u32, d: u32) -> (r: u32)
    ensures
        r == ioc_code(a, b, c, d),
{
    (a << 30) | (b << 8) | c | (d << 16)
}

/// The request code that asks a device for its capability bitmap of event
/// class `ev`, announcing a buffer of `len` bytes. The direction is "read"
/// and the magic byte is 'E', as the event-device interface defines.
pub fn eviocgbit(ev: u32, len: u32) -> (r: u32)
    requires
        ev <= u32::MAX - 0x20,
    ensures
        r == ioc_code(2, 0x45, (ev + 0x20) as u32, len),
{
    ioc(2, 0x45, 0x20 + ev, len)
}

/// The request code that asks a device for the current global key state,
/// announcing a buffer of `len` bytes.
pub fn _eviocgkey(len: u32) -> (r: u32)
    ensures
        r == ioc_code(2, 0x45, 0x18, len),
{
    ioc(2, 0x45, 0x18, len)
}

} // verus!
