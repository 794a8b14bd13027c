//! The raw input record that the OS hands over for one input notification,
//! and its decoding from the bytes the OS wrote.
//!
//! The layout is the one of 64-bit Windows: a 24-byte header (device type,
//! record size, device handle, wParam) followed by the device-specific part,
//! whose largest member, the pointing-device record, takes 24 bytes.
use vstd::prelude::*;
use crate::bytes::{le_i32, le_u16, le_u32, le_u64, read_i32, read_u16, read_u32, read_u64};

verus! {

/// Size in bytes of the record header.
pub const HEADER_LEN: usize = 24;

/// Size in bytes of a whole record, the buffer that a payload is decoded from.
pub const RECORD_LEN: usize = 48;

/// Device-type tag of a pointing device (mouse).
pub const RIM_TYPEMOUSE: u32 = 0;

/// Device-type tag of a keyboard.
pub const RIM_TYPEKEYBOARD: u32 = 1;

/// Device-type tag of any other HID device.
pub const RIM_TYPEHID: u32 = 2;

/// Flag bit of a pointing-device record: coordinates are absolute.
pub const MOUSE_MOVE_ABSOLUTE: u16 = 1;

/// The value the OS returns in place of a byte count when it fails.
pub const STATUS_ERROR: u32 = 0xFFFF_FFFF;

/// The fixed header of every raw input record.
#[derive(Clone, Copy, Debug, PartialEq, Eq, Structural)]
pub struct RawInputHeader {
    pub device_type: u32,
    pub size: u32,
    pub device: u64,
    pub wparam: u64,
}

/// The device-specific part of a pointing-device record.
#[derive(Clone, Copy, Debug, PartialEq, Eq, Structural)]
pub struct PointerData {
    pub flags: u16,
    pub button_flags: u16,
    pub button_data: u16,
    pub raw_buttons: u32,
    pub last_x: i32,
    pub last_y: i32,
    pub extra_information: u32,
}

/// The device-specific part, exposed only once the header's tag has been checked.
#[derive(Clone, Copy, Debug, PartialEq, Eq, Structural)]
pub enum DeviceData {
    Pointer(PointerData),
    Other,
}

/// A decoded raw input record.
#[derive(Clone, Copy, Debug, PartialEq, Eq, Structural)]
pub struct RawInputPayload {
    pub header: RawInputHeader,
    pub data: DeviceData,
}

impl RawInputPayload {
    /// The device-specific part is a pointer record exactly when the tag says so.
    pub open spec fn wf(&self) -> bool {
        (self.header.device_type == RIM_TYPEMOUSE) == (self.data is Pointer)
    }
}

pub open spec fn header_of(b: Seq<u8>) -> RawInputHeader {
    RawInputHeader {
        device_type: le_u32(b, 0),
        size: le_u32(b, 4),
        device: le_u64(b, 8),
        wparam: le_u64(b, 16),
    }
}

pub open spec fn pointer_of(b: Seq<u8>) -> PointerData {
    PointerData {
        flags: le_u16(b, 24),
        button_flags: le_u16(b, 28),
        button_data: le_u16(b, 30),
        raw_buttons: le_u32(b, 32),
        last_x: le_i32(b, 36),
        last_y: le_i32(b, 40),
        extra_information: le_u32(b, 44),
    }
}

/// The record held by the bytes `b`.
pub open spec fn payload_of(b: Seq<u8>) -> RawInputPayload {
    let header = header_of(b);
    RawInputPayload {
        header,
        data: if header.device_type == RIM_TYPEMOUSE {
            DeviceData::Pointer(pointer_of(b))
        } else {
            DeviceData::Other
        },
    }
}

/// What decoding yields, given the byte count the OS reported and the buffer it filled.
pub open spec fn decoded(status: u32, b: Seq<u8>) -> Option<RawInputPayload> {
    if status == 0 || status == STATUS_ERROR {
        None
    } else {
        Some(payload_of(b))
    }
}

fn decode_header(buffer: &Vec<u8>) -> (r: RawInputHeader)
    requires
        buffer@.len() >= RECORD_LEN,
    ensures
        r == header_of(buffer@),
{
    RawInputHeader {
        device_type: read_u32(buffer, 0),
        size: read_u32(buffer, 4),
        device: read_u64(buffer, 8),
        wparam: read_u64(buffer, 16),
    }
}

fn decode_pointer(buffer: &Vec<u8>) -> (r: PointerData)
    requires
        buffer@.len() >= RECORD_LEN,
    ensures
        r == pointer_of(buffer@),
{
    PointerData {
        flags: read_u16(buffer, 24),
        button_flags: read_u16(buffer, 28),
        button_data: read_u16(buffer, 30),
        raw_buttons: read_u32(buffer, 32),
        last_x: read_i32(buffer, 36),
        last_y: read_i32(buffer, 40),
        extra_information: read_u32(buffer, 44),
    }
}

/// Decodes the record that the OS wrote into `buffer`, where `status` is
/// what the OS call returned: the number of bytes written, or `STATUS_ERROR`.
/// A failed or empty result gives no payload; any other gives the record,
/// its device-specific part tagged by the header's device type.
pub fn decode(status: u32, buffer: &Vec<u8>) -> (r: Option<RawInputPayload>)
    requires
        buffer@.len() >= RECORD_LEN,
    ensures
        r == decoded(status, buffer@),
        status == 0 || status == STATUS_ERROR ==> r is None,
        r is Some ==> r->Some_0.wf(),
{
    if status == 0 || status == STATUS_ERROR {
        return None;
    }
    let header = decode_header(buffer);
    let data = if header.device_type == RIM_TYPEMOUSE {
        DeviceData::Pointer(decode_pointer(buffer))
    } else {
        DeviceData::Other
    };
    Some(RawInputPayload { header, data })
}

/// Two buffers that agree on the record's bytes decode, for the same
/// status, to equal payloads: decoding depends on nothing else.
pub proof fn decode_depends_on_record_bytes(status: u32, b1: Seq<u8>, b2: Seq<u8>)
    requires
        b1.len() >= RECORD_LEN,
        b2.len() >= RECORD_LEN,
        b1.subrange(0, RECORD_LEN as int) == b2.subrange(0, RECORD_LEN as int),
    ensures
        decoded(status, b1) == decoded(status, b2),
{
    let n = RECORD_LEN as int;
    assert forall|i: int| 0 <= i < n implies b1[i] == b2[i] by {
        assert(b1.subrange(0, n)[i] == b1[i]);
        assert(b2.subrange(0, n)[i] == b2[i]);
    }
}

} // verus!
