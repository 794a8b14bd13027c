//! Interpretation of a decoded record as a pointing-device motion event.
use vstd::prelude::*;
use crate::payload::{DeviceData, RawInputPayload, MOUSE_MOVE_ABSOLUTE, RIM_TYPEMOUSE};

verus! {

/// One motion report of a pointing device. When `is_absolute` holds,
/// `delta_x` and `delta_y` are screen coordinates rather than deltas.
#[derive(Clone, Copy, Debug, PartialEq, Eq, Structural)]
pub struct MotionEvent {
    pub delta_x: i32,
    pub delta_y: i32,
    pub is_absolute: bool,
    pub raw_flags: u16,
}

/// Whether `flags` has the absolute-positioning bit, `MOUSE_MOVE_ABSOLUTE`,
/// which is the lowest bit.
pub open spec fn absolute_bit_set(flags: u16) -> bool {
    flags % 2 == 1
}

/// The event that a payload carries, if it is a pointing-device record.
pub open spec fn interpreted(p: RawInputPayload) -> Option<MotionEvent> {
    if p.header.device_type != RIM_TYPEMOUSE {
        None
    } else {
        match p.data {
            DeviceData::Pointer(m) => Some(
                MotionEvent {
                    delta_x: m.last_x,
                    delta_y: m.last_y,
                    is_absolute: absolute_bit_set(m.flags),
                    raw_flags: m.flags,
                },
            ),
            DeviceData::Other => None,
        }
    }
}

/// Reads a payload as a motion event: none unless its tag names a pointing
/// device; otherwise the record's coordinates, unmodified, with the
/// absolute-positioning bit surfaced as `is_absolute`.
pub fn interpret(payload: &RawInputPayload) -> (r: Option<MotionEvent>)
    ensures
        r == interpreted(*payload),
        payload.header.device_type != RIM_TYPEMOUSE ==> r is None,
        payload.wf() && payload.header.device_type == RIM_TYPEMOUSE ==> r is Some,
        r is Some ==> (r->Some_0.is_absolute <==> absolute_bit_set(
            payload.data->Pointer_0.flags,
        )),
        r is Some && !absolute_bit_set(payload.data->Pointer_0.flags) ==> ({
            let e = r->Some_0;
            let m = payload.data->Pointer_0;
            !e.is_absolute && e.delta_x == m.last_x && e.delta_y == m.last_y
        }),
{
    if payload.header.device_type != RIM_TYPEMOUSE {
        return None;
    }
    match &payload.data {
        DeviceData::Pointer(m) => {
            let flags = m.flags;
            assert((flags & MOUSE_MOVE_ABSOLUTE != 0) == (flags % 2 == 1)) by (bit_vector);
            Some(
                MotionEvent {
                    delta_x: m.last_x,
                    delta_y: m.last_y,
                    is_absolute: flags & MOUSE_MOVE_ABSOLUTE != 0,
                    raw_flags: flags,
                },
            )
        },
        DeviceData::Other => None,
    }
}

} // verus!
