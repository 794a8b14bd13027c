//! Decoding of raw pointing-device input records and the decisions of the
//! window message loop that receives them.
mod bytes;
mod payload;
mod motion;
mod registration;
mod dispatch;

pub use bytes::{le_i32, le_u16, le_u32, le_u64, read_i32, read_u16, read_u32, read_u64};
pub use payload::{
    decode, decode_depends_on_record_bytes, decoded, header_of, payload_of, pointer_of,
    DeviceData, PointerData, RawInputHeader, RawInputPayload, HEADER_LEN, MOUSE_MOVE_ABSOLUTE,
    RECORD_LEN, RIM_TYPEHID, RIM_TYPEKEYBOARD, RIM_TYPEMOUSE, STATUS_ERROR,
};
pub use motion::{absolute_bit_set, interpret, interpreted, MotionEvent};
pub use registration::{
    mouse_registration, registration_outcome, DeviceRegistration, RegistrationError,
    HID_USAGE_GENERIC_MOUSE, HID_USAGE_PAGE_GENERIC, RIDEV_DEVNOTIFY, RIDEV_INPUTSINK,
};
pub use dispatch::{
    classified, classify, cleanup_runs_exactly_once, cleanups, notification_event, pump_event,
    receive_motion, run, step, stopped_loop_is_inert, EventLoop, LoopAction, LoopState, PumpEvent,
    WindowMessage, WM_DESTROY, WM_INPUT,
};
