//! The declaration of interest in raw pointing-device input, and the
//! reading of the OS's answer to it.
use vstd::prelude::*;

verus! {

/// Usage page of generic desktop controls.
pub const HID_USAGE_PAGE_GENERIC: u16 = 0x01;

/// Usage of a mouse within the generic desktop page.
pub const HID_USAGE_GENERIC_MOUSE: u16 = 0x02;

/// Registration flag: deliver input even while the window lacks focus.
pub const RIDEV_INPUTSINK: u32 = 0x0000_0100;

/// Registration flag: notify of device arrival and removal.
pub const RIDEV_DEVNOTIFY: u32 = 0x0000_2000;

/// One entry of interest in a device class, for one target window.
#[derive(Clone, Copy, Debug, PartialEq, Eq, Structural)]
pub struct DeviceRegistration {
    pub usage_page: u16,
    pub usage: u16,
    pub wants_device_change_notifications: bool,
    pub wants_background_delivery: bool,
    pub target_window: usize,
}

/// The OS refused the registration; the variant holds what the call returned.
#[derive(Clone, Copy, Debug, PartialEq, Eq, Structural)]
pub enum RegistrationError {
    Rejected(i32),
}

impl DeviceRegistration {
    pub open spec fn spec_os_flags(&self) -> u32 {
        ((if self.wants_device_change_notifications { RIDEV_DEVNOTIFY } else { 0 }) + (
        if self.wants_background_delivery { RIDEV_INPUTSINK } else { 0 })) as u32
    }

    /// The flag word that the OS expects for this entry.
    pub fn os_flags(&self) -> (r: u32)
        ensures
            r == self.spec_os_flags(),
    {
        let mut flags: u32 = 0;
        if self.wants_device_change_notifications {
            flags = flags + RIDEV_DEVNOTIFY;
        }
        if self.wants_background_delivery {
            flags = flags + RIDEV_INPUTSINK;
        }
        flags
    }
}

/// The single entry this library registers: generic-desktop mice, delivered
/// to `target_window` also while it lacks focus, with device-change
/// notifications.
pub fn mouse_registration(target_window: usize) -> (r: DeviceRegistration)
    ensures
        r.usage_page == HID_USAGE_PAGE_GENERIC,
        r.usage == HID_USAGE_GENERIC_MOUSE,
        r.wants_device_change_notifications,
        r.wants_background_delivery,
        r.target_window == target_window,
        r.spec_os_flags() == RIDEV_DEVNOTIFY | RIDEV_INPUTSINK,
{
    let r = DeviceRegistration {
        usage_page: HID_USAGE_PAGE_GENERIC,
        usage: HID_USAGE_GENERIC_MOUSE,
        wants_device_change_notifications: true,
        wants_background_delivery: true,
        target_window,
    };
    assert(RIDEV_DEVNOTIFY | RIDEV_INPUTSINK == 0x2100u32) by (bit_vector);
    r
}

/// Reads what the OS registration call returned: success is exactly `1`.
pub fn registration_outcome(os_result: i32) -> (r: Result<(), RegistrationError>)
    ensures
        os_result == 1 <==> r is Ok,
        os_result != 1 ==> r == Err::<(), RegistrationError>(RegistrationError::Rejected(os_result)),
{
    if os_result == 1 {
        Ok(())
    } else {
        Err(RegistrationError::Rejected(os_result))
    }
}

} // verus!
