//! The numbers and records of the C interface, as plain values.
//!
//! The records have the fields of their C counterparts and nothing else:
//! whoever calls the C library copies them field by field.

use vstd::prelude::*;

verus! {

/// Process data in sync mode.
pub const LIBEVDEV_READ_FLAG_SYNC: i32 = 1;

/// Process data in normal mode.
pub const LIBEVDEV_READ_FLAG_NORMAL: i32 = 2;

/// Pretend the next event is a `SYN_DROPPED` and require the caller to sync.
pub const LIBEVDEV_READ_FLAG_FORCE_SYNC: i32 = 4;

/// The file descriptor is not in `O_NONBLOCK` and a read may block.
pub const LIBEVDEV_READ_FLAG_BLOCKING: i32 = 8;

/// Critical errors and application bugs.
pub const LIBEVDEV_LOG_ERROR: i32 = 10;

/// Informational messages.
pub const LIBEVDEV_LOG_INFO: i32 = 20;

/// Debug information.
pub const LIBEVDEV_LOG_DEBUG: i32 = 30;

/// Grab the device if not currently grabbed.
pub const LIBEVDEV_GRAB: i32 = 3;

/// Ungrab the device if currently grabbed.
pub const LIBEVDEV_UNGRAB: i32 = 4;

/// An event was read.
pub const LIBEVDEV_READ_STATUS_SUCCESS: i32 = 0;

/// The device has to be synced, or an event was read in sync mode.
pub const LIBEVDEV_READ_STATUS_SYNC: i32 = 1;

/// Turn the LED on.
pub const LIBEVDEV_LED_ON: i32 = 3;

/// Turn the LED off.
pub const LIBEVDEV_LED_OFF: i32 = 4;

/// A point in time: seconds, and microseconds within the second.
#[allow(non_camel_case_types)]
#[derive(Clone, Copy, Debug, PartialEq, Eq, Structural)]
pub struct timeval {
    pub tv_sec: i64,
    pub tv_usec: i64,
}

/// One event as the kernel hands it out.
#[allow(non_camel_case_types)]
#[derive(Clone, Copy, Debug, PartialEq, Eq, Structural)]
pub struct input_event {
    pub time: timeval,
    pub type_: u16,
    pub code: u16,
    pub value: i32,
}

/// What the kernel knows of one absolute axis.
#[allow(non_camel_case_types)]
#[derive(Clone, Copy, Debug, PartialEq, Eq, Structural)]
pub struct input_absinfo {
    pub value: i32,
    pub minimum: i32,
    pub maximum: i32,
    pub fuzz: i32,
    pub flat: i32,
    pub resolution: i32,
}

} // verus!
