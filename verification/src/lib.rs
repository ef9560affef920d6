//! The typed side of a binding to libevdev, the C library for Linux input
//! devices.
//!
//! The kernel and the C library speak in small numbers and fixed records.
//! This crate holds what gives them names and types: the event types, the
//! event codes and the device properties, the events themselves, and the
//! reading of the numbers that the C library's calls return. Nothing here
//! calls the C library; what does hands plain values over and takes typed
//! ones back.

pub mod device;
pub mod enums;
pub mod keys;
pub mod logging;
pub mod raw;
pub mod uinput;
pub mod util;

use crate::enums::{int_to_event_type, BusType, EventCode, EventType};
use crate::util::{event_code_to_int, int_to_event_code, lemma_numbers_found_again};
use vstd::prelude::*;

verus! {

/// Whether a device is to be grabbed or let go.
#[derive(Clone, Copy, Debug, PartialEq, Eq, Structural)]
pub enum GrabMode {
    /// Grab the device if not currently grabbed
    Grab,
    /// Ungrab the device if currently grabbed
    Ungrab,
}

impl GrabMode {
    /// The number the C library knows this mode by.
    pub open spec fn number(self) -> i32 {
        match self {
            GrabMode::Grab => raw::LIBEVDEV_GRAB,
            GrabMode::Ungrab => raw::LIBEVDEV_UNGRAB,
        }
    }

    /// The number the C library knows this mode by.
    pub fn as_raw(&self) -> (n: i32)
        ensures
            n == self.number(),
    {
        match self {
            GrabMode::Grab => raw::LIBEVDEV_GRAB,
            GrabMode::Ungrab => raw::LIBEVDEV_UNGRAB,
        }
    }
}

/// How a read of the next event ended, where it did hand out an event.
#[derive(Clone, Copy, Debug, PartialEq, Eq, Structural)]
pub enum ReadStatus {
    /// `next_event` has finished without an error and an event is available
    /// for processing.
    Success,
    /// Depending on the `next_event` read flag:
    /// libevdev received a SYN_DROPPED from the device, and the caller should
    /// now resync the device, or, an event has been read in sync mode.
    Sync,
}

impl ReadStatus {
    /// The number the C library knows this status by.
    pub open spec fn number(self) -> i32 {
        match self {
            ReadStatus::Success => raw::LIBEVDEV_READ_STATUS_SUCCESS,
            ReadStatus::Sync => raw::LIBEVDEV_READ_STATUS_SYNC,
        }
    }

    /// The number the C library knows this status by.
    pub fn as_raw(&self) -> (n: i32)
        ensures
            n == self.number(),
    {
        match self {
            ReadStatus::Success => raw::LIBEVDEV_READ_STATUS_SUCCESS,
            ReadStatus::Sync => raw::LIBEVDEV_READ_STATUS_SYNC,
        }
    }
}

/// What to do with an LED.
#[derive(Clone, Copy, Debug, PartialEq, Eq, Structural)]
pub enum LedState {
    /// Turn the LED on
    On,
    /// Turn the LED off
    Off,
}

impl LedState {
    /// The number the C library knows this state by.
    pub open spec fn number(self) -> i32 {
        match self {
            LedState::On => raw::LIBEVDEV_LED_ON,
            LedState::Off => raw::LIBEVDEV_LED_OFF,
        }
    }

    /// The number the C library knows this state by.
    pub fn as_raw(&self) -> (n: i32)
        ensures
            n == self.number(),
    {
        match self {
            LedState::On => raw::LIBEVDEV_LED_ON,
            LedState::Off => raw::LIBEVDEV_LED_OFF,
        }
    }
}

/// What a device says of itself: its bus, its maker, the product and the
/// version of it.
#[derive(Clone, Copy, Debug, PartialEq, Eq, Structural)]
pub struct DeviceId {
    pub bustype: BusType,
    pub vendor: u16,
    pub product: u16,
    pub version: u16,
}

/// used by EVIOCGABS/EVIOCSABS ioctls
#[derive(Clone, Copy, Debug, PartialEq, Eq, Structural)]
pub struct AbsInfo {
    /// latest reported value for the axis
    pub value: i32,
    /// specifies minimum value for the axis
    pub minimum: i32,
    /// specifies maximum value for the axis
    pub maximum: i32,
    /// specifies fuzz value that is used to filter noise from
    /// the event stream
    pub fuzz: i32,
    /// values that are within this value will be discarded by
    /// joydev interface and reported as 0 instead
    pub flat: i32,
    /// specifies resolution for the values reported for
    /// the axis
    pub resolution: i32,
}

impl AbsInfo {
    /// The same six values, as the kernel's record of them.
    pub open spec fn to_raw(self) -> raw::input_absinfo {
        raw::input_absinfo {
            value: self.value,
            minimum: self.minimum,
            maximum: self.maximum,
            fuzz: self.fuzz,
            flat: self.flat,
            resolution: self.resolution,
        }
    }

    /// The six values of the kernel's record.
    pub fn from_raw(absinfo: raw::input_absinfo) -> (a: AbsInfo)
        ensures
            a.to_raw() == absinfo,
    {
        AbsInfo {
            value: absinfo.value,
            minimum: absinfo.minimum,
            maximum: absinfo.maximum,
            fuzz: absinfo.fuzz,
            flat: absinfo.flat,
            resolution: absinfo.resolution,
        }
    }

    /// The same six values, as the kernel's record of them.
    pub fn as_raw(&self) -> (r: raw::input_absinfo)
        ensures
            r == self.to_raw(),
    {
        raw::input_absinfo {
            value: self.value,
            minimum: self.minimum,
            maximum: self.maximum,
            fuzz: self.fuzz,
            flat: self.flat,
            resolution: self.resolution,
        }
    }
}

/// A point in time: seconds, and microseconds within the second.
#[derive(Copy, Clone, Eq, Hash, PartialOrd, Ord, Debug, PartialEq, Structural)]
pub struct TimeVal {
    pub tv_sec: i64,
    pub tv_usec: i64,
}

impl TimeVal {
    /// The point in time with these seconds and microseconds.
    pub fn new(tv_sec: i64, tv_usec: i64) -> (t: TimeVal)
        ensures
            t == (TimeVal { tv_sec, tv_usec }),
    {
        TimeVal { tv_sec, tv_usec }
    }

    /// The point in time of the kernel's record.
    pub fn from_raw(timeval: &raw::timeval) -> (t: TimeVal)
        ensures
            t == (TimeVal { tv_sec: timeval.tv_sec, tv_usec: timeval.tv_usec }),
    {
        TimeVal { tv_sec: timeval.tv_sec, tv_usec: timeval.tv_usec }
    }

    /// The same point in time, as the kernel's record of it.
    pub fn as_raw(&self) -> (r: raw::timeval)
        ensures
            r == (raw::timeval { tv_sec: self.tv_sec, tv_usec: self.tv_usec }),
    {
        raw::timeval { tv_sec: self.tv_sec, tv_usec: self.tv_usec }
    }

    /// The point in time that lies the given span after the start of 1970:
    /// whole seconds, and the microseconds of the second that has begun.
    ///
    /// Seconds beyond what 63 bits hold wrap round, as a cast does.
    pub open spec fn of_duration(secs: u64, subsec_micros: u32) -> TimeVal {
        TimeVal {
            tv_sec: if secs <= i64::MAX {
                secs as i64
            } else {
                (secs - 0x1_0000_0000_0000_0000) as i64
            },
            tv_usec: subsec_micros as i64,
        }
    }

    /// The span from the start of 1970 to this point in time, as seconds
    /// and nanoseconds. There is one where the point does not lie before
    /// 1970 and the microseconds, as nanoseconds, are not negative and fit
    /// in 32 bits.
    pub open spec fn duration(self) -> Option<(u64, u32)> {
        if self.tv_sec >= 0 && 0 <= self.tv_usec * 1000 <= u32::MAX {
            Some((self.tv_sec as u64, (self.tv_usec * 1000) as u32))
        } else {
            None
        }
    }

    /// The point in time that lies the given span after the start of 1970.
    pub fn from_duration(secs: u64, subsec_micros: u32) -> (t: TimeVal)
        ensures
            t == TimeVal::of_duration(secs, subsec_micros),
    {
        let tv_sec: i64 = if secs <= 0x7fff_ffff_ffff_ffff {
            secs as i64
        } else {
            (secs - 0x8000_0000_0000_0000) as i64 - 0x7fff_ffff_ffff_ffff - 1
        };
        TimeVal { tv_sec, tv_usec: subsec_micros as i64 }
    }

    /// The span from the start of 1970 to this point in time; `None` where
    /// there is none to tell.
    ///
    /// Where the seconds are not negative, the microseconds must be few
    /// enough to be multiplied by 1000 in 64 bits.
    pub fn to_duration(&self) -> (r: Option<(u64, u32)>)
        requires
            self.tv_sec >= 0 ==> i64::MIN <= self.tv_usec * 1000 <= i64::MAX,
        ensures
            r == self.duration(),
    {
        if self.tv_sec < 0 {
            return None;
        }
        let secs: u64 = self.tv_sec as u64;
        let nanos: i64 = self.tv_usec * 1000;
        if nanos < 0 || nanos > 0xffff_ffff {
            return None;
        }
        Some((secs, nanos as u32))
    }

    /// A span is found again from the point in time it leads to, where its
    /// seconds fit in 63 bits and its microseconds, as nanoseconds, in 32.
    pub proof fn lemma_duration_found_again(secs: u64, subsec_micros: u32)
        requires
            secs <= i64::MAX,
            subsec_micros * 1000 <= u32::MAX,
        ensures
            TimeVal::of_duration(secs, subsec_micros).duration() == Some(
                (secs, (subsec_micros * 1000) as u32),
            ),
    {
    }
}

/// The event structure itself
#[derive(Clone, Copy, Debug, PartialEq, Eq, Hash, Structural)]
pub struct InputEvent {
    /// The time at which event occured
    pub time: TimeVal,
    pub event_type: EventType,
    pub event_code: EventCode,
    pub value: i32,
}

impl InputEvent {
    /// The event that a record of the kernel stands for, where the number
    /// of its type is that of an event type.
    pub open spec fn of_raw(ev: raw::input_event) -> InputEvent {
        InputEvent {
            time: TimeVal { tv_sec: ev.time.tv_sec, tv_usec: ev.time.tv_usec },
            event_type: EventType::named(ev.type_ as u32).unwrap(),
            event_code: EventCode::of_numbers(ev.type_ as u32, ev.code as u32),
            value: ev.value,
        }
    }

    /// The record of the kernel for this event. Type and code are the two
    /// numbers of the event code, cut to 16 bits each.
    pub open spec fn to_raw(self) -> raw::input_event {
        raw::input_event {
            time: raw::timeval { tv_sec: self.time.tv_sec, tv_usec: self.time.tv_usec },
            type_: (self.event_code.numbers().0 % 0x1_0000) as u16,
            code: (self.event_code.numbers().1 % 0x1_0000) as u16,
            value: self.value,
        }
    }

    /// An event of the given code. Its type is the one whose number the
    /// code gives, which must be the number of an event type.
    pub fn new(timeval: &TimeVal, code: &EventCode, value: i32) -> (e: InputEvent)
        requires
            EventType::named(code.numbers().0) is Some,
        ensures
            e == (InputEvent {
                time: *timeval,
                event_type: EventType::named(code.numbers().0).unwrap(),
                event_code: *code,
                value,
            }),
    {
        let (ev_type, _) = event_code_to_int(code);
        InputEvent {
            time: *timeval,
            event_type: int_to_event_type(ev_type).unwrap(),
            event_code: *code,
            value,
        }
    }

    /// The event that a record of the kernel stands for. The number of its
    /// type must be that of an event type.
    pub fn from_raw(event: &raw::input_event) -> (e: InputEvent)
        requires
            EventType::named(event.type_ as u32) is Some,
        ensures
            e == InputEvent::of_raw(*event),
    {
        let ev_type = event.type_ as u32;
        let event_type = int_to_event_type(ev_type).unwrap();
        let event_code = int_to_event_code(ev_type, event.code as u32).unwrap();
        InputEvent { time: TimeVal::from_raw(&event.time), event_type, event_code, value: event.value }
    }

    /// The record of the kernel for this event.
    pub fn as_raw(&self) -> (r: raw::input_event)
        ensures
            r == self.to_raw(),
    {
        let (ev_type, ev_code) = event_code_to_int(&self.event_code);
        raw::input_event {
            time: self.time.as_raw(),
            type_: (ev_type % 0x1_0000) as u16,
            code: (ev_code % 0x1_0000) as u16,
            value: self.value,
        }
    }

    /// An event is found again from its record where its type is the one
    /// that its code gives, the code is found again from its two numbers,
    /// and these fit in 16 bits each.
    pub proof fn lemma_event_found_again(e: InputEvent)
        requires
            EventType::named(e.event_code.numbers().0) == Some(e.event_type),
            EventCode::of_numbers(e.event_code.numbers().0, e.event_code.numbers().1)
                == e.event_code,
            e.event_code.numbers().0 < 0x1_0000,
            e.event_code.numbers().1 < 0x1_0000,
        ensures
            InputEvent::of_raw(e.to_raw()) == e,
    {
        let (event_type, event_code) = e.event_code.numbers();
        let raw = e.to_raw();
        assert(raw.type_ as u32 == event_type);
        assert(raw.code as u32 == event_code);
    }

    /// A record of the kernel is found again from the event it stands for,
    /// but for the event types `EV_PWR` and `EV_MAX`, whose codes are lost.
    pub proof fn lemma_raw_found_again(ev: raw::input_event)
        requires
            EventType::named(ev.type_ as u32) is Some,
            ev.type_ != EventType::EV_PWR.number(),
            ev.type_ != EventType::EV_MAX.number(),
        ensures
            InputEvent::of_raw(ev).to_raw() == ev,
    {
        lemma_numbers_found_again(ev.type_ as u32, ev.code as u32);
    }
}

} // verus!
