//! Names for the numbers of the Linux input layer.
//!
//! The kernel tells event types, event codes and device properties apart by
//! small numbers. Here each family of such numbers is an enum of names, with
//! the way from a name to its number and back, and with proofs that the two
//! ways undo each other.

pub use crate::keys::{int_to_ev_key, EV_KEY};
use vstd::prelude::*;

verus! {

/// A family of names for numbers.
///
/// `number` and `named` are the two directions of one table: every name is
/// found again under its own number, and a number names at most the one
/// name that has it. `lemma_found_again` states the first, `lemma_named`
/// the second.
pub trait Numbered: Sized {
    /// The number that this name stands for.
    spec fn number(self) -> u32;

    /// The name of a number, if the family has one for it.
    spec fn named(n: u32) -> Option<Self>;

    /// The name that closes the family: the one with the greatest number.
    spec fn last() -> Self;

    /// The number that this name stands for.
    fn to_int(&self) -> (n: u32)
        ensures
            n == self.number(),
    ;

    /// The name of a number, if the family has one for it.
    fn from_int(n: u32) -> (r: Option<Self>)
        ensures
            r == Self::named(n),
    ;

    /// Whether this is the name that closes the family.
    fn is_last(&self) -> (b: bool)
        ensures
            b == (*self == Self::last()),
    ;

    /// Every name is found again under its own number, and no number is
    /// greater than that of the last name.
    proof fn lemma_found_again(x: Self)
        ensures
            Self::named(x.number()) == Some(x),
            x.number() <= Self::last().number(),
    ;

    /// A number names only the name that has this number.
    proof fn lemma_named(n: u32)
        ensures
            Self::named(n) matches Some(x) ==> x.number() == n,
    ;
}

/// Whether `b` comes next after `a` in its family: its number is the least
/// one above that of `a` that has a name.
pub open spec fn follows<T: Numbered>(a: T, b: T) -> bool {
    &&& a.number() < b.number()
    &&& forall|n: u32| a.number() < n < b.number() ==> (#[trigger] T::named(n)) is None
}

/// No two names of a family share a number.
pub proof fn lemma_number_injective<T: Numbered>(a: T, b: T)
    requires
        a.number() == b.number(),
    ensures
        a == b,
{
    T::lemma_found_again(a);
    T::lemma_found_again(b);
}

/// At most one name comes next after a given one.
pub proof fn lemma_follows_unique<T: Numbered>(a: T, b: T, c: T)
    requires
        follows(a, b),
        follows(a, c),
    ensures
        b == c,
{
    T::lemma_found_again(b);
    T::lemma_found_again(c);
    if b.number() < c.number() {
        assert(T::named(b.number()) is None);
    }
    if c.number() < b.number() {
        assert(T::named(c.number()) is None);
    }
    lemma_number_injective(b, c);
}

/// The name that follows `a`. Every name but the last has one.
pub fn successor<T: Numbered>(a: &T) -> (b: T)
    requires
        *a != T::last(),
    ensures
        follows(*a, b),
{
    proof {
        T::lemma_found_again(*a);
        T::lemma_found_again(T::last());
        if a.number() == T::last().number() {
            lemma_number_injective(*a, T::last());
        }
    }
    let mut raw: u32 = a.to_int() + 1;
    loop
        invariant
            a.number() < raw <= T::last().number(),
            T::named(T::last().number()) == Some(T::last()),
            forall|n: u32| a.number() < n < raw ==> (#[trigger] T::named(n)) is None,
        decreases T::last().number() - raw,
    {
        match T::from_int(raw) {
            Some(b) => {
                proof {
                    T::lemma_named(raw);
                }
                return b;
            },
            None => raw += 1,
        }
    }
}

/// The kinds of events a device can send.
///
/// `EV_UNK` is no kind of the kernel's: it stands for one that this list
/// does not know. No number leads to it. Read as a number it gives 24, the
/// first one free after `EV_FF_STATUS`.
#[allow(non_camel_case_types)]
#[derive(Clone, Copy, Debug, PartialEq, Eq, Hash, Structural)]
pub enum EventType {
    EV_SYN,
    EV_KEY,
    EV_REL,
    EV_ABS,
    EV_MSC,
    EV_SW,
    EV_LED,
    EV_SND,
    EV_REP,
    EV_FF,
    EV_PWR,
    EV_FF_STATUS,
    EV_UNK,
    EV_MAX,
}

impl EventType {
    /// The number that this event type stands for.
    pub open spec fn number(self) -> u32 {
        match self {
            EventType::EV_SYN => 0x00,
            EventType::EV_KEY => 0x01,
            EventType::EV_REL => 0x02,
            EventType::EV_ABS => 0x03,
            EventType::EV_MSC => 0x04,
            EventType::EV_SW => 0x05,
            EventType::EV_LED => 0x11,
            EventType::EV_SND => 0x12,
            EventType::EV_REP => 0x14,
            EventType::EV_FF => 0x15,
            EventType::EV_PWR => 0x16,
            EventType::EV_FF_STATUS => 0x17,
            EventType::EV_UNK => 0x18,
            EventType::EV_MAX => 0x1f,
        }
    }

    /// The event type of a number, if the kernel has one for it.
    pub open spec fn named(n: u32) -> Option<EventType> {
        match n {
            0x00 => Some(EventType::EV_SYN),
            0x01 => Some(EventType::EV_KEY),
            0x02 => Some(EventType::EV_REL),
            0x03 => Some(EventType::EV_ABS),
            0x04 => Some(EventType::EV_MSC),
            0x05 => Some(EventType::EV_SW),
            0x11 => Some(EventType::EV_LED),
            0x12 => Some(EventType::EV_SND),
            0x14 => Some(EventType::EV_REP),
            0x15 => Some(EventType::EV_FF),
            0x16 => Some(EventType::EV_PWR),
            0x17 => Some(EventType::EV_FF_STATUS),
            0x1f => Some(EventType::EV_MAX),
            _ => None,
        }
    }

    /// The number that this event type stands for.
    pub fn to_int(&self) -> (n: u32)
        ensures
            n == self.number(),
    {
        match self {
            EventType::EV_SYN => 0x00,
            EventType::EV_KEY => 0x01,
            EventType::EV_REL => 0x02,
            EventType::EV_ABS => 0x03,
            EventType::EV_MSC => 0x04,
            EventType::EV_SW => 0x05,
            EventType::EV_LED => 0x11,
            EventType::EV_SND => 0x12,
            EventType::EV_REP => 0x14,
            EventType::EV_FF => 0x15,
            EventType::EV_PWR => 0x16,
            EventType::EV_FF_STATUS => 0x17,
            EventType::EV_UNK => 0x18,
            EventType::EV_MAX => 0x1f,
        }
    }

    /// Every event type but `EV_UNK` is found again under its own number,
    /// and no number is above that of `EV_MAX`, which alone has it.
    pub proof fn lemma_found_again(t: EventType)
        ensures
            t != EventType::EV_UNK ==> EventType::named(t.number()) == Some(t),
            t.number() <= EventType::EV_MAX.number(),
            t.number() == EventType::EV_MAX.number() ==> t == EventType::EV_MAX,
    {
    }

    /// A number names only the event type that has this number, and never
    /// `EV_UNK`.
    pub proof fn lemma_named(n: u32)
        ensures
            EventType::named(n) matches Some(t) ==> t.number() == n && t != EventType::EV_UNK,
    {
    }
}

/// The event type of a number, if the kernel has one for it.
pub fn int_to_event_type(code: u32) -> (r: Option<EventType>)
    ensures
        r == EventType::named(code),
{
    match code {
        0x00 => Some(EventType::EV_SYN),
        0x01 => Some(EventType::EV_KEY),
        0x02 => Some(EventType::EV_REL),
        0x03 => Some(EventType::EV_ABS),
        0x04 => Some(EventType::EV_MSC),
        0x05 => Some(EventType::EV_SW),
        0x11 => Some(EventType::EV_LED),
        0x12 => Some(EventType::EV_SND),
        0x14 => Some(EventType::EV_REP),
        0x15 => Some(EventType::EV_FF),
        0x16 => Some(EventType::EV_PWR),
        0x17 => Some(EventType::EV_FF_STATUS),
        0x1f => Some(EventType::EV_MAX),
        _ => None,
    }
}

/// An event code: what an event is about, within its event type.
///
/// Where the code has a name, the variant says the type and holds the name.
/// `EV_UNK` holds the two numbers of a code that has none.
#[allow(non_camel_case_types)]
#[derive(Clone, Copy, Debug, PartialEq, Eq, Hash, Structural)]
pub enum EventCode {
    EV_SYN(EV_SYN),
    EV_KEY(EV_KEY),
    EV_REL(EV_REL),
    EV_ABS(EV_ABS),
    EV_MSC(EV_MSC),
    EV_SW(EV_SW),
    EV_LED(EV_LED),
    EV_SND(EV_SND),
    EV_REP(EV_REP),
    EV_FF(EV_FF),
    EV_PWR,
    EV_FF_STATUS(EV_FF),
    EV_UNK { event_type: u32, event_code: u32 },
    EV_MAX,
}

/// Synchronization events: markers that separate the other events into packets.
#[allow(non_camel_case_types)]
#[derive(Clone, Copy, Debug, PartialEq, Eq, Hash, Structural)]
pub enum EV_SYN {
    SYN_REPORT,
    SYN_CONFIG,
    SYN_MT_REPORT,
    SYN_DROPPED,
    SYN_MAX,
}

/// The name in [`EV_SYN`] of a number, if it has one.
pub fn int_to_ev_syn(code: u32) -> (r: Option<EV_SYN>)
    ensures
        r == EV_SYN::named(code),
{
    match code {
        0 => Some(EV_SYN::SYN_REPORT),
        1 => Some(EV_SYN::SYN_CONFIG),
        2 => Some(EV_SYN::SYN_MT_REPORT),
        3 => Some(EV_SYN::SYN_DROPPED),
        0xf => Some(EV_SYN::SYN_MAX),
        _ => None,
    }
}

impl Numbered for EV_SYN {
    open spec fn number(self) -> u32 {
        match self {
            EV_SYN::SYN_REPORT => 0,
            EV_SYN::SYN_CONFIG => 1,
            EV_SYN::SYN_MT_REPORT => 2,
            EV_SYN::SYN_DROPPED => 3,
            EV_SYN::SYN_MAX => 0xf,
        }
    }

    open spec fn named(n: u32) -> Option<Self> {
        match n {
            0 => Some(EV_SYN::SYN_REPORT),
            1 => Some(EV_SYN::SYN_CONFIG),
            2 => Some(EV_SYN::SYN_MT_REPORT),
            3 => Some(EV_SYN::SYN_DROPPED),
            0xf => Some(EV_SYN::SYN_MAX),
            _ => None,
        }
    }

    open spec fn last() -> Self {
        EV_SYN::SYN_MAX
    }

    fn to_int(&self) -> (n: u32) {
        match self {
            EV_SYN::SYN_REPORT => 0,
            EV_SYN::SYN_CONFIG => 1,
            EV_SYN::SYN_MT_REPORT => 2,
            EV_SYN::SYN_DROPPED => 3,
            EV_SYN::SYN_MAX => 0xf,
        }
    }

    fn from_int(n: u32) -> (r: Option<Self>) {
        int_to_ev_syn(n)
    }

    fn is_last(&self) -> (b: bool) {
        *self == EV_SYN::SYN_MAX
    }

    proof fn lemma_found_again(x: Self) {
    }

    proof fn lemma_named(n: u32) {
    }
}

/// Relative axes: a change by some amount, such as a mouse movement.
#[allow(non_camel_case_types)]
#[derive(Clone, Copy, Debug, PartialEq, Eq, Hash, Structural)]
pub enum EV_REL {
    REL_X,
    REL_Y,
    REL_Z,
    REL_RX,
    REL_RY,
    REL_RZ,
    REL_HWHEEL,
    REL_DIAL,
    REL_WHEEL,
    REL_MISC,
    REL_RESERVED,
    REL_WHEEL_HI_RES,
    REL_HWHEEL_HI_RES,
    REL_MAX,
}

/// The name in [`EV_REL`] of a number, if it has one.
pub fn int_to_ev_rel(code: u32) -> (r: Option<EV_REL>)
    ensures
        r == EV_REL::named(code),
{
    match code {
        0x00 => Some(EV_REL::REL_X),
        0x01 => Some(EV_REL::REL_Y),
        0x02 => Some(EV_REL::REL_Z),
        0x03 => Some(EV_REL::REL_RX),
        0x04 => Some(EV_REL::REL_RY),
        0x05 => Some(EV_REL::REL_RZ),
        0x06 => Some(EV_REL::REL_HWHEEL),
        0x07 => Some(EV_REL::REL_DIAL),
        0x08 => Some(EV_REL::REL_WHEEL),
        0x09 => Some(EV_REL::REL_MISC),
        0x0a => Some(EV_REL::REL_RESERVED),
        0x0b => Some(EV_REL::REL_WHEEL_HI_RES),
        0x0c => Some(EV_REL::REL_HWHEEL_HI_RES),
        0x0f => Some(EV_REL::REL_MAX),
        _ => None,
    }
}

impl Numbered for EV_REL {
    open spec fn number(self) -> u32 {
        match self {
            EV_REL::REL_X => 0x00,
            EV_REL::REL_Y => 0x01,
            EV_REL::REL_Z => 0x02,
            EV_REL::REL_RX => 0x03,
            EV_REL::REL_RY => 0x04,
            EV_REL::REL_RZ => 0x05,
            EV_REL::REL_HWHEEL => 0x06,
            EV_REL::REL_DIAL => 0x07,
            EV_REL::REL_WHEEL => 0x08,
            EV_REL::REL_MISC => 0x09,
            EV_REL::REL_RESERVED => 0x0a,
            EV_REL::REL_WHEEL_HI_RES => 0x0b,
            EV_REL::REL_HWHEEL_HI_RES => 0x0c,
            EV_REL::REL_MAX => 0x0f,
        }
    }

    open spec fn named(n: u32) -> Option<Self> {
        match n {
            0x00 => Some(EV_REL::REL_X),
            0x01 => Some(EV_REL::REL_Y),
            0x02 => Some(EV_REL::REL_Z),
            0x03 => Some(EV_REL::REL_RX),
            0x04 => Some(EV_REL::REL_RY),
            0x05 => Some(EV_REL::REL_RZ),
            0x06 => Some(EV_REL::REL_HWHEEL),
            0x07 => Some(EV_REL::REL_DIAL),
            0x08 => Some(EV_REL::REL_WHEEL),
            0x09 => Some(EV_REL::REL_MISC),
            0x0a => Some(EV_REL::REL_RESERVED),
            0x0b => Some(EV_REL::REL_WHEEL_HI_RES),
            0x0c => Some(EV_REL::REL_HWHEEL_HI_RES),
            0x0f => Some(EV_REL::REL_MAX),
            _ => None,
        }
    }

    open spec fn last() -> Self {
        EV_REL::REL_MAX
    }

    fn to_int(&self) -> (n: u32) {
        match self {
            EV_REL::REL_X => 0x00,
            EV_REL::REL_Y => 0x01,
            EV_REL::REL_Z => 0x02,
            EV_REL::REL_RX => 0x03,
            EV_REL::REL_RY => 0x04,
            EV_REL::REL_RZ => 0x05,
            EV_REL::REL_HWHEEL => 0x06,
            EV_REL::REL_DIAL => 0x07,
            EV_REL::REL_WHEEL => 0x08,
            EV_REL::REL_MISC => 0x09,
            EV_REL::REL_RESERVED => 0x0a,
            EV_REL::REL_WHEEL_HI_RES => 0x0b,
            EV_REL::REL_HWHEEL_HI_RES => 0x0c,
            EV_REL::REL_MAX => 0x0f,
        }
    }

    fn from_int(n: u32) -> (r: Option<Self>) {
        int_to_ev_rel(n)
    }

    fn is_last(&self) -> (b: bool) {
        *self == EV_REL::REL_MAX
    }

    proof fn lemma_found_again(x: Self) {
    }

    proof fn lemma_named(n: u32) {
    }
}

/// Absolute axes: a position, such as a touch on a screen or a joystick.
#[allow(non_camel_case_types)]
#[derive(Clone, Copy, Debug, PartialEq, Eq, Hash, Structural)]
pub enum EV_ABS {
    ABS_X,
    ABS_Y,
    ABS_Z,
    ABS_RX,
    ABS_RY,
    ABS_RZ,
    ABS_THROTTLE,
    ABS_RUDDER,
    ABS_WHEEL,
    ABS_GAS,
    ABS_BRAKE,
    ABS_HAT0X,
    ABS_HAT0Y,
    ABS_HAT1X,
    ABS_HAT1Y,
    ABS_HAT2X,
    ABS_HAT2Y,
    ABS_HAT3X,
    ABS_HAT3Y,
    ABS_PRESSURE,
    ABS_DISTANCE,
    ABS_TILT_X,
    ABS_TILT_Y,
    ABS_TOOL_WIDTH,
    ABS_VOLUME,
    ABS_PROFILE,
    ABS_MISC,
    ABS_RESERVED,
    ABS_MT_SLOT,
    ABS_MT_TOUCH_MAJOR,
    ABS_MT_TOUCH_MINOR,
    ABS_MT_WIDTH_MAJOR,
    ABS_MT_WIDTH_MINOR,
    ABS_MT_ORIENTATION,
    ABS_MT_POSITION_X,
    ABS_MT_POSITION_Y,
    ABS_MT_TOOL_TYPE,
    ABS_MT_BLOB_ID,
    ABS_MT_TRACKING_ID,
    ABS_MT_PRESSURE,
    ABS_MT_DISTANCE,
    ABS_MT_TOOL_X,
    ABS_MT_TOOL_Y,
    ABS_MAX,
}

/// The name in [`EV_ABS`] of a number, if it has one.
pub fn int_to_ev_abs(code: u32) -> (r: Option<EV_ABS>)
    ensures
        r == EV_ABS::named(code),
{
    match code {
        0x00 => Some(EV_ABS::ABS_X),
        0x01 => Some(EV_ABS::ABS_Y),
        0x02 => Some(EV_ABS::ABS_Z),
        0x03 => Some(EV_ABS::ABS_RX),
        0x04 => Some(EV_ABS::ABS_RY),
        0x05 => Some(EV_ABS::ABS_RZ),
        0x06 => Some(EV_ABS::ABS_THROTTLE),
        0x07 => Some(EV_ABS::ABS_RUDDER),
        0x08 => Some(EV_ABS::ABS_WHEEL),
        0x09 => Some(EV_ABS::ABS_GAS),
        0x0a => Some(EV_ABS::ABS_BRAKE),
        0x10 => Some(EV_ABS::ABS_HAT0X),
        0x11 => Some(EV_ABS::ABS_HAT0Y),
        0x12 => Some(EV_ABS::ABS_HAT1X),
        0x13 => Some(EV_ABS::ABS_HAT1Y),
        0x14 => Some(EV_ABS::ABS_HAT2X),
        0x15 => Some(EV_ABS::ABS_HAT2Y),
        0x16 => Some(EV_ABS::ABS_HAT3X),
        0x17 => Some(EV_ABS::ABS_HAT3Y),
        0x18 => Some(EV_ABS::ABS_PRESSURE),
        0x19 => Some(EV_ABS::ABS_DISTANCE),
        0x1a => Some(EV_ABS::ABS_TILT_X),
        0x1b => Some(EV_ABS::ABS_TILT_Y),
        0x1c => Some(EV_ABS::ABS_TOOL_WIDTH),
        0x20 => Some(EV_ABS::ABS_VOLUME),
        0x21 => Some(EV_ABS::ABS_PROFILE),
        0x28 => Some(EV_ABS::ABS_MISC),
        0x2e => Some(EV_ABS::ABS_RESERVED),
        0x2f => Some(EV_ABS::ABS_MT_SLOT),
        0x30 => Some(EV_ABS::ABS_MT_TOUCH_MAJOR),
        0x31 => Some(EV_ABS::ABS_MT_TOUCH_MINOR),
        0x32 => Some(EV_ABS::ABS_MT_WIDTH_MAJOR),
        0x33 => Some(EV_ABS::ABS_MT_WIDTH_MINOR),
        0x34 => Some(EV_ABS::ABS_MT_ORIENTATION),
        0x35 => Some(EV_ABS::ABS_MT_POSITION_X),
        0x36 => Some(EV_ABS::ABS_MT_POSITION_Y),
        0x37 => Some(EV_ABS::ABS_MT_TOOL_TYPE),
        0x38 => Some(EV_ABS::ABS_MT_BLOB_ID),
        0x39 => Some(EV_ABS::ABS_MT_TRACKING_ID),
        0x3a => Some(EV_ABS::ABS_MT_PRESSURE),
        0x3b => Some(EV_ABS::ABS_MT_DISTANCE),
        0x3c => Some(EV_ABS::ABS_MT_TOOL_X),
        0x3d => Some(EV_ABS::ABS_MT_TOOL_Y),
        0x3f => Some(EV_ABS::ABS_MAX),
        _ => None,
    }
}

impl Numbered for EV_ABS {
    open spec fn number(self) -> u32 {
        match self {
            EV_ABS::ABS_X => 0x00,
            EV_ABS::ABS_Y => 0x01,
            EV_ABS::ABS_Z => 0x02,
            EV_ABS::ABS_RX => 0x03,
            EV_ABS::ABS_RY => 0x04,
            EV_ABS::ABS_RZ => 0x05,
            EV_ABS::ABS_THROTTLE => 0x06,
            EV_ABS::ABS_RUDDER => 0x07,
            EV_ABS::ABS_WHEEL => 0x08,
            EV_ABS::ABS_GAS => 0x09,
            EV_ABS::ABS_BRAKE => 0x0a,
            EV_ABS::ABS_HAT0X => 0x10,
            EV_ABS::ABS_HAT0Y => 0x11,
            EV_ABS::ABS_HAT1X => 0x12,
            EV_ABS::ABS_HAT1Y => 0x13,
            EV_ABS::ABS_HAT2X => 0x14,
            EV_ABS::ABS_HAT2Y => 0x15,
            EV_ABS::ABS_HAT3X => 0x16,
            EV_ABS::ABS_HAT3Y => 0x17,
            EV_ABS::ABS_PRESSURE => 0x18,
            EV_ABS::ABS_DISTANCE => 0x19,
            EV_ABS::ABS_TILT_X => 0x1a,
            EV_ABS::ABS_TILT_Y => 0x1b,
            EV_ABS::ABS_TOOL_WIDTH => 0x1c,
            EV_ABS::ABS_VOLUME => 0x20,
            EV_ABS::ABS_PROFILE => 0x21,
            EV_ABS::ABS_MISC => 0x28,
            EV_ABS::ABS_RESERVED => 0x2e,
            EV_ABS::ABS_MT_SLOT => 0x2f,
            EV_ABS::ABS_MT_TOUCH_MAJOR => 0x30,
            EV_ABS::ABS_MT_TOUCH_MINOR => 0x31,
            EV_ABS::ABS_MT_WIDTH_MAJOR => 0x32,
            EV_ABS::ABS_MT_WIDTH_MINOR => 0x33,
            EV_ABS::ABS_MT_ORIENTATION => 0x34,
            EV_ABS::ABS_MT_POSITION_X => 0x35,
            EV_ABS::ABS_MT_POSITION_Y => 0x36,
            EV_ABS::ABS_MT_TOOL_TYPE => 0x37,
            EV_ABS::ABS_MT_BLOB_ID => 0x38,
            EV_ABS::ABS_MT_TRACKING_ID => 0x39,
            EV_ABS::ABS_MT_PRESSURE => 0x3a,
            EV_ABS::ABS_MT_DISTANCE => 0x3b,
            EV_ABS::ABS_MT_TOOL_X => 0x3c,
            EV_ABS::ABS_MT_TOOL_Y => 0x3d,
            EV_ABS::ABS_MAX => 0x3f,
        }
    }

    open spec fn named(n: u32) -> Option<Self> {
        match n {
            0x00 => Some(EV_ABS::ABS_X),
            0x01 => Some(EV_ABS::ABS_Y),
            0x02 => Some(EV_ABS::ABS_Z),
            0x03 => Some(EV_ABS::ABS_RX),
            0x04 => Some(EV_ABS::ABS_RY),
            0x05 => Some(EV_ABS::ABS_RZ),
            0x06 => Some(EV_ABS::ABS_THROTTLE),
            0x07 => Some(EV_ABS::ABS_RUDDER),
            0x08 => Some(EV_ABS::ABS_WHEEL),
            0x09 => Some(EV_ABS::ABS_GAS),
            0x0a => Some(EV_ABS::ABS_BRAKE),
            0x10 => Some(EV_ABS::ABS_HAT0X),
            0x11 => Some(EV_ABS::ABS_HAT0Y),
            0x12 => Some(EV_ABS::ABS_HAT1X),
            0x13 => Some(EV_ABS::ABS_HAT1Y),
            0x14 => Some(EV_ABS::ABS_HAT2X),
            0x15 => Some(EV_ABS::ABS_HAT2Y),
            0x16 => Some(EV_ABS::ABS_HAT3X),
            0x17 => Some(EV_ABS::ABS_HAT3Y),
            0x18 => Some(EV_ABS::ABS_PRESSURE),
            0x19 => Some(EV_ABS::ABS_DISTANCE),
            0x1a => Some(EV_ABS::ABS_TILT_X),
            0x1b => Some(EV_ABS::ABS_TILT_Y),
            0x1c => Some(EV_ABS::ABS_TOOL_WIDTH),
            0x20 => Some(EV_ABS::ABS_VOLUME),
            0x21 => Some(EV_ABS::ABS_PROFILE),
            0x28 => Some(EV_ABS::ABS_MISC),
            0x2e => Some(EV_ABS::ABS_RESERVED),
            0x2f => Some(EV_ABS::ABS_MT_SLOT),
            0x30 => Some(EV_ABS::ABS_MT_TOUCH_MAJOR),
            0x31 => Some(EV_ABS::ABS_MT_TOUCH_MINOR),
            0x32 => Some(EV_ABS::ABS_MT_WIDTH_MAJOR),
            0x33 => Some(EV_ABS::ABS_MT_WIDTH_MINOR),
            0x34 => Some(EV_ABS::ABS_MT_ORIENTATION),
            0x35 => Some(EV_ABS::ABS_MT_POSITION_X),
            0x36 => Some(EV_ABS::ABS_MT_POSITION_Y),
            0x37 => Some(EV_ABS::ABS_MT_TOOL_TYPE),
            0x38 => Some(EV_ABS::ABS_MT_BLOB_ID),
            0x39 => Some(EV_ABS::ABS_MT_TRACKING_ID),
            0x3a => Some(EV_ABS::ABS_MT_PRESSURE),
            0x3b => Some(EV_ABS::ABS_MT_DISTANCE),
            0x3c => Some(EV_ABS::ABS_MT_TOOL_X),
            0x3d => Some(EV_ABS::ABS_MT_TOOL_Y),
            0x3f => Some(EV_ABS::ABS_MAX),
            _ => None,
        }
    }

    open spec fn last() -> Self {
        EV_ABS::ABS_MAX
    }

    fn to_int(&self) -> (n: u32) {
        match self {
            EV_ABS::ABS_X => 0x00,
            EV_ABS::ABS_Y => 0x01,
            EV_ABS::ABS_Z => 0x02,
            EV_ABS::ABS_RX => 0x03,
            EV_ABS::ABS_RY => 0x04,
            EV_ABS::ABS_RZ => 0x05,
            EV_ABS::ABS_THROTTLE => 0x06,
            EV_ABS::ABS_RUDDER => 0x07,
            EV_ABS::ABS_WHEEL => 0x08,
            EV_ABS::ABS_GAS => 0x09,
            EV_ABS::ABS_BRAKE => 0x0a,
            EV_ABS::ABS_HAT0X => 0x10,
            EV_ABS::ABS_HAT0Y => 0x11,
            EV_ABS::ABS_HAT1X => 0x12,
            EV_ABS::ABS_HAT1Y => 0x13,
            EV_ABS::ABS_HAT2X => 0x14,
            EV_ABS::ABS_HAT2Y => 0x15,
            EV_ABS::ABS_HAT3X => 0x16,
            EV_ABS::ABS_HAT3Y => 0x17,
            EV_ABS::ABS_PRESSURE => 0x18,
            EV_ABS::ABS_DISTANCE => 0x19,
            EV_ABS::ABS_TILT_X => 0x1a,
            EV_ABS::ABS_TILT_Y => 0x1b,
            EV_ABS::ABS_TOOL_WIDTH => 0x1c,
            EV_ABS::ABS_VOLUME => 0x20,
            EV_ABS::ABS_PROFILE => 0x21,
            EV_ABS::ABS_MISC => 0x28,
            EV_ABS::ABS_RESERVED => 0x2e,
            EV_ABS::ABS_MT_SLOT => 0x2f,
            EV_ABS::ABS_MT_TOUCH_MAJOR => 0x30,
            EV_ABS::ABS_MT_TOUCH_MINOR => 0x31,
            EV_ABS::ABS_MT_WIDTH_MAJOR => 0x32,
            EV_ABS::ABS_MT_WIDTH_MINOR => 0x33,
            EV_ABS::ABS_MT_ORIENTATION => 0x34,
            EV_ABS::ABS_MT_POSITION_X => 0x35,
            EV_ABS::ABS_MT_POSITION_Y => 0x36,
            EV_ABS::ABS_MT_TOOL_TYPE => 0x37,
            EV_ABS::ABS_MT_BLOB_ID => 0x38,
            EV_ABS::ABS_MT_TRACKING_ID => 0x39,
            EV_ABS::ABS_MT_PRESSURE => 0x3a,
            EV_ABS::ABS_MT_DISTANCE => 0x3b,
            EV_ABS::ABS_MT_TOOL_X => 0x3c,
            EV_ABS::ABS_MT_TOOL_Y => 0x3d,
            EV_ABS::ABS_MAX => 0x3f,
        }
    }

    fn from_int(n: u32) -> (r: Option<Self>) {
        int_to_ev_abs(n)
    }

    fn is_last(&self) -> (b: bool) {
        *self == EV_ABS::ABS_MAX
    }

    proof fn lemma_found_again(x: Self) {
    }

    proof fn lemma_named(n: u32) {
    }
}

/// Miscellaneous events that fit no other type.
#[allow(non_camel_case_types)]
#[derive(Clone, Copy, Debug, PartialEq, Eq, Hash, Structural)]
pub enum EV_MSC {
    MSC_SERIAL,
    MSC_PULSELED,
    MSC_GESTURE,
    MSC_RAW,
    MSC_SCAN,
    MSC_TIMESTAMP,
    MSC_MAX,
}

/// The name in [`EV_MSC`] of a number, if it has one.
pub fn int_to_ev_msc(code: u32) -> (r: Option<EV_MSC>)
    ensures
        r == EV_MSC::named(code),
{
    match code {
        0x00 => Some(EV_MSC::MSC_SERIAL),
        0x01 => Some(EV_MSC::MSC_PULSELED),
        0x02 => Some(EV_MSC::MSC_GESTURE),
        0x03 => Some(EV_MSC::MSC_RAW),
        0x04 => Some(EV_MSC::MSC_SCAN),
        0x05 => Some(EV_MSC::MSC_TIMESTAMP),
        0x07 => Some(EV_MSC::MSC_MAX),
        _ => None,
    }
}

impl Numbered for EV_MSC {
    open spec fn number(self) -> u32 {
        match self {
            EV_MSC::MSC_SERIAL => 0x00,
            EV_MSC::MSC_PULSELED => 0x01,
            EV_MSC::MSC_GESTURE => 0x02,
            EV_MSC::MSC_RAW => 0x03,
            EV_MSC::MSC_SCAN => 0x04,
            EV_MSC::MSC_TIMESTAMP => 0x05,
            EV_MSC::MSC_MAX => 0x07,
        }
    }

    open spec fn named(n: u32) -> Option<Self> {
        match n {
            0x00 => Some(EV_MSC::MSC_SERIAL),
            0x01 => Some(EV_MSC::MSC_PULSELED),
            0x02 => Some(EV_MSC::MSC_GESTURE),
            0x03 => Some(EV_MSC::MSC_RAW),
            0x04 => Some(EV_MSC::MSC_SCAN),
            0x05 => Some(EV_MSC::MSC_TIMESTAMP),
            0x07 => Some(EV_MSC::MSC_MAX),
            _ => None,
        }
    }

    open spec fn last() -> Self {
        EV_MSC::MSC_MAX
    }

    fn to_int(&self) -> (n: u32) {
        match self {
            EV_MSC::MSC_SERIAL => 0x00,
            EV_MSC::MSC_PULSELED => 0x01,
            EV_MSC::MSC_GESTURE => 0x02,
            EV_MSC::MSC_RAW => 0x03,
            EV_MSC::MSC_SCAN => 0x04,
            EV_MSC::MSC_TIMESTAMP => 0x05,
            EV_MSC::MSC_MAX => 0x07,
        }
    }

    fn from_int(n: u32) -> (r: Option<Self>) {
        int_to_ev_msc(n)
    }

    fn is_last(&self) -> (b: bool) {
        *self == EV_MSC::MSC_MAX
    }

    proof fn lemma_found_again(x: Self) {
    }

    proof fn lemma_named(n: u32) {
    }
}

/// Switches: two-state inputs that stay as they are set, such as a lid.
#[allow(non_camel_case_types)]
#[derive(Clone, Copy, Debug, PartialEq, Eq, Hash, Structural)]
pub enum EV_SW {
    SW_LID,
    SW_TABLET_MODE,
    SW_HEADPHONE_INSERT,
    SW_RFKILL_ALL,
    SW_MICROPHONE_INSERT,
    SW_DOCK,
    SW_LINEOUT_INSERT,
    SW_JACK_PHYSICAL_INSERT,
    SW_VIDEOOUT_INSERT,
    SW_CAMERA_LENS_COVER,
    SW_KEYPAD_SLIDE,
    SW_FRONT_PROXIMITY,
    SW_ROTATE_LOCK,
    SW_LINEIN_INSERT,
    SW_MUTE_DEVICE,
    SW_PEN_INSERTED,
    SW_MAX,
}

/// The name in [`EV_SW`] of a number, if it has one.
pub fn int_to_ev_sw(code: u32) -> (r: Option<EV_SW>)
    ensures
        r == EV_SW::named(code),
{
    match code {
        0x00 => Some(EV_SW::SW_LID),
        0x01 => Some(EV_SW::SW_TABLET_MODE),
        0x02 => Some(EV_SW::SW_HEADPHONE_INSERT),
        0x03 => Some(EV_SW::SW_RFKILL_ALL),
        0x04 => Some(EV_SW::SW_MICROPHONE_INSERT),
        0x05 => Some(EV_SW::SW_DOCK),
        0x06 => Some(EV_SW::SW_LINEOUT_INSERT),
        0x07 => Some(EV_SW::SW_JACK_PHYSICAL_INSERT),
        0x08 => Some(EV_SW::SW_VIDEOOUT_INSERT),
        0x09 => Some(EV_SW::SW_CAMERA_LENS_COVER),
        0x0a => Some(EV_SW::SW_KEYPAD_SLIDE),
        0x0b => Some(EV_SW::SW_FRONT_PROXIMITY),
        0x0c => Some(EV_SW::SW_ROTATE_LOCK),
        0x0d => Some(EV_SW::SW_LINEIN_INSERT),
        0x0e => Some(EV_SW::SW_MUTE_DEVICE),
        0x0f => Some(EV_SW::SW_PEN_INSERTED),
        0x10 => Some(EV_SW::SW_MAX),
        _ => None,
    }
}

impl Numbered for EV_SW {
    open spec fn number(self) -> u32 {
        match self {
            EV_SW::SW_LID => 0x00,
            EV_SW::SW_TABLET_MODE => 0x01,
            EV_SW::SW_HEADPHONE_INSERT => 0x02,
            EV_SW::SW_RFKILL_ALL => 0x03,
            EV_SW::SW_MICROPHONE_INSERT => 0x04,
            EV_SW::SW_DOCK => 0x05,
            EV_SW::SW_LINEOUT_INSERT => 0x06,
            EV_SW::SW_JACK_PHYSICAL_INSERT => 0x07,
            EV_SW::SW_VIDEOOUT_INSERT => 0x08,
            EV_SW::SW_CAMERA_LENS_COVER => 0x09,
            EV_SW::SW_KEYPAD_SLIDE => 0x0a,
            EV_SW::SW_FRONT_PROXIMITY => 0x0b,
            EV_SW::SW_ROTATE_LOCK => 0x0c,
            EV_SW::SW_LINEIN_INSERT => 0x0d,
            EV_SW::SW_MUTE_DEVICE => 0x0e,
            EV_SW::SW_PEN_INSERTED => 0x0f,
            EV_SW::SW_MAX => 0x10,
        }
    }

    open spec fn named(n: u32) -> Option<Self> {
        match n {
            0x00 => Some(EV_SW::SW_LID),
            0x01 => Some(EV_SW::SW_TABLET_MODE),
            0x02 => Some(EV_SW::SW_HEADPHONE_INSERT),
            0x03 => Some(EV_SW::SW_RFKILL_ALL),
            0x04 => Some(EV_SW::SW_MICROPHONE_INSERT),
            0x05 => Some(EV_SW::SW_DOCK),
            0x06 => Some(EV_SW::SW_LINEOUT_INSERT),
            0x07 => Some(EV_SW::SW_JACK_PHYSICAL_INSERT),
            0x08 => Some(EV_SW::SW_VIDEOOUT_INSERT),
            0x09 => Some(EV_SW::SW_CAMERA_LENS_COVER),
            0x0a => Some(EV_SW::SW_KEYPAD_SLIDE),
            0x0b => Some(EV_SW::SW_FRONT_PROXIMITY),
            0x0c => Some(EV_SW::SW_ROTATE_LOCK),
            0x0d => Some(EV_SW::SW_LINEIN_INSERT),
            0x0e => Some(EV_SW::SW_MUTE_DEVICE),
            0x0f => Some(EV_SW::SW_PEN_INSERTED),
            0x10 => Some(EV_SW::SW_MAX),
            _ => None,
        }
    }

    open spec fn last() -> Self {
        EV_SW::SW_MAX
    }

    fn to_int(&self) -> (n: u32) {
        match self {
            EV_SW::SW_LID => 0x00,
            EV_SW::SW_TABLET_MODE => 0x01,
            EV_SW::SW_HEADPHONE_INSERT => 0x02,
            EV_SW::SW_RFKILL_ALL => 0x03,
            EV_SW::SW_MICROPHONE_INSERT => 0x04,
            EV_SW::SW_DOCK => 0x05,
            EV_SW::SW_LINEOUT_INSERT => 0x06,
            EV_SW::SW_JACK_PHYSICAL_INSERT => 0x07,
            EV_SW::SW_VIDEOOUT_INSERT => 0x08,
            EV_SW::SW_CAMERA_LENS_COVER => 0x09,
            EV_SW::SW_KEYPAD_SLIDE => 0x0a,
            EV_SW::SW_FRONT_PROXIMITY => 0x0b,
            EV_SW::SW_ROTATE_LOCK => 0x0c,
            EV_SW::SW_LINEIN_INSERT => 0x0d,
            EV_SW::SW_MUTE_DEVICE => 0x0e,
            EV_SW::SW_PEN_INSERTED => 0x0f,
            EV_SW::SW_MAX => 0x10,
        }
    }

    fn from_int(n: u32) -> (r: Option<Self>) {
        int_to_ev_sw(n)
    }

    fn is_last(&self) -> (b: bool) {
        *self == EV_SW::SW_MAX
    }

    proof fn lemma_found_again(x: Self) {
    }

    proof fn lemma_named(n: u32) {
    }
}

/// The lights on a device.
#[allow(non_camel_case_types)]
#[derive(Clone, Copy, Debug, PartialEq, Eq, Hash, Structural)]
pub enum EV_LED {
    LED_NUML,
    LED_CAPSL,
    LED_SCROLLL,
    LED_COMPOSE,
    LED_KANA,
    LED_SLEEP,
    LED_SUSPEND,
    LED_MUTE,
    LED_MISC,
    LED_MAIL,
    LED_CHARGING,
    LED_MAX,
}

/// The name in [`EV_LED`] of a number, if it has one.
pub fn int_to_ev_led(code: u32) -> (r: Option<EV_LED>)
    ensures
        r == EV_LED::named(code),
{
    match code {
        0x00 => Some(EV_LED::LED_NUML),
        0x01 => Some(EV_LED::LED_CAPSL),
        0x02 => Some(EV_LED::LED_SCROLLL),
        0x03 => Some(EV_LED::LED_COMPOSE),
        0x04 => Some(EV_LED::LED_KANA),
        0x05 => Some(EV_LED::LED_SLEEP),
        0x06 => Some(EV_LED::LED_SUSPEND),
        0x07 => Some(EV_LED::LED_MUTE),
        0x08 => Some(EV_LED::LED_MISC),
        0x09 => Some(EV_LED::LED_MAIL),
        0x0a => Some(EV_LED::LED_CHARGING),
        0x0f => Some(EV_LED::LED_MAX),
        _ => None,
    }
}

impl Numbered for EV_LED {
    open spec fn number(self) -> u32 {
        match self {
            EV_LED::LED_NUML => 0x00,
            EV_LED::LED_CAPSL => 0x01,
            EV_LED::LED_SCROLLL => 0x02,
            EV_LED::LED_COMPOSE => 0x03,
            EV_LED::LED_KANA => 0x04,
            EV_LED::LED_SLEEP => 0x05,
            EV_LED::LED_SUSPEND => 0x06,
            EV_LED::LED_MUTE => 0x07,
            EV_LED::LED_MISC => 0x08,
            EV_LED::LED_MAIL => 0x09,
            EV_LED::LED_CHARGING => 0x0a,
            EV_LED::LED_MAX => 0x0f,
        }
    }

    open spec fn named(n: u32) -> Option<Self> {
        match n {
            0x00 => Some(EV_LED::LED_NUML),
            0x01 => Some(EV_LED::LED_CAPSL),
            0x02 => Some(EV_LED::LED_SCROLLL),
            0x03 => Some(EV_LED::LED_COMPOSE),
            0x04 => Some(EV_LED::LED_KANA),
            0x05 => Some(EV_LED::LED_SLEEP),
            0x06 => Some(EV_LED::LED_SUSPEND),
            0x07 => Some(EV_LED::LED_MUTE),
            0x08 => Some(EV_LED::LED_MISC),
            0x09 => Some(EV_LED::LED_MAIL),
            0x0a => Some(EV_LED::LED_CHARGING),
            0x0f => Some(EV_LED::LED_MAX),
            _ => None,
        }
    }

    open spec fn last() -> Self {
        EV_LED::LED_MAX
    }

    fn to_int(&self) -> (n: u32) {
        match self {
            EV_LED::LED_NUML => 0x00,
            EV_LED::LED_CAPSL => 0x01,
            EV_LED::LED_SCROLLL => 0x02,
            EV_LED::LED_COMPOSE => 0x03,
            EV_LED::LED_KANA => 0x04,
            EV_LED::LED_SLEEP => 0x05,
            EV_LED::LED_SUSPEND => 0x06,
            EV_LED::LED_MUTE => 0x07,
            EV_LED::LED_MISC => 0x08,
            EV_LED::LED_MAIL => 0x09,
            EV_LED::LED_CHARGING => 0x0a,
            EV_LED::LED_MAX => 0x0f,
        }
    }

    fn from_int(n: u32) -> (r: Option<Self>) {
        int_to_ev_led(n)
    }

    fn is_last(&self) -> (b: bool) {
        *self == EV_LED::LED_MAX
    }

    proof fn lemma_found_again(x: Self) {
    }

    proof fn lemma_named(n: u32) {
    }
}

/// Simple sounds a device can make.
#[allow(non_camel_case_types)]
#[derive(Clone, Copy, Debug, PartialEq, Eq, Hash, Structural)]
pub enum EV_SND {
    SND_CLICK,
    SND_BELL,
    SND_TONE,
    SND_MAX,
}

/// The name in [`EV_SND`] of a number, if it has one.
pub fn int_to_ev_snd(code: u32) -> (r: Option<EV_SND>)
    ensures
        r == EV_SND::named(code),
{
    match code {
        0x00 => Some(EV_SND::SND_CLICK),
        0x01 => Some(EV_SND::SND_BELL),
        0x02 => Some(EV_SND::SND_TONE),
        0x07 => Some(EV_SND::SND_MAX),
        _ => None,
    }
}

impl Numbered for EV_SND {
    open spec fn number(self) -> u32 {
        match self {
            EV_SND::SND_CLICK => 0x00,
            EV_SND::SND_BELL => 0x01,
            EV_SND::SND_TONE => 0x02,
            EV_SND::SND_MAX => 0x07,
        }
    }

    open spec fn named(n: u32) -> Option<Self> {
        match n {
            0x00 => Some(EV_SND::SND_CLICK),
            0x01 => Some(EV_SND::SND_BELL),
            0x02 => Some(EV_SND::SND_TONE),
            0x07 => Some(EV_SND::SND_MAX),
            _ => None,
        }
    }

    open spec fn last() -> Self {
        EV_SND::SND_MAX
    }

    fn to_int(&self) -> (n: u32) {
        match self {
            EV_SND::SND_CLICK => 0x00,
            EV_SND::SND_BELL => 0x01,
            EV_SND::SND_TONE => 0x02,
            EV_SND::SND_MAX => 0x07,
        }
    }

    fn from_int(n: u32) -> (r: Option<Self>) {
        int_to_ev_snd(n)
    }

    fn is_last(&self) -> (b: bool) {
        *self == EV_SND::SND_MAX
    }

    proof fn lemma_found_again(x: Self) {
    }

    proof fn lemma_named(n: u32) {
    }
}

/// Settings of the automatic key repeat.
#[allow(non_camel_case_types)]
#[derive(Clone, Copy, Debug, PartialEq, Eq, Hash, Structural)]
pub enum EV_REP {
    REP_DELAY,
    REP_MAX,
}

/// The name in [`EV_REP`] of a number, if it has one.
pub fn int_to_ev_rep(code: u32) -> (r: Option<EV_REP>)
    ensures
        r == EV_REP::named(code),
{
    match code {
        0x00 => Some(EV_REP::REP_DELAY),
        0x01 => Some(EV_REP::REP_MAX),
        _ => None,
    }
}

impl Numbered for EV_REP {
    open spec fn number(self) -> u32 {
        match self {
            EV_REP::REP_DELAY => 0x00,
            EV_REP::REP_MAX => 0x01,
        }
    }

    open spec fn named(n: u32) -> Option<Self> {
        match n {
            0x00 => Some(EV_REP::REP_DELAY),
            0x01 => Some(EV_REP::REP_MAX),
            _ => None,
        }
    }

    open spec fn last() -> Self {
        EV_REP::REP_MAX
    }

    fn to_int(&self) -> (n: u32) {
        match self {
            EV_REP::REP_DELAY => 0x00,
            EV_REP::REP_MAX => 0x01,
        }
    }

    fn from_int(n: u32) -> (r: Option<Self>) {
        int_to_ev_rep(n)
    }

    fn is_last(&self) -> (b: bool) {
        *self == EV_REP::REP_MAX
    }

    proof fn lemma_found_again(x: Self) {
    }

    proof fn lemma_named(n: u32) {
    }
}

/// Force-feedback effects, and the states such an effect can be in.
#[allow(non_camel_case_types)]
#[derive(Clone, Copy, Debug, PartialEq, Eq, Hash, Structural)]
pub enum EV_FF {
    FF_STATUS_STOPPED,
    FF_STATUS_MAX,
    FF_RUMBLE,
    FF_PERIODIC,
    FF_CONSTANT,
    FF_SPRING,
    FF_FRICTION,
    FF_DAMPER,
    FF_INERTIA,
    FF_RAMP,
    FF_SQUARE,
    FF_TRIANGLE,
    FF_SINE,
    FF_SAW_UP,
    FF_SAW_DOWN,
    FF_CUSTOM,
    FF_GAIN,
    FF_AUTOCENTER,
    FF_MAX,
}

/// The name in [`EV_FF`] of a number, if it has one.
pub fn int_to_ev_ff(code: u32) -> (r: Option<EV_FF>)
    ensures
        r == EV_FF::named(code),
{
    match code {
        0x00 => Some(EV_FF::FF_STATUS_STOPPED),
        0x01 => Some(EV_FF::FF_STATUS_MAX),
        0x50 => Some(EV_FF::FF_RUMBLE),
        0x51 => Some(EV_FF::FF_PERIODIC),
        0x52 => Some(EV_FF::FF_CONSTANT),
        0x53 => Some(EV_FF::FF_SPRING),
        0x54 => Some(EV_FF::FF_FRICTION),
        0x55 => Some(EV_FF::FF_DAMPER),
        0x56 => Some(EV_FF::FF_INERTIA),
        0x57 => Some(EV_FF::FF_RAMP),
        0x58 => Some(EV_FF::FF_SQUARE),
        0x59 => Some(EV_FF::FF_TRIANGLE),
        0x5a => Some(EV_FF::FF_SINE),
        0x5b => Some(EV_FF::FF_SAW_UP),
        0x5c => Some(EV_FF::FF_SAW_DOWN),
        0x5d => Some(EV_FF::FF_CUSTOM),
        0x60 => Some(EV_FF::FF_GAIN),
        0x61 => Some(EV_FF::FF_AUTOCENTER),
        0x7f => Some(EV_FF::FF_MAX),
        _ => None,
    }
}

impl Numbered for EV_FF {
    open spec fn number(self) -> u32 {
        match self {
            EV_FF::FF_STATUS_STOPPED => 0x00,
            EV_FF::FF_STATUS_MAX => 0x01,
            EV_FF::FF_RUMBLE => 0x50,
            EV_FF::FF_PERIODIC => 0x51,
            EV_FF::FF_CONSTANT => 0x52,
            EV_FF::FF_SPRING => 0x53,
            EV_FF::FF_FRICTION => 0x54,
            EV_FF::FF_DAMPER => 0x55,
            EV_FF::FF_INERTIA => 0x56,
            EV_FF::FF_RAMP => 0x57,
            EV_FF::FF_SQUARE => 0x58,
            EV_FF::FF_TRIANGLE => 0x59,
            EV_FF::FF_SINE => 0x5a,
            EV_FF::FF_SAW_UP => 0x5b,
            EV_FF::FF_SAW_DOWN => 0x5c,
            EV_FF::FF_CUSTOM => 0x5d,
            EV_FF::FF_GAIN => 0x60,
            EV_FF::FF_AUTOCENTER => 0x61,
            EV_FF::FF_MAX => 0x7f,
        }
    }

    open spec fn named(n: u32) -> Option<Self> {
        match n {
            0x00 => Some(EV_FF::FF_STATUS_STOPPED),
            0x01 => Some(EV_FF::FF_STATUS_MAX),
            0x50 => Some(EV_FF::FF_RUMBLE),
            0x51 => Some(EV_FF::FF_PERIODIC),
            0x52 => Some(EV_FF::FF_CONSTANT),
            0x53 => Some(EV_FF::FF_SPRING),
            0x54 => Some(EV_FF::FF_FRICTION),
            0x55 => Some(EV_FF::FF_DAMPER),
            0x56 => Some(EV_FF::FF_INERTIA),
            0x57 => Some(EV_FF::FF_RAMP),
            0x58 => Some(EV_FF::FF_SQUARE),
            0x59 => Some(EV_FF::FF_TRIANGLE),
            0x5a => Some(EV_FF::FF_SINE),
            0x5b => Some(EV_FF::FF_SAW_UP),
            0x5c => Some(EV_FF::FF_SAW_DOWN),
            0x5d => Some(EV_FF::FF_CUSTOM),
            0x60 => Some(EV_FF::FF_GAIN),
            0x61 => Some(EV_FF::FF_AUTOCENTER),
            0x7f => Some(EV_FF::FF_MAX),
            _ => None,
        }
    }

    open spec fn last() -> Self {
        EV_FF::FF_MAX
    }

    fn to_int(&self) -> (n: u32) {
        match self {
            EV_FF::FF_STATUS_STOPPED => 0x00,
            EV_FF::FF_STATUS_MAX => 0x01,
            EV_FF::FF_RUMBLE => 0x50,
            EV_FF::FF_PERIODIC => 0x51,
            EV_FF::FF_CONSTANT => 0x52,
            EV_FF::FF_SPRING => 0x53,
            EV_FF::FF_FRICTION => 0x54,
            EV_FF::FF_DAMPER => 0x55,
            EV_FF::FF_INERTIA => 0x56,
            EV_FF::FF_RAMP => 0x57,
            EV_FF::FF_SQUARE => 0x58,
            EV_FF::FF_TRIANGLE => 0x59,
            EV_FF::FF_SINE => 0x5a,
            EV_FF::FF_SAW_UP => 0x5b,
            EV_FF::FF_SAW_DOWN => 0x5c,
            EV_FF::FF_CUSTOM => 0x5d,
            EV_FF::FF_GAIN => 0x60,
            EV_FF::FF_AUTOCENTER => 0x61,
            EV_FF::FF_MAX => 0x7f,
        }
    }

    fn from_int(n: u32) -> (r: Option<Self>) {
        int_to_ev_ff(n)
    }

    fn is_last(&self) -> (b: bool) {
        *self == EV_FF::FF_MAX
    }

    proof fn lemma_found_again(x: Self) {
    }

    proof fn lemma_named(n: u32) {
    }
}

/// Properties of a device as a whole, beyond the events it sends.
#[allow(non_camel_case_types)]
#[derive(Clone, Copy, Debug, PartialEq, Eq, Hash, Structural)]
pub enum InputProp {
    INPUT_PROP_POINTER,
    INPUT_PROP_DIRECT,
    INPUT_PROP_BUTTONPAD,
    INPUT_PROP_SEMI_MT,
    INPUT_PROP_TOPBUTTONPAD,
    INPUT_PROP_POINTING_STICK,
    INPUT_PROP_ACCELEROMETER,
    INPUT_PROP_MAX,
}

/// The name in [`InputProp`] of a number, if it has one.
pub fn int_to_input_prop(code: u32) -> (r: Option<InputProp>)
    ensures
        r == InputProp::named(code),
{
    match code {
        0x00 => Some(InputProp::INPUT_PROP_POINTER),
        0x01 => Some(InputProp::INPUT_PROP_DIRECT),
        0x02 => Some(InputProp::INPUT_PROP_BUTTONPAD),
        0x03 => Some(InputProp::INPUT_PROP_SEMI_MT),
        0x04 => Some(InputProp::INPUT_PROP_TOPBUTTONPAD),
        0x05 => Some(InputProp::INPUT_PROP_POINTING_STICK),
        0x06 => Some(InputProp::INPUT_PROP_ACCELEROMETER),
        0x1f => Some(InputProp::INPUT_PROP_MAX),
        _ => None,
    }
}

impl Numbered for InputProp {
    open spec fn number(self) -> u32 {
        match self {
            InputProp::INPUT_PROP_POINTER => 0x00,
            InputProp::INPUT_PROP_DIRECT => 0x01,
            InputProp::INPUT_PROP_BUTTONPAD => 0x02,
            InputProp::INPUT_PROP_SEMI_MT => 0x03,
            InputProp::INPUT_PROP_TOPBUTTONPAD => 0x04,
            InputProp::INPUT_PROP_POINTING_STICK => 0x05,
            InputProp::INPUT_PROP_ACCELEROMETER => 0x06,
            InputProp::INPUT_PROP_MAX => 0x1f,
        }
    }

    open spec fn named(n: u32) -> Option<Self> {
        match n {
            0x00 => Some(InputProp::INPUT_PROP_POINTER),
            0x01 => Some(InputProp::INPUT_PROP_DIRECT),
            0x02 => Some(InputProp::INPUT_PROP_BUTTONPAD),
            0x03 => Some(InputProp::INPUT_PROP_SEMI_MT),
            0x04 => Some(InputProp::INPUT_PROP_TOPBUTTONPAD),
            0x05 => Some(InputProp::INPUT_PROP_POINTING_STICK),
            0x06 => Some(InputProp::INPUT_PROP_ACCELEROMETER),
            0x1f => Some(InputProp::INPUT_PROP_MAX),
            _ => None,
        }
    }

    open spec fn last() -> Self {
        InputProp::INPUT_PROP_MAX
    }

    fn to_int(&self) -> (n: u32) {
        match self {
            InputProp::INPUT_PROP_POINTER => 0x00,
            InputProp::INPUT_PROP_DIRECT => 0x01,
            InputProp::INPUT_PROP_BUTTONPAD => 0x02,
            InputProp::INPUT_PROP_SEMI_MT => 0x03,
            InputProp::INPUT_PROP_TOPBUTTONPAD => 0x04,
            InputProp::INPUT_PROP_POINTING_STICK => 0x05,
            InputProp::INPUT_PROP_ACCELEROMETER => 0x06,
            InputProp::INPUT_PROP_MAX => 0x1f,
        }
    }

    fn from_int(n: u32) -> (r: Option<Self>) {
        int_to_input_prop(n)
    }

    fn is_last(&self) -> (b: bool) {
        *self == InputProp::INPUT_PROP_MAX
    }

    proof fn lemma_found_again(x: Self) {
    }

    proof fn lemma_named(n: u32) {
    }
}

/// The bus a device is attached through.
#[allow(non_camel_case_types)]
#[derive(Clone, Copy, Debug, PartialEq, Eq, Hash, Structural)]
pub enum BusType {
    BUS_PCI,
    BUS_ISAPNP,
    BUS_USB,
    BUS_HIL,
    BUS_BLUETOOTH,
    BUS_VIRTUAL,
    BUS_ISA,
    BUS_I8042,
    BUS_XTKBD,
    BUS_RS232,
    BUS_GAMEPORT,
    BUS_PARPORT,
    BUS_AMIGA,
    BUS_ADB,
    BUS_I2C,
    BUS_HOST,
    BUS_GSC,
    BUS_ATARI,
    BUS_SPI,
    BUS_RMI,
    BUS_CEC,
    BUS_INTEL_ISHTP,
    BUS_AMD_SFH,
}

/// The name in [`BusType`] of a number, if it has one.
pub fn int_to_bus_type(code: u32) -> (r: Option<BusType>)
    ensures
        r == BusType::named(code),
{
    match code {
        0x01 => Some(BusType::BUS_PCI),
        0x02 => Some(BusType::BUS_ISAPNP),
        0x03 => Some(BusType::BUS_USB),
        0x04 => Some(BusType::BUS_HIL),
        0x05 => Some(BusType::BUS_BLUETOOTH),
        0x06 => Some(BusType::BUS_VIRTUAL),
        0x10 => Some(BusType::BUS_ISA),
        0x11 => Some(BusType::BUS_I8042),
        0x12 => Some(BusType::BUS_XTKBD),
        0x13 => Some(BusType::BUS_RS232),
        0x14 => Some(BusType::BUS_GAMEPORT),
        0x15 => Some(BusType::BUS_PARPORT),
        0x16 => Some(BusType::BUS_AMIGA),
        0x17 => Some(BusType::BUS_ADB),
        0x18 => Some(BusType::BUS_I2C),
        0x19 => Some(BusType::BUS_HOST),
        0x1a => Some(BusType::BUS_GSC),
        0x1b => Some(BusType::BUS_ATARI),
        0x1c => Some(BusType::BUS_SPI),
        0x1d => Some(BusType::BUS_RMI),
        0x1e => Some(BusType::BUS_CEC),
        0x1f => Some(BusType::BUS_INTEL_ISHTP),
        0x20 => Some(BusType::BUS_AMD_SFH),
        _ => None,
    }
}

impl Numbered for BusType {
    open spec fn number(self) -> u32 {
        match self {
            BusType::BUS_PCI => 0x01,
            BusType::BUS_ISAPNP => 0x02,
            BusType::BUS_USB => 0x03,
            BusType::BUS_HIL => 0x04,
            BusType::BUS_BLUETOOTH => 0x05,
            BusType::BUS_VIRTUAL => 0x06,
            BusType::BUS_ISA => 0x10,
            BusType::BUS_I8042 => 0x11,
            BusType::BUS_XTKBD => 0x12,
            BusType::BUS_RS232 => 0x13,
            BusType::BUS_GAMEPORT => 0x14,
            BusType::BUS_PARPORT => 0x15,
            BusType::BUS_AMIGA => 0x16,
            BusType::BUS_ADB => 0x17,
            BusType::BUS_I2C => 0x18,
            BusType::BUS_HOST => 0x19,
            BusType::BUS_GSC => 0x1a,
            BusType::BUS_ATARI => 0x1b,
            BusType::BUS_SPI => 0x1c,
            BusType::BUS_RMI => 0x1d,
            BusType::BUS_CEC => 0x1e,
            BusType::BUS_INTEL_ISHTP => 0x1f,
            BusType::BUS_AMD_SFH => 0x20,
        }
    }

    open spec fn named(n: u32) -> Option<Self> {
        match n {
            0x01 => Some(BusType::BUS_PCI),
            0x02 => Some(BusType::BUS_ISAPNP),
            0x03 => Some(BusType::BUS_USB),
            0x04 => Some(BusType::BUS_HIL),
            0x05 => Some(BusType::BUS_BLUETOOTH),
            0x06 => Some(BusType::BUS_VIRTUAL),
            0x10 => Some(BusType::BUS_ISA),
            0x11 => Some(BusType::BUS_I8042),
            0x12 => Some(BusType::BUS_XTKBD),
            0x13 => Some(BusType::BUS_RS232),
            0x14 => Some(BusType::BUS_GAMEPORT),
            0x15 => Some(BusType::BUS_PARPORT),
            0x16 => Some(BusType::BUS_AMIGA),
            0x17 => Some(BusType::BUS_ADB),
            0x18 => Some(BusType::BUS_I2C),
            0x19 => Some(BusType::BUS_HOST),
            0x1a => Some(BusType::BUS_GSC),
            0x1b => Some(BusType::BUS_ATARI),
            0x1c => Some(BusType::BUS_SPI),
            0x1d => Some(BusType::BUS_RMI),
            0x1e => Some(BusType::BUS_CEC),
            0x1f => Some(BusType::BUS_INTEL_ISHTP),
            0x20 => Some(BusType::BUS_AMD_SFH),
            _ => None,
        }
    }

    open spec fn last() -> Self {
        BusType::BUS_AMD_SFH
    }

    fn to_int(&self) -> (n: u32) {
        match self {
            BusType::BUS_PCI => 0x01,
            BusType::BUS_ISAPNP => 0x02,
            BusType::BUS_USB => 0x03,
            BusType::BUS_HIL => 0x04,
            BusType::BUS_BLUETOOTH => 0x05,
            BusType::BUS_VIRTUAL => 0x06,
            BusType::BUS_ISA => 0x10,
            BusType::BUS_I8042 => 0x11,
            BusType::BUS_XTKBD => 0x12,
            BusType::BUS_RS232 => 0x13,
            BusType::BUS_GAMEPORT => 0x14,
            BusType::BUS_PARPORT => 0x15,
            BusType::BUS_AMIGA => 0x16,
            BusType::BUS_ADB => 0x17,
            BusType::BUS_I2C => 0x18,
            BusType::BUS_HOST => 0x19,
            BusType::BUS_GSC => 0x1a,
            BusType::BUS_ATARI => 0x1b,
            BusType::BUS_SPI => 0x1c,
            BusType::BUS_RMI => 0x1d,
            BusType::BUS_CEC => 0x1e,
            BusType::BUS_INTEL_ISHTP => 0x1f,
            BusType::BUS_AMD_SFH => 0x20,
        }
    }

    fn from_int(n: u32) -> (r: Option<Self>) {
        int_to_bus_type(n)
    }

    fn is_last(&self) -> (b: bool) {
        *self == BusType::BUS_AMD_SFH
    }

    proof fn lemma_found_again(x: Self) {
    }

    proof fn lemma_named(n: u32) {
    }
}

} // verus!
