//! From event codes to the pairs of numbers the kernel uses and back, and
//! the walks over event types, event codes and device properties.

use crate::enums::{
    follows, lemma_follows_unique, lemma_number_injective, int_to_ev_abs, int_to_ev_ff, int_to_ev_key, int_to_ev_led, int_to_ev_msc,
    int_to_ev_rel, int_to_ev_rep, int_to_ev_snd, int_to_ev_sw, int_to_ev_syn, int_to_event_type,
    int_to_input_prop, successor, EventCode, EventType, InputProp, Numbered, EV_ABS, EV_FF,
    EV_KEY, EV_LED, EV_MSC, EV_REL, EV_REP, EV_SND, EV_SW, EV_SYN,
};
use vstd::prelude::*;

verus! {

impl EventCode {
    /// The number of the event type and the number of the code within it.
    ///
    /// `EV_PWR` and `EV_MAX` hold no code: for them both numbers are 0.
    pub open spec fn numbers(self) -> (u32, u32) {
        match self {
            EventCode::EV_SYN(code) => (EventType::EV_SYN.number(), code.number()),
            EventCode::EV_KEY(code) => (EventType::EV_KEY.number(), code.number()),
            EventCode::EV_REL(code) => (EventType::EV_REL.number(), code.number()),
            EventCode::EV_ABS(code) => (EventType::EV_ABS.number(), code.number()),
            EventCode::EV_MSC(code) => (EventType::EV_MSC.number(), code.number()),
            EventCode::EV_SW(code) => (EventType::EV_SW.number(), code.number()),
            EventCode::EV_LED(code) => (EventType::EV_LED.number(), code.number()),
            EventCode::EV_SND(code) => (EventType::EV_SND.number(), code.number()),
            EventCode::EV_REP(code) => (EventType::EV_REP.number(), code.number()),
            EventCode::EV_FF(code) => (EventType::EV_FF.number(), code.number()),
            EventCode::EV_FF_STATUS(code) => (EventType::EV_FF_STATUS.number(), code.number()),
            EventCode::EV_UNK { event_type, event_code } => (event_type, event_code),
            EventCode::EV_PWR | EventCode::EV_MAX => (0, 0),
        }
    }

    /// The event code that a pair of numbers stands for.
    ///
    /// Where the event type has a family of codes and the code has a name
    /// in it, this is the named code. `EV_PWR` and `EV_MAX` have no codes
    /// and stand for themselves. Every other pair is kept as `EV_UNK`.
    pub open spec fn of_numbers(event_type: u32, event_code: u32) -> EventCode {
        let unknown = EventCode::EV_UNK { event_type, event_code };
        match EventType::named(event_type) {
            Some(EventType::EV_SYN) => match EV_SYN::named(event_code) {
                Some(code) => EventCode::EV_SYN(code),
                None => unknown,
            },
            Some(EventType::EV_KEY) => match EV_KEY::named(event_code) {
                Some(code) => EventCode::EV_KEY(code),
                None => unknown,
            },
            Some(EventType::EV_REL) => match EV_REL::named(event_code) {
                Some(code) => EventCode::EV_REL(code),
                None => unknown,
            },
            Some(EventType::EV_ABS) => match EV_ABS::named(event_code) {
                Some(code) => EventCode::EV_ABS(code),
                None => unknown,
            },
            Some(EventType::EV_MSC) => match EV_MSC::named(event_code) {
                Some(code) => EventCode::EV_MSC(code),
                None => unknown,
            },
            Some(EventType::EV_SW) => match EV_SW::named(event_code) {
                Some(code) => EventCode::EV_SW(code),
                None => unknown,
            },
            Some(EventType::EV_LED) => match EV_LED::named(event_code) {
                Some(code) => EventCode::EV_LED(code),
                None => unknown,
            },
            Some(EventType::EV_SND) => match EV_SND::named(event_code) {
                Some(code) => EventCode::EV_SND(code),
                None => unknown,
            },
            Some(EventType::EV_REP) => match EV_REP::named(event_code) {
                Some(code) => EventCode::EV_REP(code),
                None => unknown,
            },
            Some(EventType::EV_FF) => match EV_FF::named(event_code) {
                Some(code) => EventCode::EV_FF(code),
                None => unknown,
            },
            Some(EventType::EV_FF_STATUS) => match EV_FF::named(event_code) {
                Some(code) => EventCode::EV_FF_STATUS(code),
                None => unknown,
            },
            Some(EventType::EV_PWR) => EventCode::EV_PWR,
            Some(EventType::EV_MAX) => EventCode::EV_MAX,
            Some(EventType::EV_UNK) | None => unknown,
        }
    }

    /// Whether the walk over the event codes stops at this one.
    ///
    /// It stops at `FF_MAX`, and at every code outside the ten families
    /// that it goes through.
    pub open spec fn ends_walk(self) -> bool {
        match self {
            EventCode::EV_SYN(_) => false,
            EventCode::EV_KEY(_) => false,
            EventCode::EV_REL(_) => false,
            EventCode::EV_ABS(_) => false,
            EventCode::EV_MSC(_) => false,
            EventCode::EV_SW(_) => false,
            EventCode::EV_LED(_) => false,
            EventCode::EV_SND(_) => false,
            EventCode::EV_REP(_) => false,
            EventCode::EV_FF(code) => code == EV_FF::FF_MAX,
            _ => true,
        }
    }

    /// Whether `b` is the code that the walk goes to from `a`.
    ///
    /// Within a family that is the code that follows. From the last code of
    /// a family the walk goes to the first code of the next one: the
    /// families come in the order `EV_SYN`, `EV_KEY`, `EV_REL`, `EV_ABS`,
    /// `EV_MSC`, `EV_SW`, `EV_LED`, `EV_SND`, `EV_REP`, `EV_FF`.
    pub open spec fn walks_to(self, b: EventCode) -> bool {
        match self {
            EventCode::EV_SYN(x) => if x == EV_SYN::SYN_MAX {
                b == EventCode::EV_KEY(EV_KEY::KEY_RESERVED)
            } else {
                b matches EventCode::EV_SYN(y) && follows(x, y)
            },
            EventCode::EV_KEY(x) => if x == EV_KEY::KEY_MAX {
                b == EventCode::EV_REL(EV_REL::REL_X)
            } else {
                b matches EventCode::EV_KEY(y) && follows(x, y)
            },
            EventCode::EV_REL(x) => if x == EV_REL::REL_MAX {
                b == EventCode::EV_ABS(EV_ABS::ABS_X)
            } else {
                b matches EventCode::EV_REL(y) && follows(x, y)
            },
            EventCode::EV_ABS(x) => if x == EV_ABS::ABS_MAX {
                b == EventCode::EV_MSC(EV_MSC::MSC_SERIAL)
            } else {
                b matches EventCode::EV_ABS(y) && follows(x, y)
            },
            EventCode::EV_MSC(x) => if x == EV_MSC::MSC_MAX {
                b == EventCode::EV_SW(EV_SW::SW_LID)
            } else {
                b matches EventCode::EV_MSC(y) && follows(x, y)
            },
            EventCode::EV_SW(x) => if x == EV_SW::SW_MAX {
                b == EventCode::EV_LED(EV_LED::LED_NUML)
            } else {
                b matches EventCode::EV_SW(y) && follows(x, y)
            },
            EventCode::EV_LED(x) => if x == EV_LED::LED_MAX {
                b == EventCode::EV_SND(EV_SND::SND_CLICK)
            } else {
                b matches EventCode::EV_LED(y) && follows(x, y)
            },
            EventCode::EV_SND(x) => if x == EV_SND::SND_MAX {
                b == EventCode::EV_REP(EV_REP::REP_DELAY)
            } else {
                b matches EventCode::EV_SND(y) && follows(x, y)
            },
            EventCode::EV_REP(x) => if x == EV_REP::REP_MAX {
                b == EventCode::EV_FF(EV_FF::FF_STATUS_STOPPED)
            } else {
                b matches EventCode::EV_REP(y) && follows(x, y)
            },
            EventCode::EV_FF(x) => if x == EV_FF::FF_MAX {
                false
            } else {
                b matches EventCode::EV_FF(y) && follows(x, y)
            },
            _ => false,
        }
    }

    /// Whether the walk goes through this code: it is a name of one of the
    /// ten families.
    pub open spec fn in_walk(self) -> bool {
        match self {
            EventCode::EV_SYN(_) => true,
            EventCode::EV_KEY(_) => true,
            EventCode::EV_REL(_) => true,
            EventCode::EV_ABS(_) => true,
            EventCode::EV_MSC(_) => true,
            EventCode::EV_SW(_) => true,
            EventCode::EV_LED(_) => true,
            EventCode::EV_SND(_) => true,
            EventCode::EV_REP(_) => true,
            EventCode::EV_FF(_) => true,
            _ => false,
        }
    }

    /// Whether this code comes before `other` by its two numbers: by the
    /// number of the event type, and by that of the code where the types are
    /// the same.
    pub open spec fn before(self, other: EventCode) -> bool {
        let (a, b) = (self.numbers(), other.numbers());
        a.0 < b.0 || (a.0 == b.0 && a.1 < b.1)
    }

    /// The walk goes to one code at most.
    pub proof fn lemma_walks_to_unique(self, b: EventCode, c: EventCode)
        requires
            self.walks_to(b),
            self.walks_to(c),
        ensures
            b == c,
    {
        match (self, b, c) {
            (EventCode::EV_SYN(x), EventCode::EV_SYN(y), EventCode::EV_SYN(z)) => {
                lemma_follows_unique(x, y, z)
            },
            (EventCode::EV_KEY(x), EventCode::EV_KEY(y), EventCode::EV_KEY(z)) => {
                lemma_follows_unique(x, y, z)
            },
            (EventCode::EV_REL(x), EventCode::EV_REL(y), EventCode::EV_REL(z)) => {
                lemma_follows_unique(x, y, z)
            },
            (EventCode::EV_ABS(x), EventCode::EV_ABS(y), EventCode::EV_ABS(z)) => {
                lemma_follows_unique(x, y, z)
            },
            (EventCode::EV_MSC(x), EventCode::EV_MSC(y), EventCode::EV_MSC(z)) => {
                lemma_follows_unique(x, y, z)
            },
            (EventCode::EV_SW(x), EventCode::EV_SW(y), EventCode::EV_SW(z)) => {
                lemma_follows_unique(x, y, z)
            },
            (EventCode::EV_LED(x), EventCode::EV_LED(y), EventCode::EV_LED(z)) => {
                lemma_follows_unique(x, y, z)
            },
            (EventCode::EV_SND(x), EventCode::EV_SND(y), EventCode::EV_SND(z)) => {
                lemma_follows_unique(x, y, z)
            },
            (EventCode::EV_REP(x), EventCode::EV_REP(y), EventCode::EV_REP(z)) => {
                lemma_follows_unique(x, y, z)
            },
            (EventCode::EV_FF(x), EventCode::EV_FF(y), EventCode::EV_FF(z)) => {
                lemma_follows_unique(x, y, z)
            },
            _ => {},
        }
    }

    /// The walk goes by rising numbers and leaves no code out: the code it
    /// goes to is the first one after this that it goes through at all.
    pub proof fn lemma_walk_in_order(self, b: EventCode, c: EventCode)
        requires
            self.walks_to(b),
            c.in_walk(),
            self.before(c),
        ensures
            b.in_walk(),
            self.before(b),
            b == c || b.before(c),
    {
        EV_KEY::lemma_named(0);
        match c {
            EventCode::EV_SYN(z) => EV_SYN::lemma_found_again(z),
            EventCode::EV_KEY(z) => EV_KEY::lemma_found_again(z),
            EventCode::EV_REL(z) => EV_REL::lemma_found_again(z),
            EventCode::EV_ABS(z) => EV_ABS::lemma_found_again(z),
            EventCode::EV_MSC(z) => EV_MSC::lemma_found_again(z),
            EventCode::EV_SW(z) => EV_SW::lemma_found_again(z),
            EventCode::EV_LED(z) => EV_LED::lemma_found_again(z),
            EventCode::EV_SND(z) => EV_SND::lemma_found_again(z),
            EventCode::EV_REP(z) => EV_REP::lemma_found_again(z),
            EventCode::EV_FF(z) => EV_FF::lemma_found_again(z),
            _ => {},
        }
        match b {
            EventCode::EV_SYN(y) => lemma_number_injective(y, y),
            EventCode::EV_KEY(y) => lemma_number_injective(y, y),
            EventCode::EV_REL(y) => lemma_number_injective(y, y),
            EventCode::EV_ABS(y) => lemma_number_injective(y, y),
            EventCode::EV_MSC(y) => lemma_number_injective(y, y),
            EventCode::EV_SW(y) => lemma_number_injective(y, y),
            EventCode::EV_LED(y) => lemma_number_injective(y, y),
            EventCode::EV_SND(y) => lemma_number_injective(y, y),
            EventCode::EV_REP(y) => lemma_number_injective(y, y),
            EventCode::EV_FF(y) => lemma_number_injective(y, y),
            _ => {},
        }
        if b.numbers() == c.numbers() {
            lemma_code_found_again(b);
            lemma_code_found_again(c);
        }
    }

    /// A walk over the event codes that starts at this one.
    pub fn iter(&self) -> (it: EventCodeIterator)
        ensures
            it@ == *self,
    {
        EventCodeIterator { current: *self }
    }

    /// Reads what the C library's search for a code by its name returned:
    /// -1 where it found none, else the number of the code within
    /// `ev_type`.
    pub fn from_lookup(ev_type: &EventType, result: i32) -> (r: Option<EventCode>)
        requires
            *ev_type != EventType::EV_UNK,
        ensures
            result == -1 ==> r is None,
            result != -1 ==> r == Some(
                EventCode::of_numbers(ev_type.number(), reinterpret(result)),
            ),
    {
        if result == -1 {
            None
        } else {
            proof {
                EventType::lemma_found_again(*ev_type);
            }
            int_to_event_code(ev_type.to_int(), to_unsigned(result))
        }
    }
}

/// The 32 bits of a signed number, read as an unsigned one.
pub open spec fn reinterpret(k: i32) -> u32 {
    if k >= 0 {
        k as u32
    } else {
        (k + 0x1_0000_0000) as u32
    }
}

fn to_unsigned(k: i32) -> (n: u32)
    ensures
        n == reinterpret(k),
{
    if k >= 0 {
        k as u32
    } else {
        // k + 2^32, in two steps that both fit
        (k + 0x7fff_ffff + 1) as u32 + 0x8000_0000
    }
}

/// The number of the event type of a code and the number of the code
/// within it.
pub fn event_code_to_int(event_code: &EventCode) -> (r: (u32, u32))
    ensures
        r == event_code.numbers(),
{
    match event_code {
        EventCode::EV_SYN(code) => (EventType::EV_SYN.to_int(), code.to_int()),
        EventCode::EV_KEY(code) => (EventType::EV_KEY.to_int(), code.to_int()),
        EventCode::EV_REL(code) => (EventType::EV_REL.to_int(), code.to_int()),
        EventCode::EV_ABS(code) => (EventType::EV_ABS.to_int(), code.to_int()),
        EventCode::EV_MSC(code) => (EventType::EV_MSC.to_int(), code.to_int()),
        EventCode::EV_SW(code) => (EventType::EV_SW.to_int(), code.to_int()),
        EventCode::EV_LED(code) => (EventType::EV_LED.to_int(), code.to_int()),
        EventCode::EV_SND(code) => (EventType::EV_SND.to_int(), code.to_int()),
        EventCode::EV_REP(code) => (EventType::EV_REP.to_int(), code.to_int()),
        EventCode::EV_FF(code) => (EventType::EV_FF.to_int(), code.to_int()),
        EventCode::EV_FF_STATUS(code) => (EventType::EV_FF_STATUS.to_int(), code.to_int()),
        EventCode::EV_UNK { event_type, event_code } => (*event_type, *event_code),
        EventCode::EV_PWR | EventCode::EV_MAX => (0, 0),
    }
}

/// The event code that a pair of numbers stands for. The first number must
/// be that of an event type; the result is never `None`.
pub fn int_to_event_code(event_type: u32, event_code: u32) -> (r: Option<EventCode>)
    requires
        EventType::named(event_type) is Some,
    ensures
        r == Some(EventCode::of_numbers(event_type, event_code)),
{
    let ev_type = int_to_event_type(event_type).unwrap();
    let ev_code = match ev_type {
        EventType::EV_SYN => match int_to_ev_syn(event_code) {
            None => None,
            Some(k) => Some(EventCode::EV_SYN(k)),
        },
        EventType::EV_KEY => match int_to_ev_key(event_code) {
            None => None,
            Some(k) => Some(EventCode::EV_KEY(k)),
        },
        EventType::EV_ABS => match int_to_ev_abs(event_code) {
            None => None,
            Some(k) => Some(EventCode::EV_ABS(k)),
        },
        EventType::EV_REL => match int_to_ev_rel(event_code) {
            None => None,
            Some(k) => Some(EventCode::EV_REL(k)),
        },
        EventType::EV_MSC => match int_to_ev_msc(event_code) {
            None => None,
            Some(k) => Some(EventCode::EV_MSC(k)),
        },
        EventType::EV_SW => match int_to_ev_sw(event_code) {
            None => None,
            Some(k) => Some(EventCode::EV_SW(k)),
        },
        EventType::EV_LED => match int_to_ev_led(event_code) {
            None => None,
            Some(k) => Some(EventCode::EV_LED(k)),
        },
        EventType::EV_SND => match int_to_ev_snd(event_code) {
            None => None,
            Some(k) => Some(EventCode::EV_SND(k)),
        },
        EventType::EV_REP => match int_to_ev_rep(event_code) {
            None => None,
            Some(k) => Some(EventCode::EV_REP(k)),
        },
        EventType::EV_FF => match int_to_ev_ff(event_code) {
            None => None,
            Some(k) => Some(EventCode::EV_FF(k)),
        },
        EventType::EV_PWR => Some(EventCode::EV_PWR),
        EventType::EV_FF_STATUS => match int_to_ev_ff(event_code) {
            None => None,
            Some(k) => Some(EventCode::EV_FF_STATUS(k)),
        },
        EventType::EV_UNK => None,
        EventType::EV_MAX => Some(EventCode::EV_MAX),
    };

    match ev_code {
        Some(_) => ev_code,
        None => Some(EventCode::EV_UNK { event_type, event_code }),
    }
}

/// A named code is found again from its two numbers.
///
/// `EV_PWR` and `EV_MAX` are not: their numbers are those of `SYN_REPORT`.
/// An `EV_UNK` is found again where its numbers do stand for no other code.
pub proof fn lemma_code_found_again(code: EventCode)
    requires
        code != EventCode::EV_PWR,
        code != EventCode::EV_MAX,
        code is EV_UNK ==> EventCode::of_numbers(code.numbers().0, code.numbers().1) is EV_UNK,
    ensures
        EventCode::of_numbers(code.numbers().0, code.numbers().1) == code,
{
    match code {
        EventCode::EV_SYN(x) => EV_SYN::lemma_found_again(x),
        EventCode::EV_KEY(x) => EV_KEY::lemma_found_again(x),
        EventCode::EV_REL(x) => EV_REL::lemma_found_again(x),
        EventCode::EV_ABS(x) => EV_ABS::lemma_found_again(x),
        EventCode::EV_MSC(x) => EV_MSC::lemma_found_again(x),
        EventCode::EV_SW(x) => EV_SW::lemma_found_again(x),
        EventCode::EV_LED(x) => EV_LED::lemma_found_again(x),
        EventCode::EV_SND(x) => EV_SND::lemma_found_again(x),
        EventCode::EV_REP(x) => EV_REP::lemma_found_again(x),
        EventCode::EV_FF(x) => EV_FF::lemma_found_again(x),
        EventCode::EV_FF_STATUS(x) => EV_FF::lemma_found_again(x),
        _ => {},
    }
}

/// The code that a pair of numbers stands for has these two numbers, but
/// for the event types `EV_PWR` and `EV_MAX`, which have no codes.
pub proof fn lemma_numbers_found_again(event_type: u32, event_code: u32)
    requires
        event_type != EventType::EV_PWR.number(),
        event_type != EventType::EV_MAX.number(),
    ensures
        EventCode::of_numbers(event_type, event_code).numbers() == (event_type, event_code),
{
    match EventCode::of_numbers(event_type, event_code) {
        EventCode::EV_SYN(x) => EV_SYN::lemma_named(event_code),
        EventCode::EV_KEY(x) => EV_KEY::lemma_named(event_code),
        EventCode::EV_REL(x) => EV_REL::lemma_named(event_code),
        EventCode::EV_ABS(x) => EV_ABS::lemma_named(event_code),
        EventCode::EV_MSC(x) => EV_MSC::lemma_named(event_code),
        EventCode::EV_SW(x) => EV_SW::lemma_named(event_code),
        EventCode::EV_LED(x) => EV_LED::lemma_named(event_code),
        EventCode::EV_SND(x) => EV_SND::lemma_named(event_code),
        EventCode::EV_REP(x) => EV_REP::lemma_named(event_code),
        EventCode::EV_FF(x) => EV_FF::lemma_named(event_code),
        EventCode::EV_FF_STATUS(x) => EV_FF::lemma_named(event_code),
        _ => {},
    }
}

impl EventType {
    /// Whether `b` is the event type that comes next after this one: its
    /// number is the least one above that has an event type.
    pub open spec fn follows(self, b: EventType) -> bool {
        &&& self.number() < b.number()
        &&& EventType::named(b.number()) == Some(b)
        &&& forall|n: u32|
            self.number() < n < b.number() ==> (#[trigger] EventType::named(n)) is None
    }

    /// At most one event type comes next after a given one.
    pub proof fn lemma_follows_unique(self, b: EventType, c: EventType)
        requires
            self.follows(b),
            self.follows(c),
        ensures
            b == c,
    {
        if b.number() < c.number() {
            assert(EventType::named(b.number()) is None);
        }
        if c.number() < b.number() {
            assert(EventType::named(c.number()) is None);
        }
    }

    /// A walk over the event types that starts at this one.
    pub fn iter(&self) -> (it: EventTypeIterator)
        ensures
            it@ == *self,
    {
        EventTypeIterator { current: *self }
    }

    /// Reads what the C library's search for an event type by its name
    /// returned: -1 where it found none, else the number of the type.
    pub fn from_lookup(result: i32) -> (r: Option<EventType>)
        ensures
            result < 0 ==> r is None,
            result >= 0 ==> r == EventType::named(result as u32),
    {
        if result < 0 {
            None
        } else {
            int_to_event_type(result as u32)
        }
    }
}

impl InputProp {
    /// A walk over the device properties that starts at this one.
    pub fn iter(&self) -> (it: InputPropIterator)
        ensures
            it@ == *self,
    {
        InputPropIterator { current: *self }
    }

    /// Reads what the C library's search for a property by its name
    /// returned: -1 where it found none, else the number of the property.
    pub fn from_lookup(result: i32) -> (r: Option<InputProp>)
        ensures
            result < 0 ==> r is None,
            result >= 0 ==> r == InputProp::named(result as u32),
    {
        if result < 0 {
            None
        } else {
            int_to_input_prop(result as u32)
        }
    }
}

/// A walk over the event types, by rising number. It hands out the type it
/// stands at and goes to the next; at `EV_MAX` it stops, without handing it
/// out.
pub struct EventTypeIterator {
    current: EventType,
}

/// A walk over the event codes: family by family, and by rising number
/// within each. It hands out the code it stands at and goes to the next.
pub struct EventCodeIterator {
    current: EventCode,
}

/// A walk over the device properties, by rising number. It hands out the
/// property it stands at and goes to the next; at `INPUT_PROP_MAX` it
/// stops, without handing it out.
pub struct InputPropIterator {
    current: InputProp,
}

impl View for EventTypeIterator {
    type V = EventType;

    /// The event type the walk stands at.
    closed spec fn view(&self) -> EventType {
        self.current
    }
}

impl View for EventCodeIterator {
    type V = EventCode;

    /// The event code the walk stands at.
    closed spec fn view(&self) -> EventCode {
        self.current
    }
}

impl View for InputPropIterator {
    type V = InputProp;

    /// The property the walk stands at.
    closed spec fn view(&self) -> InputProp {
        self.current
    }
}

/// The event type that follows `code`. Every one but `EV_MAX` has one.
fn next_event_type(code: &EventType) -> (next: EventType)
    requires
        *code != EventType::EV_MAX,
    ensures
        code.follows(next),
{
    proof {
        EventType::lemma_found_again(*code);
    }
    let mut raw_code: u32 = code.to_int() + 1;
    loop
        invariant
            code.number() < raw_code <= EventType::EV_MAX.number(),
            forall|n: u32|
                code.number() < n < raw_code ==> (#[trigger] EventType::named(n)) is None,
        decreases EventType::EV_MAX.number() - raw_code,
    {
        match int_to_event_type(raw_code) {
            Some(x) => {
                proof {
                    EventType::lemma_named(raw_code);
                }
                return x;
            },
            None => raw_code += 1,
        }
    }
}

impl EventTypeIterator {
    /// Hands out the event type the walk stands at and goes on to the one
    /// that follows; `None`, and no step, at `EV_MAX`.
    pub fn next(&mut self) -> (r: Option<EventType>)
        ensures
            old(self)@ == EventType::EV_MAX ==> r is None && final(self)@ == old(self)@,
            old(self)@ != EventType::EV_MAX ==> r == Some(old(self)@) && old(self)@.follows(
                final(self)@,
            ),
    {
        match self.current {
            EventType::EV_MAX => None,
            _ => {
                let code = self.current;
                self.current = next_event_type(&code);
                Some(code)
            },
        }
    }
}

/// The step of the walk within one family: the name that follows, or
/// `None` at the last one.
fn next_in_family<T: Numbered>(code: &T) -> (r: Option<T>)
    ensures
        *code == T::last() ==> r is None,
        *code != T::last() ==> (r matches Some(y) && follows(*code, y)),
{
    if code.is_last() {
        None
    } else {
        Some(successor(code))
    }
}

impl EventCodeIterator {
    /// Hands out the event code the walk stands at and goes on to the next;
    /// `None`, and no step, where the walk ends.
    pub fn next(&mut self) -> (r: Option<EventCode>)
        ensures
            old(self)@.ends_walk() ==> r is None && final(self)@ == old(self)@,
            !old(self)@.ends_walk() ==> r == Some(old(self)@) && old(self)@.walks_to(
                final(self)@,
            ),
    {
        let ev_code = self.current;
        let next = match ev_code {
            EventCode::EV_SYN(code) => match next_in_family(&code) {
                Some(x) => EventCode::EV_SYN(x),
                None => EventCode::EV_KEY(EV_KEY::KEY_RESERVED),
            },
            EventCode::EV_KEY(code) => match next_in_family(&code) {
                Some(x) => EventCode::EV_KEY(x),
                None => EventCode::EV_REL(EV_REL::REL_X),
            },
            EventCode::EV_REL(code) => match next_in_family(&code) {
                Some(x) => EventCode::EV_REL(x),
                None => EventCode::EV_ABS(EV_ABS::ABS_X),
            },
            EventCode::EV_ABS(code) => match next_in_family(&code) {
                Some(x) => EventCode::EV_ABS(x),
                None => EventCode::EV_MSC(EV_MSC::MSC_SERIAL),
            },
            EventCode::EV_MSC(code) => match next_in_family(&code) {
                Some(x) => EventCode::EV_MSC(x),
                None => EventCode::EV_SW(EV_SW::SW_LID),
            },
            EventCode::EV_SW(code) => match next_in_family(&code) {
                Some(x) => EventCode::EV_SW(x),
                None => EventCode::EV_LED(EV_LED::LED_NUML),
            },
            EventCode::EV_LED(code) => match next_in_family(&code) {
                Some(x) => EventCode::EV_LED(x),
                None => EventCode::EV_SND(EV_SND::SND_CLICK),
            },
            EventCode::EV_SND(code) => match next_in_family(&code) {
                Some(x) => EventCode::EV_SND(x),
                None => EventCode::EV_REP(EV_REP::REP_DELAY),
            },
            EventCode::EV_REP(code) => match next_in_family(&code) {
                Some(x) => EventCode::EV_REP(x),
                None => EventCode::EV_FF(EV_FF::FF_STATUS_STOPPED),
            },
            EventCode::EV_FF(code) => match next_in_family(&code) {
                Some(x) => EventCode::EV_FF(x),
                None => return None,
            },
            _ => return None,
        };
        self.current = next;
        Some(ev_code)
    }
}

impl InputPropIterator {
    /// Hands out the property the walk stands at and goes on to the one
    /// that follows; `None`, and no step, at `INPUT_PROP_MAX`.
    pub fn next(&mut self) -> (r: Option<InputProp>)
        ensures
            old(self)@ == InputProp::INPUT_PROP_MAX ==> r is None && final(self)@ == old(self)@,
            old(self)@ != InputProp::INPUT_PROP_MAX ==> r == Some(old(self)@) && follows(
                old(self)@,
                final(self)@,
            ),
    {
        let prop = self.current;
        match next_in_family(&prop) {
            Some(x) => {
                self.current = x;
                Some(prop)
            },
            None => None,
        }
    }
}

} // verus!
