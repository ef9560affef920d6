use evdev_rs::enums::{
    int_to_bus_type, int_to_ev_abs, int_to_ev_ff, int_to_ev_key, int_to_ev_led, int_to_ev_msc,
    int_to_ev_rel, int_to_ev_rep, int_to_ev_snd, int_to_ev_sw, int_to_ev_syn, int_to_event_type,
    int_to_input_prop, successor, BusType, EventType, InputProp, Numbered, EV_ABS, EV_FF, EV_KEY,
    EV_LED, EV_MSC, EV_REL, EV_REP, EV_SND, EV_SW, EV_SYN,
};

/// Walks the numbers up to `limit` and checks that each name found gives
/// its number back. Returns how many names there are.
fn names_below<T: Numbered + Copy + PartialEq + std::fmt::Debug>(limit: u32) -> usize {
    let mut count = 0;
    for n in 0..limit {
        if let Some(x) = T::from_int(n) {
            assert_eq!(x.to_int(), n);
            assert_eq!(T::from_int(x.to_int()), Some(x));
            count += 1;
        }
    }
    count
}

#[test]
fn every_family_has_its_names() {
    assert_eq!(names_below::<EV_SYN>(0x1000), 5);
    assert_eq!(names_below::<EV_KEY>(0x1000), 613);
    assert_eq!(names_below::<EV_REL>(0x1000), 14);
    assert_eq!(names_below::<EV_ABS>(0x1000), 44);
    assert_eq!(names_below::<EV_MSC>(0x1000), 7);
    assert_eq!(names_below::<EV_SW>(0x1000), 17);
    assert_eq!(names_below::<EV_LED>(0x1000), 12);
    assert_eq!(names_below::<EV_SND>(0x1000), 4);
    assert_eq!(names_below::<EV_REP>(0x1000), 2);
    assert_eq!(names_below::<EV_FF>(0x1000), 19);
    assert_eq!(names_below::<InputProp>(0x1000), 8);
    assert_eq!(names_below::<BusType>(0x1000), 23);
}

#[test]
fn keys_by_number() {
    assert_eq!(int_to_ev_key(0), Some(EV_KEY::KEY_RESERVED));
    assert_eq!(int_to_ev_key(1), Some(EV_KEY::KEY_ESC));
    assert_eq!(int_to_ev_key(30), Some(EV_KEY::KEY_A));
    assert_eq!(int_to_ev_key(57), Some(EV_KEY::KEY_SPACE));
    assert_eq!(int_to_ev_key(248), Some(EV_KEY::KEY_MICMUTE));
    assert_eq!(int_to_ev_key(0x100), Some(EV_KEY::BTN_0));
    assert_eq!(int_to_ev_key(0x110), Some(EV_KEY::BTN_LEFT));
    assert_eq!(int_to_ev_key(0x130), Some(EV_KEY::BTN_SOUTH));
    assert_eq!(int_to_ev_key(0x14a), Some(EV_KEY::BTN_TOUCH));
    assert_eq!(int_to_ev_key(0x160), Some(EV_KEY::KEY_OK));
    assert_eq!(int_to_ev_key(0x200), Some(EV_KEY::KEY_NUMERIC_0));
    assert_eq!(int_to_ev_key(0x2c0), Some(EV_KEY::BTN_TRIGGER_HAPPY1));
    assert_eq!(int_to_ev_key(0x2ff), Some(EV_KEY::KEY_MAX));
}

#[test]
fn numbers_without_a_key() {
    assert_eq!(int_to_ev_key(249), None);
    assert_eq!(int_to_ev_key(0xff), None);
    assert_eq!(int_to_ev_key(0x152), None);
    assert_eq!(int_to_ev_key(0x2e8), None);
    assert_eq!(int_to_ev_key(0x300), None);
    assert_eq!(int_to_ev_key(u32::MAX), None);
}

#[test]
fn keys_to_numbers() {
    assert_eq!(EV_KEY::KEY_RESERVED.to_int(), 0);
    assert_eq!(EV_KEY::KEY_A.to_int(), 30);
    assert_eq!(EV_KEY::BTN_LEFT.to_int(), 0x110);
    assert_eq!(EV_KEY::BTN_TRIGGER_HAPPY40.to_int(), 0x2e7);
    assert_eq!(EV_KEY::KEY_MAX.to_int(), 0x2ff);
}

#[test]
fn small_families_by_number() {
    assert_eq!(int_to_ev_syn(0), Some(EV_SYN::SYN_REPORT));
    assert_eq!(int_to_ev_syn(3), Some(EV_SYN::SYN_DROPPED));
    assert_eq!(int_to_ev_syn(4), None);
    assert_eq!(int_to_ev_syn(0xf), Some(EV_SYN::SYN_MAX));
    assert_eq!(int_to_ev_rel(0), Some(EV_REL::REL_X));
    assert_eq!(int_to_ev_rel(8), Some(EV_REL::REL_WHEEL));
    assert_eq!(int_to_ev_rel(0xd), None);
    assert_eq!(int_to_ev_abs(0), Some(EV_ABS::ABS_X));
    assert_eq!(int_to_ev_abs(0x2f), Some(EV_ABS::ABS_MT_SLOT));
    assert_eq!(int_to_ev_abs(0x39), Some(EV_ABS::ABS_MT_TRACKING_ID));
    assert_eq!(int_to_ev_abs(0x3e), None);
    assert_eq!(int_to_ev_msc(4), Some(EV_MSC::MSC_SCAN));
    assert_eq!(int_to_ev_msc(6), None);
    assert_eq!(int_to_ev_sw(0), Some(EV_SW::SW_LID));
    assert_eq!(int_to_ev_sw(0x10), Some(EV_SW::SW_MAX));
    assert_eq!(int_to_ev_sw(0x11), None);
    assert_eq!(int_to_ev_led(1), Some(EV_LED::LED_CAPSL));
    assert_eq!(int_to_ev_led(0xb), None);
    assert_eq!(int_to_ev_snd(1), Some(EV_SND::SND_BELL));
    assert_eq!(int_to_ev_snd(3), None);
    assert_eq!(int_to_ev_rep(0), Some(EV_REP::REP_DELAY));
    assert_eq!(int_to_ev_rep(1), Some(EV_REP::REP_MAX));
    assert_eq!(int_to_ev_rep(2), None);
    assert_eq!(int_to_ev_ff(0), Some(EV_FF::FF_STATUS_STOPPED));
    assert_eq!(int_to_ev_ff(1), Some(EV_FF::FF_STATUS_MAX));
    assert_eq!(int_to_ev_ff(2), None);
    assert_eq!(int_to_ev_ff(0x50), Some(EV_FF::FF_RUMBLE));
    assert_eq!(int_to_ev_ff(0x7f), Some(EV_FF::FF_MAX));
    assert_eq!(int_to_input_prop(0), Some(InputProp::INPUT_PROP_POINTER));
    assert_eq!(int_to_input_prop(6), Some(InputProp::INPUT_PROP_ACCELEROMETER));
    assert_eq!(int_to_input_prop(7), None);
    assert_eq!(int_to_input_prop(0x1f), Some(InputProp::INPUT_PROP_MAX));
    assert_eq!(int_to_bus_type(0), None);
    assert_eq!(int_to_bus_type(3), Some(BusType::BUS_USB));
    assert_eq!(int_to_bus_type(5), Some(BusType::BUS_BLUETOOTH));
    assert_eq!(int_to_bus_type(0x20), Some(BusType::BUS_AMD_SFH));
    assert_eq!(int_to_bus_type(0x21), None);
}

#[test]
fn event_types_by_number() {
    assert_eq!(int_to_event_type(0), Some(EventType::EV_SYN));
    assert_eq!(int_to_event_type(1), Some(EventType::EV_KEY));
    assert_eq!(int_to_event_type(2), Some(EventType::EV_REL));
    assert_eq!(int_to_event_type(3), Some(EventType::EV_ABS));
    assert_eq!(int_to_event_type(4), Some(EventType::EV_MSC));
    assert_eq!(int_to_event_type(5), Some(EventType::EV_SW));
    assert_eq!(int_to_event_type(0x11), Some(EventType::EV_LED));
    assert_eq!(int_to_event_type(0x12), Some(EventType::EV_SND));
    assert_eq!(int_to_event_type(0x14), Some(EventType::EV_REP));
    assert_eq!(int_to_event_type(0x15), Some(EventType::EV_FF));
    assert_eq!(int_to_event_type(0x16), Some(EventType::EV_PWR));
    assert_eq!(int_to_event_type(0x17), Some(EventType::EV_FF_STATUS));
    assert_eq!(int_to_event_type(0x1f), Some(EventType::EV_MAX));
}

#[test]
fn numbers_without_an_event_type() {
    assert_eq!(int_to_event_type(6), None);
    assert_eq!(int_to_event_type(0x10), None);
    assert_eq!(int_to_event_type(0x13), None);
    assert_eq!(int_to_event_type(0x18), None);
    assert_eq!(int_to_event_type(0x1e), None);
    assert_eq!(int_to_event_type(0x20), None);
    assert_eq!(int_to_event_type(u32::MAX), None);
}

#[test]
fn event_types_to_numbers() {
    assert_eq!(EventType::EV_SYN.to_int(), 0);
    assert_eq!(EventType::EV_ABS.to_int(), 3);
    assert_eq!(EventType::EV_LED.to_int(), 0x11);
    assert_eq!(EventType::EV_FF_STATUS.to_int(), 0x17);
    assert_eq!(EventType::EV_MAX.to_int(), 0x1f);
    for n in 0..64 {
        if let Some(t) = int_to_event_type(n) {
            assert_eq!(t.to_int(), n);
            assert_ne!(t, EventType::EV_UNK);
        }
    }
}

#[test]
fn unknown_event_type_reads_as_24() {
    assert_eq!(EventType::EV_UNK.to_int(), 24);
    assert_eq!(int_to_event_type(EventType::EV_UNK.to_int()), None);
}

#[test]
fn last_names() {
    assert!(EV_SYN::SYN_MAX.is_last());
    assert!(!EV_SYN::SYN_DROPPED.is_last());
    assert!(EV_KEY::KEY_MAX.is_last());
    assert!(!EV_KEY::BTN_TRIGGER_HAPPY40.is_last());
    assert!(EV_REP::REP_MAX.is_last());
    assert!(EV_FF::FF_MAX.is_last());
    assert!(InputProp::INPUT_PROP_MAX.is_last());
    assert!(BusType::BUS_AMD_SFH.is_last());
}

#[test]
fn successor_skips_numbers_without_a_name() {
    assert_eq!(successor(&EV_SYN::SYN_REPORT), EV_SYN::SYN_CONFIG);
    assert_eq!(successor(&EV_SYN::SYN_DROPPED), EV_SYN::SYN_MAX);
    assert_eq!(successor(&EV_KEY::KEY_MICMUTE), EV_KEY::BTN_0);
    assert_eq!(successor(&EV_KEY::BTN_TRIGGER_HAPPY40), EV_KEY::KEY_MAX);
    assert_eq!(successor(&EV_ABS::ABS_BRAKE), EV_ABS::ABS_HAT0X);
    assert_eq!(successor(&EV_FF::FF_STATUS_MAX), EV_FF::FF_RUMBLE);
    assert_eq!(successor(&EV_FF::FF_AUTOCENTER), EV_FF::FF_MAX);
    assert_eq!(successor(&EV_REP::REP_DELAY), EV_REP::REP_MAX);
    assert_eq!(successor(&InputProp::INPUT_PROP_ACCELEROMETER), InputProp::INPUT_PROP_MAX);
    assert_eq!(successor(&BusType::BUS_VIRTUAL), BusType::BUS_ISA);
}

#[test]
fn successor_has_the_next_greater_number() {
    let mut key = EV_KEY::KEY_RESERVED;
    let mut steps = 0;
    while !key.is_last() {
        let next = successor(&key);
        assert!(key.to_int() < next.to_int());
        for n in key.to_int() + 1..next.to_int() {
            assert_eq!(int_to_ev_key(n), None);
        }
        key = next;
        steps += 1;
    }
    assert_eq!(steps, 612);
}
