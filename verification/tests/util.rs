use evdev_rs::enums::{
    EventCode, EventType, InputProp, EV_ABS, EV_FF, EV_KEY, EV_LED, EV_MSC, EV_REL, EV_REP,
    EV_SND, EV_SW, EV_SYN,
};
use evdev_rs::util::{event_code_to_int, int_to_event_code};

#[test]
fn codes_to_numbers() {
    assert_eq!(event_code_to_int(&EventCode::EV_SYN(EV_SYN::SYN_REPORT)), (0, 0));
    assert_eq!(event_code_to_int(&EventCode::EV_SYN(EV_SYN::SYN_DROPPED)), (0, 3));
    assert_eq!(event_code_to_int(&EventCode::EV_KEY(EV_KEY::KEY_A)), (1, 30));
    assert_eq!(event_code_to_int(&EventCode::EV_KEY(EV_KEY::BTN_LEFT)), (1, 0x110));
    assert_eq!(event_code_to_int(&EventCode::EV_REL(EV_REL::REL_WHEEL)), (2, 8));
    assert_eq!(event_code_to_int(&EventCode::EV_ABS(EV_ABS::ABS_MT_SLOT)), (3, 0x2f));
    assert_eq!(event_code_to_int(&EventCode::EV_MSC(EV_MSC::MSC_SCAN)), (4, 4));
    assert_eq!(event_code_to_int(&EventCode::EV_SW(EV_SW::SW_LID)), (5, 0));
    assert_eq!(event_code_to_int(&EventCode::EV_LED(EV_LED::LED_CAPSL)), (0x11, 1));
    assert_eq!(event_code_to_int(&EventCode::EV_SND(EV_SND::SND_TONE)), (0x12, 2));
    assert_eq!(event_code_to_int(&EventCode::EV_REP(EV_REP::REP_MAX)), (0x14, 1));
    assert_eq!(event_code_to_int(&EventCode::EV_FF(EV_FF::FF_RUMBLE)), (0x15, 0x50));
    assert_eq!(event_code_to_int(&EventCode::EV_FF_STATUS(EV_FF::FF_STATUS_MAX)), (0x17, 1));
}

#[test]
fn unknown_code_keeps_its_numbers() {
    let code = EventCode::EV_UNK { event_type: 3, event_code: 0x3e };
    assert_eq!(event_code_to_int(&code), (3, 0x3e));
    let code = EventCode::EV_UNK { event_type: 77, event_code: 0xffff_ffff };
    assert_eq!(event_code_to_int(&code), (77, 0xffff_ffff));
}

#[test]
fn codes_without_a_number_give_zeros() {
    assert_eq!(event_code_to_int(&EventCode::EV_PWR), (0, 0));
    assert_eq!(event_code_to_int(&EventCode::EV_MAX), (0, 0));
}

#[test]
fn numbers_to_codes() {
    assert_eq!(int_to_event_code(0, 0), Some(EventCode::EV_SYN(EV_SYN::SYN_REPORT)));
    assert_eq!(int_to_event_code(1, 30), Some(EventCode::EV_KEY(EV_KEY::KEY_A)));
    assert_eq!(int_to_event_code(1, 0x2ff), Some(EventCode::EV_KEY(EV_KEY::KEY_MAX)));
    assert_eq!(int_to_event_code(2, 0), Some(EventCode::EV_REL(EV_REL::REL_X)));
    assert_eq!(int_to_event_code(3, 1), Some(EventCode::EV_ABS(EV_ABS::ABS_Y)));
    assert_eq!(int_to_event_code(4, 3), Some(EventCode::EV_MSC(EV_MSC::MSC_RAW)));
    assert_eq!(int_to_event_code(5, 1), Some(EventCode::EV_SW(EV_SW::SW_TABLET_MODE)));
    assert_eq!(int_to_event_code(0x11, 0), Some(EventCode::EV_LED(EV_LED::LED_NUML)));
    assert_eq!(int_to_event_code(0x12, 0), Some(EventCode::EV_SND(EV_SND::SND_CLICK)));
    assert_eq!(int_to_event_code(0x14, 0), Some(EventCode::EV_REP(EV_REP::REP_DELAY)));
    assert_eq!(int_to_event_code(0x15, 0x60), Some(EventCode::EV_FF(EV_FF::FF_GAIN)));
    assert_eq!(
        int_to_event_code(0x17, 0),
        Some(EventCode::EV_FF_STATUS(EV_FF::FF_STATUS_STOPPED))
    );
}

#[test]
fn numbers_without_a_code_become_unknown() {
    assert_eq!(
        int_to_event_code(0, 4),
        Some(EventCode::EV_UNK { event_type: 0, event_code: 4 })
    );
    assert_eq!(
        int_to_event_code(1, 0x300),
        Some(EventCode::EV_UNK { event_type: 1, event_code: 0x300 })
    );
    assert_eq!(
        int_to_event_code(3, 0x3e),
        Some(EventCode::EV_UNK { event_type: 3, event_code: 0x3e })
    );
    assert_eq!(
        int_to_event_code(0x17, 2),
        Some(EventCode::EV_UNK { event_type: 0x17, event_code: 2 })
    );
}

#[test]
fn types_without_codes_stand_for_themselves() {
    assert_eq!(int_to_event_code(0x16, 0), Some(EventCode::EV_PWR));
    assert_eq!(int_to_event_code(0x16, 999), Some(EventCode::EV_PWR));
    assert_eq!(int_to_event_code(0x1f, 0), Some(EventCode::EV_MAX));
    assert_eq!(int_to_event_code(0x1f, 7), Some(EventCode::EV_MAX));
}

#[test]
fn numbers_and_codes_undo_each_other() {
    for t in [0u32, 1, 2, 3, 4, 5, 0x11, 0x12, 0x14, 0x15, 0x17] {
        for c in 0..0x400u32 {
            let code = int_to_event_code(t, c).unwrap();
            assert_eq!(event_code_to_int(&code), (t, c));
            let (t2, c2) = event_code_to_int(&code);
            assert_eq!(int_to_event_code(t2, c2), Some(code));
        }
    }
}

fn collect_types(start: EventType) -> Vec<EventType> {
    let mut it = start.iter();
    let mut out = Vec::new();
    while let Some(t) = it.next() {
        out.push(t);
        assert!(out.len() < 100);
    }
    assert_eq!(it.next(), None);
    out
}

#[test]
fn walk_over_event_types() {
    assert_eq!(
        collect_types(EventType::EV_SYN),
        vec![
            EventType::EV_SYN,
            EventType::EV_KEY,
            EventType::EV_REL,
            EventType::EV_ABS,
            EventType::EV_MSC,
            EventType::EV_SW,
            EventType::EV_LED,
            EventType::EV_SND,
            EventType::EV_REP,
            EventType::EV_FF,
            EventType::EV_PWR,
            EventType::EV_FF_STATUS,
        ]
    );
}

#[test]
fn walk_over_event_types_from_the_middle() {
    assert_eq!(
        collect_types(EventType::EV_FF),
        vec![EventType::EV_FF, EventType::EV_PWR, EventType::EV_FF_STATUS]
    );
    assert_eq!(collect_types(EventType::EV_MAX), vec![]);
}

#[test]
fn walk_over_event_types_from_unknown() {
    assert_eq!(collect_types(EventType::EV_UNK), vec![EventType::EV_UNK]);
}

fn collect_props(start: InputProp) -> Vec<InputProp> {
    let mut it = start.iter();
    let mut out = Vec::new();
    while let Some(p) = it.next() {
        out.push(p);
        assert!(out.len() < 100);
    }
    assert_eq!(it.next(), None);
    out
}

#[test]
fn walk_over_properties() {
    assert_eq!(
        collect_props(InputProp::INPUT_PROP_POINTER),
        vec![
            InputProp::INPUT_PROP_POINTER,
            InputProp::INPUT_PROP_DIRECT,
            InputProp::INPUT_PROP_BUTTONPAD,
            InputProp::INPUT_PROP_SEMI_MT,
            InputProp::INPUT_PROP_TOPBUTTONPAD,
            InputProp::INPUT_PROP_POINTING_STICK,
            InputProp::INPUT_PROP_ACCELEROMETER,
        ]
    );
    assert_eq!(collect_props(InputProp::INPUT_PROP_MAX), vec![]);
}

fn collect_codes(start: EventCode) -> Vec<EventCode> {
    let mut it = start.iter();
    let mut out = Vec::new();
    while let Some(c) = it.next() {
        out.push(c);
        assert!(out.len() < 10_000);
    }
    assert_eq!(it.next(), None);
    out
}

#[test]
fn walk_over_all_event_codes() {
    let codes = collect_codes(EventCode::EV_SYN(EV_SYN::SYN_REPORT));
    assert_eq!(codes.len(), 5 + 613 + 14 + 44 + 7 + 17 + 12 + 4 + 2 + 19 - 1);
    assert_eq!(codes[0], EventCode::EV_SYN(EV_SYN::SYN_REPORT));
    assert_eq!(codes[3], EventCode::EV_SYN(EV_SYN::SYN_DROPPED));
    assert_eq!(codes[4], EventCode::EV_SYN(EV_SYN::SYN_MAX));
    assert_eq!(codes[5], EventCode::EV_KEY(EV_KEY::KEY_RESERVED));
    assert_eq!(codes[5 + 612], EventCode::EV_KEY(EV_KEY::KEY_MAX));
    assert_eq!(codes[5 + 613], EventCode::EV_REL(EV_REL::REL_X));
    assert_eq!(codes[codes.len() - 1], EventCode::EV_FF(EV_FF::FF_AUTOCENTER));
    for pair in codes.windows(2) {
        let (t0, c0) = event_code_to_int(&pair[0]);
        let (t1, c1) = event_code_to_int(&pair[1]);
        if t0 == t1 {
            assert!(c0 < c1);
        } else {
            assert_eq!(c1, 0);
        }
    }
}

#[test]
fn walk_over_event_codes_crosses_families() {
    let mut it = EventCode::EV_REP(EV_REP::REP_DELAY).iter();
    assert_eq!(it.next(), Some(EventCode::EV_REP(EV_REP::REP_DELAY)));
    assert_eq!(it.next(), Some(EventCode::EV_REP(EV_REP::REP_MAX)));
    assert_eq!(it.next(), Some(EventCode::EV_FF(EV_FF::FF_STATUS_STOPPED)));
    assert_eq!(it.next(), Some(EventCode::EV_FF(EV_FF::FF_STATUS_MAX)));
    assert_eq!(it.next(), Some(EventCode::EV_FF(EV_FF::FF_RUMBLE)));
}

#[test]
fn walk_over_event_codes_ends() {
    assert_eq!(collect_codes(EventCode::EV_FF(EV_FF::FF_MAX)), vec![]);
    assert_eq!(
        collect_codes(EventCode::EV_FF(EV_FF::FF_GAIN)),
        vec![EventCode::EV_FF(EV_FF::FF_GAIN), EventCode::EV_FF(EV_FF::FF_AUTOCENTER)]
    );
    assert_eq!(collect_codes(EventCode::EV_PWR), vec![]);
    assert_eq!(collect_codes(EventCode::EV_MAX), vec![]);
    assert_eq!(collect_codes(EventCode::EV_FF_STATUS(EV_FF::FF_STATUS_STOPPED)), vec![]);
    assert_eq!(collect_codes(EventCode::EV_UNK { event_type: 1, event_code: 2 }), vec![]);
}

#[test]
fn lookups_by_name() {
    assert_eq!(EventType::from_lookup(-1), None);
    assert_eq!(EventType::from_lookup(3), Some(EventType::EV_ABS));
    assert_eq!(EventType::from_lookup(6), None);
    assert_eq!(EventType::from_lookup(-2), None);
    assert_eq!(InputProp::from_lookup(-1), None);
    assert_eq!(InputProp::from_lookup(1), Some(InputProp::INPUT_PROP_DIRECT));
    assert_eq!(InputProp::from_lookup(9), None);
    assert_eq!(EventCode::from_lookup(&EventType::EV_ABS, -1), None);
    assert_eq!(
        EventCode::from_lookup(&EventType::EV_ABS, 0),
        Some(EventCode::EV_ABS(EV_ABS::ABS_X))
    );
    assert_eq!(
        EventCode::from_lookup(&EventType::EV_KEY, 30),
        Some(EventCode::EV_KEY(EV_KEY::KEY_A))
    );
    assert_eq!(
        EventCode::from_lookup(&EventType::EV_KEY, 0x300),
        Some(EventCode::EV_UNK { event_type: 1, event_code: 0x300 })
    );
    assert_eq!(
        EventCode::from_lookup(&EventType::EV_KEY, -2),
        Some(EventCode::EV_UNK { event_type: 1, event_code: 0xffff_fffe })
    );
}
