use evdev_rs::device::{
    abs_field, fetched_value, next_event_result, some_unless_minus_one, status_to_result,
};
use evdev_rs::enums::{EventCode, EventType, EV_ABS, EV_KEY, EV_SYN};
use evdev_rs::logging::LogPriority;
use evdev_rs::raw;
use evdev_rs::uinput::fd_or_none;
use evdev_rs::{AbsInfo, GrabMode, InputEvent, LedState, ReadStatus, TimeVal};
use nix::errno::Errno;

#[test]
fn numbers_of_the_modes() {
    assert_eq!(GrabMode::Grab.as_raw(), 3);
    assert_eq!(GrabMode::Ungrab.as_raw(), 4);
    assert_eq!(LedState::On.as_raw(), 3);
    assert_eq!(LedState::Off.as_raw(), 4);
    assert_eq!(ReadStatus::Success.as_raw(), 0);
    assert_eq!(ReadStatus::Sync.as_raw(), 1);
}

#[test]
fn log_priorities() {
    assert_eq!(LogPriority::Error.as_raw(), 10);
    assert_eq!(LogPriority::Info.as_raw(), 20);
    assert_eq!(LogPriority::Debug.as_raw(), 30);
    assert_eq!(LogPriority::from_raw(10), Some(LogPriority::Error));
    assert_eq!(LogPriority::from_raw(20), Some(LogPriority::Info));
    assert_eq!(LogPriority::from_raw(30), Some(LogPriority::Debug));
    assert_eq!(LogPriority::from_raw(0), None);
    assert_eq!(LogPriority::from_raw(15), None);
    assert_eq!(LogPriority::from_raw(-10), None);
}

#[test]
fn abs_info_to_raw_and_back() {
    let raw = raw::input_absinfo {
        value: 1,
        minimum: -2,
        maximum: 3,
        fuzz: 4,
        flat: 5,
        resolution: 6,
    };
    let info = AbsInfo::from_raw(raw);
    assert_eq!(
        info,
        AbsInfo { value: 1, minimum: -2, maximum: 3, fuzz: 4, flat: 5, resolution: 6 }
    );
    assert_eq!(info.as_raw(), raw);
}

#[test]
fn time_val_to_raw_and_back() {
    let t = TimeVal::new(12, 345);
    assert_eq!(t, TimeVal { tv_sec: 12, tv_usec: 345 });
    assert_eq!(t.as_raw(), raw::timeval { tv_sec: 12, tv_usec: 345 });
    assert_eq!(TimeVal::from_raw(&raw::timeval { tv_sec: -1, tv_usec: 7 }), TimeVal::new(-1, 7));
}

#[test]
fn time_val_from_duration() {
    assert_eq!(TimeVal::from_duration(0, 0), TimeVal::new(0, 0));
    assert_eq!(TimeVal::from_duration(1_600_000_000, 999_999), TimeVal::new(1_600_000_000, 999_999));
    assert_eq!(TimeVal::from_duration(i64::MAX as u64, 1), TimeVal::new(i64::MAX, 1));
    assert_eq!(TimeVal::from_duration(i64::MAX as u64 + 1, 1), TimeVal::new(i64::MIN, 1));
    assert_eq!(TimeVal::from_duration(u64::MAX, 0), TimeVal::new(-1, 0));
}

#[test]
fn time_val_to_duration() {
    assert_eq!(TimeVal::new(0, 0).to_duration(), Some((0, 0)));
    assert_eq!(TimeVal::new(5, 250_000).to_duration(), Some((5, 250_000_000)));
    assert_eq!(TimeVal::new(5, 999_999).to_duration(), Some((5, 999_999_000)));
    assert_eq!(TimeVal::new(i64::MAX, 1).to_duration(), Some((i64::MAX as u64, 1000)));
}

#[test]
fn time_val_to_duration_takes_a_second_and_more_of_microseconds() {
    assert_eq!(TimeVal::new(5, 1_000_000).to_duration(), Some((5, 1_000_000_000)));
    assert_eq!(TimeVal::new(5, 4_294_967).to_duration(), Some((5, 4_294_967_000)));
}

#[test]
fn durations_are_found_again() {
    for (secs, micros) in [(0u64, 0u32), (1, 1), (1_700_000_000, 999_999), (i64::MAX as u64, 4_294_967)] {
        let t = TimeVal::from_duration(secs, micros);
        assert_eq!(t.to_duration(), Some((secs, micros * 1000)));
    }
}

#[test]
fn time_val_without_duration() {
    assert_eq!(TimeVal::new(-1, 0).to_duration(), None);
    assert_eq!(TimeVal::new(-1, i64::MAX).to_duration(), None);
    assert_eq!(TimeVal::new(0, -1).to_duration(), None);
    assert_eq!(TimeVal::new(0, 4_294_968).to_duration(), None);
}

#[test]
fn new_event_takes_its_type_from_the_code() {
    let t = TimeVal::new(1, 2);
    let e = InputEvent::new(&t, &EventCode::EV_KEY(EV_KEY::KEY_A), 1);
    assert_eq!(
        e,
        InputEvent {
            time: t,
            event_type: EventType::EV_KEY,
            event_code: EventCode::EV_KEY(EV_KEY::KEY_A),
            value: 1,
        }
    );
    let e = InputEvent::new(&t, &EventCode::EV_UNK { event_type: 3, event_code: 0x3e }, -7);
    assert_eq!(e.event_type, EventType::EV_ABS);
    assert_eq!(e.value, -7);
}

#[test]
fn new_event_of_a_code_without_numbers() {
    let t = TimeVal::new(0, 0);
    let e = InputEvent::new(&t, &EventCode::EV_PWR, 0);
    assert_eq!(e.event_type, EventType::EV_SYN);
    assert_eq!(e.event_code, EventCode::EV_PWR);
}

#[test]
fn event_from_raw() {
    let ev = raw::input_event {
        time: raw::timeval { tv_sec: 10, tv_usec: 20 },
        type_: 3,
        code: 0x35,
        value: 512,
    };
    assert_eq!(
        InputEvent::from_raw(&ev),
        InputEvent {
            time: TimeVal::new(10, 20),
            event_type: EventType::EV_ABS,
            event_code: EventCode::EV_ABS(EV_ABS::ABS_MT_POSITION_X),
            value: 512,
        }
    );
}

#[test]
fn event_from_raw_with_unknown_code() {
    let ev = raw::input_event {
        time: raw::timeval { tv_sec: 0, tv_usec: 0 },
        type_: 1,
        code: 0x2f0,
        value: 0,
    };
    let e = InputEvent::from_raw(&ev);
    assert_eq!(e.event_type, EventType::EV_KEY);
    assert_eq!(e.event_code, EventCode::EV_UNK { event_type: 1, event_code: 0x2f0 });
}

#[test]
fn event_as_raw() {
    let e = InputEvent {
        time: TimeVal::new(3, 4),
        event_type: EventType::EV_KEY,
        event_code: EventCode::EV_KEY(EV_KEY::BTN_LEFT),
        value: 1,
    };
    assert_eq!(
        e.as_raw(),
        raw::input_event {
            time: raw::timeval { tv_sec: 3, tv_usec: 4 },
            type_: 1,
            code: 0x110,
            value: 1,
        }
    );
}

#[test]
fn event_as_raw_cuts_to_16_bits() {
    let e = InputEvent {
        time: TimeVal::new(0, 0),
        event_type: EventType::EV_KEY,
        event_code: EventCode::EV_UNK { event_type: 0x1_0001, event_code: 0x2_0300 },
        value: 0,
    };
    let r = e.as_raw();
    assert_eq!(r.type_, 1);
    assert_eq!(r.code, 0x300);
}

#[test]
fn raw_events_are_found_again() {
    for t in [0u16, 1, 2, 3, 4, 5, 0x11, 0x12, 0x14, 0x15, 0x17] {
        for c in [0u16, 1, 2, 3, 7, 0x10, 0x3f, 0x40, 0x2ff, 0x300, 0xffff] {
            let ev = raw::input_event {
                time: raw::timeval { tv_sec: 9, tv_usec: 8 },
                type_: t,
                code: c,
                value: -1,
            };
            assert_eq!(InputEvent::from_raw(&ev).as_raw(), ev);
        }
    }
}

#[test]
fn events_are_found_again() {
    let codes = [
        EventCode::EV_SYN(EV_SYN::SYN_DROPPED),
        EventCode::EV_KEY(EV_KEY::KEY_MAX),
        EventCode::EV_ABS(EV_ABS::ABS_MT_SLOT),
        EventCode::EV_UNK { event_type: 1, event_code: 0x300 },
        EventCode::EV_UNK { event_type: 0x17, event_code: 0xffff },
    ];
    for code in codes {
        let e = InputEvent::new(&TimeVal::new(7, 8), &code, 42);
        assert_eq!(InputEvent::from_raw(&e.as_raw()), e);
    }
}

#[test]
fn status_zero_is_success() {
    assert!(status_to_result(0).is_ok());
}

#[test]
fn status_is_a_negated_error_number() {
    assert_eq!(status_to_result(-19).unwrap_err().raw_os_error(), Some(19));
    assert_eq!(status_to_result(-1).unwrap_err().raw_os_error(), Some(1));
    assert_eq!(status_to_result(11).unwrap_err().raw_os_error(), Some(-11));
    assert_eq!(status_to_result(i32::MAX).unwrap_err().raw_os_error(), Some(i32::MIN + 1));
}

#[test]
fn status_gives_the_error_of_the_operating_system() {
    let e = status_to_result(-2).unwrap_err();
    assert_eq!(e.kind(), std::io::ErrorKind::NotFound);
    let e = status_to_result(-13).unwrap_err();
    assert_eq!(e.kind(), std::io::ErrorKind::PermissionDenied);
}

fn syn_report() -> raw::input_event {
    raw::input_event {
        time: raw::timeval { tv_sec: 1, tv_usec: 2 },
        type_: 0,
        code: 0,
        value: 0,
    }
}

#[test]
fn next_event_read() {
    let event = InputEvent {
        time: TimeVal::new(1, 2),
        event_type: EventType::EV_SYN,
        event_code: EventCode::EV_SYN(EV_SYN::SYN_REPORT),
        value: 0,
    };
    assert_eq!(next_event_result(0, &syn_report()).unwrap(), (ReadStatus::Success, event));
    assert_eq!(next_event_result(1, &syn_report()).unwrap(), (ReadStatus::Sync, event));
}

#[test]
fn next_event_failed() {
    assert_eq!(next_event_result(-11, &syn_report()).unwrap_err().raw_os_error(), Some(11));
    assert_eq!(next_event_result(2, &syn_report()).unwrap_err().raw_os_error(), Some(-2));
    let e = next_event_result(-11, &syn_report()).unwrap_err();
    assert_eq!(e.kind(), std::io::ErrorKind::WouldBlock);
}

#[test]
fn fetched_values() {
    assert_eq!(fetched_value(0, 5), None);
    assert_eq!(fetched_value(1, 5), Some(5));
    assert_eq!(fetched_value(-1, 0), Some(0));
}

#[test]
fn counts_that_may_be_missing() {
    assert_eq!(some_unless_minus_one(-1), None);
    assert_eq!(some_unless_minus_one(0), Some(0));
    assert_eq!(some_unless_minus_one(9), Some(9));
    assert_eq!(some_unless_minus_one(-2), Some(-2));
}

#[test]
fn abs_fields() {
    assert_eq!(abs_field(0), Err(Errno::UnknownErrno));
    assert_eq!(abs_field(0), Err(Errno::from_raw(0)));
    assert_eq!(abs_field(255), Ok(255));
    assert_eq!(abs_field(-4), Ok(-4));
}

#[test]
fn uinput_fd() {
    assert_eq!(fd_or_none(0), None);
    assert_eq!(fd_or_none(3), Some(3));
    assert_eq!(fd_or_none(-1), Some(-1));
}
