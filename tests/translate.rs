use bridge_hid::event::{
    RawEvent, BTN_LEFT, BTN_RIGHT, EV_KEY, EV_LED, EV_REL, EV_SYN, KEY_A, KEY_F12, KEY_LEFTALT,
    KEY_LEFTCTRL, KEY_LEFTSHIFT, KEY_RIGHTCTRL, KEY_Z, REL_HWHEEL, REL_WHEEL, REL_X, REL_Y,
};
use bridge_hid::keyboard::{evdev_to_hid, KeyboardState};
use bridge_hid::monitor::{detect_device_type, led_events, DeviceMonitor};
use bridge_hid::rate::MouseRateController;
use bridge_hid::report::{DeviceType, InputReport, LedState};

fn key(code: u16, value: i32) -> RawEvent {
    RawEvent::new(EV_KEY, code, value)
}

fn rel(code: u16, value: i32) -> RawEvent {
    RawEvent::new(EV_REL, code, value)
}

fn syn() -> RawEvent {
    RawEvent::new(EV_SYN, 0, 0)
}

fn keyboard_of(r: Option<InputReport>) -> (u8, Vec<u8>) {
    match r {
        Some(InputReport::Keyboard { modifiers, keys }) => (modifiers, keys),
        other => panic!("expected a keyboard report, got {:?}", other),
    }
}

fn mouse_of(r: Option<InputReport>) -> (u8, i16, i16, i8) {
    match r {
        Some(InputReport::Mouse { buttons, x, y, wheel }) => (buttons, x, y, wheel),
        other => panic!("expected a mouse report, got {:?}", other),
    }
}

#[test]
fn scan_codes_map_to_hid_usages() {
    assert_eq!(evdev_to_hid(KEY_A), Some(0x04));
    assert_eq!(evdev_to_hid(KEY_Z), Some(0x1D));
    assert_eq!(evdev_to_hid(KEY_F12), Some(0x45));
    assert_eq!(evdev_to_hid(2), Some(0x1E));
    assert_eq!(evdev_to_hid(11), Some(0x27));
    assert_eq!(evdev_to_hid(99), Some(0x46));
    assert_eq!(evdev_to_hid(210), Some(0x46));
    assert_eq!(evdev_to_hid(86), Some(0x64));
    assert_eq!(evdev_to_hid(KEY_LEFTCTRL), None);
    assert_eq!(evdev_to_hid(0), None);
    assert_eq!(evdev_to_hid(113), None);
}

#[test]
fn modifier_bits_follow_press_and_release() {
    let mut m = DeviceMonitor::new(DeviceType::Keyboard, None);
    assert_eq!(keyboard_of(m.process_event(key(KEY_LEFTCTRL, 1))).0, 0x01);
    assert_eq!(keyboard_of(m.process_event(key(KEY_LEFTSHIFT, 1))).0, 0x03);
    assert_eq!(keyboard_of(m.process_event(key(KEY_RIGHTCTRL, 1))).0, 0x13);
    assert_eq!(keyboard_of(m.process_event(key(KEY_LEFTCTRL, 0))).0, 0x12);
    // the same event again changes nothing
    assert_eq!(keyboard_of(m.process_event(key(KEY_LEFTCTRL, 0))).0, 0x12);
    assert_eq!(keyboard_of(m.process_event(key(KEY_LEFTSHIFT, 1))).0, 0x12);
    let (mods, keys) = keyboard_of(m.process_event(key(KEY_LEFTSHIFT, 0)));
    assert_eq!(mods, 0x10);
    assert!(keys.is_empty());
}

#[test]
fn a_key_pressed_twice_is_held_once() {
    let mut m = DeviceMonitor::new(DeviceType::Keyboard, None);
    assert_eq!(keyboard_of(m.process_event(key(KEY_A, 1))).1, vec![0x04]);
    assert_eq!(keyboard_of(m.process_event(key(KEY_A, 1))).1, vec![0x04]);
    assert_eq!(keyboard_of(m.process_event(key(KEY_Z, 1))).1, vec![0x04, 0x1D]);
    assert_eq!(keyboard_of(m.process_event(key(KEY_A, 0))).1, vec![0x1D]);
    assert_eq!(keyboard_of(m.process_event(key(KEY_Z, 0))).1, Vec::<u8>::new());
}

#[test]
fn repeats_unmapped_keys_and_other_events_give_no_report() {
    let mut m = DeviceMonitor::new(DeviceType::Keyboard, None);
    assert!(m.process_event(key(KEY_A, 1)).is_some());
    assert!(m.process_event(key(KEY_A, 2)).is_none());
    assert!(m.process_event(key(113, 1)).is_none());
    assert!(m.process_event(syn()).is_none());
    assert!(m.process_event(rel(REL_X, 3)).is_none());
    assert_eq!(m.keyboard_state.pressed_keys, vec![0x04]);
}

#[test]
fn seven_held_keys_all_stay_in_the_state() {
    let mut s = KeyboardState::new();
    for code in [30u16, 48, 46, 32, 18, 33, 34] {
        assert!(s.apply_key(code, 1));
    }
    assert_eq!(s.pressed_keys, vec![0x04, 0x05, 0x06, 0x07, 0x08, 0x09, 0x0A]);
}

#[test]
fn chord_keys_produce_three_reports() {
    let mut m = DeviceMonitor::new(DeviceType::Keyboard, None);
    assert_eq!(keyboard_of(m.process_event(key(KEY_LEFTCTRL, 1))), (0x01, vec![]));
    assert_eq!(keyboard_of(m.process_event(key(KEY_LEFTALT, 1))), (0x05, vec![]));
    assert_eq!(keyboard_of(m.process_event(key(KEY_F12, 1))), (0x05, vec![0x45]));
}

#[test]
fn mouse_motion_is_coalesced_per_sync_when_unlimited() {
    let mut m = DeviceMonitor::new(DeviceType::Mouse, Some(MouseRateController::new(0)));
    assert!(m.process_event(rel(REL_X, 5)).is_none());
    assert!(m.process_event(rel(REL_Y, -3)).is_none());
    assert_eq!(mouse_of(m.process_event(syn())), (0, 5, -3, 0));
    assert!(m.process_event(rel(REL_X, 2)).is_none());
    assert_eq!(mouse_of(m.process_event(syn())), (0, 2, 0, 0));
    // nothing changed: no report
    assert!(m.process_event(syn()).is_none());
}

#[test]
fn rate_limit_spaces_motion_reports_but_not_button_changes() {
    let mut m = DeviceMonitor::new(DeviceType::Mouse, None);
    let interval = MouseRateController::hz_to_micros(100);
    assert_eq!(interval, 10_000);
    assert!(m.process_event_at(rel(REL_X, 1), interval, 1_000, ).is_none());
    // the first report always goes out
    assert_eq!(mouse_of(m.process_event_at(syn(), interval, 1_000)), (0, 1, 0, 0));
    assert!(m.process_event_at(rel(REL_X, 4), interval, 5_000).is_none());
    assert!(m.process_event_at(syn(), interval, 5_000).is_none());
    assert!(m.process_event_at(rel(REL_X, 4), interval, 10_999).is_none());
    assert!(m.process_event_at(syn(), interval, 10_999).is_none());
    assert_eq!(mouse_of(m.process_event_at(syn(), interval, 11_000)), (0, 8, 0, 0));
    // a button change goes out at once
    assert!(m.process_event_at(key(BTN_LEFT, 1), interval, 11_001).is_none());
    assert_eq!(mouse_of(m.process_event_at(syn(), interval, 11_001)), (1, 0, 0, 0));
    assert!(m.process_event_at(key(BTN_LEFT, 0), interval, 11_002).is_none());
    assert_eq!(mouse_of(m.process_event_at(syn(), interval, 11_002)), (0, 0, 0, 0));
}

#[test]
fn mouse_buttons_wheel_and_horizontal_wheel() {
    let mut m = DeviceMonitor::new(DeviceType::Mouse, None);
    m.process_event_at(key(BTN_RIGHT, 1), 0, 0);
    m.process_event_at(key(0x112, 1), 0, 0);
    m.process_event_at(rel(REL_WHEEL, -1), 0, 0);
    m.process_event_at(rel(REL_HWHEEL, 7), 0, 0);
    assert_eq!(mouse_of(m.process_event_at(syn(), 0, 0)), (0x06, 0, 0, -1));
    // a horizontal wheel alone changes nothing
    m.process_event_at(rel(REL_HWHEEL, 7), 0, 0);
    assert!(m.process_event_at(syn(), 0, 0).is_none());
    // an unknown button is ignored
    m.process_event_at(key(0x115, 1), 0, 0);
    assert!(m.process_event_at(syn(), 0, 0).is_none());
}

#[test]
fn large_motion_saturates_and_clamps() {
    let mut m = DeviceMonitor::new(DeviceType::Mouse, None);
    m.process_event_at(rel(REL_X, i32::MAX), 0, 0);
    m.process_event_at(rel(REL_X, 10), 0, 0);
    m.process_event_at(rel(REL_Y, -40_000), 0, 0);
    m.process_event_at(rel(REL_WHEEL, 300), 0, 0);
    assert_eq!(m.mouse_state.x_delta, i32::MAX);
    assert_eq!(mouse_of(m.process_event_at(syn(), 0, 0)), (0, i16::MAX, i16::MIN, i8::MAX));
    assert_eq!(m.mouse_state.x_delta, 0);
}

#[test]
fn devices_are_classified_by_their_keys() {
    assert_eq!(detect_device_type(&vec![KEY_A, KEY_LEFTCTRL, KEY_Z]), Some(DeviceType::Keyboard));
    assert_eq!(detect_device_type(&vec![BTN_LEFT, BTN_RIGHT]), Some(DeviceType::Mouse));
    assert_eq!(detect_device_type(&vec![KEY_A, BTN_LEFT, BTN_RIGHT]), Some(DeviceType::Mouse));
    assert_eq!(detect_device_type(&vec![KEY_A, KEY_Z, BTN_LEFT, BTN_RIGHT]), Some(DeviceType::Keyboard));
    assert_eq!(detect_device_type(&vec![KEY_A]), None);
    assert_eq!(detect_device_type(&vec![]), None);
}

#[test]
fn led_state_becomes_five_led_events() {
    let s = LedState { num_lock: true, caps_lock: false, scroll_lock: true, compose: false, kana: true };
    let evs = led_events(&s);
    let got: Vec<(u16, u16, i32)> = evs.iter().map(|e| (e.kind, e.code, e.value)).collect();
    assert_eq!(got, vec![(EV_LED, 0, 1), (EV_LED, 1, 0), (EV_LED, 2, 1), (EV_LED, 3, 0), (EV_LED, 4, 1)]);
}
