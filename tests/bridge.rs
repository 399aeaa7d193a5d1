use bridge_hid::discovery::{is_event_node, DeviceRegistry};
use bridge_hid::event::{RawEvent, EV_KEY, KEY_F12, KEY_LEFTALT, KEY_LEFTCTRL};
use bridge_hid::keycodes::{char_to_keycode, KEY_0, KEY_A, KEY_ENTER, KEY_SPACE, KEY_TAB};
use bridge_hid::led::LedHandle;
use bridge_hid::monitor::DeviceMonitor;
use bridge_hid::rate::MouseRateController;
use bridge_hid::report::{DeviceType, InputReport, KeyboardModifiers, LedState, MouseButtons};
use bridge_hid::switcher::{
    is_switch_combo, Core, LedSync, OutputMode, Target, BLE_MOUSE_RATE_HZ, USB_MOUSE_RATE_HZ,
};
use bridge_hid::touch::decode_touch_message;
use bridge_hid::wire::{
    ble_mouse_report, boot_keyboard_report, bt_keyboard_report, bt_mouse_report,
    hidg_device_numbers, usb_mouse_report,
};

fn kb(modifiers: u8, keys: Vec<u8>) -> InputReport {
    InputReport::Keyboard { modifiers, keys }
}

fn chord() -> InputReport {
    kb(0x05, vec![0x45])
}

fn is_zero_kb(r: &InputReport) -> bool {
    matches!(r, InputReport::Keyboard { modifiers: 0, keys } if keys.is_empty())
}

fn is_zero_mouse(r: &InputReport) -> bool {
    matches!(r, InputReport::Mouse { buttons: 0, x: 0, y: 0, wheel: 0 })
}

#[test]
fn rate_controller_converts_and_shares() {
    let c = MouseRateController::new(500);
    assert_eq!(c.get_rate(), 500);
    assert_eq!(c.get_interval(), 2_000);
    assert!(c.is_enabled());
    let shared = c.clone();
    shared.set_rate(125);
    assert_eq!(c.get_rate(), 125);
    assert_eq!(c.get_interval(), 8_000);
    c.set_rate(0);
    assert_eq!(shared.get_rate(), 0);
    assert!(!shared.is_enabled());
    assert_eq!(MouseRateController::hz_to_micros(3), 333_333);
    assert_eq!(MouseRateController::micros_to_hz(333_333), 3);
    assert_eq!(MouseRateController::hz_to_micros(2_000_000), 0);
    assert_eq!(MouseRateController::default().get_rate(), 0);
}

#[test]
fn chord_is_either_ctrl_either_alt_and_f12() {
    assert!(is_switch_combo(0x01 | 0x04, &vec![0x45]));
    assert!(is_switch_combo(0x10 | 0x40, &vec![0x04, 0x45]));
    assert!(is_switch_combo(0x01 | 0x40, &vec![0x45]));
    assert!(!is_switch_combo(0x01, &vec![0x45]));
    assert!(!is_switch_combo(0x04, &vec![0x45]));
    assert!(!is_switch_combo(0x05, &vec![0x44]));
    assert!(!is_switch_combo(0x05, &vec![]));
}

#[test]
fn held_chord_fires_once() {
    let mut core = Core::new();
    assert!(core.handle_report(chord()).switched);
    assert!(!core.handle_report(chord()).switched);
    assert!(!core.handle_report(InputReport::Mouse { buttons: 0, x: 1, y: 0, wheel: 0 }).switched);
    assert!(!core.handle_report(kb(0x05, vec![0x45, 0x04])).switched);
    assert_eq!(core.mode, OutputMode::Ble);
}

#[test]
fn press_release_press_fires_twice() {
    let mut core = Core::new();
    assert!(core.handle_report(chord()).switched);
    assert!(!core.handle_report(kb(0x05, vec![])).switched);
    assert!(core.handle_report(chord()).switched);
    assert_eq!(core.mode, OutputMode::Usb);
}

#[test]
fn switch_releases_all_four_senders() {
    let mut core = Core::new();
    let step = core.handle_report(chord());
    assert!(step.switched);
    assert_eq!(step.mouse_rate, Some(BLE_MOUSE_RATE_HZ));
    assert_eq!(step.sends.len(), 8);
    for t in [Target::UsbKeyboard, Target::UsbMouse, Target::BleKeyboard, Target::BleMouse] {
        let kbs = step.sends.iter().filter(|(d, r)| *d == t && is_zero_kb(r)).count();
        let mice = step.sends.iter().filter(|(d, r)| *d == t && is_zero_mouse(r)).count();
        assert_eq!((kbs, mice), (1, 1));
    }
    // the next real report goes to the new transport
    let next = core.handle_report(kb(0, vec![0x04]));
    assert_eq!(next.sends.len(), 1);
    assert_eq!(next.sends[0].0, Target::BleKeyboard);
    let back = core.handle_report(InputReport::Mouse { buttons: 1, x: 0, y: 0, wheel: 0 });
    assert_eq!(back.sends[0].0, Target::BleMouse);
}

#[test]
fn reports_route_by_kind_and_mode() {
    let mut core = Core::new();
    let s = core.handle_report(kb(0x02, vec![0x04]));
    assert!(!s.switched);
    assert_eq!(s.mouse_rate, None);
    assert_eq!(s.sends[0].0, Target::UsbKeyboard);
    match &s.sends[0].1 {
        InputReport::Keyboard { modifiers, keys } => {
            assert_eq!(*modifiers, 0x02);
            assert_eq!(keys, &vec![0x04]);
        }
        _ => panic!("keyboard report expected"),
    }
    let m = core.handle_report(InputReport::Mouse { buttons: 0, x: 3, y: 0, wheel: 0 });
    assert_eq!(m.sends[0].0, Target::UsbMouse);
    assert_eq!(core.mouse_rate(), USB_MOUSE_RATE_HZ);
}

#[test]
fn chord_from_device_switches_to_ble_and_lowers_mouse_rate() {
    let rate = MouseRateController::new(USB_MOUSE_RATE_HZ);
    let mut dev = DeviceMonitor::new(DeviceType::Keyboard, None);
    let mut core = Core::new();
    let mut steps = Vec::new();
    for code in [KEY_LEFTCTRL, KEY_LEFTALT, KEY_F12] {
        let report = dev.process_event(RawEvent::new(EV_KEY, code, 1)).unwrap();
        let step = core.handle_report(report);
        if let Some(hz) = step.mouse_rate {
            rate.set_rate(hz);
        }
        steps.push(step);
    }
    assert!(!steps[0].switched && !steps[1].switched);
    assert_eq!(steps[0].sends[0].0, Target::UsbKeyboard);
    assert!(steps[2].switched);
    assert_eq!(core.mode, OutputMode::Ble);
    assert_eq!(steps[2].sends.len(), 8);
    assert!(steps[2].sends.iter().all(|(_, r)| is_zero_kb(r) || is_zero_mouse(r)));
    assert_eq!(rate.get_rate(), BLE_MOUSE_RATE_HZ);
}

#[test]
fn registered_keyboard_first_gets_the_last_state() {
    let mut hub = LedHandle::new();
    let (tx_old, mut rx_old) = tokio::sync::mpsc::unbounded_channel();
    hub.register(tx_old);
    assert_eq!(rx_old.try_recv().unwrap(), LedState::default());
    let s1 = LedState { num_lock: true, caps_lock: false, scroll_lock: false, compose: false, kana: false };
    let s2 = LedState { num_lock: false, caps_lock: true, scroll_lock: true, compose: false, kana: false };
    hub.set_leds(&s1);
    hub.set_leds(&s2);
    assert_eq!(rx_old.try_recv().unwrap(), s1);
    assert_eq!(rx_old.try_recv().unwrap(), s2);
    let (tx_new, mut rx_new) = tokio::sync::mpsc::unbounded_channel();
    let id = hub.register(tx_new);
    assert_eq!(id, 1);
    assert_eq!(rx_new.try_recv().unwrap(), s2);
    assert!(rx_new.try_recv().is_err());
}

#[test]
fn gone_keyboards_leave_the_hub() {
    let mut hub = LedHandle::new();
    let (tx_a, rx_a) = tokio::sync::mpsc::unbounded_channel();
    let (tx_b, mut rx_b) = tokio::sync::mpsc::unbounded_channel();
    hub.register(tx_a);
    hub.register(tx_b);
    drop(rx_a);
    let s = LedState { num_lock: false, caps_lock: true, scroll_lock: false, compose: false, kana: false };
    hub.set_leds(&s);
    assert_eq!(hub.keyboard_controls.len(), 1);
    assert_eq!(hub.keyboard_controls[0].id, 1);
    assert_eq!(hub.current_led_state, s);
    rx_b.try_recv().unwrap();
    assert_eq!(rx_b.try_recv().unwrap(), s);
}

#[test]
fn led_sync_passes_on_changes_only() {
    let mut sync = LedSync::new();
    let caps = LedState::from_byte(0x02);
    assert_eq!(sync.on_led_read(None), None);
    assert_eq!(sync.on_led_read(Some(LedState::default())), None);
    assert_eq!(sync.on_led_read(Some(caps)), Some(caps));
    assert_eq!(sync.on_led_read(Some(caps)), None);
    sync.on_mode_change();
    assert_eq!(sync.current_led_state, LedState::default());
    assert_eq!(sync.on_led_read(Some(caps)), Some(caps));
}

#[test]
fn bytes_and_flags() {
    let s = LedState::from_byte(0x1F);
    assert!(s.num_lock && s.caps_lock && s.scroll_lock && s.compose && s.kana);
    let s = LedState::from_byte(0x05);
    assert_eq!(s, LedState { num_lock: true, caps_lock: false, scroll_lock: true, compose: false, kana: false });
    let m = KeyboardModifiers {
        left_ctrl: true,
        left_shift: false,
        left_alt: true,
        left_gui: false,
        right_ctrl: false,
        right_shift: true,
        right_alt: false,
        right_gui: true,
    };
    assert_eq!(m.to_byte(), 0xA5);
    assert_eq!(MouseButtons { left: true, right: false, middle: true }.to_byte(), 0x05);
    assert_eq!(MouseButtons { left: false, right: true, middle: false }.to_byte(), 0x02);
}

#[test]
fn characters_become_keycodes() {
    assert_eq!(char_to_keycode('a'), Some((KEY_A, false)));
    assert_eq!(char_to_keycode('z'), Some((0x1D, false)));
    assert_eq!(char_to_keycode('Q'), Some((0x14, true)));
    assert_eq!(char_to_keycode('1'), Some((0x1E, false)));
    assert_eq!(char_to_keycode('9'), Some((0x26, false)));
    assert_eq!(char_to_keycode('0'), Some((KEY_0, false)));
    assert_eq!(char_to_keycode(' '), Some((KEY_SPACE, false)));
    assert_eq!(char_to_keycode('\n'), Some((KEY_ENTER, false)));
    assert_eq!(char_to_keycode('\t'), Some((KEY_TAB, false)));
    assert_eq!(char_to_keycode('!'), None);
    assert_eq!(char_to_keycode('é'), None);
}

#[test]
fn transport_layouts() {
    let keys = vec![1u8, 2, 3, 4, 5, 6, 7];
    assert_eq!(boot_keyboard_report(0x11, &keys), vec![0x11, 0, 1, 2, 3, 4, 5, 6]);
    assert_eq!(boot_keyboard_report(0, &vec![0x04]), vec![0, 0, 0x04, 0, 0, 0, 0, 0]);
    assert_eq!(bt_keyboard_report(0x02, &vec![0x04, 0x05]), vec![0xA1, 0x01, 0x02, 0, 0x04, 0x05, 0, 0, 0, 0]);
    assert_eq!(usb_mouse_report(1, -1, 300, -2), vec![1, 0xFF, 0x2C, 0xFE]);
    assert_eq!(ble_mouse_report(2, 300, -300, 5), vec![2, 127, 0x81, 5]);
    assert_eq!(bt_mouse_report(4, -5, 128), vec![0xA1, 0x02, 4, 0xFB, 127]);
    assert_eq!(hidg_device_numbers((236u64 << 8) | 3), (236, 3));
    assert_eq!(hidg_device_numbers(0xFFFF_FFFF), (0xFFF, 0xFF));
}

#[test]
fn touchpad_messages() {
    let mv = decode_touch_message(&vec![0x01, 0x05, 0x00, 0xFD, 0xFF]);
    assert!(matches!(mv, Some(InputReport::Mouse { buttons: 0, x: 5, y: -3, wheel: 0 })));
    let click = decode_touch_message(&vec![0x02, 0x01, 0x01]);
    assert!(matches!(click, Some(InputReport::Mouse { buttons: 1, x: 0, y: 0, wheel: 0 })));
    let scroll = decode_touch_message(&vec![0x03, 0x00, 0x00, 0x2C, 0x01]);
    assert!(matches!(scroll, Some(InputReport::Mouse { buttons: 0, x: 0, y: 0, wheel: 127 })));
    let down = decode_touch_message(&vec![0x03, 0x00, 0x00, 0xFE, 0xFF]);
    assert!(matches!(down, Some(InputReport::Mouse { wheel: -2, .. })));
    assert!(decode_touch_message(&vec![0x01, 0x05]).is_none());
    assert!(decode_touch_message(&vec![0x04, 0x41, 0, 0, 0]).is_none());
    assert!(decode_touch_message(&vec![0x09]).is_none());
    assert!(decode_touch_message(&vec![]).is_none());
}

#[test]
fn only_event_nodes_are_opened_once() {
    assert!(is_event_node(&b"/dev/input/event3".to_vec()));
    assert!(!is_event_node(&b"/dev/input/mouse0".to_vec()));
    assert!(!is_event_node(&b"/dev/input/by-id".to_vec()));
    assert!(!is_event_node(&b"evt".to_vec()));
    let mut reg = DeviceRegistry::new();
    let p = b"/dev/input/event3".to_vec();
    assert!(reg.begin_monitoring(p.clone()));
    assert!(!reg.begin_monitoring(p.clone()));
    assert!(reg.is_active(&p));
    assert!(reg.begin_monitoring(b"/dev/input/event4".to_vec()));
    reg.end_monitoring(&p);
    assert!(!reg.is_active(&p));
    assert_eq!(reg.active.len(), 1);
    assert!(reg.begin_monitoring(p));
}
