//! One monitor per captured device: classification and event translation.
use vstd::prelude::*;
use std::time::Instant;
use crate::event::{
    RawEvent, BTN_LEFT, BTN_RIGHT, EV_KEY, EV_LED, EV_REL, EV_SYN, KEY_A, KEY_Z, LED_CAPSL, LED_COMPOSE,
    LED_KANA, LED_NUML, LED_SCROLLL, REL_WHEEL, REL_X, REL_Y,
};
use crate::keyboard::{key_event_step, KeyboardState};
use crate::mouse::{clamp_i16, clamp_i8, sat_add, send_due, MouseState};
use crate::rate::{interval_for, MouseRateController};
use crate::report::{DeviceType, InputReport, LedState};

verus! {

#[verifier::external_type_specification]
#[verifier::external_body]
pub struct ExInstant(std::time::Instant);

/// Relies on `std::time::Instant::now`: a reading of the monotonic clock.
#[verifier::external_body]
fn clock_now() -> Instant {
    Instant::now()
}

/// Relies on `std::time::Instant::elapsed`: the microseconds passed since `origin`.
#[verifier::external_body]
fn micros_since(origin: &Instant) -> u64 {
    origin.elapsed().as_micros() as u64
}

/// A keyboard can type A and Z; a mouse has left and right buttons.
pub open spec fn device_type_of(keys: Seq<u16>) -> Option<DeviceType> {
    if keys.contains(KEY_A) && keys.contains(KEY_Z) {
        Some(DeviceType::Keyboard)
    } else if keys.contains(BTN_LEFT) && keys.contains(BTN_RIGHT) {
        Some(DeviceType::Mouse)
    } else {
        None
    }
}

fn has_code(keys: &Vec<u16>, code: u16) -> (r: bool)
    ensures
        r == keys@.contains(code),
{
    let mut i: usize = 0;
    while i < keys.len()
        invariant
            0 <= i <= keys@.len(),
            forall|j: int| 0 <= j < i ==> keys@[j] != code,
        decreases keys@.len() - i,
    {
        if keys[i] == code {
            assert(keys@[i as int] == code);
            return true;
        }
        i = i + 1;
    }
    false
}

/// Classifies a device by the key codes it reports; `None` means it is ignored.
pub fn detect_device_type(supported_keys: &Vec<u16>) -> (r: Option<DeviceType>)
    ensures
        r == device_type_of(supported_keys@),
{
    if has_code(supported_keys, KEY_A) && has_code(supported_keys, KEY_Z) {
        Some(DeviceType::Keyboard)
    } else if has_code(supported_keys, BTN_LEFT) && has_code(supported_keys, BTN_RIGHT) {
        Some(DeviceType::Mouse)
    } else {
        None
    }
}

/// The button bit of a mouse button code: left, right, middle, side, extra.
pub open spec fn button_mask(code: u16) -> Option<u8> {
    match code {
        0x110 => Some(0x01u8),
        0x111 => Some(0x02u8),
        0x112 => Some(0x04u8),
        0x113 => Some(0x08u8),
        0x114 => Some(0x10u8),
        _ => None,
    }
}

fn button_mask_of(code: u16) -> (r: Option<u8>)
    ensures
        r == button_mask(code),
{
    match code {
        0x110 => Some(0x01u8),
        0x111 => Some(0x02u8),
        0x112 => Some(0x04u8),
        0x113 => Some(0x08u8),
        0x114 => Some(0x10u8),
        _ => None,
    }
}

/// What a keyboard event does: a translated key event changes the state to
/// its step and yields a full report of it; anything else changes nothing.
pub open spec fn keyboard_event_post(
    modifiers: u8,
    keys: Seq<u8>,
    ev: RawEvent,
    new_modifiers: u8,
    new_keys: Seq<u8>,
    r: Option<InputReport>,
) -> bool {
    let step = if ev.kind == EV_KEY {
        key_event_step(modifiers, keys, ev.code, ev.value)
    } else {
        None
    };
    match step {
        Some(next) => new_modifiers == next.0 && new_keys == next.1 && (r matches Some(
            InputReport::Keyboard { modifiers: m, keys: k },
        ) && m == next.0 && k@ == next.1),
        None => new_modifiers == modifiers && new_keys == keys && r is None,
    }
}

/// What a mouse event does to state `s` at time `now`, with report interval
/// `interval`: buttons and motion gather; a synchronization emits a report of
/// them when something changed and the rate gate allows it.
pub open spec fn mouse_event_post(
    s: MouseState,
    ev: RawEvent,
    interval: u32,
    now: u64,
    t: MouseState,
    r: Option<InputReport>,
) -> bool {
    if ev.kind == EV_KEY && button_mask(ev.code) is Some {
        let b = button_mask(ev.code)->0;
        r is None && t == (MouseState {
            buttons: if ev.value == 1 { s.buttons | b } else { s.buttons & !b },
            dirty: true,
            button_changed: true,
            ..s
        })
    } else if ev.kind == EV_REL && ev.code == REL_X {
        r is None && t == (MouseState { x_delta: sat_add(s.x_delta, ev.value), dirty: true, ..s })
    } else if ev.kind == EV_REL && ev.code == REL_Y {
        r is None && t == (MouseState { y_delta: sat_add(s.y_delta, ev.value), dirty: true, ..s })
    } else if ev.kind == EV_REL && ev.code == REL_WHEEL {
        r is None && t == (MouseState {
            wheel_delta: sat_add(s.wheel_delta, ev.value),
            dirty: true,
            ..s
        })
    } else if ev.kind == EV_SYN && s.dirty && send_due(
        s.button_changed,
        interval,
        s.last_report_time,
        now,
    ) {
        r == Some(
            InputReport::Mouse {
                buttons: s.buttons,
                x: clamp_i16(s.x_delta),
                y: clamp_i16(s.y_delta),
                wheel: clamp_i8(s.wheel_delta),
            },
        ) && t == (MouseState {
            x_delta: 0,
            y_delta: 0,
            wheel_delta: 0,
            dirty: false,
            button_changed: false,
            last_report_time: Some(now),
            ..s
        })
    } else {
        r is None && t == s
    }
}

/// A monitor's translation state for one device.
pub struct DeviceMonitor {
    pub device_type: DeviceType,
    pub keyboard_state: KeyboardState,
    pub mouse_state: MouseState,
    /// The origin of the times that the mouse gate compares.
    pub clock: Instant,
}

impl DeviceMonitor {
    pub open spec fn wf(&self) -> bool {
        self.keyboard_state.wf() && self.mouse_state.wf()
    }

    /// A monitor with nothing held; a mouse reads its rate from `rate_controller`
    /// (unlimited when there is none).
    pub fn new(device_type: DeviceType, rate_controller: Option<MouseRateController>) -> (r: Self)
        ensures
            r.wf(),
            r.device_type == device_type,
            r.keyboard_state.modifiers == 0,
            r.keyboard_state.pressed_keys@ == Seq::<u8>::empty(),
            r.mouse_state.buttons == 0,
            !r.mouse_state.dirty,
            r.mouse_state.last_report_time is None,
            rate_controller is Some ==> r.mouse_state.rate_controller == rate_controller->0,
    {
        let controller = match rate_controller {
            Some(c) => c,
            None => MouseRateController::default(),
        };
        DeviceMonitor {
            device_type,
            keyboard_state: KeyboardState::new(),
            mouse_state: MouseState::new(controller),
            clock: clock_now(),
        }
    }

    /// Translates one keyboard event.
    pub fn process_keyboard_event(&mut self, ev: RawEvent) -> (r: Option<InputReport>)
        requires
            old(self).keyboard_state.wf(),
        ensures
            final(self).keyboard_state.wf(),
            keyboard_event_post(
                old(self).keyboard_state.modifiers,
                old(self).keyboard_state.pressed_keys@,
                ev,
                final(self).keyboard_state.modifiers,
                final(self).keyboard_state.pressed_keys@,
                r,
            ),
            final(self).device_type == old(self).device_type,
            final(self).mouse_state == old(self).mouse_state,
    {
        if ev.kind == EV_KEY {
            if self.keyboard_state.apply_key(ev.code, ev.value) {
                return Some(self.keyboard_state.report());
            }
        }
        None
    }

    /// Translates one mouse event at time `now`, under report interval
    /// `interval_micros` (0: unlimited).
    pub fn process_mouse_event(&mut self, ev: RawEvent, interval_micros: u32, now: u64) -> (r:
        Option<InputReport>)
        requires
            old(self).mouse_state.wf(),
        ensures
            final(self).mouse_state.wf(),
            mouse_event_post(old(self).mouse_state, ev, interval_micros, now, final(self).mouse_state, r),
            final(self).device_type == old(self).device_type,
            final(self).keyboard_state == old(self).keyboard_state,
    {
        if ev.kind == EV_KEY {
            match button_mask_of(ev.code) {
                Some(b) => {
                    if ev.value == 1 {
                        self.mouse_state.buttons = self.mouse_state.buttons | b;
                    } else {
                        self.mouse_state.buttons = self.mouse_state.buttons & !b;
                    }
                    self.mouse_state.dirty = true;
                    self.mouse_state.button_changed = true;
                },
                None => {},
            }
            None
        } else if ev.kind == EV_REL {
            if ev.code == REL_X {
                self.mouse_state.accumulate_x(ev.value);
            } else if ev.code == REL_Y {
                self.mouse_state.accumulate_y(ev.value);
            } else if ev.code == REL_WHEEL {
                self.mouse_state.accumulate_wheel(ev.value);
            }
            None
        } else if ev.kind == EV_SYN {
            if self.mouse_state.dirty && self.mouse_state.should_send_report(interval_micros, now) {
                Some(self.mouse_state.build_report(now))
            } else {
                None
            }
        } else {
            None
        }
    }

    /// Translates one event at time `now` under report interval `interval_micros`.
    pub fn process_event_at(&mut self, ev: RawEvent, interval_micros: u32, now: u64) -> (r:
        Option<InputReport>)
        requires
            old(self).wf(),
        ensures
            final(self).wf(),
            final(self).device_type == old(self).device_type,
            old(self).device_type == DeviceType::Keyboard ==> keyboard_event_post(
                old(self).keyboard_state.modifiers,
                old(self).keyboard_state.pressed_keys@,
                ev,
                final(self).keyboard_state.modifiers,
                final(self).keyboard_state.pressed_keys@,
                r,
            ) && final(self).mouse_state == old(self).mouse_state,
            old(self).device_type == DeviceType::Mouse ==> mouse_event_post(
                old(self).mouse_state,
                ev,
                interval_micros,
                now,
                final(self).mouse_state,
                r,
            ) && final(self).keyboard_state == old(self).keyboard_state,
    {
        match self.device_type {
            DeviceType::Keyboard => self.process_keyboard_event(ev),
            DeviceType::Mouse => self.process_mouse_event(ev, interval_micros, now),
        }
    }

    /// Translates one event; a mouse reads the shared report interval and the
    /// monitor's clock, whose values are whatever they are at the call.
    pub fn process_event(&mut self, ev: RawEvent) -> (r: Option<InputReport>)
        requires
            old(self).wf(),
        ensures
            final(self).wf(),
            final(self).device_type == old(self).device_type,
            old(self).device_type == DeviceType::Keyboard ==> keyboard_event_post(
                old(self).keyboard_state.modifiers,
                old(self).keyboard_state.pressed_keys@,
                ev,
                final(self).keyboard_state.modifiers,
                final(self).keyboard_state.pressed_keys@,
                r,
            ) && final(self).mouse_state == old(self).mouse_state,
            old(self).device_type == DeviceType::Mouse ==> exists|interval: u32, now: u64|
                mouse_event_post(
                    old(self).mouse_state,
                    ev,
                    interval,
                    now,
                    final(self).mouse_state,
                    r,
                ) && final(self).keyboard_state == old(self).keyboard_state,
    {
        match self.device_type {
            DeviceType::Keyboard => self.process_keyboard_event(ev),
            DeviceType::Mouse => {
                let interval = self.mouse_state.rate_controller.get_interval();
                let now = micros_since(&self.clock);
                self.process_mouse_event(ev, interval, now)
            },
        }
    }
}

/// The LED events that put `state` on a keyboard: Num, Caps and Scroll Lock,
/// Compose and Kana, each 1 when lit and 0 when not.
pub fn led_events(state: &LedState) -> (r: Vec<RawEvent>)
    ensures
        r@ == seq![
            RawEvent { kind: EV_LED, code: LED_NUML, value: if state.num_lock { 1i32 } else { 0 } },
            RawEvent { kind: EV_LED, code: LED_CAPSL, value: if state.caps_lock { 1i32 } else { 0 } },
            RawEvent {
                kind: EV_LED,
                code: LED_SCROLLL,
                value: if state.scroll_lock { 1i32 } else { 0 },
            },
            RawEvent { kind: EV_LED, code: LED_COMPOSE, value: if state.compose { 1i32 } else { 0 } },
            RawEvent { kind: EV_LED, code: LED_KANA, value: if state.kana { 1i32 } else { 0 } },
        ],
{
    let mut r: Vec<RawEvent> = Vec::new();
    r.push(RawEvent::new(EV_LED, LED_NUML, if state.num_lock { 1 } else { 0 }));
    r.push(RawEvent::new(EV_LED, LED_CAPSL, if state.caps_lock { 1 } else { 0 }));
    r.push(RawEvent::new(EV_LED, LED_SCROLLL, if state.scroll_lock { 1 } else { 0 }));
    r.push(RawEvent::new(EV_LED, LED_COMPOSE, if state.compose { 1 } else { 0 }));
    r.push(RawEvent::new(EV_LED, LED_KANA, if state.kana { 1 } else { 0 }));
    r
}

/// With rate limiting off, a synchronization emits exactly one report when
/// something changed since the last one, and none otherwise.
pub proof fn lemma_unlimited_sync_emits_when_dirty(
    s: MouseState,
    ev: RawEvent,
    now: u64,
    t: MouseState,
    r: Option<InputReport>,
)
    requires
        ev.kind == EV_SYN,
        mouse_event_post(s, ev, 0, now, t, r),
    ensures
        r is Some <==> s.dirty,
{
}

/// With a rate of `rate_hz` that divides a second, a report not forced by a
/// button change goes out at least 1/`rate_hz` seconds after the previous one.
pub proof fn lemma_rate_limited_spacing(
    s: MouseState,
    ev: RawEvent,
    rate_hz: u32,
    now: u64,
    t: MouseState,
    r: Option<InputReport>,
)
    requires
        rate_hz > 0,
        1_000_000int % (rate_hz as int) == 0,
        mouse_event_post(s, ev, interval_for(rate_hz), now, t, r),
        !s.button_changed,
        s.last_report_time is Some,
        r is Some,
    ensures
        now >= s.last_report_time->0,
        (now - s.last_report_time->0) * rate_hz >= 1_000_000,
{
    let q = 1_000_000int / rate_hz as int;
    assert(q * rate_hz == 1_000_000) by (nonlinear_arith)
        requires
            1_000_000int % (rate_hz as int) == 0,
            q == 1_000_000int / rate_hz as int,
            rate_hz > 0,
    ;
    assert(q >= 1) by (nonlinear_arith)
        requires
            q * rate_hz == 1_000_000,
            rate_hz > 0,
    ;
    assert(interval_for(rate_hz) == q);
    assert(ev.kind == EV_SYN);
    let e = now - s.last_report_time->0;
    assert(e * rate_hz >= q * rate_hz) by (nonlinear_arith)
        requires
            e >= q,
            rate_hz > 0,
    ;
}

/// A synchronization after a button change always emits, whatever the rate and
/// however little time has passed.
pub proof fn lemma_button_change_not_delayed(
    s: MouseState,
    ev: RawEvent,
    interval: u32,
    now: u64,
    t: MouseState,
    r: Option<InputReport>,
)
    requires
        s.wf(),
        ev.kind == EV_SYN,
        s.button_changed,
        mouse_event_post(s, ev, interval, now, t, r),
    ensures
        r is Some,
{
}

} // verus!
