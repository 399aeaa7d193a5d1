//! Raw device events as plain values, and the Linux input codes the bridge reads.
use vstd::prelude::*;

verus! {

/// Synchronization event type: closes one batch of device changes.
pub const EV_SYN: u16 = 0x00;
/// Key or button event type.
pub const EV_KEY: u16 = 0x01;
/// Relative axis event type.
pub const EV_REL: u16 = 0x02;
/// LED event type.
pub const EV_LED: u16 = 0x11;

pub const KEY_LEFTCTRL: u16 = 29;
pub const KEY_LEFTSHIFT: u16 = 42;
pub const KEY_LEFTALT: u16 = 56;
pub const KEY_LEFTMETA: u16 = 125;
pub const KEY_RIGHTCTRL: u16 = 97;
pub const KEY_RIGHTSHIFT: u16 = 54;
pub const KEY_RIGHTALT: u16 = 100;
pub const KEY_RIGHTMETA: u16 = 126;
pub const KEY_A: u16 = 30;
pub const KEY_Z: u16 = 44;
pub const KEY_F12: u16 = 88;

pub const BTN_LEFT: u16 = 0x110;
pub const BTN_RIGHT: u16 = 0x111;
pub const BTN_MIDDLE: u16 = 0x112;
pub const BTN_SIDE: u16 = 0x113;
pub const BTN_EXTRA: u16 = 0x114;

pub const REL_X: u16 = 0x00;
pub const REL_Y: u16 = 0x01;
pub const REL_HWHEEL: u16 = 0x06;
pub const REL_WHEEL: u16 = 0x08;

pub const LED_NUML: u16 = 0x00;
pub const LED_CAPSL: u16 = 0x01;
pub const LED_SCROLLL: u16 = 0x02;
pub const LED_COMPOSE: u16 = 0x03;
pub const LED_KANA: u16 = 0x04;

/// One event as a device delivers it: type, code and value.
#[derive(Debug, Clone, Copy, PartialEq, Eq, Structural)]
pub struct RawEvent {
    pub kind: u16,
    pub code: u16,
    pub value: i32,
}

impl RawEvent {
    pub fn new(kind: u16, code: u16, value: i32) -> (r: Self)
        ensures
            r == (RawEvent { kind, code, value }),
    {
        RawEvent { kind, code, value }
    }
}

} // verus!
