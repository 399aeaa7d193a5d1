//! Transport-neutral report types.
use vstd::prelude::*;

verus! {

/// A translated input report, independent of the transport that carries it.
#[derive(Debug, Clone)]
pub enum InputReport {
    /// Currently held modifiers and non-modifier keys, in the order pressed.
    Keyboard { modifiers: u8, keys: Vec<u8> },
    /// Button mask and the motion gathered since the previous report.
    Mouse { buttons: u8, x: i16, y: i16, wheel: i8 },
}

/// The kind of a captured device; fixed for the device's lifetime.
#[derive(Debug, Clone, Copy, PartialEq, Eq, Structural)]
pub enum DeviceType {
    Keyboard,
    Mouse,
}

/// The five keyboard indicator LEDs.
#[derive(Debug, Clone, Copy, PartialEq, Eq, Structural)]
pub struct LedState {
    pub num_lock: bool,
    pub caps_lock: bool,
    pub scroll_lock: bool,
    pub compose: bool,
    pub kana: bool,
}

/// Every LED off.
pub open spec fn leds_off() -> LedState {
    LedState { num_lock: false, caps_lock: false, scroll_lock: false, compose: false, kana: false }
}

impl Default for LedState {
    fn default() -> (r: Self)
        ensures
            r == leds_off(),
    {
        LedState { num_lock: false, caps_lock: false, scroll_lock: false, compose: false, kana: false }
    }
}

impl LedState {
    /// Decodes a HID LED output byte: bit 0 Num Lock up to bit 4 Kana.
    pub fn from_byte(byte: u8) -> (r: Self)
        ensures
            r.num_lock == (byte & 0x01 != 0),
            r.caps_lock == (byte & 0x02 != 0),
            r.scroll_lock == (byte & 0x04 != 0),
            r.compose == (byte & 0x08 != 0),
            r.kana == (byte & 0x10 != 0),
    {
        LedState {
            num_lock: (byte & 0x01) != 0,
            caps_lock: (byte & 0x02) != 0,
            scroll_lock: (byte & 0x04) != 0,
            compose: (byte & 0x08) != 0,
            kana: (byte & 0x10) != 0,
        }
    }
}

/// Bit `i` of a byte, as a flag.
pub open spec fn bit_set(b: u8, i: u8) -> bool {
    (b >> i) & 1 == 1
}

/// Bit `i` of `b` is `flag` for every flag, `b` has no other bits.
pub open spec fn bits_are(b: u8, flags: Seq<bool>) -> bool {
    flags.len() <= 8 && forall|i: int|
        0 <= i < 8 ==> #[trigger] bit_set(b, i as u8) == (i < flags.len() && flags[i])
}

/// The byte whose bit `i` is `f_i`.
proof fn lemma_flags_byte(f: Seq<bool>, b: u8)
    requires
        f.len() == 8,
        b == (if f[0] { 0x01u8 } else { 0 }) | (if f[1] { 0x02u8 } else { 0 }) | (if f[2] {
            0x04u8
        } else {
            0
        }) | (if f[3] { 0x08u8 } else { 0 }) | (if f[4] { 0x10u8 } else { 0 }) | (if f[5] {
            0x20u8
        } else {
            0
        }) | (if f[6] { 0x40u8 } else { 0 }) | (if f[7] { 0x80u8 } else { 0 }),
    ensures
        bits_are(b, f),
{
    let b0: u8 = if f[0] { 0x01u8 } else { 0 };
    let b1: u8 = if f[1] { 0x02u8 } else { 0 };
    let b2: u8 = if f[2] { 0x04u8 } else { 0 };
    let b3: u8 = if f[3] { 0x08u8 } else { 0 };
    let b4: u8 = if f[4] { 0x10u8 } else { 0 };
    let b5: u8 = if f[5] { 0x20u8 } else { 0 };
    let b6: u8 = if f[6] { 0x40u8 } else { 0 };
    let b7: u8 = if f[7] { 0x80u8 } else { 0 };
    assert(b == b0 | b1 | b2 | b3 | b4 | b5 | b6 | b7);
    assert(((b0 == 0 || b0 == 0x01) && (b1 == 0 || b1 == 0x02) && (b2 == 0 || b2 == 0x04) && (
    b3 == 0 || b3 == 0x08) && (b4 == 0 || b4 == 0x10) && (b5 == 0 || b5 == 0x20) && (b6 == 0
        || b6 == 0x40) && (b7 == 0 || b7 == 0x80) && b == b0 | b1 | b2 | b3 | b4 | b5 | b6 | b7)
        ==> ((b >> 0u8) & 1 == 1) == (b0 != 0) && ((b >> 1u8) & 1 == 1) == (b1 != 0) && ((b
        >> 2u8) & 1 == 1) == (b2 != 0) && ((b >> 3u8) & 1 == 1) == (b3 != 0) && ((b >> 4u8) & 1
        == 1) == (b4 != 0) && ((b >> 5u8) & 1 == 1) == (b5 != 0) && ((b >> 6u8) & 1 == 1) == (
    b6 != 0) && ((b >> 7u8) & 1 == 1) == (b7 != 0)) by (bit_vector);
    assert forall|i: int| 0 <= i < 8 implies #[trigger] bit_set(b, i as u8) == (i < f.len()
        && f[i]) by {
        if i == 0 {
        } else if i == 1 {
        } else if i == 2 {
        } else if i == 3 {
        } else if i == 4 {
        } else if i == 5 {
        } else if i == 6 {
        } else {
        }
    }
}

/// Keyboard modifier flags in HID order.
#[derive(Debug, Clone, Copy)]
pub struct KeyboardModifiers {
    pub left_ctrl: bool,
    pub left_shift: bool,
    pub left_alt: bool,
    pub left_gui: bool,
    pub right_ctrl: bool,
    pub right_shift: bool,
    pub right_alt: bool,
    pub right_gui: bool,
}

impl KeyboardModifiers {
    /// The flags in HID bit order, left Ctrl first.
    pub open spec fn flags(self) -> Seq<bool> {
        seq![
            self.left_ctrl,
            self.left_shift,
            self.left_alt,
            self.left_gui,
            self.right_ctrl,
            self.right_shift,
            self.right_alt,
            self.right_gui,
        ]
    }

    /// The HID modifier byte: bit `i` set exactly when the `i`-th flag is.
    pub fn to_byte(&self) -> (r: u8)
        ensures
            bits_are(r, self.flags()),
    {
        let byte: u8 = (if self.left_ctrl { 0x01u8 } else { 0 }) | (if self.left_shift {
            0x02u8
        } else {
            0
        }) | (if self.left_alt { 0x04u8 } else { 0 }) | (if self.left_gui { 0x08u8 } else { 0 })
            | (if self.right_ctrl { 0x10u8 } else { 0 }) | (if self.right_shift { 0x20u8 } else {
            0
        }) | (if self.right_alt { 0x40u8 } else { 0 }) | (if self.right_gui { 0x80u8 } else { 0 });
        proof {
            lemma_flags_byte(self.flags(), byte);
        }
        byte
    }
}

/// Mouse button flags.
#[derive(Debug, Clone, Copy)]
pub struct MouseButtons {
    pub left: bool,
    pub right: bool,
    pub middle: bool,
}

impl MouseButtons {
    /// The flags in HID bit order, left first.
    pub open spec fn flags(self) -> Seq<bool> {
        seq![self.left, self.right, self.middle]
    }

    /// The HID button byte: bit 0 left, bit 1 right, bit 2 middle.
    pub fn to_byte(&self) -> (r: u8)
        ensures
            bits_are(r, self.flags()),
    {
        let byte: u8 = (if self.left { 0x01u8 } else { 0 }) | (if self.right { 0x02u8 } else { 0 })
            | (if self.middle { 0x04u8 } else { 0 });
        proof {
            let f = seq![self.left, self.right, self.middle, false, false, false, false, false];
            assert(byte == (if f[0] { 0x01u8 } else { 0 }) | (if f[1] { 0x02u8 } else { 0 }) | (
            if f[2] {
                0x04u8
            } else {
                0
            }) | (if f[3] { 0x08u8 } else { 0 }) | (if f[4] { 0x10u8 } else { 0 }) | (if f[5] {
                0x20u8
            } else {
                0
            }) | (if f[6] { 0x40u8 } else { 0 }) | (if f[7] { 0x80u8 } else { 0 })) by {
                let b = (if f[0] { 0x01u8 } else { 0 }) | (if f[1] { 0x02u8 } else { 0 }) | (if f[2] {
                    0x04u8
                } else {
                    0
                });
                assert(b | 0u8 | 0u8 | 0u8 | 0u8 | 0u8 == b) by (bit_vector);
            }
            lemma_flags_byte(f, byte);
            assert forall|i: int| 0 <= i < 8 implies #[trigger] bit_set(byte, i as u8) == (i
                < self.flags().len() && self.flags()[i]) by {
                assert(bit_set(byte, i as u8) == (i < f.len() && f[i]));
            }
        }
        byte
    }
}

} // verus!
