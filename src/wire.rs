//! Byte layouts of the reports each transport sends.
use vstd::prelude::*;

verus! {

/// Report header of classic Bluetooth HID: a DATA transaction on the input channel.
pub const BT_INPUT_HEADER: u8 = 0xA1;
/// Classic Bluetooth report ID of the keyboard.
pub const BT_KEYBOARD_ID: u8 = 0x01;
/// Classic Bluetooth report ID of the mouse.
pub const BT_MOUSE_ID: u8 = 0x02;

/// The `i`-th key slot of a boot keyboard report: the `i`-th held key, or 0.
pub open spec fn key_slot(keys: Seq<u8>, i: int) -> u8 {
    if i < keys.len() {
        keys[i]
    } else {
        0
    }
}

/// `v` held within -127..=127, the range of the mouse axes in the descriptors.
pub open spec fn clamp_axis(v: i16) -> i8 {
    if v > 127 {
        127i8
    } else if v < -127 {
        -127i8
    } else {
        v as i8
    }
}

/// Whether `r` is the boot keyboard layout: modifiers, a reserved zero, then
/// the first six held keys, zero-padded.
pub open spec fn is_boot_keyboard(r: Seq<u8>, modifiers: u8, keys: Seq<u8>) -> bool {
    &&& r.len() == 8
    &&& r[0] == modifiers
    &&& r[1] == 0
    &&& forall|i: int| 0 <= i < 6 ==> #[trigger] r[2 + i] == key_slot(keys, i)
}

fn clamp_to_axis(v: i16) -> (r: i8)
    ensures
        r == clamp_axis(v),
{
    if v > 127 {
        127
    } else if v < -127 {
        -127
    } else {
        v as i8
    }
}

/// The 8-byte boot keyboard report, as the USB gadget and the BLE service send it.
pub fn boot_keyboard_report(modifiers: u8, keys: &Vec<u8>) -> (r: Vec<u8>)
    ensures
        is_boot_keyboard(r@, modifiers, keys@),
{
    let mut r: Vec<u8> = Vec::new();
    r.push(modifiers);
    r.push(0);
    let mut i: usize = 0;
    while i < 6
        invariant
            0 <= i <= 6,
            r@.len() == 2 + i,
            r@[0] == modifiers,
            r@[1] == 0,
            forall|j: int| 0 <= j < i ==> #[trigger] r@[2 + j] == key_slot(keys@, j),
        decreases 6 - i,
    {
        if i < keys.len() {
            r.push(keys[i]);
        } else {
            r.push(0);
        }
        i = i + 1;
    }
    r
}

/// The 4-byte USB mouse report: buttons, then x, y and wheel as raw bytes.
pub fn usb_mouse_report(buttons: u8, x: i16, y: i16, wheel: i8) -> (r: Vec<u8>)
    ensures
        r@ == seq![buttons, x as u8, y as u8, wheel as u8],
{
    let mut r: Vec<u8> = Vec::new();
    r.push(buttons);
    r.push(x as u8);
    r.push(y as u8);
    r.push(wheel as u8);
    r
}

/// The 4-byte BLE mouse report: buttons, x and y held to -127..=127, wheel.
pub fn ble_mouse_report(buttons: u8, x: i16, y: i16, wheel: i8) -> (r: Vec<u8>)
    ensures
        r@ == seq![buttons, clamp_axis(x) as u8, clamp_axis(y) as u8, wheel as u8],
{
    let mut r: Vec<u8> = Vec::new();
    r.push(buttons);
    r.push(clamp_to_axis(x) as u8);
    r.push(clamp_to_axis(y) as u8);
    r.push(wheel as u8);
    r
}

/// The 10-byte classic Bluetooth keyboard report: header, report ID, then the
/// boot keyboard layout.
pub fn bt_keyboard_report(modifiers: u8, keys: &Vec<u8>) -> (r: Vec<u8>)
    ensures
        r@.len() == 10,
        r@[0] == BT_INPUT_HEADER,
        r@[1] == BT_KEYBOARD_ID,
        is_boot_keyboard(r@.subrange(2, 10), modifiers, keys@),
{
    let body = boot_keyboard_report(modifiers, keys);
    let mut r: Vec<u8> = Vec::new();
    r.push(BT_INPUT_HEADER);
    r.push(BT_KEYBOARD_ID);
    let mut i: usize = 0;
    while i < 8
        invariant
            0 <= i <= 8,
            body@.len() == 8,
            r@.len() == 2 + i,
            r@[0] == BT_INPUT_HEADER,
            r@[1] == BT_KEYBOARD_ID,
            forall|j: int| 0 <= j < i ==> #[trigger] r@[2 + j] == body@[j],
        decreases 8 - i,
    {
        r.push(body[i]);
        i = i + 1;
    }
    proof {
        assert forall|k: int| 0 <= k < 8 implies r@.subrange(2, 10)[k] == body@[k] by {
            assert(r@[2 + k] == body@[k]);
        }
        assert(r@.subrange(2, 10) =~= body@);
    }
    r
}

/// The 5-byte classic Bluetooth mouse report: header, report ID, buttons, and
/// x and y held to -127..=127; the wheel is not carried.
pub fn bt_mouse_report(buttons: u8, x: i16, y: i16) -> (r: Vec<u8>)
    ensures
        r@ == seq![
            BT_INPUT_HEADER,
            BT_MOUSE_ID,
            buttons,
            clamp_axis(x) as u8,
            clamp_axis(y) as u8,
        ],
{
    let mut r: Vec<u8> = Vec::new();
    r.push(BT_INPUT_HEADER);
    r.push(BT_MOUSE_ID);
    r.push(buttons);
    r.push(clamp_to_axis(x) as u8);
    r.push(clamp_to_axis(y) as u8);
    r
}

/// Splits a Linux device number into the major and minor numbers that the
/// HID gadget reports: bits 8..20 and bits 0..8.
pub fn hidg_device_numbers(dev: u64) -> (r: (u32, u32))
    ensures
        r.0 == (dev >> 8u64) & 0xfff,
        r.1 == dev & 0xff,
{
    let major = (dev >> 8u64) & 0xfff;
    let minor = dev & 0xff;
    assert(major <= 0xfff && minor <= 0xff) by (bit_vector)
        requires
            major == (dev >> 8u64) & 0xfff,
            minor == dev & 0xff,
    ;
    (major as u32, minor as u32)
}

} // verus!
