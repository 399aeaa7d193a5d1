//! Messages of the web touchpad: one type byte, then little-endian fields.
use vstd::prelude::*;
use crate::report::InputReport;

verus! {

pub const TOUCH_MOVE: u8 = 0x01;
pub const TOUCH_CLICK: u8 = 0x02;
pub const TOUCH_SCROLL: u8 = 0x03;
pub const TOUCH_KEY: u8 = 0x04;

/// The little-endian `i16` in bytes `lo`, `hi`.
pub open spec fn le_i16(lo: u8, hi: u8) -> i16 {
    (lo as int + 256 * hi as int) as i16
}

/// The mouse report a touchpad message asks for: a move (x, y), a click
/// (a button mask), or a scroll whose vertical part, held to the `i8` range,
/// turns the wheel. Short messages, keys and unknown types ask for none.
pub open spec fn touch_report(data: Seq<u8>) -> Option<InputReport> {
    if data.len() == 0 {
        None
    } else if data[0] == TOUCH_MOVE && data.len() >= 5 {
        Some(
            InputReport::Mouse {
                buttons: 0,
                x: le_i16(data[1], data[2]),
                y: le_i16(data[3], data[4]),
                wheel: 0,
            },
        )
    } else if data[0] == TOUCH_CLICK && data.len() >= 3 {
        Some(InputReport::Mouse { buttons: data[1], x: 0, y: 0, wheel: 0 })
    } else if data[0] == TOUCH_SCROLL && data.len() >= 5 {
        let y = le_i16(data[3], data[4]);
        let wheel: i8 = if y > 127 {
            127i8
        } else if y < -128 {
            -128i8
        } else {
            y as i8
        };
        Some(InputReport::Mouse { buttons: 0, x: 0, y: 0, wheel })
    } else {
        None
    }
}

fn read_le_i16(lo: u8, hi: u8) -> (r: i16)
    ensures
        r == le_i16(lo, hi),
{
    (lo as u16 + (hi as u16) * 256) as i16
}

/// Decodes one touchpad message into the mouse report it asks for.
pub fn decode_touch_message(data: &Vec<u8>) -> (r: Option<InputReport>)
    ensures
        r == touch_report(data@),
{
    if data.len() == 0 {
        return None;
    }
    let kind = data[0];
    if kind == TOUCH_MOVE && data.len() >= 5 {
        let x = read_le_i16(data[1], data[2]);
        let y = read_le_i16(data[3], data[4]);
        Some(InputReport::Mouse { buttons: 0, x, y, wheel: 0 })
    } else if kind == TOUCH_CLICK && data.len() >= 3 {
        Some(InputReport::Mouse { buttons: data[1], x: 0, y: 0, wheel: 0 })
    } else if kind == TOUCH_SCROLL && data.len() >= 5 {
        let y = read_le_i16(data[3], data[4]);
        let wheel: i8 = if y > 127 {
            127
        } else if y < -128 {
            -128
        } else {
            y as i8
        };
        Some(InputReport::Mouse { buttons: 0, x: 0, y: 0, wheel })
    } else {
        None
    }
}

} // verus!
