//! Mouse state: buttons, motion gathered between reports, and the rate gate.
use vstd::prelude::*;
use crate::rate::MouseRateController;
use crate::report::InputReport;

verus! {

/// `a + d`, held within the range of `i32`.
pub open spec fn sat_add(a: i32, d: i32) -> i32 {
    if a + d > i32::MAX {
        i32::MAX
    } else if a + d < i32::MIN {
        i32::MIN
    } else {
        (a + d) as i32
    }
}

/// `v` held within the range of `i16`.
pub open spec fn clamp_i16(v: i32) -> i16 {
    if v > i16::MAX {
        i16::MAX
    } else if v < i16::MIN {
        i16::MIN
    } else {
        v as i16
    }
}

/// `v` held within the range of `i8`.
pub open spec fn clamp_i8(v: i32) -> i8 {
    if v > i8::MAX {
        i8::MAX
    } else if v < i8::MIN {
        i8::MIN
    } else {
        v as i8
    }
}

/// Whether a report may go out at `now` (microseconds on the monitor's clock):
/// a button change always may; otherwise when there is no limit, no report
/// went out yet, or at least `interval` has passed since the last one.
pub open spec fn send_due(button_changed: bool, interval: u32, last: Option<u64>, now: u64) -> bool {
    button_changed || interval == 0 || match last {
        None => true,
        Some(t) => now >= t && now - t >= interval,
    }
}

fn saturating_add_i32(a: i32, d: i32) -> (r: i32)
    ensures
        r == sat_add(a, d),
{
    let s: i64 = a as i64 + d as i64;
    if s > i32::MAX as i64 {
        i32::MAX
    } else if s < i32::MIN as i64 {
        i32::MIN
    } else {
        s as i32
    }
}

fn clamp_to_i16(v: i32) -> (r: i16)
    ensures
        r == clamp_i16(v),
{
    if v > i16::MAX as i32 {
        i16::MAX
    } else if v < i16::MIN as i32 {
        i16::MIN
    } else {
        v as i16
    }
}

fn clamp_to_i8(v: i32) -> (r: i8)
    ensures
        r == clamp_i8(v),
{
    if v > i8::MAX as i32 {
        i8::MAX
    } else if v < i8::MIN as i32 {
        i8::MIN
    } else {
        v as i8
    }
}

/// The mouse side of a device monitor.
pub struct MouseState {
    pub buttons: u8,
    pub x_delta: i32,
    pub y_delta: i32,
    pub wheel_delta: i32,
    /// Something changed since the last report.
    pub dirty: bool,
    /// A button changed since the last report: the next one goes out at once.
    pub button_changed: bool,
    /// When the last report went out, in microseconds on the monitor's clock.
    pub last_report_time: Option<u64>,
    pub rate_controller: MouseRateController,
}

impl MouseState {
    /// A button change marks the state dirty; a clean state holds no motion.
    pub open spec fn wf(&self) -> bool {
        &&& self.button_changed ==> self.dirty
        &&& !self.dirty ==> self.x_delta == 0 && self.y_delta == 0 && self.wheel_delta == 0
    }

    pub fn new(rate_controller: MouseRateController) -> (r: Self)
        ensures
            r.wf(),
            r.buttons == 0,
            r.x_delta == 0 && r.y_delta == 0 && r.wheel_delta == 0,
            !r.dirty && !r.button_changed,
            r.last_report_time is None,
            r.rate_controller == rate_controller,
    {
        MouseState {
            buttons: 0,
            x_delta: 0,
            y_delta: 0,
            wheel_delta: 0,
            dirty: false,
            button_changed: false,
            last_report_time: None,
            rate_controller,
        }
    }

    /// Whether a report may go out at `now`, with the rate controller's
    /// current interval `interval_micros`.
    pub fn should_send_report(&self, interval_micros: u32, now: u64) -> (r: bool)
        ensures
            r == send_due(self.button_changed, interval_micros, self.last_report_time, now),
    {
        if self.button_changed {
            return true;
        }
        if interval_micros == 0 {
            return true;
        }
        match self.last_report_time {
            Some(t) => now >= t && now - t >= interval_micros as u64,
            None => true,
        }
    }

    pub fn accumulate_x(&mut self, delta: i32)
        ensures
            (*final(self)) == (MouseState {
                x_delta: sat_add(old(self).x_delta, delta),
                dirty: true,
                ..*old(self)
            }),
    {
        self.x_delta = saturating_add_i32(self.x_delta, delta);
        self.dirty = true;
    }

    pub fn accumulate_y(&mut self, delta: i32)
        ensures
            (*final(self)) == (MouseState {
                y_delta: sat_add(old(self).y_delta, delta),
                dirty: true,
                ..*old(self)
            }),
    {
        self.y_delta = saturating_add_i32(self.y_delta, delta);
        self.dirty = true;
    }

    pub fn accumulate_wheel(&mut self, delta: i32)
        ensures
            (*final(self)) == (MouseState {
                wheel_delta: sat_add(old(self).wheel_delta, delta),
                dirty: true,
                ..*old(self)
            }),
    {
        self.wheel_delta = saturating_add_i32(self.wheel_delta, delta);
        self.dirty = true;
    }

    /// The report of what gathered since the last one, stamped at `now`; the
    /// motion and both flags start over, the buttons stay.
    pub fn build_report(&mut self, now: u64) -> (r: InputReport)
        ensures
            r == (InputReport::Mouse {
                buttons: old(self).buttons,
                x: clamp_i16(old(self).x_delta),
                y: clamp_i16(old(self).y_delta),
                wheel: clamp_i8(old(self).wheel_delta),
            }),
            (*final(self)) == (MouseState {
                x_delta: 0,
                y_delta: 0,
                wheel_delta: 0,
                dirty: false,
                button_changed: false,
                last_report_time: Some(now),
                ..*old(self)
            }),
    {
        let report = InputReport::Mouse {
            buttons: self.buttons,
            x: clamp_to_i16(self.x_delta),
            y: clamp_to_i16(self.y_delta),
            wheel: clamp_to_i8(self.wheel_delta),
        };
        self.x_delta = 0;
        self.y_delta = 0;
        self.wheel_delta = 0;
        self.dirty = false;
        self.button_changed = false;
        self.last_report_time = Some(now);
        report
    }
}

} // verus!
