//! The mouse report-rate governor: one interval shared by every mouse monitor.
use vstd::prelude::*;
use std::sync::Arc;
use std::sync::atomic::{AtomicU32, Ordering};

verus! {

/// The report interval, in microseconds, for a rate in Hz; 0 means unlimited.
pub open spec fn interval_for(rate_hz: u32) -> u32 {
    if rate_hz == 0 {
        0
    } else {
        (1_000_000int / rate_hz as int) as u32
    }
}

/// The rate, in Hz, for a report interval in microseconds; 0 means unlimited.
pub open spec fn rate_for(interval_micros: u32) -> u32 {
    if interval_micros == 0 {
        0
    } else {
        (1_000_000int / interval_micros as int) as u32
    }
}

/// A rate that divides a second exactly comes back unchanged from its interval.
pub proof fn lemma_rate_round_trip(rate_hz: u32)
    requires
        rate_hz > 0,
        1_000_000int % (rate_hz as int) == 0,
        rate_hz <= 1_000_000,
    ensures
        rate_for(interval_for(rate_hz)) == rate_hz,
{
    let q = 1_000_000int / rate_hz as int;
    assert(q * rate_hz == 1_000_000) by (nonlinear_arith)
        requires
            1_000_000int % (rate_hz as int) == 0,
            q == 1_000_000int / rate_hz as int,
            rate_hz > 0,
    ;
    assert(q > 0 && q <= 1_000_000) by (nonlinear_arith)
        requires
            q * rate_hz == 1_000_000,
            rate_hz > 0,
    ;
    assert(1_000_000int / q == rate_hz as int) by (nonlinear_arith)
        requires
            q * rate_hz == 1_000_000,
            q > 0,
    ;
}

/// A report rate shared between the orchestrator, which sets it, and every
/// mouse monitor, which reads it. Clones share one value; the last store wins.
#[derive(Clone)]
pub struct MouseRateController {
    interval_micros: Arc<AtomicU32>,
}

impl MouseRateController {
    /// A controller at `rate_hz` (0: unlimited).
    pub fn new(rate_hz: u32) -> Self {
        MouseRateController { interval_micros: Arc::new(AtomicU32::new(Self::hz_to_micros(rate_hz))) }
    }

    /// Stores the interval for `rate_hz` (0: unlimited) for every holder.
    pub fn set_rate(&self, rate_hz: u32) {
        let micros = Self::hz_to_micros(rate_hz);
        self.interval_micros.store(micros, Ordering::Relaxed);
    }

    /// The current rate in Hz (0: unlimited). Any holder may have changed it,
    /// so this is the rate of whichever interval is stored now.
    pub fn get_rate(&self) -> (r: u32)
        ensures
            exists|micros: u32| r == rate_for(micros),
    {
        let micros = self.interval_micros.load(Ordering::Relaxed);
        Self::micros_to_hz(micros)
    }

    /// The current interval in microseconds (0: unlimited).
    pub fn get_interval(&self) -> u32 {
        self.interval_micros.load(Ordering::Relaxed)
    }

    /// Whether reports are rate limited now.
    pub fn is_enabled(&self) -> bool {
        self.interval_micros.load(Ordering::Relaxed) > 0
    }

    pub fn hz_to_micros(rate_hz: u32) -> (r: u32)
        ensures
            r == interval_for(rate_hz),
    {
        if rate_hz == 0 {
            0
        } else {
            1_000_000 / rate_hz
        }
    }

    pub fn micros_to_hz(interval_micros: u32) -> (r: u32)
        ensures
            r == rate_for(interval_micros),
    {
        if interval_micros == 0 {
            0
        } else {
            1_000_000 / interval_micros
        }
    }
}

impl Default for MouseRateController {
    /// Unlimited.
    fn default() -> Self {
        Self::new(0)
    }
}

} // verus!
