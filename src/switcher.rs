//! The mode-switch orchestrator's decisions: chord detection with a latch,
//! the output mode, where each report goes, and LED state to pass on.
use vstd::prelude::*;
use crate::report::{leds_off, InputReport, LedState};

verus! {

/// The transport that is live.
#[derive(Debug, Clone, Copy, PartialEq, Eq, Structural)]
pub enum OutputMode {
    Usb,
    Ble,
}

/// The four report senders: one per device kind on each transport.
#[derive(Debug, Clone, Copy, PartialEq, Eq, Structural)]
pub enum Target {
    UsbKeyboard,
    UsbMouse,
    BleKeyboard,
    BleMouse,
}

/// Mouse report rate while USB is live.
pub const USB_MOUSE_RATE_HZ: u32 = 500;
/// Mouse report rate while BLE is live.
pub const BLE_MOUSE_RATE_HZ: u32 = 125;
/// HID usage of F12.
pub const HID_F12: u8 = 0x45;

/// The other mode.
pub open spec fn toggled(mode: OutputMode) -> OutputMode {
    match mode {
        OutputMode::Usb => OutputMode::Ble,
        OutputMode::Ble => OutputMode::Usb,
    }
}

/// The mouse report rate for a mode.
pub open spec fn mouse_rate_of(mode: OutputMode) -> u32 {
    match mode {
        OutputMode::Usb => USB_MOUSE_RATE_HZ,
        OutputMode::Ble => BLE_MOUSE_RATE_HZ,
    }
}

/// The sender for a report of this kind while `mode` is live.
pub open spec fn target_of(mode: OutputMode, report: InputReport) -> Target {
    match (report, mode) {
        (InputReport::Keyboard { .. }, OutputMode::Usb) => Target::UsbKeyboard,
        (InputReport::Mouse { .. }, OutputMode::Usb) => Target::UsbMouse,
        (InputReport::Keyboard { .. }, OutputMode::Ble) => Target::BleKeyboard,
        (InputReport::Mouse { .. }, OutputMode::Ble) => Target::BleMouse,
    }
}

/// The switch chord: a Ctrl (either side), an Alt (either side) and F12.
pub open spec fn is_chord(modifiers: u8, keys: Seq<u8>) -> bool {
    (modifiers & 0x01 != 0 || modifiers & 0x10 != 0) && (modifiers & 0x04 != 0 || modifiers & 0x40
        != 0) && keys.contains(HID_F12)
}

/// A keyboard report of nothing held.
pub open spec fn is_zero_keyboard(r: InputReport) -> bool {
    r matches InputReport::Keyboard { modifiers, keys } && modifiers == 0 && keys@.len() == 0
}

/// A mouse report of no buttons and no motion.
pub open spec fn is_zero_mouse(r: InputReport) -> bool {
    r == InputReport::Mouse { buttons: 0, x: 0, y: 0, wheel: 0 }
}

/// The `k`-th sender, in the order USB keyboard, USB mouse, BLE keyboard, BLE mouse.
pub open spec fn target_at(k: int) -> Target {
    if k == 0 {
        Target::UsbKeyboard
    } else if k == 1 {
        Target::UsbMouse
    } else if k == 2 {
        Target::BleKeyboard
    } else {
        Target::BleMouse
    }
}

/// The sends that release everything: each sender gets an empty keyboard
/// report, then an empty mouse report.
pub open spec fn is_release_plan(sends: Seq<(Target, InputReport)>) -> bool {
    sends.len() == 8 && forall|i: int|
        0 <= i < 8 ==> (#[trigger] sends[i]).0 == target_at(i / 2) && if i % 2 == 0 {
            is_zero_keyboard(sends[i].1)
        } else {
            is_zero_mouse(sends[i].1)
        }
}

/// Whether the chord is held in `keys` under `modifiers`.
pub fn is_switch_combo(modifiers: u8, keys: &Vec<u8>) -> (r: bool)
    ensures
        r == is_chord(modifiers, keys@),
{
    let ctrl = modifiers & 0x01 != 0 || modifiers & 0x10 != 0;
    let alt = modifiers & 0x04 != 0 || modifiers & 0x40 != 0;
    let mut f12 = false;
    let mut i: usize = 0;
    while i < keys.len()
        invariant
            0 <= i <= keys@.len(),
            f12 == keys@.take(i as int).contains(HID_F12),
        decreases keys@.len() - i,
    {
        proof {
            assert(keys@.take(i + 1) == keys@.take(i as int).push(keys@[i as int]));
            if keys@.take(i as int).contains(HID_F12) {
                let k = choose|k: int| 0 <= k < i && keys@.take(i as int)[k] == HID_F12;
                assert(keys@.take(i + 1)[k] == HID_F12);
            }
            if keys@[i as int] == HID_F12 {
                assert(keys@.take(i + 1)[i as int] == HID_F12);
            }
        }
        if keys[i] == HID_F12 {
            f12 = true;
        }
        i = i + 1;
    }
    proof {
        assert(keys@.take(keys@.len() as int) == keys@);
    }
    ctrl && alt && f12
}

/// For a keyboard report, whether it holds the chord; `None` for a mouse report.
pub open spec fn chord_hit(report: InputReport) -> Option<bool> {
    match report {
        InputReport::Keyboard { modifiers, keys } => Some(is_chord(modifiers, keys@)),
        InputReport::Mouse { .. } => None,
    }
}

/// One report through the latch: `(fires, latched after)`. A keyboard report
/// fires when it holds the chord and the latch was clear, and sets the latch
/// to whether it holds the chord; a mouse report changes nothing.
pub open spec fn latch_step(latched: bool, hit: Option<bool>) -> (bool, bool) {
    match hit {
        Some(h) => (h && !latched, h),
        None => (false, latched),
    }
}

/// How many times a run of reports fires the switch, and the latch after it.
pub open spec fn fire_count(latched: bool, hits: Seq<Option<bool>>) -> (nat, bool)
    decreases hits.len(),
{
    if hits.len() == 0 {
        (0, latched)
    } else {
        let prev = fire_count(latched, hits.drop_last());
        let step = latch_step(prev.1, hits.last());
        (prev.0 + if step.0 {
            1nat
        } else {
            0nat
        }, step.1)
    }
}

/// The chord is held throughout: every keyboard report holds it (mouse
/// reports may come between), and at least one keyboard report came.
pub open spec fn held_throughout(hits: Seq<Option<bool>>) -> bool {
    (forall|i: int| 0 <= i < hits.len() ==> #[trigger] hits[i] != Some(false)) && hits.contains(
        Some(true),
    )
}

/// Two runs one after the other fire as often as each does in turn.
pub proof fn lemma_fire_count_concat(latched: bool, a: Seq<Option<bool>>, b: Seq<Option<bool>>)
    ensures
        fire_count(latched, a + b) == ({
            let fa = fire_count(latched, a);
            let fb = fire_count(fa.1, b);
            (fa.0 + fb.0, fb.1)
        }),
    decreases b.len(),
{
    if b.len() == 0 {
        assert(a + b =~= a);
    } else {
        lemma_fire_count_concat(latched, a, b.drop_last());
        assert((a + b).drop_last() =~= a + b.drop_last());
    }
}

proof fn lemma_no_release(latched: bool, hits: Seq<Option<bool>>)
    requires
        forall|i: int| 0 <= i < hits.len() ==> #[trigger] hits[i] != Some(false),
    ensures
        fire_count(latched, hits).1 == (latched || hits.contains(Some(true))),
        fire_count(latched, hits).0 == if !latched && hits.contains(Some(true)) {
            1nat
        } else {
            0nat
        },
    decreases hits.len(),
{
    if hits.len() > 0 {
        let t = hits.drop_last();
        assert forall|i: int| 0 <= i < t.len() implies #[trigger] t[i] != Some(false) by {
            assert(t[i] == hits[i]);
        }
        lemma_no_release(latched, t);
        assert(hits.last() == hits[hits.len() - 1]);
        if t.contains(Some(true)) {
            let k = choose|k: int| 0 <= k < t.len() && t[k] == Some(true);
            assert(hits[k] == Some(true));
        }
        if hits.contains(Some(true)) && hits.last() != Some(true) {
            let k = choose|k: int| 0 <= k < hits.len() && hits[k] == Some(true);
            assert(t[k] == Some(true));
        }
    }
}

/// Holding the chord across any number of reports, from a clear latch,
/// fires the switch exactly once.
pub proof fn lemma_held_chord_fires_once(hits: Seq<Option<bool>>)
    requires
        held_throughout(hits),
    ensures
        fire_count(false, hits).0 == 1,
{
    lemma_no_release(false, hits);
}

/// Holding the chord, letting go for one keyboard report, and holding it
/// again fires the switch exactly twice.
pub proof fn lemma_press_release_press_fires_twice(
    first: Seq<Option<bool>>,
    second: Seq<Option<bool>>,
)
    requires
        held_throughout(first),
        held_throughout(second),
    ensures
        fire_count(false, first + seq![Some(false)] + second).0 == 2,
{
    let release = seq![Some(false)];
    lemma_no_release(false, first);
    lemma_fire_count_concat(false, first, release);
    assert(release.drop_last() =~= Seq::<Option<bool>>::empty());
    assert(fire_count(true, release.drop_last()) == (0nat, true));
    assert(release.last() == Some(false));
    assert(fire_count(true, release) == (0nat, false));
    lemma_fire_count_concat(false, first + release, second);
    lemma_no_release(false, second);
}

/// How many of `sends` go to `t` and satisfy `p`.
pub open spec fn count_sends(
    sends: Seq<(Target, InputReport)>,
    t: Target,
    p: spec_fn(InputReport) -> bool,
) -> nat
    decreases sends.len(),
{
    if sends.len() == 0 {
        0
    } else {
        count_sends(sends.drop_last(), t, p) + if sends.last().0 == t && p(sends.last().1) {
            1nat
        } else {
            0nat
        }
    }
}

/// On a switch, each of the four senders gets exactly one empty keyboard
/// report and exactly one empty mouse report, and nothing else is sent.
pub proof fn lemma_switch_releases_each_sender(sends: Seq<(Target, InputReport)>, t: Target)
    requires
        is_release_plan(sends),
    ensures
        count_sends(sends, t, |r: InputReport| is_zero_keyboard(r)) == 1,
        count_sends(sends, t, |r: InputReport| is_zero_mouse(r)) == 1,
        forall|i: int|
            0 <= i < sends.len() ==> is_zero_keyboard(#[trigger] sends[i].1) || is_zero_mouse(
                sends[i].1,
            ),
{
    let kb = |r: InputReport| is_zero_keyboard(r);
    let ms = |r: InputReport| is_zero_mouse(r);
    assert(sends[0].0 == target_at(0) && sends[1].0 == target_at(0));
    assert(sends[2].0 == target_at(1) && sends[3].0 == target_at(1));
    assert(sends[4].0 == target_at(2) && sends[5].0 == target_at(2));
    assert(sends[6].0 == target_at(3) && sends[7].0 == target_at(3));
    assert(is_zero_keyboard(sends[0].1) && is_zero_mouse(sends[1].1));
    assert(is_zero_keyboard(sends[2].1) && is_zero_mouse(sends[3].1));
    assert(is_zero_keyboard(sends[4].1) && is_zero_mouse(sends[5].1));
    assert(is_zero_keyboard(sends[6].1) && is_zero_mouse(sends[7].1));
    let s7 = sends.drop_last();
    let s6 = s7.drop_last();
    let s5 = s6.drop_last();
    let s4 = s5.drop_last();
    let s3 = s4.drop_last();
    let s2 = s3.drop_last();
    let s1 = s2.drop_last();
    let s0 = s1.drop_last();
    assert(sends.last() == sends[7] && s7.last() == sends[6] && s6.last() == sends[5]
        && s5.last() == sends[4] && s4.last() == sends[3] && s3.last() == sends[2]
        && s2.last() == sends[1] && s1.last() == sends[0] && s0.len() == 0);
    reveal_with_fuel(count_sends, 9);
    assert forall|i: int| 0 <= i < sends.len() implies is_zero_keyboard(#[trigger] sends[i].1)
        || is_zero_mouse(sends[i].1) by {
        assert(i % 2 == 0 || i % 2 == 1);
    }
}

/// One decision of the orchestrator: the sends to make, in order, and when the
/// mode switched, the mouse rate to set.
pub struct Step {
    pub switched: bool,
    pub sends: Vec<(Target, InputReport)>,
    pub mouse_rate: Option<u32>,
}

/// The orchestrator's state: the live mode and the chord latch.
pub struct Core {
    pub mode: OutputMode,
    /// The chord was held in the last keyboard report; it fires again only
    /// after a keyboard report without it.
    pub switch_latched: bool,
}

impl Core {
    /// USB live, latch clear.
    pub fn new() -> (r: Self)
        ensures
            r.mode == OutputMode::Usb,
            !r.switch_latched,
    {
        Core { mode: OutputMode::Usb, switch_latched: false }
    }

    /// Whether `event` fires the switch: a keyboard report that holds the
    /// chord while the latch is clear. A keyboard report sets the latch to
    /// whether it holds the chord; a mouse report leaves it.
    pub fn should_toggle(&mut self, event: &InputReport) -> (r: bool)
        ensures
            final(self).mode == old(self).mode,
            match *event {
                InputReport::Keyboard { modifiers, keys } => r == (is_chord(modifiers, keys@)
                    && !old(self).switch_latched) && final(self).switch_latched == is_chord(
                    modifiers,
                    keys@,
                ),
                InputReport::Mouse { .. } => !r && final(self).switch_latched == old(
                    self,
                ).switch_latched,
            },
    {
        match event {
            InputReport::Keyboard { modifiers, keys } => {
                let hit = is_switch_combo(*modifiers, keys);
                if hit && !self.switch_latched {
                    self.switch_latched = true;
                    return true;
                }
                if !hit && self.switch_latched {
                    self.switch_latched = false;
                }
                false
            },
            InputReport::Mouse { .. } => false,
        }
    }

    /// Flips the live mode and returns the new one.
    pub fn toggle_output(&mut self) -> (r: OutputMode)
        ensures
            final(self).mode == toggled(old(self).mode),
            final(self).switch_latched == old(self).switch_latched,
            r == final(self).mode,
    {
        self.mode = match self.mode {
            OutputMode::Usb => OutputMode::Ble,
            OutputMode::Ble => OutputMode::Usb,
        };
        self.mode
    }

    /// The sends that release every key and button on both transports.
    pub fn release_all() -> (r: Vec<(Target, InputReport)>)
        ensures
            is_release_plan(r@),
    {
        let mut sends: Vec<(Target, InputReport)> = Vec::new();
        let targets: [Target; 4] = [
            Target::UsbKeyboard,
            Target::UsbMouse,
            Target::BleKeyboard,
            Target::BleMouse,
        ];
        let mut k: usize = 0;
        while k < 4
            invariant
                0 <= k <= 4,
                targets@ == seq![
                    Target::UsbKeyboard,
                    Target::UsbMouse,
                    Target::BleKeyboard,
                    Target::BleMouse,
                ],
                sends@.len() == 2 * k,
                forall|i: int|
                    0 <= i < 2 * k ==> (#[trigger] sends@[i]).0 == target_at(i / 2) && if i % 2
                        == 0 {
                        is_zero_keyboard(sends@[i].1)
                    } else {
                        is_zero_mouse(sends@[i].1)
                    },
            decreases 4 - k,
        {
            let t = targets[k];
            sends.push((t, InputReport::Keyboard { modifiers: 0, keys: Vec::new() }));
            sends.push((t, InputReport::Mouse { buttons: 0, x: 0, y: 0, wheel: 0 }));
            k = k + 1;
        }
        sends
    }

    /// The sender for `report` under the live mode.
    pub fn route(&self, report: &InputReport) -> (t: Target)
        ensures
            t == target_of(self.mode, *report),
    {
        match (report, self.mode) {
            (InputReport::Keyboard { .. }, OutputMode::Usb) => Target::UsbKeyboard,
            (InputReport::Mouse { .. }, OutputMode::Usb) => Target::UsbMouse,
            (InputReport::Keyboard { .. }, OutputMode::Ble) => Target::BleKeyboard,
            (InputReport::Mouse { .. }, OutputMode::Ble) => Target::BleMouse,
        }
    }

    /// The mouse report rate for the live mode.
    pub fn mouse_rate(&self) -> (r: u32)
        ensures
            r == mouse_rate_of(self.mode),
    {
        match self.mode {
            OutputMode::Usb => USB_MOUSE_RATE_HZ,
            OutputMode::Ble => BLE_MOUSE_RATE_HZ,
        }
    }

    /// Decides what to do with one aggregated report. When it fires the chord:
    /// flip the mode, release everything everywhere, and set the new mode's
    /// mouse rate; the report itself goes nowhere. Otherwise: send it to the
    /// sender for its kind under the live mode.
    pub fn handle_report(&mut self, report: InputReport) -> (step: Step)
        ensures
            (step.switched, final(self).switch_latched) == latch_step(
                old(self).switch_latched,
                chord_hit(report),
            ),
            step.switched ==> final(self).mode == toggled(old(self).mode) && is_release_plan(
                step.sends@,
            ) && step.mouse_rate == Some(mouse_rate_of(final(self).mode)),
            !step.switched ==> final(self).mode == old(self).mode && step.sends@ == seq![
                (target_of(old(self).mode, report), report),
            ] && step.mouse_rate is None,
    {
        if self.should_toggle(&report) {
            self.toggle_output();
            let sends = Self::release_all();
            Step { switched: true, sends, mouse_rate: Some(self.mouse_rate()) }
        } else {
            let t = self.route(&report);
            let mut sends: Vec<(Target, InputReport)> = Vec::new();
            sends.push((t, report));
            Step { switched: false, sends, mouse_rate: None }
        }
    }
}

/// The LED side of the orchestrator: the state last passed to the hub.
pub struct LedSync {
    pub current_led_state: LedState,
}

impl LedSync {
    pub fn new() -> (r: Self)
        ensures
            r.current_led_state == leds_off(),
    {
        LedSync { current_led_state: LedState::default() }
    }

    /// The live mode changed: forget the last state, so that the new
    /// transport's next reading is passed on.
    pub fn on_mode_change(&mut self)
        ensures
            final(self).current_led_state == leds_off(),
    {
        self.current_led_state = LedState::default();
    }

    /// A reading from the live transport (`None`: nothing to report). Returns
    /// the state to pass to the hub: a reading that differs from the last one.
    pub fn on_led_read(&mut self, read: Option<LedState>) -> (push: Option<LedState>)
        ensures
            match read {
                Some(s) => if s != old(self).current_led_state {
                    push == Some(s) && final(self).current_led_state == s
                } else {
                    push is None && final(self).current_led_state == old(self).current_led_state
                },
                None => push is None && final(self).current_led_state == old(
                    self,
                ).current_led_state,
            },
    {
        match read {
            Some(s) => {
                if s != self.current_led_state {
                    self.current_led_state = s;
                    Some(s)
                } else {
                    None
                }
            },
            None => None,
        }
    }
}

} // verus!
