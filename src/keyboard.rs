//! Keyboard state: held modifiers and keys, and how key events change them.
use vstd::prelude::*;
use crate::report::InputReport;

verus! {

/// The modifier bit that a key code drives, if it is one of the eight modifiers.
pub open spec fn modifier_mask(code: u16) -> Option<u8> {
    match code {
        29 => Some(0x01u8),  // left Ctrl
        42 => Some(0x02u8),  // left Shift
        56 => Some(0x04u8),  // left Alt
        125 => Some(0x08u8),  // left Meta
        97 => Some(0x10u8),  // right Ctrl
        54 => Some(0x20u8),  // right Shift
        100 => Some(0x40u8),  // right Alt
        126 => Some(0x80u8),  // right Meta
        _ => None,
    }
}

fn modifier_mask_of(code: u16) -> (r: Option<u8>)
    ensures
        r == modifier_mask(code),
{
    match code {
        29 => Some(0x01u8),
        42 => Some(0x02u8),
        56 => Some(0x04u8),
        125 => Some(0x08u8),
        97 => Some(0x10u8),
        54 => Some(0x20u8),
        100 => Some(0x40u8),
        126 => Some(0x80u8),
        _ => None,
    }
}

/// The HID usage of a non-modifier key code; `None` for codes without one.
pub open spec fn hid_usage(code: u16) -> Option<u8> {
    match code {
        1 => Some(0x29u8),  // KEY_ESC
        2 => Some(0x1Eu8),  // KEY_1
        3 => Some(0x1Fu8),  // KEY_2
        4 => Some(0x20u8),  // KEY_3
        5 => Some(0x21u8),  // KEY_4
        6 => Some(0x22u8),  // KEY_5
        7 => Some(0x23u8),  // KEY_6
        8 => Some(0x24u8),  // KEY_7
        9 => Some(0x25u8),  // KEY_8
        10 => Some(0x26u8),  // KEY_9
        11 => Some(0x27u8),  // KEY_0
        12 => Some(0x2Du8),  // KEY_MINUS
        13 => Some(0x2Eu8),  // KEY_EQUAL
        14 => Some(0x2Au8),  // KEY_BACKSPACE
        15 => Some(0x2Bu8),  // KEY_TAB
        16 => Some(0x14u8),  // KEY_Q
        17 => Some(0x1Au8),  // KEY_W
        18 => Some(0x08u8),  // KEY_E
        19 => Some(0x15u8),  // KEY_R
        20 => Some(0x17u8),  // KEY_T
        21 => Some(0x1Cu8),  // KEY_Y
        22 => Some(0x18u8),  // KEY_U
        23 => Some(0x0Cu8),  // KEY_I
        24 => Some(0x12u8),  // KEY_O
        25 => Some(0x13u8),  // KEY_P
        26 => Some(0x2Fu8),  // KEY_LEFTBRACE
        27 => Some(0x30u8),  // KEY_RIGHTBRACE
        28 => Some(0x28u8),  // KEY_ENTER
        30 => Some(0x04u8),  // KEY_A
        31 => Some(0x16u8),  // KEY_S
        32 => Some(0x07u8),  // KEY_D
        33 => Some(0x09u8),  // KEY_F
        34 => Some(0x0Au8),  // KEY_G
        35 => Some(0x0Bu8),  // KEY_H
        36 => Some(0x0Du8),  // KEY_J
        37 => Some(0x0Eu8),  // KEY_K
        38 => Some(0x0Fu8),  // KEY_L
        39 => Some(0x33u8),  // KEY_SEMICOLON
        40 => Some(0x34u8),  // KEY_APOSTROPHE
        41 => Some(0x35u8),  // KEY_GRAVE
        43 => Some(0x31u8),  // KEY_BACKSLASH
        44 => Some(0x1Du8),  // KEY_Z
        45 => Some(0x1Bu8),  // KEY_X
        46 => Some(0x06u8),  // KEY_C
        47 => Some(0x19u8),  // KEY_V
        48 => Some(0x05u8),  // KEY_B
        49 => Some(0x11u8),  // KEY_N
        50 => Some(0x10u8),  // KEY_M
        51 => Some(0x36u8),  // KEY_COMMA
        52 => Some(0x37u8),  // KEY_DOT
        53 => Some(0x38u8),  // KEY_SLASH
        55 => Some(0x55u8),  // KEY_KPASTERISK
        57 => Some(0x2Cu8),  // KEY_SPACE
        58 => Some(0x39u8),  // KEY_CAPSLOCK
        59 => Some(0x3Au8),  // KEY_F1
        60 => Some(0x3Bu8),  // KEY_F2
        61 => Some(0x3Cu8),  // KEY_F3
        62 => Some(0x3Du8),  // KEY_F4
        63 => Some(0x3Eu8),  // KEY_F5
        64 => Some(0x3Fu8),  // KEY_F6
        65 => Some(0x40u8),  // KEY_F7
        66 => Some(0x41u8),  // KEY_F8
        67 => Some(0x42u8),  // KEY_F9
        68 => Some(0x43u8),  // KEY_F10
        69 => Some(0x53u8),  // KEY_NUMLOCK
        70 => Some(0x47u8),  // KEY_SCROLLLOCK
        71 => Some(0x5Fu8),  // KEY_KP7
        72 => Some(0x60u8),  // KEY_KP8
        73 => Some(0x61u8),  // KEY_KP9
        74 => Some(0x56u8),  // KEY_KPMINUS
        75 => Some(0x5Cu8),  // KEY_KP4
        76 => Some(0x5Du8),  // KEY_KP5
        77 => Some(0x5Eu8),  // KEY_KP6
        78 => Some(0x57u8),  // KEY_KPPLUS
        79 => Some(0x59u8),  // KEY_KP1
        80 => Some(0x5Au8),  // KEY_KP2
        81 => Some(0x5Bu8),  // KEY_KP3
        82 => Some(0x62u8),  // KEY_KP0
        83 => Some(0x63u8),  // KEY_KPDOT
        86 => Some(0x64u8),  // KEY_102ND
        87 => Some(0x44u8),  // KEY_F11
        88 => Some(0x45u8),  // KEY_F12
        96 => Some(0x58u8),  // KEY_KPENTER
        98 => Some(0x54u8),  // KEY_KPSLASH
        99 => Some(0x46u8),  // KEY_SYSRQ
        102 => Some(0x4Au8),  // KEY_HOME
        103 => Some(0x52u8),  // KEY_UP
        104 => Some(0x4Bu8),  // KEY_PAGEUP
        105 => Some(0x50u8),  // KEY_LEFT
        106 => Some(0x4Fu8),  // KEY_RIGHT
        107 => Some(0x4Du8),  // KEY_END
        108 => Some(0x51u8),  // KEY_DOWN
        109 => Some(0x4Eu8),  // KEY_PAGEDOWN
        110 => Some(0x49u8),  // KEY_INSERT
        111 => Some(0x4Cu8),  // KEY_DELETE
        119 => Some(0x48u8),  // KEY_PAUSE
        210 => Some(0x46u8),  // KEY_PRINT
        _ => None,
    }
}

/// Translates a Linux key code into its HID usage.
pub fn evdev_to_hid(code: u16) -> (r: Option<u8>)
    ensures
        r == hid_usage(code),
{
    match code {
        1 => Some(0x29u8),  // KEY_ESC
        2 => Some(0x1Eu8),  // KEY_1
        3 => Some(0x1Fu8),  // KEY_2
        4 => Some(0x20u8),  // KEY_3
        5 => Some(0x21u8),  // KEY_4
        6 => Some(0x22u8),  // KEY_5
        7 => Some(0x23u8),  // KEY_6
        8 => Some(0x24u8),  // KEY_7
        9 => Some(0x25u8),  // KEY_8
        10 => Some(0x26u8),  // KEY_9
        11 => Some(0x27u8),  // KEY_0
        12 => Some(0x2Du8),  // KEY_MINUS
        13 => Some(0x2Eu8),  // KEY_EQUAL
        14 => Some(0x2Au8),  // KEY_BACKSPACE
        15 => Some(0x2Bu8),  // KEY_TAB
        16 => Some(0x14u8),  // KEY_Q
        17 => Some(0x1Au8),  // KEY_W
        18 => Some(0x08u8),  // KEY_E
        19 => Some(0x15u8),  // KEY_R
        20 => Some(0x17u8),  // KEY_T
        21 => Some(0x1Cu8),  // KEY_Y
        22 => Some(0x18u8),  // KEY_U
        23 => Some(0x0Cu8),  // KEY_I
        24 => Some(0x12u8),  // KEY_O
        25 => Some(0x13u8),  // KEY_P
        26 => Some(0x2Fu8),  // KEY_LEFTBRACE
        27 => Some(0x30u8),  // KEY_RIGHTBRACE
        28 => Some(0x28u8),  // KEY_ENTER
        30 => Some(0x04u8),  // KEY_A
        31 => Some(0x16u8),  // KEY_S
        32 => Some(0x07u8),  // KEY_D
        33 => Some(0x09u8),  // KEY_F
        34 => Some(0x0Au8),  // KEY_G
        35 => Some(0x0Bu8),  // KEY_H
        36 => Some(0x0Du8),  // KEY_J
        37 => Some(0x0Eu8),  // KEY_K
        38 => Some(0x0Fu8),  // KEY_L
        39 => Some(0x33u8),  // KEY_SEMICOLON
        40 => Some(0x34u8),  // KEY_APOSTROPHE
        41 => Some(0x35u8),  // KEY_GRAVE
        43 => Some(0x31u8),  // KEY_BACKSLASH
        44 => Some(0x1Du8),  // KEY_Z
        45 => Some(0x1Bu8),  // KEY_X
        46 => Some(0x06u8),  // KEY_C
        47 => Some(0x19u8),  // KEY_V
        48 => Some(0x05u8),  // KEY_B
        49 => Some(0x11u8),  // KEY_N
        50 => Some(0x10u8),  // KEY_M
        51 => Some(0x36u8),  // KEY_COMMA
        52 => Some(0x37u8),  // KEY_DOT
        53 => Some(0x38u8),  // KEY_SLASH
        55 => Some(0x55u8),  // KEY_KPASTERISK
        57 => Some(0x2Cu8),  // KEY_SPACE
        58 => Some(0x39u8),  // KEY_CAPSLOCK
        59 => Some(0x3Au8),  // KEY_F1
        60 => Some(0x3Bu8),  // KEY_F2
        61 => Some(0x3Cu8),  // KEY_F3
        62 => Some(0x3Du8),  // KEY_F4
        63 => Some(0x3Eu8),  // KEY_F5
        64 => Some(0x3Fu8),  // KEY_F6
        65 => Some(0x40u8),  // KEY_F7
        66 => Some(0x41u8),  // KEY_F8
        67 => Some(0x42u8),  // KEY_F9
        68 => Some(0x43u8),  // KEY_F10
        69 => Some(0x53u8),  // KEY_NUMLOCK
        70 => Some(0x47u8),  // KEY_SCROLLLOCK
        71 => Some(0x5Fu8),  // KEY_KP7
        72 => Some(0x60u8),  // KEY_KP8
        73 => Some(0x61u8),  // KEY_KP9
        74 => Some(0x56u8),  // KEY_KPMINUS
        75 => Some(0x5Cu8),  // KEY_KP4
        76 => Some(0x5Du8),  // KEY_KP5
        77 => Some(0x5Eu8),  // KEY_KP6
        78 => Some(0x57u8),  // KEY_KPPLUS
        79 => Some(0x59u8),  // KEY_KP1
        80 => Some(0x5Au8),  // KEY_KP2
        81 => Some(0x5Bu8),  // KEY_KP3
        82 => Some(0x62u8),  // KEY_KP0
        83 => Some(0x63u8),  // KEY_KPDOT
        86 => Some(0x64u8),  // KEY_102ND
        87 => Some(0x44u8),  // KEY_F11
        88 => Some(0x45u8),  // KEY_F12
        96 => Some(0x58u8),  // KEY_KPENTER
        98 => Some(0x54u8),  // KEY_KPSLASH
        99 => Some(0x46u8),  // KEY_SYSRQ
        102 => Some(0x4Au8),  // KEY_HOME
        103 => Some(0x52u8),  // KEY_UP
        104 => Some(0x4Bu8),  // KEY_PAGEUP
        105 => Some(0x50u8),  // KEY_LEFT
        106 => Some(0x4Fu8),  // KEY_RIGHT
        107 => Some(0x4Du8),  // KEY_END
        108 => Some(0x51u8),  // KEY_DOWN
        109 => Some(0x4Eu8),  // KEY_PAGEDOWN
        110 => Some(0x49u8),  // KEY_INSERT
        111 => Some(0x4Cu8),  // KEY_DELETE
        119 => Some(0x48u8),  // KEY_PAUSE
        210 => Some(0x46u8),  // KEY_PRINT
        _ => None,
    }
}

/// The eight HID modifier usages, which travel in the modifier byte instead.
pub open spec fn is_modifier_usage(k: u8) -> bool {
    0xE0 <= k <= 0xE7
}

/// Held keys after `k` goes down: appended unless already held.
pub open spec fn pressed(keys: Seq<u8>, k: u8) -> Seq<u8> {
    if keys.contains(k) {
        keys
    } else {
        keys.push(k)
    }
}

/// Held keys after `k` goes up: every other key, in order.
pub open spec fn released(keys: Seq<u8>, k: u8) -> Seq<u8> {
    keys.filter(|x: u8| x != k)
}

/// What a key event with `code` and `value` (1 down, 0 up, 2 repeat) does to the
/// modifier byte and the held keys; `None` when the event is not translated
/// (an auto-repeat, or a code without a HID usage).
pub open spec fn key_event_step(modifiers: u8, keys: Seq<u8>, code: u16, value: i32) -> Option<
    (u8, Seq<u8>),
> {
    if value == 2 {
        None
    } else if modifier_mask(code) is Some {
        let m = modifier_mask(code)->0;
        Some((if value == 1 { modifiers | m } else { modifiers & !m }, keys))
    } else if hid_usage(code) is Some {
        let k = hid_usage(code)->0;
        Some((modifiers, if value == 1 { pressed(keys, k) } else { released(keys, k) }))
    } else {
        None
    }
}

/// Filtering out one key keeps the others, and keeps them distinct.
pub proof fn lemma_released(keys: Seq<u8>, k: u8)
    requires
        keys.no_duplicates(),
    ensures
        released(keys, k).no_duplicates(),
        forall|x: u8| #[trigger] released(keys, k).contains(x) <==> (keys.contains(x) && x != k),
        released(released(keys, k), k) == released(keys, k),
    decreases keys.len(),
{
    reveal(Seq::filter);
    let r = released(keys, k);
    if keys.len() > 0 {
        let t = keys.drop_last();
        assert(t.no_duplicates());
        lemma_released(t, k);
        let rt = released(t, k);
        assert(r == if keys.last() != k { rt.push(keys.last()) } else { rt });
        assert forall|x: u8| #[trigger] r.contains(x) <==> (keys.contains(x) && x != k) by {
            if keys.contains(x) && x != k {
                let i = choose|i: int| 0 <= i < keys.len() && keys[i] == x;
                if i < keys.len() - 1 {
                    assert(t[i] == x);
                    assert(rt.contains(x));
                } else {
                    assert(r.last() == x);
                }
            }
            if r.contains(x) {
                if keys.last() != k && r.last() == x {
                    assert(keys.last() == x);
                } else {
                    let j = choose|j: int| 0 <= j < r.len() && r[j] == x;
                    if keys.last() != k {
                        assert(j < rt.len() ==> rt[j] == x);
                    }
                    assert(rt.contains(x));
                    let i = choose|i: int| 0 <= i < t.len() && t[i] == x;
                    assert(keys[i] == x);
                }
            }
        }
        if keys.last() != k {
            assert(!rt.contains(keys.last())) by {
                if rt.contains(keys.last()) {
                    let i = choose|i: int| 0 <= i < t.len() && t[i] == keys.last();
                    assert(keys[i] == keys[keys.len() - 1]);
                }
            }
        }
        assert(released(r, k) == r) by {
            if keys.last() != k {
                assert(r.drop_last() == rt);
            }
        }
    } else {
        assert(released(r, k) == r);
    }
}

/// Key events `(code, value)` applied in order; an event that is not translated
/// leaves the state as it was.
pub open spec fn run_key_events(modifiers: u8, keys: Seq<u8>, events: Seq<(u16, i32)>) -> (
    u8,
    Seq<u8>,
)
    decreases events.len(),
{
    if events.len() == 0 {
        (modifiers, keys)
    } else {
        let prev = run_key_events(modifiers, keys, events.drop_last());
        let e = events.last();
        match key_event_step(prev.0, prev.1, e.0, e.1) {
            Some(next) => next,
            None => prev,
        }
    }
}

/// Whether the last press or release of `code` among `events` was a press;
/// `None` when there was neither (auto-repeats do not count).
pub open spec fn last_transition(events: Seq<(u16, i32)>, code: u16) -> Option<bool>
    decreases events.len(),
{
    if events.len() == 0 {
        None
    } else if events.last().0 == code && events.last().1 != 2 {
        Some(events.last().1 == 1)
    } else {
        last_transition(events.drop_last(), code)
    }
}

proof fn lemma_own_bit(x: u8, m: u8)
    by (bit_vector)
    requires
        m != 0,
    ensures
        (x | m) & m != 0,
        (x & !m) & m == 0,
        (x | m) | m == x | m,
        (x & !m) & !m == x & !m,
{
}

proof fn lemma_other_bit(x: u8, m: u8, m2: u8)
    by (bit_vector)
    requires
        m == 0x01 || m == 0x02 || m == 0x04 || m == 0x08 || m == 0x10 || m == 0x20 || m == 0x40
            || m == 0x80,
        m2 == 0x01 || m2 == 0x02 || m2 == 0x04 || m2 == 0x08 || m2 == 0x10 || m2 == 0x20 || m2
            == 0x40 || m2 == 0x80,
        m != m2,
    ensures
        ((x | m2) & m != 0) == (x & m != 0),
        ((x & !m2) & m != 0) == (x & m != 0),
{
}

/// After any sequence of key events, a modifier's bit is set exactly when its
/// last press or release was a press; a modifier with neither keeps its bit.
pub proof fn lemma_modifier_bits(
    modifiers: u8,
    keys: Seq<u8>,
    events: Seq<(u16, i32)>,
    code: u16,
)
    requires
        modifier_mask(code) is Some,
    ensures
        (run_key_events(modifiers, keys, events).0 & modifier_mask(code)->0 != 0) == match
            last_transition(events, code) {
            Some(down) => down,
            None => modifiers & modifier_mask(code)->0 != 0,
        },
    decreases events.len(),
{
    let m = modifier_mask(code)->0;
    if events.len() > 0 {
        lemma_modifier_bits(modifiers, keys, events.drop_last(), code);
        let prev = run_key_events(modifiers, keys, events.drop_last());
        let e = events.last();
        if e.1 != 2 && modifier_mask(e.0) is Some {
            let m2 = modifier_mask(e.0)->0;
            if e.0 == code {
                lemma_own_bit(prev.0, m);
            } else {
                lemma_other_bit(prev.0, m, m2);
            }
        }
    }
}

/// Repeating a key event changes nothing more: two identical events in a row
/// leave the state that one leaves. So a key pressed twice is held once.
pub proof fn lemma_key_event_idempotent(modifiers: u8, keys: Seq<u8>, code: u16, value: i32)
    requires
        keys.no_duplicates(),
    ensures
        match key_event_step(modifiers, keys, code, value) {
            Some(once) => key_event_step(once.0, once.1, code, value) == Some(once),
            None => true,
        },
{
    if value != 2 {
        if modifier_mask(code) is Some {
            lemma_own_bit(modifiers, modifier_mask(code)->0);
        } else if hid_usage(code) is Some {
            let k = hid_usage(code)->0;
            if value == 1 {
                assert(pressed(keys, k).contains(k)) by {
                    if !keys.contains(k) {
                        assert(keys.push(k).last() == k);
                    }
                }
            } else {
                lemma_released(keys, k);
            }
        }
    }
}

/// The keyboard side of a device monitor.
pub struct KeyboardState {
    /// One bit per modifier: left Ctrl, Shift, Alt, Meta, then the right ones.
    pub modifiers: u8,
    /// HID usages of the held non-modifier keys, in the order they went down.
    pub pressed_keys: Vec<u8>,
}

impl KeyboardState {
    /// Held keys are distinct and none is a modifier usage.
    pub open spec fn wf(&self) -> bool {
        &&& self.pressed_keys@.no_duplicates()
        &&& forall|i: int|
            0 <= i < self.pressed_keys@.len() ==> !is_modifier_usage(#[trigger] self.pressed_keys@[i])
    }

    /// Nothing held.
    pub fn new() -> (r: Self)
        ensures
            r.wf(),
            r.modifiers == 0,
            r.pressed_keys@ == Seq::<u8>::empty(),
    {
        KeyboardState { modifiers: 0, pressed_keys: Vec::new() }
    }

    fn press(&mut self, k: u8)
        requires
            old(self).wf(),
            !is_modifier_usage(k),
        ensures
            final(self).wf(),
            final(self).modifiers == old(self).modifiers,
            final(self).pressed_keys@ == pressed(old(self).pressed_keys@, k),
    {
        let mut i: usize = 0;
        let n = self.pressed_keys.len();
        while i < n
            invariant
                *self == *old(self),
                self.wf(),
                n == self.pressed_keys@.len(),
                0 <= i <= n,
                forall|j: int| 0 <= j < i ==> self.pressed_keys@[j] != k,
            decreases n - i,
        {
            if self.pressed_keys[i] == k {
                assert(self.pressed_keys@.contains(k));
                return;
            }
            i = i + 1;
        }
        assert(!self.pressed_keys@.contains(k));
        self.pressed_keys.push(k);
    }

    fn release(&mut self, k: u8)
        requires
            old(self).wf(),
        ensures
            final(self).wf(),
            final(self).modifiers == old(self).modifiers,
            final(self).pressed_keys@ == released(old(self).pressed_keys@, k),
    {
        let ghost keys = self.pressed_keys@;
        let mut kept: Vec<u8> = Vec::new();
        let mut i: usize = 0;
        let n = self.pressed_keys.len();
        while i < n
            invariant
                keys == self.pressed_keys@,
                n == keys.len(),
                0 <= i <= n,
                kept@ == released(keys.take(i as int), k),
            decreases n - i,
        {
            let x = self.pressed_keys[i];
            proof {
                reveal(Seq::filter);
                assert(keys.take(i + 1).drop_last() == keys.take(i as int));
            }
            if x != k {
                kept.push(x);
            }
            i = i + 1;
        }
        assert(keys.take(n as int) == keys);
        proof {
            lemma_released(keys, k);
            assert forall|j: int| 0 <= j < kept@.len() implies !is_modifier_usage(
                #[trigger] kept@[j],
            ) by {
                assert(released(keys, k).contains(kept@[j]));
            }
        }
        self.pressed_keys = kept;
    }

    /// Applies one key event (`value` 1 down, 0 up, 2 repeat); returns whether
    /// it was translated, and leaves the state unchanged when it was not.
    pub fn apply_key(&mut self, code: u16, value: i32) -> (translated: bool)
        requires
            old(self).wf(),
        ensures
            final(self).wf(),
            match key_event_step(old(self).modifiers, old(self).pressed_keys@, code, value) {
                Some(next) => translated && final(self).modifiers == next.0
                    && final(self).pressed_keys@ == next.1,
                None => !translated && final(self).modifiers == old(self).modifiers
                    && final(self).pressed_keys@ == old(self).pressed_keys@,
            },
    {
        if value == 2 {
            return false;
        }
        let is_pressed = value == 1;
        match modifier_mask_of(code) {
            Some(m) => {
                self.modifiers = if is_pressed {
                    self.modifiers | m
                } else {
                    self.modifiers & !m
                };
                true
            },
            None => match evdev_to_hid(code) {
                Some(k) => {
                    if is_pressed {
                        self.press(k);
                    } else {
                        self.release(k);
                    }
                    true
                },
                None => false,
            },
        }
    }

    /// A full keyboard report of what is held now.
    pub fn report(&self) -> (r: InputReport)
        ensures
            r matches InputReport::Keyboard { modifiers, keys } && modifiers == self.modifiers
                && keys@ == self.pressed_keys@,
    {
        InputReport::Keyboard { modifiers: self.modifiers, keys: self.pressed_keys.clone() }
    }
}

} // verus!
