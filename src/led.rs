//! The LED feedback hub: the attached keyboards' LED channels and the last
//! state broadcast to them.
use vstd::prelude::*;
use tokio::sync::mpsc::UnboundedSender;
use crate::report::{leds_off, LedState};

verus! {

#[verifier::external_type_specification]
#[verifier::external_body]
#[verifier::reject_recursive_types(T)]
pub struct ExUnboundedSender<T>(tokio::sync::mpsc::UnboundedSender<T>);

/// Relies on tokio's `UnboundedSender::send`: queues `state` without waiting,
/// and fails only when the receiving side is gone.
#[verifier::external_body]
fn deliver(tx: &UnboundedSender<LedState>, state: LedState) -> (delivered: bool) {
    tx.send(state).is_ok()
}

/// One keyboard's LED channel, numbered in order of registration.
pub struct LedChannel {
    pub id: u64,
    pub tx: UnboundedSender<LedState>,
}

/// The first state handed to channel `id` in `log`, if any.
pub open spec fn first_handed(log: Seq<(u64, LedState)>, id: u64) -> Option<LedState>
    decreases log.len(),
{
    if log.len() == 0 {
        None
    } else {
        match first_handed(log.drop_last(), id) {
            Some(s) => Some(s),
            None => if log.last().0 == id {
                Some(log.last().1)
            } else {
                None
            },
        }
    }
}

/// The registry of keyboard LED channels and the last state set.
pub struct LedHandle {
    pub keyboard_controls: Vec<LedChannel>,
    pub current_led_state: LedState,
    /// The number the next registered channel gets.
    pub next_id: u64,
    /// Every state handed to a channel, with the channel's number, in order.
    pub handed: Ghost<Seq<(u64, LedState)>>,
}

impl LedHandle {
    /// The registered channels' numbers, in registration order.
    pub open spec fn ids(&self) -> Seq<u64> {
        self.keyboard_controls@.map_values(|c: LedChannel| c.id)
    }

    /// Channel numbers rise in registration order and were all given out;
    /// every hand-over went to a channel that was given a number.
    pub open spec fn wf(&self) -> bool {
        &&& forall|i: int, j: int|
            0 <= i < j < self.keyboard_controls@.len() ==> self.keyboard_controls@[i].id
                < self.keyboard_controls@[j].id
        &&& forall|i: int|
            0 <= i < self.keyboard_controls@.len() ==> self.keyboard_controls@[i].id < self.next_id
        &&& forall|i: int| 0 <= i < self.handed@.len() ==> self.handed@[i].0 < self.next_id
    }

    /// What `set_leds(state)` leaves: `state` remembered and handed, in order,
    /// to every channel registered before; channels may only leave, in order.
    pub open spec fn set_leds_post(self, state: LedState, after: Self) -> bool {
        &&& after.current_led_state == state
        &&& after.next_id == self.next_id
        &&& after.handed@ == self.handed@ + self.ids().map_values(|id: u64| (id, state))
        &&& forall|x: u64| after.ids().contains(x) ==> self.ids().contains(x)
    }

    /// What `register(tx)` leaves: the new channel numbered `next_id`, handed
    /// the remembered state, and appended.
    pub open spec fn register_post(self, after: Self) -> bool {
        &&& after.current_led_state == self.current_led_state
        &&& after.next_id == self.next_id + 1
        &&& after.ids() == self.ids().push(self.next_id)
        &&& after.handed@ == self.handed@.push((self.next_id, self.current_led_state))
    }

    /// No channels; every LED off.
    pub fn new() -> (r: Self)
        ensures
            r.wf(),
            r.keyboard_controls@.len() == 0,
            r.current_led_state == leds_off(),
            r.handed@.len() == 0,
    {
        LedHandle {
            keyboard_controls: Vec::new(),
            current_led_state: LedState::default(),
            next_id: 0,
            handed: Ghost(Seq::empty()),
        }
    }

    /// Remembers `state` and hands it to every channel; a channel whose
    /// keyboard is gone is dropped from the registry.
    pub fn set_leds(&mut self, state: &LedState)
        requires
            old(self).wf(),
        ensures
            final(self).wf(),
            old(self).set_leds_post(*state, *final(self)),
    {
        let ghost before = *self;
        let mut pending: Vec<LedChannel> = Vec::new();
        std::mem::swap(&mut pending, &mut self.keyboard_controls);
        self.current_led_state = *state;
        let ghost all = pending@;
        let ghost all_ids = before.ids();
        let n = pending.len();
        let mut i: usize = 0;
        while i < n
            invariant
                0 <= i <= n,
                n == all.len(),
                all_ids == all.map_values(|c: LedChannel| c.id),
                all_ids == before.ids(),
                before.wf(),
                all == before.keyboard_controls@,
                pending@ == all.subrange(i as int, n as int),
                self.current_led_state == *state,
                self.next_id == before.next_id,
                self.handed@ == before.handed@ + all_ids.take(i as int).map_values(
                    |id: u64| (id, *state),
                ),
                forall|a: int|
                    0 <= a < self.keyboard_controls@.len() ==> all_ids.take(i as int).contains(
                        #[trigger] self.keyboard_controls@[a].id,
                    ),
                forall|a: int, b: int|
                    0 <= a < b < self.keyboard_controls@.len() ==> self.keyboard_controls@[a].id
                        < self.keyboard_controls@[b].id,
                forall|a: int|
                    0 <= a < self.keyboard_controls@.len() ==> self.keyboard_controls@[a].id
                        < self.next_id,
                i > 0 && self.keyboard_controls@.len() > 0 ==> self.keyboard_controls@.last().id
                    <= all_ids[i - 1],
            decreases n - i,
        {
            let channel = pending.remove(0);
            proof {
                assert(channel == all[i as int]);
                assert(all_ids[i as int] == channel.id);
                assert(all_ids.take(i + 1) == all_ids.take(i as int).push(channel.id));
                assert(all_ids.take(i + 1).map_values(|id: u64| (id, *state)) == all_ids.take(
                    i as int,
                ).map_values(|id: u64| (id, *state)).push((channel.id, *state)));
                if i > 0 {
                    assert(all_ids[i - 1] < all_ids[i as int]);
                }
                assert forall|a: int|
                    0 <= a < self.keyboard_controls@.len() implies all_ids.take(i + 1).contains(
                    #[trigger] self.keyboard_controls@[a].id,
                ) by {
                    let x = self.keyboard_controls@[a].id;
                    assert(all_ids.take(i as int).contains(x));
                    let m = choose|m: int| 0 <= m < i && all_ids.take(i as int)[m] == x;
                    assert(all_ids.take(i + 1)[m] == x);
                }
                assert(all_ids.take(i + 1)[i as int] == channel.id);
            }
            let delivered = deliver(&channel.tx, *state);
            proof {
                self.handed@ = self.handed@.push((channel.id, *state));
            }
            if delivered {
                self.keyboard_controls.push(channel);
            }
            i = i + 1;
        }
        proof {
            assert(all_ids.take(n as int) == all_ids);
            assert forall|x: u64| self.ids().contains(x) implies before.ids().contains(x) by {
                let k = choose|k: int| 0 <= k < self.ids().len() && self.ids()[k] == x;
                assert(self.keyboard_controls@[k].id == x);
            }
        }
    }

    /// Registers a newly attached keyboard's channel and hands it the
    /// remembered state at once, so that it starts in step with the others.
    pub fn register(&mut self, tx: UnboundedSender<LedState>) -> (id: u64)
        requires
            old(self).wf(),
            old(self).next_id < u64::MAX,
        ensures
            final(self).wf(),
            old(self).register_post(*final(self)),
            id == old(self).next_id,
    {
        let id = self.next_id;
        let _ = deliver(&tx, self.current_led_state);
        proof {
            self.handed@ = self.handed@.push((id, self.current_led_state));
        }
        let ghost before = self.keyboard_controls@;
        self.keyboard_controls.push(LedChannel { id, tx });
        self.next_id = id + 1;
        proof {
            assert(self.keyboard_controls@ == before.push(LedChannel { id, tx }));
            assert(self.ids() =~= old(self).ids().push(id));
        }
        id
    }
}

proof fn lemma_no_hand_over_yet(log: Seq<(u64, LedState)>, id: u64)
    requires
        forall|i: int| 0 <= i < log.len() ==> log[i].0 < id,
    ensures
        first_handed(log, id) is None,
    decreases log.len(),
{
    if log.len() > 0 {
        lemma_no_hand_over_yet(log.drop_last(), id);
    }
}

/// A channel registered after `set_leds(s)` receives `s` as its first value,
/// however many states were set before.
pub proof fn lemma_register_replays_last_state(
    h0: LedHandle,
    s: LedState,
    h1: LedHandle,
    h2: LedHandle,
)
    requires
        h0.wf(),
        h0.set_leds_post(s, h1),
        h1.register_post(h2),
    ensures
        first_handed(h2.handed@, h1.next_id) == Some(s),
{
    let appended = h0.ids().map_values(|id: u64| (id, s));
    assert forall|i: int| 0 <= i < h1.handed@.len() implies h1.handed@[i].0 < h1.next_id by {
        if i >= h0.handed@.len() {
            assert(h1.handed@[i] == appended[i - h0.handed@.len()]);
        }
    }
    lemma_no_hand_over_yet(h1.handed@, h1.next_id);
    assert(h2.handed@.drop_last() =~= h1.handed@);
}

} // verus!
