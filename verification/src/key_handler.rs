//! The key-state tracker: per-key down/pressed/released bookkeeping with
//! delay-then-rate auto-repeat.

use vstd::prelude::*;

use crate::key::key_at;
use crate::key::key_index;
use crate::key::lemma_key_index_injective;
use crate::key::lemma_key_index_inverse;
use crate::key::spec_key_index;
use crate::key::Key;
use crate::key::KEY_COUNT;
use vstd::pervasive::VecAdditionalExecFns;

verus! {

/// How long a key must stay down before auto-repeat begins, in microseconds,
/// until the host changes it.
pub const DEFAULT_KEY_REPEAT_DELAY: u64 = 250_000;

/// The pause between two auto-repeats of a held key, in microseconds, until
/// the host changes it.
pub const DEFAULT_KEY_REPEAT_RATE: u64 = 50_000;

/// The largest repeat delay or repeat rate the tracker accepts, in
/// microseconds (about twelve days).  The bound keeps every repeat-schedule
/// computation inside `u64`.
pub const MAX_REPEAT_SETTING: u64 = 0x100_0000_0000;

/// Whether a query about pressed keys counts synthesized auto-repeats or
/// only fresh down edges.
#[derive(Clone, Copy, Debug, PartialEq, Eq, Structural)]
pub enum KeyRepeat {
    /// Count auto-repeats of held keys as presses.
    Yes,
    /// Count only fresh down edges.
    No,
}

/// Everything the tracker knows about one key.
///
/// `went_down_at` and `last_repeat_at` drive the auto-repeat schedule; the
/// two cycle flags record whether the key saw a down or an up edge since the
/// current poll cycle began.
#[derive(Clone, Copy, Debug)]
pub struct KeyState {
    /// Whether the key is physically held down.
    pub is_down: bool,
    /// When the key last went down, while it stays down.
    pub went_down_at: Option<u64>,
    /// The scheduled time of the last auto-repeat that fired, while the key
    /// stays down.
    pub last_repeat_at: Option<u64>,
    /// Whether the key saw a down edge in the current poll cycle.
    pub pressed_this_cycle: bool,
    /// Whether the key saw an up edge in the current poll cycle.
    pub released_this_cycle: bool,
}

/// A key that is up has no pending repeat timers; a key that is down knows
/// when it went down.
pub open spec fn spec_key_state_wf(s: KeyState) -> bool {
    &&& !s.is_down ==> s.went_down_at is None && s.last_repeat_at is None
    &&& s.is_down ==> s.went_down_at is Some
}

/// The state every key starts in: up, with no marks and no timers.
pub open spec fn spec_initial_key_state() -> KeyState {
    KeyState {
        is_down: false,
        went_down_at: None,
        last_repeat_at: None,
        pressed_this_cycle: false,
        released_this_cycle: false,
    }
}

/// How one raw key event changes one key's state.
///
/// A down event on a key already down is an idempotent repeat signal from the
/// platform and changes nothing; a fresh down edge stamps the time, clears
/// the repeat bookmark and sets the pressed mark.  An up event on a key that
/// is down clears the timers and sets the released mark; on a key already up
/// it changes nothing.  The mark of the opposite edge is never touched, so a
/// release and a fresh press within one poll cycle register both.
pub open spec fn spec_on_key_event(s: KeyState, pressed: bool, now: u64) -> KeyState {
    if pressed {
        if s.is_down {
            s
        } else {
            KeyState {
                is_down: true,
                went_down_at: Some(now),
                last_repeat_at: None,
                pressed_this_cycle: true,
                released_this_cycle: s.released_this_cycle,
            }
        }
    } else {
        if s.is_down {
            KeyState {
                is_down: false,
                went_down_at: None,
                last_repeat_at: None,
                pressed_this_cycle: s.pressed_this_cycle,
                released_this_cycle: true,
            }
        } else {
            s
        }
    }
}

/// A poll-cycle boundary clears both edge marks and touches nothing else.
pub open spec fn spec_next_cycle(s: KeyState) -> KeyState {
    KeyState { pressed_this_cycle: false, released_this_cycle: false, ..s }
}

/// Losing focus releases a held key as an up event would; a key already up is
/// left alone.
pub open spec fn spec_release_key(s: KeyState) -> KeyState {
    if s.is_down {
        KeyState {
            is_down: false,
            went_down_at: None,
            last_repeat_at: None,
            pressed_this_cycle: s.pressed_this_cycle,
            released_this_cycle: true,
        }
    } else {
        s
    }
}

/// When the key last went down, defaulting to zero for a key that is up.
pub open spec fn spec_down_time(s: KeyState) -> int {
    match s.went_down_at {
        Some(t0) => t0 as int,
        None => 0,
    }
}

/// The latest scheduled auto-repeat time at or before `now` for a key that
/// went down at `t0`: repeats are scheduled at `t0 + d + r`, `t0 + d + 2 r`
/// and so on.
pub open spec fn spec_repeat_slot(t0: int, d: int, r: int, now: int) -> int
    recommends
        1 <= r,
        now >= t0 + d + r,
{
    t0 + d + r * ((now - t0 - d) / r)
}

/// Whether an auto-repeat of this key fires at a poll at time `now`, given
/// repeat delay `d` and repeat rate `r`.
///
/// With a positive rate, a repeat fires once per scheduled time: when the
/// first scheduled time `t0 + d + r` has passed and the last fired repeat,
/// if any, lies before the latest scheduled time.  With a zero rate, every
/// poll past the delay fires.
pub open spec fn spec_repeat_due(s: KeyState, d: int, r: int, now: int) -> bool {
    match s.went_down_at {
        None => false,
        Some(t0) => s.is_down && (if r <= 0 {
            now >= t0 + d
        } else {
            now >= t0 + d + r && (match s.last_repeat_at {
                None => true,
                Some(lr) => (lr as int) < spec_repeat_slot(t0 as int, d, r, now),
            })
        }),
    }
}

/// The repeat bookmark recorded when a repeat fires at `now`: the scheduled
/// time the firing stands for, or `now` itself under a zero rate.
pub open spec fn spec_repeat_mark(s: KeyState, d: int, r: int, now: int) -> int
    recommends
        spec_repeat_due(s, d, r, now),
{
    if r <= 0 {
        now
    } else {
        spec_repeat_slot(spec_down_time(s), d, r, now)
    }
}

/// One key's state after a pressed query with repeat counting: a firing
/// repeat advances the bookmark, anything else leaves the key untouched.
pub open spec fn spec_after_repeat_query(s: KeyState, d: int, r: int, now: int) -> KeyState {
    if spec_repeat_due(s, d, r, now) {
        KeyState { last_repeat_at: Some(spec_repeat_mark(s, d, r, now) as u64), ..s }
    } else {
        s
    }
}

/// Whether a pressed query on one key answers true: the key saw a down edge
/// this cycle or, when repeats are counted, an auto-repeat fires now.
pub open spec fn spec_pressed(s: KeyState, repeat: KeyRepeat, d: int, r: int, now: int) -> bool {
    s.pressed_this_cycle || (repeat == KeyRepeat::Yes && spec_repeat_due(s, d, r, now))
}

/// Decides whether an auto-repeat of this key fires at `now` and returns the
/// key's state afterwards.
fn check_repeat(s: KeyState, d: u64, r: u64, now: u64) -> (res: (bool, KeyState))
    requires
        spec_key_state_wf(s),
        d <= MAX_REPEAT_SETTING,
        r <= MAX_REPEAT_SETTING,
    ensures
        res.0 == spec_repeat_due(s, d as int, r as int, now as int),
        res.1 == spec_after_repeat_query(s, d as int, r as int, now as int),
        spec_key_state_wf(res.1),
{
    match s.went_down_at {
        None => (false, s),
        Some(t0) => {
            if !s.is_down || now < t0 {
                (false, s)
            } else {
                let elapsed: u64 = now - t0;
                if r == 0 {
                    if elapsed >= d {
                        (true, KeyState { last_repeat_at: Some(now), ..s })
                    } else {
                        (false, s)
                    }
                } else if elapsed >= d && elapsed - d >= r {
                    let k: u64 = (elapsed - d) / r;
                    proof {
                        let x = (elapsed - d) as int;
                        let rr = r as int;
                        vstd::arithmetic::div_mod::lemma_remainder_lower(x, rr);
                        assert(rr * (x / rr) == (x / rr) * rr) by (nonlinear_arith);
                        assert(r * k <= elapsed - d);
                    }
                    let slot: u64 = t0 + d + r * k;
                    let fire: bool = match s.last_repeat_at {
                        None => true,
                        Some(lr) => lr < slot,
                    };
                    if fire {
                        (true, KeyState { last_repeat_at: Some(slot), ..s })
                    } else {
                        (false, s)
                    }
                } else {
                    (false, s)
                }
            }
        },
    }
}

/// The per-key state of a window's keyboard, with the repeat timing the host
/// configured.
///
/// The tracker holds one [`KeyState`] per [`Key`], indexed by the key's
/// position in the enumeration.  Raw platform events mutate it through
/// [`on_raw_key_event`](Self::on_raw_key_event); the host polls it between
/// cycle boundaries.
#[derive(Clone, Debug)]
pub struct KeyHandler {
    states: Vec<KeyState>,
    repeat_delay: u64,
    repeat_rate: u64,
}

impl KeyHandler {
    /// The tracked states, one per key in enumeration order.
    pub closed spec fn spec_states(self) -> Seq<KeyState> {
        self.states@
    }

    /// The tracked state of one key.
    pub open spec fn spec_state(self, k: Key) -> KeyState {
        self.spec_states()[spec_key_index(k)]
    }

    /// The configured repeat delay in microseconds.
    pub closed spec fn spec_delay(self) -> u64 {
        self.repeat_delay
    }

    /// The configured repeat rate in microseconds.
    pub closed spec fn spec_rate(self) -> u64 {
        self.repeat_rate
    }

    /// One state per key, each well formed, and the timing settings within
    /// the accepted range.
    pub open spec fn wf(self) -> bool {
        &&& self.spec_states().len() == KEY_COUNT
        &&& forall|i: int|
            0 <= i < KEY_COUNT ==> spec_key_state_wf(#[trigger] self.spec_states()[i])
        &&& self.spec_delay() <= MAX_REPEAT_SETTING
        &&& self.spec_rate() <= MAX_REPEAT_SETTING
    }

    /// A tracker with every key up and the default repeat timing.
    pub fn new() -> (r: KeyHandler)
        ensures
            r.wf(),
            forall|k: Key| #[trigger] r.spec_state(k) == spec_initial_key_state(),
            r.spec_delay() == DEFAULT_KEY_REPEAT_DELAY,
            r.spec_rate() == DEFAULT_KEY_REPEAT_RATE,
    {
        let mut states: Vec<KeyState> = Vec::new();
        let mut i: usize = 0;
        while i < KEY_COUNT
            invariant
                i == states.len(),
                i <= KEY_COUNT,
                forall|j: int| 0 <= j < i ==> #[trigger] states@[j] == spec_initial_key_state(),
            decreases KEY_COUNT - i,
        {
            states.push(
                KeyState {
                    is_down: false,
                    went_down_at: None,
                    last_repeat_at: None,
                    pressed_this_cycle: false,
                    released_this_cycle: false,
                },
            );
            i = i + 1;
        }
        let r = KeyHandler {
            states,
            repeat_delay: DEFAULT_KEY_REPEAT_DELAY,
            repeat_rate: DEFAULT_KEY_REPEAT_RATE,
        };
        proof {
            assert forall|k: Key| #[trigger] r.spec_state(k) == spec_initial_key_state() by {
                lemma_key_index_inverse(k);
            }
        }
        r
    }

    /// Records one raw key event at time `now` (microseconds).
    ///
    /// Only the named key changes, and it changes exactly as
    /// [`spec_on_key_event`] describes: a fresh down edge stamps the time and
    /// the pressed mark, an up edge on a held key clears the timers and sets
    /// the released mark, anything else is ignored.
    pub fn on_raw_key_event(&mut self, key: Key, pressed: bool, now: u64)
        requires
            old(self).wf(),
        ensures
            final(self).wf(),
            final(self).spec_state(key) == spec_on_key_event(old(self).spec_state(key), pressed, now),
            forall|k: Key|
                k != key ==> #[trigger] final(self).spec_state(k) == old(self).spec_state(k),
            final(self).spec_delay() == old(self).spec_delay(),
            final(self).spec_rate() == old(self).spec_rate(),
    {
        let idx = key_index(key);
        let s = self.states[idx];
        if pressed {
            if !s.is_down {
                self.states.set(
                    idx,
                    KeyState {
                        is_down: true,
                        went_down_at: Some(now),
                        last_repeat_at: None,
                        pressed_this_cycle: true,
                        released_this_cycle: s.released_this_cycle,
                    },
                );
            }
        } else {
            if s.is_down {
                self.states.set(
                    idx,
                    KeyState {
                        is_down: false,
                        went_down_at: None,
                        last_repeat_at: None,
                        pressed_this_cycle: s.pressed_this_cycle,
                        released_this_cycle: true,
                    },
                );
            }
        }
        proof {
            assert forall|k: Key|
                k != key implies #[trigger] self.spec_state(k) == old(self).spec_state(k) by {
                lemma_key_index_inverse(k);
                if spec_key_index(k) == idx as int {
                    lemma_key_index_injective(k, key);
                }
            }
        }
    }

    /// Whether `key` is physically down.
    pub fn is_key_down(&self, key: Key) -> (r: bool)
        requires
            self.wf(),
        ensures
            r == self.spec_state(key).is_down,
    {
        let idx = key_index(key);
        self.states[idx].is_down
    }

    /// Whether `key` saw a down edge in the current poll cycle, ignoring
    /// auto-repeat.
    pub fn is_key_edge_pressed(&self, key: Key) -> (r: bool)
        requires
            self.wf(),
        ensures
            r == self.spec_state(key).pressed_this_cycle,
    {
        let idx = key_index(key);
        self.states[idx].pressed_this_cycle
    }

    /// Whether `key` saw an up edge in the current poll cycle.
    pub fn is_key_released(&self, key: Key) -> (r: bool)
        requires
            self.wf(),
        ensures
            r == self.spec_state(key).released_this_cycle,
    {
        let idx = key_index(key);
        self.states[idx].released_this_cycle
    }

    /// Whether `key` counts as pressed at time `now`: true on the cycle that
    /// saw its down edge and, with `KeyRepeat::Yes`, whenever an auto-repeat
    /// fires.  A firing repeat advances the key's repeat bookmark; nothing
    /// else changes.
    pub fn is_key_pressed(&mut self, key: Key, repeat: KeyRepeat, now: u64) -> (r: bool)
        requires
            old(self).wf(),
        ensures
            final(self).wf(),
            r == spec_pressed(
                old(self).spec_state(key),
                repeat,
                old(self).spec_delay() as int,
                old(self).spec_rate() as int,
                now as int,
            ),
            final(self).spec_state(key) == (if repeat == KeyRepeat::Yes {
                spec_after_repeat_query(
                    old(self).spec_state(key),
                    old(self).spec_delay() as int,
                    old(self).spec_rate() as int,
                    now as int,
                )
            } else {
                old(self).spec_state(key)
            }),
            forall|k: Key|
                k != key ==> #[trigger] final(self).spec_state(k) == old(self).spec_state(k),
            final(self).spec_delay() == old(self).spec_delay(),
            final(self).spec_rate() == old(self).spec_rate(),
    {
        let idx = key_index(key);
        let s = self.states[idx];
        let r = match repeat {
            KeyRepeat::No => s.pressed_this_cycle,
            KeyRepeat::Yes => {
                let (due, ns) = check_repeat(s, self.repeat_delay, self.repeat_rate, now);
                if due {
                    self.states.set(idx, ns);
                }
                s.pressed_this_cycle || due
            },
        };
        proof {
            assert forall|k: Key|
                k != key implies #[trigger] self.spec_state(k) == old(self).spec_state(k) by {
                lemma_key_index_inverse(k);
                if spec_key_index(k) == idx as int {
                    lemma_key_index_injective(k, key);
                }
            }
        }
        r
    }

    /// The keys currently down, in enumeration order.
    pub fn get_keys(&self) -> (r: Vec<Key>)
        requires
            self.wf(),
        ensures
            forall|k: Key| #[trigger] r@.contains(k) <==> self.spec_state(k).is_down,
            forall|j1: int, j2: int|
                0 <= j1 < j2 < r@.len() ==> spec_key_index(#[trigger] r@[j1]) < spec_key_index(
                    #[trigger] r@[j2],
                ),
    {
        let mut out: Vec<Key> = Vec::new();
        let mut i: usize = 0;
        while i < KEY_COUNT
            invariant
                self.wf(),
                i <= KEY_COUNT,
                forall|j: int|
                    0 <= j < out@.len() ==> 0 <= spec_key_index(#[trigger] out@[j]) < i,
                forall|j1: int, j2: int|
                    0 <= j1 < j2 < out@.len() ==> spec_key_index(#[trigger] out@[j1])
                        < spec_key_index(#[trigger] out@[j2]),
                forall|k: Key|
                    #[trigger] out@.contains(k) ==> spec_key_index(k) < i && self.spec_state(
                        k,
                    ).is_down,
                forall|k: Key|
                    spec_key_index(k) < i && (#[trigger] self.spec_state(k)).is_down
                        ==> out@.contains(k),
            decreases KEY_COUNT - i,
        {
            if self.states[i].is_down {
                let k = key_at(i);
                let ghost old_out = out@;
                out.push(k);
                proof {
                    assert forall|k2: Key| #[trigger] out@.contains(k2) implies spec_key_index(k2)
                        < i + 1 && self.spec_state(k2).is_down by {
                        if old_out.contains(k2) {
                        } else {
                            assert(out@ == old_out.push(k));
                            let j = choose|j: int| 0 <= j < out@.len() && out@[j] == k2;
                            if j < old_out.len() {
                                assert(old_out[j] == k2);
                                assert(old_out.contains(k2));
                            } else {
                                assert(k2 == k);
                            }
                        }
                    }
                    assert forall|k2: Key|
                        spec_key_index(k2) < i + 1 && (#[trigger] self.spec_state(k2)).is_down
                            implies out@.contains(k2) by {
                        if spec_key_index(k2) < i {
                            assert(old_out.contains(k2));
                            let j = choose|j: int| 0 <= j < old_out.len() && old_out[j] == k2;
                            assert(out@[j] == k2);
                        } else {
                            lemma_key_index_injective(k2, k);
                            assert(out@[out@.len() - 1] == k2);
                        }
                    }
                }
            } else {
                proof {
                    assert forall|k2: Key|
                        spec_key_index(k2) < i + 1 && (#[trigger] self.spec_state(k2)).is_down
                            implies out@.contains(k2) by {
                        if spec_key_index(k2) == i as int {
                            assert(self.spec_states()[i as int].is_down);
                        }
                    }
                }
            }
            i = i + 1;
        }
        proof {
            assert forall|k: Key| #[trigger] self.spec_state(k).is_down implies out@.contains(k) by {
                lemma_key_index_inverse(k);
            }
        }
        out
    }

    /// The keys that saw an up edge in the current poll cycle, in enumeration
    /// order.
    pub fn get_keys_released(&self) -> (r: Vec<Key>)
        requires
            self.wf(),
        ensures
            forall|k: Key|
                #[trigger] r@.contains(k) <==> self.spec_state(k).released_this_cycle,
            forall|j1: int, j2: int|
                0 <= j1 < j2 < r@.len() ==> spec_key_index(#[trigger] r@[j1]) < spec_key_index(
                    #[trigger] r@[j2],
                ),
    {
        let mut out: Vec<Key> = Vec::new();
        let mut i: usize = 0;
        while i < KEY_COUNT
            invariant
                self.wf(),
                i <= KEY_COUNT,
                forall|j: int|
                    0 <= j < out@.len() ==> 0 <= spec_key_index(#[trigger] out@[j]) < i,
                forall|j1: int, j2: int|
                    0 <= j1 < j2 < out@.len() ==> spec_key_index(#[trigger] out@[j1])
                        < spec_key_index(#[trigger] out@[j2]),
                forall|k: Key|
                    #[trigger] out@.contains(k) ==> spec_key_index(k) < i && self.spec_state(
                        k,
                    ).released_this_cycle,
                forall|k: Key|
                    spec_key_index(k) < i && (#[trigger] self.spec_state(
                        k,
                    )).released_this_cycle ==> out@.contains(k),
            decreases KEY_COUNT - i,
        {
            if self.states[i].released_this_cycle {
                let k = key_at(i);
                let ghost old_out = out@;
                out.push(k);
                proof {
                    assert forall|k2: Key| #[trigger] out@.contains(k2) implies spec_key_index(k2)
                        < i + 1 && self.spec_state(k2).released_this_cycle by {
                        if old_out.contains(k2) {
                        } else {
                            let j = choose|j: int| 0 <= j < out@.len() && out@[j] == k2;
                            if j < old_out.len() {
                                assert(old_out[j] == k2);
                                assert(old_out.contains(k2));
                            } else {
                                assert(k2 == k);
                            }
                        }
                    }
                    assert forall|k2: Key|
                        spec_key_index(k2) < i + 1 && (#[trigger] self.spec_state(
                            k2,
                        )).released_this_cycle implies out@.contains(k2) by {
                        if spec_key_index(k2) < i {
                            assert(old_out.contains(k2));
                            let j = choose|j: int| 0 <= j < old_out.len() && old_out[j] == k2;
                            assert(out@[j] == k2);
                        } else {
                            lemma_key_index_injective(k2, k);
                            assert(out@[out@.len() - 1] == k2);
                        }
                    }
                }
            } else {
                proof {
                    assert forall|k2: Key|
                        spec_key_index(k2) < i + 1 && (#[trigger] self.spec_state(
                            k2,
                        )).released_this_cycle implies out@.contains(k2) by {
                        if spec_key_index(k2) == i as int {
                            assert(self.spec_states()[i as int].released_this_cycle);
                        }
                    }
                }
            }
            i = i + 1;
        }
        proof {
            assert forall|k: Key|
                #[trigger] self.spec_state(k).released_this_cycle implies out@.contains(k) by {
                lemma_key_index_inverse(k);
            }
        }
        out
    }

    /// The keys that count as pressed at time `now`, in enumeration order.
    /// With `KeyRepeat::Yes`, every firing auto-repeat advances its key's
    /// repeat bookmark, exactly as one [`is_key_pressed`](Self::is_key_pressed)
    /// call per key would.
    pub fn get_keys_pressed(&mut self, repeat: KeyRepeat, now: u64) -> (r: Vec<Key>)
        requires
            old(self).wf(),
        ensures
            final(self).wf(),
            forall|k: Key|
                #[trigger] r@.contains(k) <==> spec_pressed(
                    old(self).spec_state(k),
                    repeat,
                    old(self).spec_delay() as int,
                    old(self).spec_rate() as int,
                    now as int,
                ),
            forall|j1: int, j2: int|
                0 <= j1 < j2 < r@.len() ==> spec_key_index(#[trigger] r@[j1]) < spec_key_index(
                    #[trigger] r@[j2],
                ),
            forall|k: Key|
                #[trigger] final(self).spec_state(k) == (if repeat == KeyRepeat::Yes {
                    spec_after_repeat_query(
                        old(self).spec_state(k),
                        old(self).spec_delay() as int,
                        old(self).spec_rate() as int,
                        now as int,
                    )
                } else {
                    old(self).spec_state(k)
                }),
            final(self).spec_delay() == old(self).spec_delay(),
            final(self).spec_rate() == old(self).spec_rate(),
    {
        let ghost d = old(self).spec_delay() as int;
        let ghost rt = old(self).spec_rate() as int;
        let mut out: Vec<Key> = Vec::new();
        let mut i: usize = 0;
        while i < KEY_COUNT
            invariant
                self.wf(),
                i <= KEY_COUNT,
                self.spec_delay() == old(self).spec_delay(),
                self.spec_rate() == old(self).spec_rate(),
                d == old(self).spec_delay() as int,
                rt == old(self).spec_rate() as int,
                self.spec_states().len() == KEY_COUNT,
                old(self).spec_states().len() == KEY_COUNT,
                forall|j: int|
                    0 <= j < KEY_COUNT ==> #[trigger] self.spec_states()[j] == (if j < i && repeat
                        == KeyRepeat::Yes {
                        spec_after_repeat_query(old(self).spec_states()[j], d, rt, now as int)
                    } else {
                        old(self).spec_states()[j]
                    }),
                forall|j: int|
                    0 <= j < out@.len() ==> 0 <= spec_key_index(#[trigger] out@[j]) < i,
                forall|j1: int, j2: int|
                    0 <= j1 < j2 < out@.len() ==> spec_key_index(#[trigger] out@[j1])
                        < spec_key_index(#[trigger] out@[j2]),
                forall|k: Key|
                    #[trigger] out@.contains(k) ==> spec_key_index(k) < i && spec_pressed(
                        old(self).spec_state(k),
                        repeat,
                        d,
                        rt,
                        now as int,
                    ),
                forall|k: Key|
                    spec_key_index(k) < i && spec_pressed(
                        #[trigger] old(self).spec_state(k),
                        repeat,
                        d,
                        rt,
                        now as int,
                    ) ==> out@.contains(k),
            decreases KEY_COUNT - i,
        {
            let s = self.states[i];
            let pressed_now: bool = match repeat {
                KeyRepeat::No => s.pressed_this_cycle,
                KeyRepeat::Yes => {
                    let (due, ns) = check_repeat(s, self.repeat_delay, self.repeat_rate, now);
                    if due {
                        self.states.set(i, ns);
                    }
                    s.pressed_this_cycle || due
                },
            };
            if pressed_now {
                let k = key_at(i);
                let ghost old_out = out@;
                out.push(k);
                proof {
                    assert forall|k2: Key| #[trigger] out@.contains(k2) implies spec_key_index(k2)
                        < i + 1 && spec_pressed(
                        old(self).spec_state(k2),
                        repeat,
                        d,
                        rt,
                        now as int,
                    ) by {
                        if old_out.contains(k2) {
                        } else {
                            let j = choose|j: int| 0 <= j < out@.len() && out@[j] == k2;
                            if j < old_out.len() {
                                assert(old_out[j] == k2);
                                assert(old_out.contains(k2));
                            } else {
                                assert(k2 == k);
                            }
                        }
                    }
                    assert forall|k2: Key|
                        spec_key_index(k2) < i + 1 && spec_pressed(
                            #[trigger] old(self).spec_state(k2),
                            repeat,
                            d,
                            rt,
                            now as int,
                        ) implies out@.contains(k2) by {
                        if spec_key_index(k2) < i {
                            assert(old_out.contains(k2));
                            let j = choose|j: int| 0 <= j < old_out.len() && old_out[j] == k2;
                            assert(out@[j] == k2);
                        } else {
                            lemma_key_index_injective(k2, k);
                            assert(out@[out@.len() - 1] == k2);
                        }
                    }
                }
            } else {
                proof {
                    assert forall|k2: Key|
                        spec_key_index(k2) < i + 1 && spec_pressed(
                            #[trigger] old(self).spec_state(k2),
                            repeat,
                            d,
                            rt,
                            now as int,
                        ) implies out@.contains(k2) by {
                        if spec_key_index(k2) == i as int {
                            assert(old(self).spec_state(k2) == old(self).spec_states()[i as int]);
                        }
                    }
                }
            }
            i = i + 1;
        }
        proof {
            assert forall|k: Key|
                spec_pressed(#[trigger] old(self).spec_state(k), repeat, d, rt, now as int)
                    implies out@.contains(k) by {
                lemma_key_index_inverse(k);
            }
            assert forall|k: Key| #[trigger] final(self).spec_state(k) == (if repeat
                == KeyRepeat::Yes {
                spec_after_repeat_query(old(self).spec_state(k), d, rt, now as int)
            } else {
                old(self).spec_state(k)
            }) by {
                lemma_key_index_inverse(k);
            }
        }
        out
    }

    /// Begins a new poll cycle: clears every key's pressed and released
    /// marks and touches nothing else.
    pub fn next_cycle(&mut self)
        requires
            old(self).wf(),
        ensures
            final(self).wf(),
            forall|k: Key|
                #[trigger] final(self).spec_state(k) == spec_next_cycle(old(self).spec_state(k)),
            final(self).spec_delay() == old(self).spec_delay(),
            final(self).spec_rate() == old(self).spec_rate(),
    {
        let mut i: usize = 0;
        while i < KEY_COUNT
            invariant
                self.wf(),
                i <= KEY_COUNT,
                self.spec_delay() == old(self).spec_delay(),
                self.spec_rate() == old(self).spec_rate(),
                old(self).spec_states().len() == KEY_COUNT,
                forall|j: int|
                    0 <= j < KEY_COUNT ==> #[trigger] self.spec_states()[j] == (if j < i {
                        spec_next_cycle(old(self).spec_states()[j])
                    } else {
                        old(self).spec_states()[j]
                    }),
            decreases KEY_COUNT - i,
        {
            let s = self.states[i];
            self.states.set(
                i,
                KeyState { pressed_this_cycle: false, released_this_cycle: false, ..s },
            );
            i = i + 1;
        }
        proof {
            assert forall|k: Key|
                #[trigger] final(self).spec_state(k) == spec_next_cycle(
                    old(self).spec_state(k),
                ) by {
                lemma_key_index_inverse(k);
            }
        }
    }

    /// Releases every held key, as focus loss does: each down key takes an up
    /// edge, keys already up stay untouched.
    pub fn release_all_keys(&mut self)
        requires
            old(self).wf(),
        ensures
            final(self).wf(),
            forall|k: Key|
                #[trigger] final(self).spec_state(k) == spec_release_key(old(self).spec_state(k)),
            final(self).spec_delay() == old(self).spec_delay(),
            final(self).spec_rate() == old(self).spec_rate(),
    {
        let mut i: usize = 0;
        while i < KEY_COUNT
            invariant
                self.wf(),
                i <= KEY_COUNT,
                self.spec_delay() == old(self).spec_delay(),
                self.spec_rate() == old(self).spec_rate(),
                old(self).spec_states().len() == KEY_COUNT,
                forall|j: int|
                    0 <= j < KEY_COUNT ==> #[trigger] self.spec_states()[j] == (if j < i {
                        spec_release_key(old(self).spec_states()[j])
                    } else {
                        old(self).spec_states()[j]
                    }),
            decreases KEY_COUNT - i,
        {
            let s = self.states[i];
            if s.is_down {
                self.states.set(
                    i,
                    KeyState {
                        is_down: false,
                        went_down_at: None,
                        last_repeat_at: None,
                        pressed_this_cycle: s.pressed_this_cycle,
                        released_this_cycle: true,
                    },
                );
            }
            i = i + 1;
        }
        proof {
            assert forall|k: Key|
                #[trigger] final(self).spec_state(k) == spec_release_key(
                    old(self).spec_state(k),
                ) by {
                lemma_key_index_inverse(k);
            }
        }
    }

    /// Sets how long a key must stay down before auto-repeat begins, in
    /// microseconds.
    pub fn set_key_repeat_delay(&mut self, delay: u64)
        requires
            old(self).wf(),
            delay <= MAX_REPEAT_SETTING,
        ensures
            final(self).wf(),
            final(self).spec_delay() == delay,
            final(self).spec_rate() == old(self).spec_rate(),
            final(self).spec_states() == old(self).spec_states(),
    {
        self.repeat_delay = delay;
    }

    /// Sets the pause between two auto-repeats of a held key, in
    /// microseconds.
    pub fn set_key_repeat_rate(&mut self, rate: u64)
        requires
            old(self).wf(),
            rate <= MAX_REPEAT_SETTING,
        ensures
            final(self).wf(),
            final(self).spec_rate() == rate,
            final(self).spec_delay() == old(self).spec_delay(),
            final(self).spec_states() == old(self).spec_states(),
    {
        self.repeat_rate = rate;
    }
}

/// A key's down edge is reported as pressed exactly once per poll cycle.
///
/// Pressing a key that is up marks it pressed for the running cycle; an up
/// edge in the same cycle keeps both the press and the release mark (no
/// debouncing), and the next cycle boundary clears both.  The final clause
/// shows that no event other than a fresh down edge ever sets the press
/// mark, so without repeat counting a press is reported in exactly the one
/// cycle that saw the key's down edge.
pub proof fn lemma_press_reported_once(
    s: KeyState,
    d: int,
    r: int,
    t_down: u64,
    t_up: u64,
    now: int,
)
    requires
        spec_key_state_wf(s),
        !s.is_down,
        !s.pressed_this_cycle,
    ensures
        ({
            let after_down = spec_on_key_event(s, true, t_down);
            let after_up = spec_on_key_event(after_down, false, t_up);
            let next = spec_next_cycle(after_up);
            &&& spec_pressed(after_down, KeyRepeat::No, d, r, now)
            &&& spec_pressed(after_up, KeyRepeat::No, d, r, now)
            &&& after_up.released_this_cycle
            &&& !spec_pressed(next, KeyRepeat::No, d, r, now)
        }),
        forall|t: KeyState, p: bool, n: u64|
            (#[trigger] spec_on_key_event(t, p, n)).pressed_this_cycle == (t.pressed_this_cycle
                || (p && !t.is_down)),
{
}

/// Auto-repeats follow the schedule `t0 + d + r`, `t0 + d + 2 r`, and so on.
///
/// A firing repeat can only happen once the first scheduled time has passed;
/// it stands for the latest scheduled time `slot` not after `now`, records
/// `slot` as the key's bookmark, and the bookmark it replaces was strictly
/// earlier.  Together with [`lemma_repeat_spacing`] this bounds the repeats
/// a key held for a span `T >= d` can report: at most one per scheduled time
/// in the span, that is `1 + (T - d - r) / r` many.
pub proof fn lemma_repeat_schedule(s: KeyState, d: int, r: int, now: int)
    requires
        spec_key_state_wf(s),
        1 <= r,
        0 <= d,
        spec_repeat_due(s, d, r, now),
    ensures
        ({
            let t0 = spec_down_time(s);
            let slot = spec_repeat_slot(t0, d, r, now);
            &&& now >= t0 + d + r
            &&& t0 + d + r <= slot <= now
            &&& exists|k: int| 1 <= k && slot == t0 + d + #[trigger] (r * k)
            &&& (s.last_repeat_at matches Some(lr) ==> (lr as int) < slot)
            &&& spec_repeat_mark(s, d, r, now) == slot
        }),
{
    let t0 = spec_down_time(s);
    let x = now - t0 - d;
    vstd::arithmetic::div_mod::lemma_remainder_lower(x, r);
    assert(r * (x / r) == (x / r) * r) by (nonlinear_arith);
    vstd::arithmetic::div_mod::lemma_div_is_ordered(r, x, r);
    vstd::arithmetic::div_mod::lemma_div_by_self(r);
    assert(x / r >= 1);
    assert(r * (x / r) >= r * 1) by (nonlinear_arith)
        requires
            x / r >= 1,
            r >= 1,
    ;
    let k = x / r;
    assert(1 <= k && spec_repeat_slot(t0, d, r, now) == t0 + d + r * k);
}

/// How many scheduled repeat times of a key that went down at `t0` lie at or
/// before `now`: the repeats are scheduled at `t0 + d + r`, `t0 + d + 2 r`
/// and so on.
pub open spec fn spec_slot_index(t0: int, d: int, r: int, now: int) -> int {
    if now >= t0 + d + r {
        (now - t0 - d) / r
    } else {
        0
    }
}

/// How many of the polls at the given times report a firing auto-repeat,
/// when each firing advances the key's bookmark as a pressed query with
/// repeat counting does.
pub open spec fn spec_repeat_fire_count(s: KeyState, d: int, r: int, polls: Seq<int>) -> int
    decreases polls.len(),
{
    if polls.len() == 0 {
        0
    } else {
        (if spec_repeat_due(s, d, r, polls[0]) {
            1int
        } else {
            0int
        }) + spec_repeat_fire_count(
            spec_after_repeat_query(s, d, r, polls[0]),
            d,
            r,
            polls.subrange(1, polls.len() as int),
        )
    }
}

/// The slot index never decreases as time moves forward.
proof fn lemma_slot_index_monotone(t0: int, d: int, r: int, a: int, b: int)
    requires
        1 <= r,
        a <= b,
    ensures
        spec_slot_index(t0, d, r, a) <= spec_slot_index(t0, d, r, b),
{
    if a >= t0 + d + r {
        vstd::arithmetic::div_mod::lemma_div_is_ordered(a - t0 - d, b - t0 - d, r);
    } else if b >= t0 + d + r {
        vstd::arithmetic::div_mod::lemma_div_pos_is_pos(b - t0 - d, r);
    }
}

/// Moving forward by at most one rate interval raises the slot index by at
/// most one: polls at least that dense never skip a scheduled repeat.
proof fn lemma_slot_index_step(t0: int, d: int, r: int, a: int, b: int)
    requires
        1 <= r,
        a <= b <= a + r,
    ensures
        spec_slot_index(t0, d, r, b) <= spec_slot_index(t0, d, r, a) + 1,
{
    if b >= t0 + d + r {
        if a >= t0 + d + r {
            vstd::arithmetic::div_mod::lemma_div_is_ordered(b - t0 - d, a - t0 - d + r, r);
            vstd::arithmetic::div_mod::lemma_div_plus_one(a - t0 - d, r);
        } else {
            // b < a + r + ... : b - t0 - d < 2 r, so its quotient is at most 1.
            assert(b - t0 - d < r * 2) by (nonlinear_arith)
                requires
                    b <= a + r,
                    a < t0 + d + r,
            ;
            vstd::arithmetic::div_mod::lemma_multiply_divide_lt(b - t0 - d, r, 2);
        }
    }
}

/// The counting law behind delay-then-rate auto-repeat.
///
/// Take a key that is down since `t0` whose bookmark stands at scheduled
/// repeat `k0` (`k0 == 0` for none yet), and any strictly increasing polls
/// no further than one rate interval apart whose first poll has not skipped
/// past slot `k0 + 1`.  Then the number of polls that report a firing
/// repeat is exactly the number of scheduled repeat times the polls crossed:
/// the slot index of the last poll minus `k0`.  In particular a key held
/// from its down edge (`k0 == 0`) for a span `T = last - t0 >= d` yields
/// exactly `(T - d) / r` firing repeats — which, together with the one
/// edge press, is the classic `1 + (T - d) / r` pressed observations.
pub proof fn lemma_repeat_fire_count(t0: u64, d: int, r: int, k0: int, s: KeyState, polls: Seq<int>)
    requires
        1 <= r,
        0 <= d,
        s.is_down,
        s.went_down_at == Some(t0),
        0 <= k0,
        k0 == 0 ==> s.last_repeat_at is None,
        k0 >= 1 ==> t0 + d + r * k0 <= u64::MAX && s.last_repeat_at == Some(
            (t0 + d + r * k0) as u64,
        ),
        forall|i: int| 0 <= i < polls.len() ==> 0 <= #[trigger] polls[i] <= u64::MAX,
        forall|i: int|
            0 <= i < polls.len() - 1 ==> #[trigger] polls[i] < polls[i + 1] && polls[i + 1]
                <= polls[i] + r,
        polls.len() > 0 ==> spec_slot_index(t0 as int, d, r, polls[0]) <= k0 + 1,
    ensures
        spec_repeat_fire_count(s, d, r, polls) == (if polls.len() == 0 {
            0int
        } else {
            let klast = spec_slot_index(t0 as int, d, r, polls[polls.len() - 1]);
            if klast >= k0 {
                klast - k0
            } else {
                0int
            }
        }),
        polls.len() > 0 ==> spec_slot_index(t0 as int, d, r, polls[polls.len() - 1])
            >= spec_slot_index(t0 as int, d, r, polls[0]),
    decreases polls.len(),
{
    if polls.len() == 0 {
        return ;
    }
    let p = polls[0];
    let k1 = spec_slot_index(t0 as int, d, r, p);
    let rest = polls.subrange(1, polls.len() as int);
    let due = spec_repeat_due(s, d, r, p);
    let s1 = spec_after_repeat_query(s, d, r, p);
    if due {
        // A fire lands exactly on the next scheduled slot.
        assert(p >= t0 + d + r);
        if k0 >= 1 {
            assert(r * k0 >= 0) by (nonlinear_arith)
                requires
                    r >= 1,
                    k0 >= 0,
            ;
            let lrv = (t0 + d + r * k0) as u64;
            assert((lrv as int) == t0 + d + r * k0);
            assert((lrv as int) < spec_repeat_slot(t0 as int, d, r, p));
            assert(k0 < (p - t0 - d) / r) by (nonlinear_arith)
                requires
                    r >= 1,
                    t0 + d + r * k0 < t0 + d + r * ((p - t0 - d) / r),
            ;
        } else {
            vstd::arithmetic::div_mod::lemma_div_is_ordered(r, p - t0 - d, r);
            vstd::arithmetic::div_mod::lemma_div_by_self(r);
        }
        assert(k1 == k0 + 1);
        assert(spec_repeat_mark(s, d, r, p) == (t0 as int) + d + r * k1);
        // The new bookmark is within range: it lies at or before the poll.
        vstd::arithmetic::div_mod::lemma_remainder_lower(p - (t0 as int) - d, r);
        assert(r * ((p - (t0 as int) - d) / r) == ((p - (t0 as int) - d) / r) * r)
            by (nonlinear_arith);
        assert((t0 as int) + d + r * k1 <= p);
        assert(s1.last_repeat_at == Some(((t0 as int) + d + r * k1) as u64));
        assert(s1.is_down && s1.went_down_at == Some(t0));
        if rest.len() > 0 {
            lemma_slot_index_step(t0 as int, d, r, p, polls[1]);
            lemma_repeat_fire_count(t0, d, r, k1, s1, rest);
            assert(rest[rest.len() - 1] == polls[polls.len() - 1]);
            assert(rest[0] == polls[1]);
            lemma_slot_index_monotone(t0 as int, d, r, p, polls[1]);
            let klast = spec_slot_index(t0 as int, d, r, polls[polls.len() - 1]);
            assert(klast >= k1);
            assert(spec_repeat_fire_count(s1, d, r, rest) == klast - k1);
            assert(spec_repeat_fire_count(s, d, r, polls) == 1 + spec_repeat_fire_count(
                s1,
                d,
                r,
                rest,
            ));
            assert(spec_repeat_fire_count(s, d, r, polls) == klast - k0);
        } else {
            assert(polls.len() == 1);
            assert(spec_repeat_fire_count(s1, d, r, rest) == 0);
            assert(spec_repeat_fire_count(s, d, r, polls) == 1);
            assert(spec_slot_index(t0 as int, d, r, polls[polls.len() - 1]) == k1);
        }
    } else {
        assert(s1 == s);
        // Nothing fired: the poll's slot index cannot exceed the bookmark.
        if k0 >= 1 {
            if k1 > k0 {
                assert(p >= t0 + d + r);
                assert(t0 + d + r * k0 < t0 + d + r * k1) by (nonlinear_arith)
                    requires
                        r >= 1,
                        k0 < k1,
                ;
                assert(spec_repeat_due(s, d, r, p));
            }
            assert(k1 <= k0);
        } else {
            assert(k1 == 0) by {
                if p >= t0 + d + r {
                    vstd::arithmetic::div_mod::lemma_div_is_ordered(r, p - t0 - d, r);
                    vstd::arithmetic::div_mod::lemma_div_by_self(r);
                    assert(spec_repeat_due(s, d, r, p));
                }
            }
        }
        if rest.len() > 0 {
            lemma_slot_index_step(t0 as int, d, r, p, polls[1]);
            lemma_slot_index_monotone(t0 as int, d, r, p, polls[1]);
            lemma_repeat_fire_count(t0, d, r, k0, s, rest);
            assert(rest[rest.len() - 1] == polls[polls.len() - 1]);
            assert(rest[0] == polls[1]);
            let klast = spec_slot_index(t0 as int, d, r, polls[polls.len() - 1]);
            assert(spec_repeat_fire_count(s, d, r, polls) == spec_repeat_fire_count(s1, d, r, rest));
            assert(spec_repeat_fire_count(s1, d, r, rest) == (if klast >= k0 {
                klast - k0
            } else {
                0int
            }));
        } else {
            assert(k1 <= k0);
            assert(spec_repeat_fire_count(s1, d, r, rest) == 0);
            assert(spec_repeat_fire_count(s, d, r, polls) == 0);
            assert(spec_slot_index(t0 as int, d, r, polls[polls.len() - 1]) == k1);
        }
    }
}

/// Two distinct scheduled repeat times lie at least one repeat interval
/// apart, so two firings of the auto-repeat are never closer than the
/// configured rate.
pub proof fn lemma_repeat_spacing(t0: int, d: int, r: int, k1: int, k2: int)
    requires
        1 <= r,
        k1 < k2,
    ensures
        t0 + d + r * k2 >= (t0 + d + r * k1) + r,
{
    assert(r * k2 >= r * k1 + r) by (nonlinear_arith)
        requires
            r >= 1,
            k1 < k2,
    ;
}

} // verus!
