//! Wraparound-safe millisecond arithmetic and the debounce state machine.

use vstd::prelude::*;

verus! {

/// Elapsed milliseconds between an earlier counter reading `last_time` and a
/// current reading `millis`, on a 32-bit counter that wraps silently to zero.
///
/// This is the modular difference `millis - last_time (mod 2^32)`: exact as
/// long as the true elapsed time does not exceed one full counter period.
pub open spec fn spec_elapsed(millis: u32, last_time: u32) -> int {
    if millis >= last_time {
        millis - last_time
    } else {
        (u32::MAX - last_time) + millis + 1
    }
}

/// Wraparound-safe subtraction of two millisecond counter readings.
pub fn sub_handle_overflow(millis: u32, last_time: u32) -> (r: u32)
    ensures
        r == spec_elapsed(millis, last_time),
{
    if millis >= last_time {
        millis - last_time
    } else {
        (u32::MAX - last_time) + millis + 1
    }
}

/// Advances the millisecond counter by one, wrapping silently back to zero
/// after its maximum value. On the device this runs once per periodic timer
/// interrupt, under exclusion against the dispatch loop's reads.
pub fn tick(counter: u32) -> (r: u32)
    ensures
        counter < u32::MAX ==> r == counter + 1,
        counter == u32::MAX ==> r == 0,
{
    counter.wrapping_add(1)
}

/// Law: for every earlier reading `t0` and true elapsed tick count `d` that
/// fits in the counter, the wraparound-safe elapsed computation applied to
/// the reading `d` ticks later returns exactly `d`, including across the
/// wrap boundary.
pub proof fn lemma_elapsed_exact(t0: u32, d: u32)
    ensures
        spec_elapsed(((t0 + d) % 0x1_0000_0000) as u32, t0) == d,
{
}

/// The default timeout threshold in milliseconds: the longest a debouncing
/// episode may last before a contrary raw sample rejects it as noise.
pub const DEFAULT_TIMEOUT_MS: u32 = 20;

/// The four states of the debounce machine. Transitions form a directed
/// cycle `Off -> DebouncingOn -> On -> DebouncingOff -> Off`, with the two
/// timeout escapes `DebouncingOn -> Off` and `DebouncingOff -> On`; no other
/// transition is legal.
#[derive(Clone, Copy, Debug, PartialEq, Eq)]
pub enum DebounceState {
    Off,
    DebouncingOff,
    DebouncingOn,
    On,
}

/// A debounced switch: raw boolean samples plus millisecond timestamps go
/// in, a stable boolean state comes out.
#[derive(Clone, Copy, Debug)]
pub struct Button {
    /// Confirmation threshold: a raw level must persist strictly longer than
    /// this many milliseconds before it becomes the stable state.
    pub debounce_time: u32,
    /// Timeout threshold: once a debouncing episode has lasted strictly
    /// longer than this, a contrary raw sample abandons the episode.
    pub debounce_max: u32,
    /// Current state of the debounce machine.
    pub debounce_state: DebounceState,
    /// The stable (confirmed) state.
    pub state: bool,
    /// Snapshot of `state` taken at the start of the most recent poll, so a
    /// caller can detect a confirmed edge as `state != last_state`.
    pub last_state: bool,
    /// Flips on every confirmed activation, never on a deactivation.
    pub toggle_state: bool,
    /// Counter reading when the current debouncing-on episode began.
    pub last_on: u32,
    /// Counter reading when the current debouncing-off episode began.
    pub last_off: u32,
}

/// The complete transition function of one poll: `pre` is the machine before
/// the call, `raw` the raw sample (true = input asserted), `millis` the
/// current counter reading.
pub open spec fn spec_poll(pre: Button, raw: bool, millis: u32) -> Button {
    let snap = Button { last_state: pre.state, ..pre };
    match pre.debounce_state {
        DebounceState::Off => {
            if raw {
                Button { debounce_state: DebounceState::DebouncingOn, last_on: millis, ..snap }
            } else {
                snap
            }
        },
        DebounceState::DebouncingOn => {
            if raw && spec_elapsed(millis, pre.last_on) > pre.debounce_time {
                Button {
                    debounce_state: DebounceState::On,
                    state: true,
                    toggle_state: !pre.toggle_state,
                    ..snap
                }
            } else if !raw && spec_elapsed(millis, pre.last_on) > pre.debounce_max {
                Button { debounce_state: DebounceState::Off, ..snap }
            } else {
                snap
            }
        },
        DebounceState::On => {
            if !raw {
                Button { debounce_state: DebounceState::DebouncingOff, last_off: millis, ..snap }
            } else {
                snap
            }
        },
        DebounceState::DebouncingOff => {
            if !raw && spec_elapsed(millis, pre.last_off) > pre.debounce_time {
                Button { debounce_state: DebounceState::Off, state: false, ..snap }
            } else if raw && spec_elapsed(millis, pre.last_off) > pre.debounce_max {
                Button { debounce_state: DebounceState::On, ..snap }
            } else {
                snap
            }
        },
    }
}

impl Button {
    /// A fresh machine in `Off` with the given confirmation threshold and the
    /// default timeout threshold. The timeout threshold must be at least the
    /// confirmation threshold, or a level could never be confirmed: the
    /// precondition enforces that ordering at construction.
    pub fn new(debounce_time: u32) -> (r: Button)
        requires
            debounce_time <= DEFAULT_TIMEOUT_MS,
        ensures
            r == (Button {
                debounce_time,
                debounce_max: DEFAULT_TIMEOUT_MS,
                debounce_state: DebounceState::Off,
                state: false,
                last_state: false,
                toggle_state: false,
                last_on: 0,
                last_off: 0,
            }),
    {
        Button {
            debounce_time,
            debounce_max: DEFAULT_TIMEOUT_MS,
            debounce_state: DebounceState::Off,
            state: false,
            last_state: false,
            toggle_state: false,
            last_on: 0,
            last_off: 0,
        }
    }

    /// One debounce step: snapshots the stable state into `last_state`, then
    /// takes at most one transition of the machine, as [`spec_poll`] says.
    pub fn poll(&mut self, raw: bool, millis: u32)
        ensures
            *final(self) == spec_poll(*old(self), raw, millis),
    {
        let last_on_delta = sub_handle_overflow(millis, self.last_on);
        let last_off_delta = sub_handle_overflow(millis, self.last_off);
        self.last_state = self.state;

        match self.debounce_state {
            DebounceState::Off => {
                if raw {
                    self.debounce_state = DebounceState::DebouncingOn;
                    self.last_on = millis;
                }
            },
            DebounceState::DebouncingOff => {
                if !raw && last_off_delta > self.debounce_time {
                    self.debounce_state = DebounceState::Off;
                    self.state = false;
                }
                if raw && last_off_delta > self.debounce_max {
                    self.debounce_state = DebounceState::On;
                }
            },
            DebounceState::DebouncingOn => {
                if raw && last_on_delta > self.debounce_time {
                    self.debounce_state = DebounceState::On;
                    self.state = true;
                    self.toggle_state = !self.toggle_state;
                }
                if !raw && last_on_delta > self.debounce_max {
                    self.debounce_state = DebounceState::Off;
                }
            },
            DebounceState::On => {
                if !raw {
                    self.debounce_state = DebounceState::DebouncingOff;
                    self.last_off = millis;
                }
            },
        }
    }

    /// The stable state.
    pub fn state(&self) -> (r: bool)
        ensures
            r == self.state,
    {
        self.state
    }

    /// The stable state as it was at the start of the most recent poll.
    pub fn last_state(&self) -> (r: bool)
        ensures
            r == self.last_state,
    {
        self.last_state
    }

    /// The toggle flag: has flipped once per confirmed activation.
    pub fn toggle_state(&self) -> (r: bool)
        ensures
            r == self.toggle_state,
    {
        self.toggle_state
    }
}

/// The machine after a run of polls: poll `i` feeds in the raw sample
/// `raws[i]` at counter reading `times[i]`.
pub open spec fn spec_poll_seq(pre: Button, raws: Seq<bool>, times: Seq<u32>) -> Button
    decreases raws.len(),
{
    if raws.len() == 0 || times.len() == 0 {
        pre
    } else {
        spec_poll_seq(spec_poll(pre, raws[0], times[0]), raws.skip(1), times.skip(1))
    }
}

/// A run of polls in which the raw sample is asserted throughout.
pub open spec fn all_asserted(n: nat) -> Seq<bool> {
    Seq::new(n, |i: int| true)
}

/// Helper: from `On`, polls with the raw sample asserted change nothing but
/// the `last_state` snapshot.
proof fn lemma_hold_keeps_on(pre: Button, raws: Seq<bool>, times: Seq<u32>)
    requires
        pre.debounce_state == DebounceState::On,
        raws.len() == times.len(),
        forall|i: int| 0 <= i < raws.len() ==> raws[i],
    ensures
        spec_poll_seq(pre, raws, times).debounce_state == DebounceState::On,
        spec_poll_seq(pre, raws, times).state == pre.state,
        spec_poll_seq(pre, raws, times).toggle_state == pre.toggle_state,
    decreases raws.len(),
{
    if raws.len() > 0 {
        lemma_hold_keeps_on(spec_poll(pre, raws[0], times[0]), raws.skip(1), times.skip(1));
    }
}

/// Helper: from `DebouncingOn`, a run of asserted polls whose last reading
/// lies past the confirmation threshold of the recorded episode start ends in
/// `On` with the stable state true and the toggle flag flipped once.
proof fn lemma_hold_confirms_from_debouncing(pre: Button, raws: Seq<bool>, times: Seq<u32>)
    requires
        pre.debounce_state == DebounceState::DebouncingOn,
        raws.len() == times.len(),
        raws.len() >= 1,
        forall|i: int| 0 <= i < raws.len() ==> raws[i],
        spec_elapsed(times[times.len() - 1], pre.last_on) > pre.debounce_time,
    ensures
        spec_poll_seq(pre, raws, times).debounce_state == DebounceState::On,
        spec_poll_seq(pre, raws, times).state == true,
        spec_poll_seq(pre, raws, times).toggle_state == !pre.toggle_state,
    decreases raws.len(),
{
    let next = spec_poll(pre, raws[0], times[0]);
    if spec_elapsed(times[0], pre.last_on) > pre.debounce_time {
        lemma_hold_keeps_on(next, raws.skip(1), times.skip(1));
    } else {
        lemma_hold_confirms_from_debouncing(next, raws.skip(1), times.skip(1));
    }
}

/// Law: from `Off`, holding the raw sample asserted across a run of polls
/// whose total duration lies strictly between the confirmation threshold and
/// the timeout threshold confirms `On` exactly once: the run ends in `On`
/// with the stable state true, and the toggle flag has flipped exactly once.
pub proof fn lemma_hold_confirms_once(pre: Button, times: Seq<u32>)
    requires
        pre.debounce_state == DebounceState::Off,
        times.len() >= 2,
        spec_elapsed(times[times.len() - 1], times[0]) > pre.debounce_time,
        spec_elapsed(times[times.len() - 1], times[0]) < pre.debounce_max,
    ensures
        spec_poll_seq(pre, all_asserted(times.len()), times).debounce_state
            == DebounceState::On,
        spec_poll_seq(pre, all_asserted(times.len()), times).state == true,
        spec_poll_seq(pre, all_asserted(times.len()), times).toggle_state
            == !pre.toggle_state,
{
    let raws = all_asserted(times.len());
    let next = spec_poll(pre, raws[0], times[0]);
    assert(next.debounce_state == DebounceState::DebouncingOn && next.last_on == times[0]);
    assert(times.skip(1)[times.len() - 2] == times[times.len() - 1]);
    lemma_hold_confirms_from_debouncing(next, raws.skip(1), times.skip(1));
}

/// Every asserted sample of the run arrives while the current debouncing-on
/// episode, measured from its recorded start, is still within the
/// confirmation threshold: each bounce is too short to confirm.
pub open spec fn episodes_short(pre: Button, raws: Seq<bool>, times: Seq<u32>) -> bool
    decreases raws.len(),
{
    if raws.len() == 0 || times.len() == 0 {
        true
    } else {
        &&& (pre.debounce_state == DebounceState::DebouncingOn && raws[0]
            ==> spec_elapsed(times[0], pre.last_on) <= pre.debounce_time)
        &&& episodes_short(spec_poll(pre, raws[0], times[0]), raws.skip(1), times.skip(1))
    }
}

/// Law: from `Off`, a run of polls whose asserted episodes are each too short
/// to reach the confirmation threshold never confirms `On`: the machine stays
/// in `Off` or `DebouncingOn`, and the stable state and the toggle flag are
/// unchanged.
pub proof fn lemma_short_bounces_never_confirm(pre: Button, raws: Seq<bool>, times: Seq<u32>)
    requires
        pre.debounce_state == DebounceState::Off || pre.debounce_state
            == DebounceState::DebouncingOn,
        raws.len() == times.len(),
        episodes_short(pre, raws, times),
    ensures
        spec_poll_seq(pre, raws, times).debounce_state == DebounceState::Off
            || spec_poll_seq(pre, raws, times).debounce_state == DebounceState::DebouncingOn,
        spec_poll_seq(pre, raws, times).state == pre.state,
        spec_poll_seq(pre, raws, times).toggle_state == pre.toggle_state,
    decreases raws.len(),
{
    if raws.len() > 0 {
        lemma_short_bounces_never_confirm(
            spec_poll(pre, raws[0], times[0]),
            raws.skip(1),
            times.skip(1),
        );
    }
}

/// Law: once a debouncing-on episode has lasted strictly longer than the
/// timeout threshold without confirming, a de-asserted raw sample returns the
/// machine from `DebouncingOn` to `Off`, rejecting the bounce as noise: the
/// stable state and the toggle flag are unchanged.
pub proof fn lemma_timeout_rejects_bounce(pre: Button, millis: u32)
    requires
        pre.debounce_state == DebounceState::DebouncingOn,
        spec_elapsed(millis, pre.last_on) > pre.debounce_max,
    ensures
        spec_poll(pre, false, millis).debounce_state == DebounceState::Off,
        spec_poll(pre, false, millis).state == pre.state,
        spec_poll(pre, false, millis).toggle_state == pre.toggle_state,
{
}

/// Law: polling is idempotent under an unchanged raw sample and a
/// non-advancing counter. After one poll, repeating the same poll changes
/// neither the debounce state, nor the stable state, nor the toggle flag.
pub proof fn lemma_poll_idempotent(pre: Button, raw: bool, millis: u32)
    ensures
        spec_poll(spec_poll(pre, raw, millis), raw, millis).debounce_state
            == spec_poll(pre, raw, millis).debounce_state,
        spec_poll(spec_poll(pre, raw, millis), raw, millis).state
            == spec_poll(pre, raw, millis).state,
        spec_poll(spec_poll(pre, raw, millis), raw, millis).toggle_state
            == spec_poll(pre, raw, millis).toggle_state,
{
}

} // verus!
