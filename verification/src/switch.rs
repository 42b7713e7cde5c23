//! Momentary switches polled against a monotonic clock.
//!
//! A switch maps each raw sampled line level through a polarity policy fixed
//! at construction, detects press/release edges between consecutive polls,
//! and keeps duration bookkeeping for the current and the previous state.

use core::marker::PhantomData;

use vstd::prelude::*;

use crate::duration_since;
use crate::spec_duration_since;

verus! {

/// The polarity policy: how a raw sampled line level maps to the logical
/// "pressed" state. Selected at construction through the type parameter of
/// [`PinSwitch`] and never mutated afterwards.
pub trait PressedState {
    /// The logical pressed state a raw level denotes, as a specification.
    spec fn spec_pressed(raw_level: bool) -> bool;

    /// Maps a raw sampled level to the logical pressed state.
    fn get_pressed_state(raw_level: bool) -> (r: bool)
        ensures
            r == Self::spec_pressed(raw_level),
    ;
}

/// The switch is pressed while the line is high.
pub struct PressedOnHigh {}

/// The switch is pressed while the line is low.
pub struct PressedOnLow {}

impl PressedState for PressedOnHigh {
    open spec fn spec_pressed(raw_level: bool) -> bool {
        raw_level
    }

    fn get_pressed_state(raw_level: bool) -> bool {
        raw_level
    }
}

impl PressedState for PressedOnLow {
    open spec fn spec_pressed(raw_level: bool) -> bool {
        !raw_level
    }

    fn get_pressed_state(raw_level: bool) -> bool {
        !raw_level
    }
}

/// A momentary switch bound to one digital input line, with edge detection
/// and duration bookkeeping across a polling loop.
///
/// The line and the clock live with the caller: each poll takes the raw level
/// just sampled from the line and the sampling timestamp in milliseconds,
/// propagation of a sampling fault being the caller's business.
pub struct PinSwitch<S: PressedState> {
    /// The logical state as of the last poll.
    pub is_pressed: bool,
    /// Whether the last poll observed a transition; reflects only the most
    /// recent poll, it is not sticky.
    pub has_changed: bool,
    /// When the current state began (the epoch until the first transition).
    pub last_change_at: u64,
    /// How long the previous state lasted, in milliseconds.
    pub prev_state_lasted: u64,
    /// Carrier of the polarity policy chosen at construction.
    pub pressed_state: PhantomData<S>,
}

/// One poll step of the switch state machine: `raw_level` was sampled at
/// `now`.
///
/// An unchanged logical state only clears `has_changed`; a transition records
/// how long the completed state lasted (`now - last_change_at`, saturating to
/// zero when `now` does not follow `last_change_at`), flips `is_pressed`,
/// restarts the current state at `now` and sets `has_changed`.
pub open spec fn spec_switch_poll<S: PressedState>(
    pre: PinSwitch<S>,
    raw_level: bool,
    now: u64,
) -> PinSwitch<S> {
    let pressed = S::spec_pressed(raw_level);
    if pressed == pre.is_pressed {
        PinSwitch { has_changed: false, ..pre }
    } else {
        PinSwitch {
            is_pressed: pressed,
            has_changed: true,
            last_change_at: now,
            prev_state_lasted: match spec_duration_since(now, pre.last_change_at) {
                Some(d) => d,
                None => 0,
            },
            pressed_state: pre.pressed_state,
        }
    }
}

/// The initial, zeroed switch state `reset` returns a switch to: released,
/// no transition observed, both durations measured from the epoch.
pub open spec fn spec_switch_reset<S: PressedState>(pre: PinSwitch<S>) -> PinSwitch<S> {
    PinSwitch {
        is_pressed: false,
        has_changed: false,
        last_change_at: 0,
        prev_state_lasted: 0,
        pressed_state: pre.pressed_state,
    }
}

/// How long the switch had been pressed, answered only while it is currently
/// released; `None` while pressed.
pub open spec fn spec_pressed_for<S: PressedState>(s: PinSwitch<S>) -> Option<u64> {
    if s.is_pressed {
        None
    } else {
        Some(s.prev_state_lasted)
    }
}

/// How long the switch had been released, answered only while it is currently
/// pressed; `None` while released.
pub open spec fn spec_released_for<S: PressedState>(s: PinSwitch<S>) -> Option<u64> {
    if s.is_pressed {
        Some(s.prev_state_lasted)
    } else {
        None
    }
}

impl<S: PressedState> PinSwitch<S> {
    /// A fresh switch in the initial zeroed state: released, no transition
    /// observed, the epoch as baseline.
    pub fn new() -> (r: PinSwitch<S>)
        ensures
            !r.is_pressed,
            !r.has_changed,
            r.last_change_at == 0,
            r.prev_state_lasted == 0,
    {
        PinSwitch {
            is_pressed: false,
            has_changed: false,
            last_change_at: 0,
            prev_state_lasted: 0,
            pressed_state: PhantomData,
        }
    }

    /// Advances the switch state machine with the raw level sampled at `now`,
    /// as [`spec_switch_poll`] states.
    ///
    /// Must be called at regular enough intervals: edges shorter than the
    /// poll cadence go unseen.
    pub fn poll(&mut self, raw_level: bool, now: u64)
        ensures
            *final(self) == spec_switch_poll(*old(self), raw_level, now),
    {
        let new_state: bool = S::get_pressed_state(raw_level);
        if new_state == self.is_pressed {
            self.has_changed = false;
            return;
        }
        self.prev_state_lasted = match duration_since(now, self.last_change_at) {
            Some(d) => d,
            None => 0,
        };
        self.is_pressed = new_state;
        self.has_changed = true;
        self.last_change_at = now;
    }

    /// Whether the most recent poll observed a transition.
    pub fn has_changed(&self) -> (r: bool)
        ensures
            r == self.has_changed,
    {
        self.has_changed
    }

    /// Whether the switch is in the pressed state.
    pub fn is_pressed(&self) -> (r: bool)
        ensures
            r == self.is_pressed,
    {
        self.is_pressed
    }

    /// Whether the switch is in the released state.
    pub fn is_released(&self) -> (r: bool)
        ensures
            r == !self.is_pressed,
    {
        !self.is_pressed
    }

    /// How long the switch had been pressed.
    ///
    /// Only meaningful immediately after a poll that just transitioned into
    /// the released state: it answers "how long was it pressed" and is valid
    /// only while the switch is currently released — at a later release-state
    /// poll it still reports the last completed state, which by then may be a
    /// released phase. Returns `None` while the switch is pressed. This
    /// asymmetric, current-state-gated reading is deliberate and must not be
    /// broadened to "time since the last press".
    pub fn pressed_for(&self) -> (r: Option<u64>)
        ensures
            r == spec_pressed_for(*self),
    {
        if !self.is_pressed {
            Some(self.prev_state_lasted)
        } else {
            None
        }
    }

    /// How long the switch had been released.
    ///
    /// The mirror of [`Self::pressed_for`]: only meaningful immediately after
    /// a poll that just transitioned into the pressed state, and `None` while
    /// the switch is released.
    pub fn released_for(&self) -> (r: Option<u64>)
        ensures
            r == spec_released_for(*self),
    {
        if self.is_pressed {
            Some(self.prev_state_lasted)
        } else {
            None
        }
    }

    /// How long the previous, completed state lasted; answered
    /// unconditionally.
    pub fn prev_state_lasted_for(&self) -> (r: u64)
        ensures
            r == self.prev_state_lasted,
    {
        self.prev_state_lasted
    }

    /// How long the current state has been held so far: the milliseconds from
    /// the last transition to `now`, usable at any time. `None` when `now`
    /// precedes the last transition (a non-monotonic timestamp), rather than
    /// a crash.
    pub fn current_state(&self, now: u64) -> (r: Option<u64>)
        ensures
            r == spec_duration_since(now, self.last_change_at),
    {
        duration_since(now, self.last_change_at)
    }

    /// Returns the switch to the initial zeroed state, without touching
    /// hardware.
    pub fn reset(&mut self)
        ensures
            *final(self) == spec_switch_reset(*old(self)),
    {
        self.last_change_at = 0;
        self.prev_state_lasted = 0;
        self.has_changed = false;
        self.is_pressed = false;
    }
}

/// A raw level that maps to the logical state the switch is already in leaves
/// every part of the state as it was — in particular `prev_state_lasted` —
/// except `has_changed`, which the poll clears.
pub proof fn lemma_poll_unchanged_level<S: PressedState>(
    pre: PinSwitch<S>,
    raw_level: bool,
    now: u64,
)
    requires
        S::spec_pressed(raw_level) == pre.is_pressed,
    ensures
        spec_switch_poll(pre, raw_level, now) == (PinSwitch { has_changed: false, ..pre }),
{
}

/// After the poll that observes a release at `t1` of a switch pressed since
/// `t0`, `pressed_for` answers the completed press length `t1 - t0` and
/// `released_for` answers nothing.
pub proof fn lemma_release_transition<S: PressedState>(
    pre: PinSwitch<S>,
    raw_level: bool,
    t0: u64,
    t1: u64,
)
    requires
        pre.is_pressed,
        pre.last_change_at == t0,
        !S::spec_pressed(raw_level),
        t0 <= t1,
    ensures
        spec_switch_poll(pre, raw_level, t1).has_changed,
        spec_pressed_for(spec_switch_poll(pre, raw_level, t1)) == Some((t1 - t0) as u64),
        spec_released_for(spec_switch_poll(pre, raw_level, t1)) is None,
{
}

/// Whatever the prior state, right after a reset the switch reads as released
/// and its current state has been held since the epoch: `current_state` at
/// `now` answers `now` itself.
pub proof fn lemma_reset_baseline<S: PressedState>(pre: PinSwitch<S>, now: u64)
    ensures
        !spec_switch_reset(pre).is_pressed,
        spec_duration_since(now, spec_switch_reset(pre).last_change_at) == Some(now),
{
}

} // verus!
