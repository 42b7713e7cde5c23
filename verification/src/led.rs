//! Indicator devices and their timed visual effects.
//!
//! An effect is a value the caller builds, optionally bounds with a total
//! duration, and installs on a [`PinLed`]; from then on only the device's
//! poll step mutates it, until the device clears it (explicitly or because it
//! expired).

use vstd::prelude::*;

use crate::duration_since;
use crate::spec_duration_since;

verus! {

/// The kind of a timed visual effect.
#[derive(Copy, Clone, Debug, PartialEq, Eq)]
pub enum EffectType {
    /// A single, non-repeating on-phase lasting the given number of
    /// milliseconds.
    Pulse(u64),
    /// A repeating on/off toggle whose toggle period is the given number of
    /// milliseconds.
    Blink(u64),
}

/// A timed visual effect together with the timing checkpoints the poll step
/// keeps while the effect runs.
///
/// `started_at` is `None` exactly until the first poll that processes the
/// effect; `current_cycle_started_at` is reset every time a blink toggles;
/// `duration`, when set, bounds the effect's whole lifetime whatever its
/// kind.
#[derive(Copy, Clone, Debug, PartialEq, Eq)]
pub struct LedEffect {
    /// When the running cycle started; `None` until the effect is started.
    pub current_cycle_started_at: Option<u64>,
    /// When the first poll processed this effect; `None` until then.
    pub started_at: Option<u64>,
    /// Optional bound on the effect's entire lifetime, in milliseconds.
    pub duration: Option<u64>,
    /// What the effect does.
    pub fx_type: EffectType,
}

/// Milliseconds since the effect started; `None` when it has not started or
/// when `now` precedes the start.
pub open spec fn spec_time_elapsed(fx: LedEffect, now: u64) -> Option<u64> {
    match fx.started_at {
        Some(s) => spec_duration_since(now, s),
        None => None,
    }
}

/// Milliseconds since the running cycle started; `None` when the effect has
/// not started or when `now` precedes the cycle start.
pub open spec fn spec_cycle_elapsed(fx: LedEffect, now: u64) -> Option<u64> {
    match fx.current_cycle_started_at {
        Some(c) => spec_duration_since(now, c),
        None => None,
    }
}

/// Whether the effect's optional total-duration bound has been exceeded at
/// `now`.
pub open spec fn spec_effect_expired(fx: LedEffect, now: u64) -> bool {
    match (fx.duration, spec_time_elapsed(fx, now)) {
        (Some(d), Some(e)) => e > d,
        _ => false,
    }
}

/// The effect as the first processing poll at `now` leaves it: both timing
/// checkpoints established.
pub open spec fn spec_started(fx: LedEffect, now: u64) -> LedEffect {
    LedEffect { started_at: Some(now), current_cycle_started_at: Some(now), ..fx }
}

impl LedEffect {
    /// Creates an effect of the given kind: not yet started, and with no
    /// total-duration limit until one is set.
    pub fn new(fx_type: EffectType) -> (r: LedEffect)
        ensures
            r == (LedEffect {
                current_cycle_started_at: None,
                started_at: None,
                duration: None,
                fx_type,
            }),
    {
        LedEffect { current_cycle_started_at: None, started_at: None, duration: None, fx_type }
    }

    /// Whether a poll has already processed this effect.
    pub fn has_started(&self) -> (r: bool)
        ensures
            r == (self.started_at is Some),
    {
        self.started_at.is_some()
    }

    /// The timestamp at which the effect started, if it has.
    pub fn started_at(&self) -> (r: Option<u64>)
        ensures
            r == self.started_at,
    {
        self.started_at
    }

    /// Establishes the start point: both `started_at` and the cycle start.
    ///
    /// Meant to be called only by the poll step of the owning device.
    pub fn set_started_at(&mut self, now: u64)
        ensures
            *final(self) == spec_started(*old(self), now),
    {
        self.started_at = Some(now);
        self.current_cycle_started_at = Some(now);
    }

    /// The kind of this effect.
    pub fn get_type(&self) -> (r: &EffectType)
        ensures
            *r == self.fx_type,
    {
        &self.fx_type
    }

    /// The total-duration bound, if one was set.
    pub fn get_duration(&self) -> (r: Option<u64>)
        ensures
            r == self.duration,
    {
        self.duration
    }

    /// Bounds the effect's entire lifetime, whatever its kind.
    pub fn set_duration(&mut self, dur: u64)
        ensures
            *final(self) == (LedEffect { duration: Some(dur), ..*old(self) }),
    {
        self.duration = Some(dur);
    }

    /// Milliseconds since the effect started; `None` when it has not started
    /// or when `now` precedes the start (a non-monotonic timestamp).
    pub fn time_elapsed(&self, now: u64) -> (r: Option<u64>)
        ensures
            r == spec_time_elapsed(*self, now),
    {
        match self.started_at {
            Some(s) => duration_since(now, s),
            None => None,
        }
    }

    /// Milliseconds since the running cycle started; `None` when the effect
    /// has not started or when `now` precedes the cycle start.
    pub fn current_cycle_duration(&self, now: u64) -> (r: Option<u64>)
        ensures
            r == spec_cycle_elapsed(*self, now),
    {
        match self.current_cycle_started_at {
            Some(c) => duration_since(now, c),
            None => None,
        }
    }

    /// Restarts the cycle at `now`.
    ///
    /// Meant to be called only by the poll step of the owning device.
    pub fn start_new_cycle(&mut self, now: u64)
        ensures
            *final(self) == (LedEffect {
                current_cycle_started_at: Some(now),
                ..*old(self)
            }),
    {
        self.current_cycle_started_at = Some(now);
    }
}

/// A pulse effect lasting `duration_ms` milliseconds.
pub fn pulse(duration_ms: u16) -> (r: EffectType)
    ensures
        r == EffectType::Pulse(duration_ms as u64),
{
    EffectType::Pulse(duration_ms as u64)
}

/// A blink effect derived from a rate in hertz: the toggle period is
/// `1000 / rate_hz` milliseconds, any fractional remainder truncated (a known
/// precision limit of the integer conversion, not something to correct for).
pub fn blink(rate_hz: u8) -> (r: EffectType)
    requires
        rate_hz > 0,
    ensures
        r == EffectType::Blink((1000int / (rate_hz as int)) as u64),
{
    EffectType::Blink(1000 / (rate_hz as u64))
}

/// An indicator bound to one digital output line.
///
/// The line itself lives with the caller: each poll updates `level`, the
/// level the line must be driven to, and the caller drives the hardware line
/// to `level` after the poll, propagating any fault of the line itself rather
/// than masking it.
///
/// While an effect is installed the driven level is fully determined by the
/// effect state machine; while none is, it is exactly `is_on`.
pub struct PinLed {
    /// The level the output line is to be driven to.
    pub level: bool,
    /// The effect currently installed, if any.
    pub effect: Option<LedEffect>,
    /// The logical on/off state, driven while no effect is installed.
    pub is_on: bool,
}

/// One poll step of the indicator state machine at time `now`.
///
/// With no effect installed the driven level becomes `is_on`. With one
/// installed: an exceeded total-duration bound clears the effect and forces
/// the output off — whatever the kind, and even mid-cycle. Otherwise a pulse
/// drives the line on when first processed, and turns it off and clears the
/// effect once its on-phase has lasted strictly longer than its length; a
/// blink toggles the line and restarts its cycle each time the running cycle
/// has lasted strictly longer than the period, the first processing poll only
/// recording the timing baseline (the line keeps its prior level until the
/// first period elapses).
///
/// Clearing an effect — on expiry or on pulse completion — forces the logical
/// state off rather than restoring what it was before the effect.
pub open spec fn spec_led_poll(pre: PinLed, now: u64) -> PinLed {
    match pre.effect {
        None => PinLed { level: pre.is_on, ..pre },
        Some(fx) => {
            if spec_effect_expired(fx, now) {
                PinLed { level: false, effect: None, is_on: false }
            } else {
                match fx.fx_type {
                    EffectType::Pulse(d) => {
                        if fx.started_at is None {
                            PinLed { level: true, effect: Some(spec_started(fx, now)), ..pre }
                        } else {
                            let over = match spec_cycle_elapsed(fx, now) {
                                Some(c) => c > d,
                                None => false,
                            };
                            if over {
                                PinLed { level: false, effect: None, is_on: false }
                            } else {
                                pre
                            }
                        }
                    },
                    EffectType::Blink(p) => {
                        let toggled = match spec_cycle_elapsed(fx, now) {
                            Some(c) => c > p,
                            None => false,
                        };
                        let fx1 = if toggled {
                            LedEffect { current_cycle_started_at: Some(now), ..fx }
                        } else {
                            fx
                        };
                        let fx2 = if fx1.started_at is None {
                            spec_started(fx1, now)
                        } else {
                            fx1
                        };
                        PinLed {
                            level: if toggled {
                                !pre.level
                            } else {
                                pre.level
                            },
                            effect: Some(fx2),
                            ..pre
                        }
                    },
                }
            }
        },
    }
}

impl PinLed {
    /// A fresh indicator: line driven low, logically off, no effect.
    pub fn new() -> (r: PinLed)
        ensures
            r == (PinLed { level: false, effect: None, is_on: false }),
    {
        PinLed { level: false, effect: None, is_on: false }
    }

    /// Whether the logical state is on.
    pub fn is_on(&self) -> (r: bool)
        ensures
            r == self.is_on,
    {
        self.is_on
    }

    /// The level the output line is currently to be driven to.
    pub fn driven_level(&self) -> (r: bool)
        ensures
            r == self.level,
    {
        self.level
    }

    /// Turns the logical state on; effective on the next poll, and only while
    /// no effect is installed.
    pub fn turn_on(&mut self)
        ensures
            *final(self) == (PinLed { is_on: true, ..*old(self) }),
    {
        self.is_on = true;
    }

    /// Turns the logical state off; effective on the next poll, and only
    /// while no effect is installed.
    pub fn turn_off(&mut self)
        ensures
            *final(self) == (PinLed { is_on: false, ..*old(self) }),
    {
        self.is_on = false;
    }

    /// Toggles the logical state; effective on the next poll, and only while
    /// no effect is installed.
    pub fn toggle(&mut self)
        ensures
            *final(self) == (PinLed { is_on: !old(self).is_on, ..*old(self) }),
    {
        self.is_on = !self.is_on;
    }

    /// Installs an effect, discarding any prior one; visible from the next
    /// poll on.
    pub fn set_effect(&mut self, effect: LedEffect)
        ensures
            *final(self) == (PinLed { effect: Some(effect), ..*old(self) }),
    {
        self.effect = Some(effect);
    }

    /// Sets the installed effect's total-duration bound (for instance to
    /// prolong it); does nothing when no effect is installed.
    pub fn set_effect_duration(&mut self, dur: u64)
        ensures
            *final(self) == match old(self).effect {
                Some(fx) => PinLed {
                    effect: Some(LedEffect { duration: Some(dur), ..fx }),
                    ..*old(self)
                },
                None => *old(self),
            },
    {
        match &mut self.effect {
            Some(fx) => fx.set_duration(dur),
            None => (),
        }
    }

    /// The installed effect, if any.
    pub fn get_effect(&self) -> (r: Option<&LedEffect>)
        ensures
            match r {
                Some(fx) => self.effect == Some(*fx),
                None => self.effect is None,
            },
    {
        match &self.effect {
            Some(fx) => Some(fx),
            None => None,
        }
    }

    /// Removes the installed effect and forces the logical state off.
    ///
    /// This deliberately does not restore the logical state from before the
    /// effect: the device always comes out of an effect off.
    pub fn clear_effect(&mut self)
        ensures
            *final(self) == (PinLed { effect: None, is_on: false, ..*old(self) }),
    {
        self.effect = None;
        self.is_on = false;
    }

    /// Advances the effect state machine at time `now` and settles the level
    /// the output line must be driven to, as [`spec_led_poll`] states.
    ///
    /// Must be called at regular enough intervals: the abstraction's time
    /// resolution is bounded by the poll cadence, not by the clock's.
    pub fn poll(&mut self, now: u64)
        ensures
            *final(self) == spec_led_poll(*old(self), now),
    {
        match self.effect {
            None => {
                self.level = self.is_on;
            },
            Some(fx) => {
                // The total-duration bound wins whatever the kind.
                let expired: bool = match (fx.get_duration(), fx.time_elapsed(now)) {
                    (Some(d), Some(e)) => e > d,
                    _ => false,
                };
                if expired {
                    self.clear_effect();
                    self.level = false;
                    return;
                }
                match *fx.get_type() {
                    EffectType::Pulse(d) => {
                        if !fx.has_started() {
                            let mut fx2 = fx;
                            fx2.set_started_at(now);
                            self.effect = Some(fx2);
                            self.level = true;
                        } else {
                            let over: bool = match fx.current_cycle_duration(now) {
                                Some(c) => c > d,
                                None => false,
                            };
                            if over {
                                self.clear_effect();
                                self.level = false;
                            }
                        }
                    },
                    EffectType::Blink(p) => {
                        let toggled: bool = match fx.current_cycle_duration(now) {
                            Some(c) => c > p,
                            None => false,
                        };
                        let mut fx2 = fx;
                        if toggled {
                            fx2.start_new_cycle(now);
                            self.level = !self.level;
                        }
                        if !fx2.has_started() {
                            fx2.set_started_at(now);
                        }
                        self.effect = Some(fx2);
                    },
                }
            },
        }
    }
}

/// The lifecycle of a pulse with no total-duration limit: the first poll (at
/// `t0`) drives the line on and starts the effect; any poll while the
/// on-phase has lasted at most `d` leaves the device exactly as it was, line
/// still on; a poll once the on-phase has lasted strictly longer than `d`
/// turns the line off and clears the effect; and polls after that leave the
/// line off until a new effect is set.
pub proof fn lemma_pulse_lifecycle(dev: PinLed, d: u64, t0: u64, t_mid: u64, t_end: u64, t_later: u64)
    requires
        dev.effect == Some(LedEffect {
            current_cycle_started_at: None,
            started_at: None,
            duration: None,
            fx_type: EffectType::Pulse(d),
        }),
        t0 <= t_mid,
        t_mid - t0 <= d,
        t_end - t0 > d,
    ensures
        spec_led_poll(dev, t0).level,
        spec_led_poll(spec_led_poll(dev, t0), t_mid) == spec_led_poll(dev, t0),
        spec_led_poll(spec_led_poll(dev, t0), t_end) == (PinLed {
            level: false,
            effect: None,
            is_on: false,
        }),
        spec_led_poll(spec_led_poll(spec_led_poll(dev, t0), t_end), t_later) == (PinLed {
            level: false,
            effect: None,
            is_on: false,
        }),
{
}

/// A set total duration `d` bounds an effect's lifetime whatever its kind: a
/// poll strictly more than `d` after the effect started forces the line off
/// and clears the effect, even mid-cycle.
pub proof fn lemma_total_duration_expiry(dev: PinLed, fx: LedEffect, d: u64, s: u64, now: u64)
    requires
        dev.effect == Some(fx),
        fx.duration == Some(d),
        fx.started_at == Some(s),
        now - s > d,
    ensures
        spec_led_poll(dev, now) == (PinLed { level: false, effect: None, is_on: false }),
{
}

/// Between toggles a blink holds its level: a poll while the running cycle
/// has lasted at most the period (or whose timestamp precedes the cycle
/// start) leaves the device exactly as it was.
pub proof fn lemma_blink_holds_within_period(dev: PinLed, fx: LedEffect, p: u64, c: u64, now: u64)
    requires
        dev.effect == Some(fx),
        fx.fx_type == EffectType::Blink(p),
        fx.started_at is Some,
        fx.current_cycle_started_at == Some(c),
        !spec_effect_expired(fx, now),
        now - c <= p,
    ensures
        spec_led_poll(dev, now) == dev,
{
}

/// A poll once a blink's running cycle has lasted strictly longer than the
/// period toggles the line and restarts the cycle at `now`; nothing else
/// changes.
pub proof fn lemma_blink_toggles_after_period(dev: PinLed, fx: LedEffect, p: u64, c: u64, now: u64)
    requires
        dev.effect == Some(fx),
        fx.fx_type == EffectType::Blink(p),
        fx.started_at is Some,
        fx.current_cycle_started_at == Some(c),
        !spec_effect_expired(fx, now),
        now - c > p,
    ensures
        spec_led_poll(dev, now) == (PinLed {
            level: !dev.level,
            effect: Some(LedEffect { current_cycle_started_at: Some(now), ..fx }),
            ..dev
        }),
{
}

/// How many of the polls at the times in `ts`, taken in order, change the
/// driven level.
pub open spec fn spec_count_toggles(dev: PinLed, ts: Seq<u64>) -> nat
    decreases ts.len(),
{
    if ts.len() == 0 {
        0
    } else {
        let next = spec_led_poll(dev, ts[0]);
        (if next.level != dev.level {
            1nat
        } else {
            0nat
        }) + spec_count_toggles(next, ts.drop_first())
    }
}

/// `ts` is a nondecreasing poll schedule that begins no earlier than `start`
/// and whose gaps — from `start` to the first poll, and between consecutive
/// polls — are at most `g` milliseconds.
pub open spec fn spec_dense_schedule(ts: Seq<u64>, start: u64, g: u64) -> bool {
    &&& ts.len() > 0 ==> start <= ts[0] && ts[0] <= start + g
    &&& forall|i: int|
        0 < i < ts.len() ==> ts[i - 1] <= #[trigger] ts[i] && ts[i] <= ts[i - 1] + g
}

/// Over any dense-enough poll schedule, a blink's toggle count is pinned by
/// the elapsed window: for a started blink with period `p`, running cycle
/// begun at `c`, and polls no further than `g` apart (the schedule starting
/// from `t_prev`, a time at most one period past the cycle start), the number
/// `n` of level toggles over the schedule satisfies
/// `c + n*p <= t_end` and `t_end <= c + n*(p + g) + p`,
/// where `t_end` is the last poll time: at least one toggle per `p + g` of
/// elapsed time less one period, and at most one per period.
pub proof fn lemma_blink_toggle_count(
    dev: PinLed,
    fx: LedEffect,
    p: u64,
    g: u64,
    c: u64,
    t_prev: u64,
    ts: Seq<u64>,
)
    requires
        dev.effect == Some(fx),
        fx.fx_type == EffectType::Blink(p),
        fx.started_at is Some,
        fx.duration is None,
        fx.current_cycle_started_at == Some(c),
        c <= t_prev,
        t_prev - c <= p,
        spec_dense_schedule(ts, t_prev, g),
        ts.len() > 0,
    ensures
        c + spec_count_toggles(dev, ts) * p <= ts.last(),
        ts.last() <= c + spec_count_toggles(dev, ts) * (p + g) + p,
    decreases ts.len(),
{
    let t = ts[0];
    let rest = ts.drop_first();
    let next = spec_led_poll(dev, t);
    assert forall|i: int|
        0 < i < rest.len() implies rest[i - 1] <= #[trigger] rest[i] && rest[i] <= rest[i - 1]
        + g by {
        assert(rest[i] == ts[i + 1]);
        assert(rest[i - 1] == ts[i]);
    }
    if rest.len() > 0 {
        assert(rest[0] == ts[1]);
        assert(rest.last() == ts.last());
    }
    let n = spec_count_toggles(dev, ts);
    if t - c <= p {
        // No toggle this poll: the device is left exactly as it was.
        assert(next == dev);
        assert(n == spec_count_toggles(dev, rest));
        if rest.len() == 0 {
            assert(n == 0);
        } else {
            lemma_blink_toggle_count(dev, fx, p, g, c, t, rest);
        }
    } else {
        // A toggle: the cycle restarts at `t`, strictly more than one period
        // after it began, and at most one period and one gap after it.
        let fx2 = LedEffect { current_cycle_started_at: Some(t), ..fx };
        assert(next == (PinLed { level: !dev.level, effect: Some(fx2), ..dev }));
        let m = spec_count_toggles(next, rest);
        assert(n == m + 1);
        if rest.len() == 0 {
            assert(n == 1);
        } else {
            lemma_blink_toggle_count(next, fx2, p, g, t, t, rest);
            assert((m + 1) * p == m * p + p) by (nonlinear_arith);
            assert((m + 1) * (p + g) == m * (p + g) + (p + g)) by (nonlinear_arith);
        }
    }
}

} // verus!
