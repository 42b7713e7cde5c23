use pin_ui::led::blink;
use pin_ui::led::pulse;
use pin_ui::led::EffectType;
use pin_ui::led::LedEffect;
use pin_ui::led::PinLed;

#[test]
fn pulse_constructor_keeps_milliseconds() {
    assert_eq!(pulse(100), EffectType::Pulse(100));
    assert_eq!(pulse(0), EffectType::Pulse(0));
    assert_eq!(pulse(u16::MAX), EffectType::Pulse(65535));
}

#[test]
fn blink_constructor_converts_rate_to_period() {
    assert_eq!(blink(1), EffectType::Blink(1000));
    assert_eq!(blink(4), EffectType::Blink(250));
    // fractional remainder is truncated
    assert_eq!(blink(3), EffectType::Blink(333));
    assert_eq!(blink(255), EffectType::Blink(3));
}

#[test]
fn fresh_effect_has_not_started() {
    let fx = LedEffect::new(EffectType::Pulse(10));
    assert!(!fx.has_started());
    assert_eq!(fx.started_at(), None);
    assert_eq!(fx.get_duration(), None);
    assert_eq!(*fx.get_type(), EffectType::Pulse(10));
    assert_eq!(fx.time_elapsed(5), None);
    assert_eq!(fx.current_cycle_duration(5), None);
}

#[test]
fn effect_elapsed_accounting() {
    let mut fx = LedEffect::new(EffectType::Blink(100));
    fx.set_started_at(40);
    assert!(fx.has_started());
    assert_eq!(fx.started_at(), Some(40));
    assert_eq!(fx.time_elapsed(100), Some(60));
    assert_eq!(fx.current_cycle_duration(100), Some(60));
    fx.start_new_cycle(90);
    assert_eq!(fx.time_elapsed(100), Some(60));
    assert_eq!(fx.current_cycle_duration(100), Some(10));
    // a non-monotonic timestamp yields no duration, not a crash
    assert_eq!(fx.time_elapsed(39), None);
    assert_eq!(fx.current_cycle_duration(89), None);
}

#[test]
fn pulse_lifecycle_on_then_cleared() {
    let mut led = PinLed::new();
    assert!(!led.driven_level());
    led.set_effect(LedEffect::new(pulse(100)));
    led.poll(0);
    assert!(led.driven_level());
    assert!(led.get_effect().is_some());
    led.poll(99);
    assert!(led.driven_level());
    led.poll(101);
    assert!(!led.driven_level());
    assert!(led.get_effect().is_none());
    assert!(!led.is_on());
    // output stays off until a new effect is set
    led.poll(500);
    assert!(!led.driven_level());
}

#[test]
fn pulse_boundary_is_strict() {
    let mut led = PinLed::new();
    led.set_effect(LedEffect::new(EffectType::Pulse(100)));
    led.poll(0);
    // an on-phase of exactly the pulse length is still on
    led.poll(100);
    assert!(led.driven_level());
    assert!(led.get_effect().is_some());
}

#[test]
fn blink_toggles_each_elapsed_period() {
    // installed at 0 on a device initially driven low; the first poll only
    // records the baseline, each later poll strictly past a period toggles
    let mut led = PinLed::new();
    led.set_effect(LedEffect::new(EffectType::Blink(100)));
    led.poll(0);
    assert!(!led.driven_level());
    led.poll(50);
    assert!(!led.driven_level());
    led.poll(101);
    assert!(led.driven_level());
    led.poll(150);
    assert!(led.driven_level());
    led.poll(202);
    assert!(!led.driven_level());
}

#[test]
fn blink_toggle_count_over_window() {
    // period 100, polls every 10 over 1000 elapsed: ten toggles
    let mut led = PinLed::new();
    led.set_effect(LedEffect::new(EffectType::Blink(100)));
    led.poll(0);
    let mut toggles: u32 = 0;
    let mut level = led.driven_level();
    let mut t: u64 = 10;
    while t <= 1010 {
        led.poll(t);
        if led.driven_level() != level {
            toggles += 1;
            level = led.driven_level();
        }
        t += 10;
    }
    assert_eq!(toggles, 9);
    // one more period's worth of polls brings the tenth toggle
    while t <= 1120 {
        led.poll(t);
        if led.driven_level() != level {
            toggles += 1;
            level = led.driven_level();
        }
        t += 10;
    }
    assert_eq!(toggles, 10);
}

#[test]
fn total_duration_clears_blink_mid_cycle() {
    let mut led = PinLed::new();
    led.set_effect(LedEffect::new(EffectType::Blink(100)));
    led.set_effect_duration(250);
    led.poll(0);
    led.poll(101);
    assert!(led.driven_level());
    // 252 > 250: cleared and forced off although mid-cycle (cycle began at 101)
    led.poll(252);
    assert!(!led.driven_level());
    assert!(led.get_effect().is_none());
    assert!(!led.is_on());
}

#[test]
fn total_duration_clears_pulse_early() {
    let mut led = PinLed::new();
    let mut fx = LedEffect::new(EffectType::Pulse(500));
    fx.set_duration(100);
    led.set_effect(fx);
    led.poll(0);
    assert!(led.driven_level());
    led.poll(100);
    assert!(led.driven_level());
    led.poll(101);
    assert!(!led.driven_level());
    assert!(led.get_effect().is_none());
}

#[test]
fn extend_current_effect_prolongs_it() {
    let mut led = PinLed::new();
    let mut fx = LedEffect::new(EffectType::Pulse(500));
    fx.set_duration(100);
    led.set_effect(fx);
    led.poll(0);
    led.set_effect_duration(300);
    led.poll(200);
    assert!(led.driven_level());
    assert!(led.get_effect().is_some());
    led.poll(301);
    assert!(!led.driven_level());
    assert!(led.get_effect().is_none());
}

#[test]
fn set_effect_duration_without_effect_is_a_noop() {
    let mut led = PinLed::new();
    led.turn_on();
    led.set_effect_duration(100);
    assert!(led.get_effect().is_none());
    led.poll(0);
    assert!(led.driven_level());
    led.poll(200);
    assert!(led.driven_level());
}

#[test]
fn logical_state_drives_line_when_no_effect() {
    let mut led = PinLed::new();
    led.poll(0);
    assert!(!led.driven_level());
    led.turn_on();
    assert!(led.is_on());
    led.poll(10);
    assert!(led.driven_level());
    led.toggle();
    led.poll(20);
    assert!(!led.driven_level());
    led.toggle();
    led.poll(30);
    assert!(led.driven_level());
    led.turn_off();
    led.poll(40);
    assert!(!led.driven_level());
}

#[test]
fn logical_state_waits_while_effect_runs() {
    let mut led = PinLed::new();
    led.set_effect(LedEffect::new(EffectType::Pulse(100)));
    led.turn_on();
    led.poll(0);
    assert!(led.driven_level());
    // clearing the effect forces the device off rather than restoring `is_on`
    led.poll(101);
    assert!(!led.driven_level());
    assert!(!led.is_on());
    led.poll(102);
    assert!(!led.driven_level());
}

#[test]
fn new_effect_overwrites_the_old() {
    let mut led = PinLed::new();
    led.set_effect(LedEffect::new(EffectType::Pulse(100)));
    led.poll(0);
    led.set_effect(LedEffect::new(EffectType::Blink(30)));
    let fx = led.get_effect().unwrap();
    assert_eq!(*fx.get_type(), EffectType::Blink(30));
    assert!(!fx.has_started());
    led.poll(10);
    assert!(led.get_effect().unwrap().has_started());
    assert_eq!(led.get_effect().unwrap().started_at(), Some(10));
}

#[test]
fn clear_effect_removes_and_forces_off() {
    let mut led = PinLed::new();
    led.set_effect(LedEffect::new(EffectType::Pulse(100)));
    led.turn_on();
    led.poll(0);
    assert!(led.driven_level());
    led.clear_effect();
    assert!(led.get_effect().is_none());
    assert!(!led.is_on());
    led.poll(10);
    assert!(!led.driven_level());
}

#[test]
fn non_monotonic_poll_holds_pulse_state() {
    let mut led = PinLed::new();
    led.set_effect(LedEffect::new(EffectType::Pulse(100)));
    led.poll(50);
    assert!(led.driven_level());
    // a timestamp before the start yields no elapsed time: nothing advances
    led.poll(10);
    assert!(led.driven_level());
    assert!(led.get_effect().is_some());
}
