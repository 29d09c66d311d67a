use slot::app::{
    battery_cutoff, clock_was_set, doze_expired, led_state, may_manipulate_time,
    play_held_long_enough, picker_step, power_menu_step, undo_available, up, Battery, Charge,
    HudKind, Led, LedState, Levels, MenuStep, CLOCK_FLOOR, UNDO_GRACE_MS, VOLUME_MAX,
};
use slot::input::btn::{Action, Btn};

const CHORD_MS: u64 = 250;

#[test]
fn a_level_stops_at_its_top() {
    assert_eq!(up(98, 5, 100), 100);
    assert_eq!(up(3, 1, 10), 4);
    assert_eq!(up(254, 5, 100), 100);
}

#[test]
fn volume_moves_in_steps_and_unmutes() {
    let mut l = Levels::new(5, 0, 50, true);
    let s = l.adjust(Action::VolumeUp, 1_000, CHORD_MS).expect("a level action");
    assert_eq!(l.volume(), 55);
    assert!(!l.muted());
    assert_eq!(s.kind, HudKind::Volume);
    assert_eq!(s.value, 55);
    assert!(s.persist);
    l.adjust(Action::BrightnessDown, 1_000, CHORD_MS);
    assert_eq!(l.brightness(), 4);
    assert!(l.adjust(Action::Insert, 1_000, CHORD_MS).is_none());
}

#[test]
fn a_press_against_an_end_shows_but_does_not_persist() {
    let mut l = Levels::new(10, 10, VOLUME_MAX, false);
    let s = l.adjust(Action::BrightnessUp, 0, CHORD_MS).expect("shown");
    assert_eq!((s.kind, s.value, s.persist), (HudKind::Brightness, 10, false));
    let s = l.adjust(Action::VolumeUp, 0, CHORD_MS).expect("shown");
    assert_eq!((s.value, s.persist), (100, false));
}

#[test]
fn the_mute_chord_gives_back_what_its_presses_moved() {
    let mut l = Levels::new(5, 0, 60, false);
    l.adjust(Action::VolumeUp, 10_000, CHORD_MS);
    l.adjust(Action::VolumeDown, 10_020, CHORD_MS);
    let s = l.adjust(Action::MuteToggle, 10_040, CHORD_MS).expect("shown");
    assert_eq!(l.volume(), 60);
    assert!(l.muted());
    assert_eq!(l.output_volume(), 0);
    assert_eq!((s.value, s.muted, s.persist), (0, true, true));
    let s = l.mute_toggle(50_000, CHORD_MS);
    assert!(!l.muted());
    assert_eq!(s.value, 60);
}

#[test]
fn the_mute_chord_from_the_top_restores_the_top() {
    let mut l = Levels::new(5, 0, 100, false);
    l.adjust(Action::VolumeUp, 0, CHORD_MS);
    l.adjust(Action::VolumeDown, 5, CHORD_MS);
    assert_eq!(l.volume(), 95);
    l.mute_toggle(10, CHORD_MS);
    assert_eq!(l.volume(), 100);
    assert!(l.muted());
}

#[test]
fn the_led_follows_the_charge() {
    assert_eq!(led_state(None), LedState::Running);
    assert_eq!(led_state(Some(Battery { percent: 3, charge: Charge::Charging })), LedState::Charging);
    assert_eq!(led_state(Some(Battery { percent: 100, charge: Charge::Full })), LedState::Charged);
    assert_eq!(led_state(Some(Battery { percent: 20, charge: Charge::Discharging })), LedState::Low);
    assert_eq!(led_state(Some(Battery { percent: 21, charge: Charge::Unknown })), LedState::Running);
}

#[test]
fn the_led_is_written_once_per_change_and_stays_dark_after_shutdown() {
    let mut led = Led::new();
    assert_eq!(led.set(LedState::Running, false), Some(LedState::Running));
    assert_eq!(led.set(LedState::Running, false), None);
    assert_eq!(led.set(LedState::Low, false), Some(LedState::Low));
    assert_eq!(led.set(LedState::Off, true), Some(LedState::Off));
    assert_eq!(led.set(LedState::Charging, true), None);
    led.reset();
    assert_eq!(led.set(LedState::Off, false), Some(LedState::Off));
}

#[test]
fn a_critical_battery_cuts_off_unless_it_is_charging() {
    assert!(battery_cutoff(Battery { percent: 5, charge: Charge::Discharging }, false));
    assert!(battery_cutoff(Battery { percent: 0, charge: Charge::Unknown }, false));
    assert!(!battery_cutoff(Battery { percent: 5, charge: Charge::Charging }, false));
    assert!(!battery_cutoff(Battery { percent: 6, charge: Charge::Discharging }, false));
    assert!(!battery_cutoff(Battery { percent: 1, charge: Charge::Discharging }, true));
}

#[test]
fn the_power_menu_stops_at_its_ends() {
    assert_eq!(power_menu_step(0, 3, Action::GbaDown(Btn::Up)), MenuStep::Stay(0));
    assert_eq!(power_menu_step(2, 3, Action::GbaDown(Btn::Down)), MenuStep::Stay(2));
    assert_eq!(power_menu_step(1, 3, Action::GbaDown(Btn::A)), MenuStep::Choose(1));
    assert_eq!(power_menu_step(1, 3, Action::GbaDown(Btn::B)), MenuStep::Close);
    assert_eq!(power_menu_step(1, 3, Action::GbaUp(Btn::B)), MenuStep::Stay(1));
}

#[test]
fn the_core_picker_wraps() {
    assert_eq!(picker_step(0, 2, Action::GbaDown(Btn::Up)), MenuStep::Stay(1));
    assert_eq!(picker_step(1, 2, Action::GbaDown(Btn::Down)), MenuStep::Stay(0));
    assert_eq!(picker_step(0, 1, Action::GbaDown(Btn::Down)), MenuStep::Stay(0));
    assert_eq!(picker_step(1, 2, Action::GbaDown(Btn::A)), MenuStep::Choose(1));
}

#[test]
fn the_undo_offer_lasts_its_grace() {
    assert!(undo_available(Some(1_000), 1_000 + UNDO_GRACE_MS));
    assert!(!undo_available(Some(1_000), 1_001 + UNDO_GRACE_MS));
    assert!(undo_available(Some(5_000), 10));
    assert!(!undo_available(None, 0));
}

#[test]
fn a_live_link_holds_time_still_and_keeps_the_device_awake() {
    assert!(!may_manipulate_time(true));
    assert!(may_manipulate_time(false));
    assert!(!doze_expired(true, true, 1_000_000, 0, 10));
    assert!(doze_expired(false, true, 1_000, 0, 1_000));
    assert!(!doze_expired(false, true, 999, 0, 1_000));
    assert!(!doze_expired(false, false, 9_999, 0, 1_000));
}

#[test]
fn the_clock_and_the_hold() {
    assert!(clock_was_set(CLOCK_FLOOR));
    assert!(!clock_was_set(0));
    assert!(play_held_long_enough(100, 600));
    assert!(!play_held_long_enough(100, 599));
}
