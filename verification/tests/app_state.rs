use slot::app::state::{App, Effect, PendingUndo, Phase, PowerChoice, Remembered, Side};
use slot::app::{Battery, Charge, HudKind, LedState, AUTOSAVE_MS, SHUTDOWN_SHOW_MS};
use slot::emu::{CoreState, Speed};
use slot::input::btn::{Action, Btn};

fn remembered(cart: Option<&str>, clock_set: bool) -> Remembered {
    Remembered {
        cart: cart.map(|c| c.to_string()),
        clock_set,
        utc_offset_min: 60,
        brightness: 5,
        blue_light: 0,
        volume: 50,
        muted: false,
    }
}

fn carts() -> Vec<String> {
    vec!["Advance Wars".into(), "Golden Sun".into(), "Pokemon Emerald".into()]
}

fn app(cart: Option<&str>) -> App {
    App::boot(carts(), vec![PowerChoice::PowerOff, PowerChoice::Restart], 2, 250, remembered(cart, true))
}

/// Boots with the remembered cart seated and running.
fn playing(cart: &str) -> App {
    let mut a = app(Some(cart));
    a.on_core_ready();
    a.insert_finished();
    a
}

#[test]
fn a_boot_seats_the_remembered_cart_without_travel() {
    let a = app(Some("Golden Sun"));
    assert_eq!(a.phase(), Phase::Inserting { cart: 1, core_ready: false, resumed: true, clean: false });
    assert_eq!(a.selected_stem(), Some("Golden Sun"));
}

#[test]
fn a_cart_the_library_lost_is_an_empty_slot() {
    let a = app(Some("Metroid"));
    assert_eq!(a.phase(), Phase::Shelf);
    assert_eq!(a.remembered().cart, None);
}

#[test]
fn a_one_cart_card_seats_it_whatever_was_remembered() {
    let a = App::boot(vec!["Only".into()], vec![PowerChoice::PowerOff], 2, 250, remembered(None, true));
    assert_eq!(a.phase(), Phase::Inserting { cart: 0, core_ready: false, resumed: true, clean: false });
    assert!(a.single_cart());
}

#[test]
fn an_unset_clock_comes_first_and_confirming_it_starts() {
    let mut a = App::boot(carts(), vec![PowerChoice::PowerOff], 2, 250, remembered(Some("Golden Sun"), false));
    assert_eq!(a.phase(), Phase::SetClock);
    assert_eq!(a.apply(Action::GbaDown(Btn::Up), 0), vec![Effect::ClockStep(Btn::Up)]);
    assert_eq!(a.apply(Action::VolumeUp, 0), vec![]);
    assert_eq!(a.apply(Action::GbaDown(Btn::A), 0), vec![Effect::ConfirmClock]);
    assert_eq!(a.confirm_clock(-300), vec![Effect::Persist]);
    assert!(matches!(a.phase(), Phase::Inserting { cart: 1, resumed: true, .. }));
    assert_eq!(a.remembered().utc_offset_min, -300);
    assert!(a.remembered().clock_set);
}

#[test]
fn a_ready_core_finishes_the_insert_and_the_card_hears_of_it() {
    let mut a = app(None);
    assert_eq!(a.phase(), Phase::Shelf);
    a.select(2);
    assert_eq!(a.apply(Action::GbaDown(Btn::A), 1_000), vec![]);
    assert_eq!(a.apply(Action::GbaUp(Btn::A), 1_100), vec![]);
    assert_eq!(a.phase(), Phase::Inserting { cart: 2, core_ready: false, resumed: false, clean: false });
    assert_eq!(a.insert_finished(), vec![]);
    a.on_core_ready();
    assert_eq!(a.insert_finished(), vec![Effect::Persist]);
    assert_eq!(a.phase(), Phase::Playing { cart: 2 });
    assert_eq!(a.remembered().cart.as_deref(), Some("Pokemon Emerald"));
}

#[test]
fn holding_a_on_the_shelf_starts_the_cart_clean() {
    let mut a = app(None);
    a.apply(Action::GbaDown(Btn::A), 1_000);
    a.timers(1_499);
    assert_eq!(a.phase(), Phase::Shelf);
    a.timers(1_500);
    assert!(a.starting_clean());
    assert_eq!(a.apply(Action::GbaUp(Btn::A), 1_600), vec![]);
    assert_eq!(a.phase(), Phase::Inserting { cart: 0, core_ready: false, resumed: false, clean: true });
}

#[test]
fn a_refused_core_sends_the_cart_back_out() {
    let mut a = app(Some("Golden Sun"));
    a.on_core_failed();
    assert_eq!(a.phase(), Phase::Ejecting { cart: 1 });
    assert!(a.refused_exit());
    assert_eq!(a.eject_finished(), vec![Effect::Persist]);
    assert_eq!(a.phase(), Phase::Shelf);
    assert_eq!(a.remembered().cart, None);
}

#[test]
fn an_eject_flushes_and_takes_the_session_and_the_undo() {
    let mut a = playing("Golden Sun");
    a.begin_link(0);
    a.loaded(Some(vec![1, 2, 3]), 2_000);
    assert!(a.undo_available(2_000));
    assert_eq!(a.apply(Action::Eject, 2_500), vec![Effect::FlushEject(1)]);
    assert!(!a.link_active());
    assert!(!a.undo_available(2_500));
    assert_eq!(a.phase(), Phase::Ejecting { cart: 1 });
    a.eject_written();
    assert_eq!(a.eject_finished(), vec![]);
}

#[test]
fn a_single_cart_refuses_to_eject() {
    let mut a = App::boot(vec!["Only".into()], vec![PowerChoice::PowerOff], 2, 250, remembered(None, true));
    a.on_core_ready();
    a.insert_finished();
    assert_eq!(a.apply(Action::Eject, 5_000), vec![]);
    assert_eq!(a.refused_at(), Some(5_000));
    assert_eq!(a.phase(), Phase::Playing { cart: 0 });
}

#[test]
fn a_live_session_refuses_everything_that_moves_time() {
    let mut a = playing("Advance Wars");
    a.begin_link(1);
    assert_eq!(a.link_client_id(), Some(1));
    assert!(!a.may_rewind() && !a.may_load_state() && !a.may_fast_forward());
    for action in [Action::RewindStart, Action::FfStart, Action::LoadState, Action::Polaroids] {
        assert_eq!(a.apply(action, 3_000), vec![]);
        assert_eq!(a.refused_at(), Some(3_000));
    }
    assert_eq!(a.apply(Action::PowerHold, 3_100), vec![]);
    assert_eq!(a.power_menu(), None);
    assert_eq!(a.apply(Action::SaveState, 3_200), vec![Effect::SaveState(0)]);
    a.end_link();
    assert_eq!(a.apply(Action::LoadState, 3_300), vec![Effect::LoadNewest(0)]);
    assert_eq!(a.apply(Action::Polaroids, 3_300), vec![Effect::ListStates(0)]);
}

#[test]
fn power_press_ends_a_session_rather_than_flushing() {
    let mut a = playing("Advance Wars");
    a.begin_link(0);
    assert_eq!(a.apply(Action::PowerPress, 10), vec![]);
    assert!(!a.link_active());
    assert_eq!(a.apply(Action::PowerPress, 20), vec![Effect::FlushResume(0)]);
}

#[test]
fn the_lid_dozes_and_wakes_back_into_the_game() {
    let mut a = playing("Advance Wars");
    a.begin_link(0);
    assert_eq!(a.apply(Action::LidClose, 100), vec![Effect::FlushResume(0)]);
    assert_eq!(a.phase(), Phase::Doze { cart: Some(0) });
    assert!(!a.link_active());
    assert_eq!(a.apply(Action::LidClose, 200), vec![]);
    assert_eq!(a.apply(Action::LidOpen, 300), vec![]);
    assert_eq!(a.phase(), Phase::Playing { cart: 0 });
}

#[test]
fn a_platform_hears_the_lid_and_a_long_doze_powers_off() {
    let mut a = playing("Advance Wars");
    assert_eq!(a.set_power(180_000, 1_700_000_000, 0), vec![Effect::Backlight(5)]);
    assert_eq!(a.apply(Action::PowerTap, 1_000), vec![Effect::FlushResume(0), Effect::LidClosed]);
    let ticks = a.timers(180_999);
    assert!(!a.powering_off());
    assert!(ticks.contains(&Effect::ReadBattery));
    let ticks = a.timers(181_000);
    assert!(a.powering_off());
    assert_eq!(ticks[0], Effect::Led(LedState::Off));
    assert!(!a.ready_to_power_off(181_000 + SHUTDOWN_SHOW_MS - 1));
    assert!(a.ready_to_power_off(181_000 + SHUTDOWN_SHOW_MS));
    assert_eq!(a.on_doze_timeout(190_000), vec![]);
    assert!(!a.ready_to_power_off(181_000 + SHUTDOWN_SHOW_MS - 1));
}

#[test]
fn a_clock_that_was_never_set_goes_back_to_the_clock_screen() {
    let mut a = app(None);
    a.set_power(180_000, 0, 0);
    assert_eq!(a.phase(), Phase::SetClock);
}

#[test]
fn the_power_menu_moves_stops_and_chooses() {
    let mut a = playing("Golden Sun");
    a.set_power(180_000, 1_700_000_000, 0);
    assert_eq!(a.apply(Action::PowerHold, 50), vec![Effect::FlushResume(1)]);
    assert_eq!(a.power_menu(), Some(0));
    assert_eq!(a.speed(true), Speed::Paused);
    assert!(!a.playing());
    assert_eq!(a.apply(Action::VolumeUp, 60), vec![]);
    a.apply(Action::GbaDown(Btn::Up), 70);
    assert_eq!(a.power_menu(), Some(0));
    a.apply(Action::GbaDown(Btn::Down), 80);
    a.apply(Action::GbaDown(Btn::Down), 90);
    assert_eq!(a.power_menu(), Some(1));
    assert_eq!(a.apply(Action::GbaDown(Btn::A), 100), vec![Effect::Led(LedState::Off)]);
    assert!(a.restarting());
    assert!(a.shutting_down());
    assert!(a.ready_to_restart(100 + SHUTDOWN_SHOW_MS));
}

#[test]
fn b_backs_out_of_the_power_menu() {
    let mut a = playing("Golden Sun");
    a.apply(Action::PowerHold, 50);
    a.apply(Action::GbaDown(Btn::B), 60);
    assert_eq!(a.power_menu(), None);
    assert_eq!(a.speed(true), Speed::Fast);
    assert_eq!(a.speed(false), Speed::Normal);
}

#[test]
fn levels_show_on_the_hud_and_brightness_reaches_the_panel() {
    let mut a = playing("Golden Sun");
    a.set_power(180_000, 1_700_000_000, 0);
    let e = a.apply(Action::BrightnessUp, 10);
    assert_eq!(e.len(), 3);
    assert!(matches!(e[0], Effect::Hud(s) if s.kind == HudKind::Brightness && s.value == 6));
    assert_eq!(e[1], Effect::Backlight(6));
    assert_eq!(e[2], Effect::Persist);
    assert_eq!(a.levels().brightness(), 6);
}

#[test]
fn the_mute_chord_mutes_at_the_level_before_it() {
    let mut a = playing("Golden Sun");
    a.apply(Action::VolumeUp, 1_000);
    a.apply(Action::VolumeDown, 1_050);
    let e = a.apply(Action::MuteToggle, 1_100);
    assert!(matches!(e[0], Effect::Hud(s) if s.muted && s.value == 0));
    assert_eq!(a.levels().volume(), 50);
    assert!(a.levels().muted());
}

#[test]
fn the_shelf_picker_and_about_screen() {
    let mut a = app(None);
    assert_eq!(a.apply(Action::ShelfRight, 0), vec![Effect::ShelfHold(Side::Right)]);
    assert_eq!(a.apply(Action::GbaUp(Btn::Right), 0), vec![Effect::ShelfRelease(Side::Right)]);
    assert_eq!(a.apply(Action::GbaDown(Btn::Start), 0), vec![Effect::OpenCorePicker(0)]);
    a.core_picker_opened(1);
    assert_eq!(a.apply(Action::ShelfLeft, 0), vec![]);
    a.apply(Action::GbaDown(Btn::Down), 0);
    assert_eq!(a.core_picker(), Some(0));
    assert_eq!(a.apply(Action::GbaDown(Btn::A), 0), vec![Effect::WriteCore(0, 0)]);
    assert_eq!(a.core_picker(), None);
    a.apply(Action::OpenAbout, 0);
    assert_eq!(a.phase(), Phase::About);
    a.apply(Action::GbaDown(Btn::B), 0);
    assert_eq!(a.phase(), Phase::Shelf);
}

#[test]
fn the_switcher_opens_on_states_and_undoes_a_save_within_the_grace() {
    let mut a = playing("Golden Sun");
    a.open_polaroids(0, 10);
    assert_eq!(a.phase(), Phase::Playing { cart: 1 });
    assert_eq!(a.refused_at(), Some(10));
    a.state_saved("20250101-120000".into(), None, 1_000);
    assert_eq!(a.undo_label(1_000), Some("undo save"));
    a.open_polaroids(3, 2_000);
    assert_eq!(a.phase(), Phase::Polaroids { cart: 1 });
    assert_eq!(a.speed(false), Speed::Paused);
    assert_eq!(a.apply(Action::GbaDown(Btn::X), 2_100), vec![Effect::Undo]);
    match a.undo(2_100) {
        Some(PendingUndo::Save { stamp, evicted }) => {
            assert_eq!(stamp, "20250101-120000");
            assert!(evicted.is_none());
        }
        _ => panic!("the save is on offer"),
    }
    assert_eq!(a.phase(), Phase::Playing { cart: 1 });
    assert!(a.undo(2_200).is_none());
}

#[test]
fn an_offer_past_its_grace_is_gone() {
    let mut a = playing("Golden Sun");
    a.loaded(Some(vec![7]), 1_000);
    assert_eq!(a.undo_label(1_000 + 30_000), Some("undo load"));
    assert_eq!(a.undo_label(1_001 + 30_000), None);
    assert!(a.undo(1_001 + 30_000).is_none());
    assert!(!a.undo_available(1_000));
}

#[test]
fn a_load_undo_waits_for_the_session() {
    let mut a = playing("Golden Sun");
    a.loaded(Some(vec![7]), 1_000);
    a.begin_link(0);
    assert!(a.undo(1_500).is_none());
    assert_eq!(a.refused_at(), Some(1_500));
    assert!(a.undo_available(1_500));
    a.end_link();
    assert!(matches!(a.undo(1_600), Some(PendingUndo::Load { prior }) if prior == vec![7]));
}

#[test]
fn deleting_the_saved_state_withdraws_its_undo() {
    let mut a = playing("Golden Sun");
    a.state_saved("a".into(), None, 0);
    a.deleted("b");
    assert!(a.undo_available(0));
    a.deleted("a");
    assert!(!a.undo_available(0));
}

#[test]
fn the_load_guard_shakes_during_a_session() {
    let mut a = playing("Golden Sun");
    assert!(a.load_file(5));
    a.begin_link(0);
    assert!(!a.load_file(6));
    assert_eq!(a.refused_at(), Some(6));
}

#[test]
fn the_autosave_and_the_gauge_run_on_the_clock() {
    let mut a = playing("Golden Sun");
    assert_eq!(a.timers(AUTOSAVE_MS - 1), vec![Effect::ReadBattery, Effect::ReadCharge]);
    assert_eq!(a.timers(AUTOSAVE_MS), vec![Effect::FlushResume(1)]);
    assert_eq!(a.timers(AUTOSAVE_MS + 1), vec![]);
}

#[test]
fn a_flat_battery_writes_the_state_and_powers_off() {
    let mut a = playing("Golden Sun");
    a.set_power(180_000, 1_700_000_000, 0);
    let e = a.on_battery_read(Some(Battery { percent: 4, charge: Charge::Discharging }), 500);
    assert_eq!(e, vec![Effect::FlushResume(1), Effect::Led(LedState::Off)]);
    assert!(a.powering_off());
    assert_eq!(a.on_battery(Battery { percent: 1, charge: Charge::Discharging }, 600), vec![]);
    assert_eq!(a.on_charge_read(Some(Charge::Charging)), vec![]);
}

#[test]
fn the_led_follows_a_cable_going_in() {
    let mut a = playing("Golden Sun");
    a.set_power(180_000, 1_700_000_000, 0);
    a.on_battery_read(Some(Battery { percent: 15, charge: Charge::Discharging }), 0);
    assert_eq!(a.on_charge_read(Some(Charge::Discharging)), vec![Effect::Led(LedState::Low)]);
    assert_eq!(a.on_charge_read(Some(Charge::Discharging)), vec![]);
    assert_eq!(a.on_charge_read(Some(Charge::Charging)), vec![Effect::Led(LedState::Charging)]);
    assert_eq!(a.led_state(), LedState::Charging);
}

#[test]
fn wall_time_carries_the_offset() {
    let a = app(None);
    assert_eq!(a.wall_secs(1_000), 1_000 + 3_600);
}

#[test]
fn a_core_exists_exactly_while_a_cart_is_in_the_slot() {
    let mut a = app(Some("Golden Sun"));
    assert_eq!(a.core_wanted(), Some(1));
    assert!(!a.on_core_state(Some(CoreState::Loading)));
    assert!(!a.on_core_state(Some(CoreState::Ready)));
    assert_eq!(a.phase(), Phase::Inserting { cart: 1, core_ready: true, resumed: true, clean: false });
    assert!(a.core_kept());
    let mut b = app(Some("Golden Sun"));
    assert!(b.on_core_state(None));
    assert_eq!(b.phase(), Phase::Ejecting { cart: 1 });
    b.eject_finished();
    assert!(!b.core_kept());
    assert_eq!(b.core_wanted(), None);
}
