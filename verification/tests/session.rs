use slot::app::state::{App, Effect, Phase, PowerChoice, Remembered};
use slot::emu::Speed;
use slot::input::btn::{Action, Btn};
use slot::session::{Acted, FfState, Session};

fn session() -> Session {
    let mut app = App::boot(
        vec!["Advance Wars".into(), "Golden Sun".into()],
        vec![PowerChoice::PowerOff, PowerChoice::Restart],
        2,
        250,
        Remembered {
            cart: Some("Golden Sun".into()),
            clock_set: true,
            utc_offset_min: 0,
            brightness: 5,
            blue_light: 0,
            volume: 40,
            muted: false,
        },
    );
    app.on_core_ready();
    app.insert_finished();
    Session::new(app)
}

#[test]
fn the_game_holds_what_is_pressed_until_the_switcher_takes_the_buttons() {
    let mut s = session();
    s.act(Action::GbaDown(Btn::A), 10, Some(0));
    assert_eq!(s.pad(), 1 << 8);
    s.app_mut().open_polaroids(2, 20);
    assert_eq!(s.app().phase(), Phase::Polaroids { cart: 1 });
    s.act(Action::GbaDown(Btn::B), 30, Some(0));
    assert_eq!(s.app().phase(), Phase::Playing { cart: 1 });
    assert_eq!(s.pad(), 0);
    s.act(Action::GbaDown(Btn::Up), 40, Some(0));
    assert_eq!(s.pad(), 1 << 4);
}

#[test]
fn a_volume_action_sets_a_running_cores_level() {
    let mut s = session();
    let (_, acted) = s.act(Action::VolumeUp, 10, Some(0));
    assert_eq!(acted, Acted { volume: Some(45), motor: None });
    let (effects, acted) = s.act(Action::VolumeUp, 20, None);
    assert_eq!(acted.volume, None);
    assert!(matches!(effects[0], Effect::Hud(_)));
}

#[test]
fn the_motor_follows_the_game_and_stops_with_it() {
    let mut s = session();
    let (_, acted) = s.act(Action::GbaDown(Btn::L1), 10, Some(900));
    assert_eq!(acted.motor, Some(900));
    assert_eq!(s.sync_rumble(Some(900)), None);
    let (_, acted) = s.act(Action::PowerHold, 20, Some(900));
    assert_eq!(acted.motor, Some(0));
    assert_eq!(s.sync_rumble(Some(900)), None);
    assert_eq!(s.sync_rumble(None), None);
}

#[test]
fn holds_only_reach_the_game_being_played() {
    let mut s = session();
    s.act(Action::FfStart, 10, None);
    assert_eq!(s.speed(), Speed::Fast);
    assert_eq!(s.ff_state(true), FfState::Latched);
    assert_eq!(s.ff_state(false), FfState::Held);
    s.act(Action::RewindStart, 11, None);
    assert!(s.rewinding());
    s.act(Action::PowerHold, 12, None);
    assert_eq!(s.speed(), Speed::Paused);
    assert!(!s.rewinding());
    assert_eq!(s.ff_state(false), FfState::Off);
    s.act(Action::GbaDown(Btn::B), 13, None);
    s.act(Action::FfStop, 14, None);
    assert_eq!(s.speed(), Speed::Normal);
}
