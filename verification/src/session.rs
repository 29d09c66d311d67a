//! Everything between the gestures and the core that is not a window: which actions reach the
//! game's buttons, the hold flags for rewind and fast forward, the level the sink is set to,
//! and the motor. The core, the sink and the gesture layer themselves are the binary's.

use vstd::prelude::*;

use crate::app::spec_output_volume;
use crate::app::state::{applied, in_time, playing, spec_speed, valid, App, AppView, Effect, Phase};
use crate::emu::Speed;
use crate::input::btn::Action;
use crate::input::mask::{applied as mask_applied, Pad};

verus! {

/// The hold flags, the game's buttons, the motor as last written, and the app.
pub struct SessionView {
    pub app: AppView,
    pub pad: u16,
    pub rewinding: bool,
    pub fast: bool,
    pub motor: u16,
}

/// The fast forward badge: off, held down, or latched on.
#[derive(Copy, Clone, Debug, PartialEq, Eq, Structural)]
pub enum FfState {
    Off,
    Held,
    Latched,
}

/// What one action does outside the app: the level a running core's sink is set to after a
/// volume action, and the motor when its strength changed.
#[derive(Copy, Clone, Debug, PartialEq, Eq, Structural)]
pub struct Acted {
    pub volume: Option<u8>,
    pub motor: Option<u16>,
}

/// The hold flags after an action: L2 and R2's own edges, whatever screen is up.
pub open spec fn flagged(s: SessionView, action: Action) -> SessionView {
    if action == Action::RewindStart {
        SessionView { rewinding: true, ..s }
    } else if action == Action::RewindStop {
        SessionView { rewinding: false, ..s }
    } else if action == Action::FfStart {
        SessionView { fast: true, ..s }
    } else if action == Action::FfStop {
        SessionView { fast: false, ..s }
    } else {
        s
    }
}

/// The motor: the core's strength while the game is live and in charge, still otherwise; a
/// write only when that changed.
pub open spec fn motored(motor: u16, app: AppView, core: Option<u16>) -> (u16, Option<u16>) {
    let want = match core {
        Some(strength) => if playing(app) {
            strength
        } else {
            0u16
        },
        None => 0u16,
    };
    if want == motor {
        (motor, None)
    } else {
        (want, Some(want))
    }
}

/// One action. A button the switcher used is not the game's, on either edge of it: the press
/// that opens it and the one that dismisses it both belong to the switcher. `core` is the
/// running core's motor strength, `None` with no core.
pub open spec fn acted(s: SessionView, action: Action, now: u64, core: Option<u16>) -> (
    SessionView,
    Seq<Effect>,
    Acted,
) {
    let s1 = flagged(s, action);
    let switcher = s1.app.phase is Polaroids;
    let (app, effects) = applied(s1.app, action, now);
    let volume = if core is Some && (action == Action::VolumeUp || action == Action::VolumeDown
        || action == Action::MuteToggle) {
        Some(spec_output_volume(app.levels))
    } else {
        None
    };
    let pad = if switcher || app.phase is Polaroids {
        0u16
    } else {
        mask_applied(s1.pad, action)
    };
    let (motor, write) = motored(s1.motor, app, core);
    (
        SessionView { app, pad, motor, ..s1 },
        effects,
        Acted { volume, motor: write },
    )
}

pub struct Session {
    app: App,
    pad: Pad,
    rewinding: bool,
    fast: bool,
    motor: u16,
}

impl View for Session {
    type V = SessionView;

    closed spec fn view(&self) -> SessionView {
        SessionView {
            app: self.app@,
            pad: self.pad.held(),
            rewinding: self.rewinding,
            fast: self.fast,
            motor: self.motor,
        }
    }
}

impl Session {
    pub fn new(app: App) -> (r: Session)
        ensures
            r@ == (SessionView { app: app@, pad: 0, rewinding: false, fast: false, motor: 0 }),
    {
        Session { app, pad: Pad::new(), rewinding: false, fast: false, motor: 0 }
    }

    pub fn app(&self) -> (r: &App)
        ensures
            r@ == self@.app,
    {
        &self.app
    }

    /// The app, for the answers that go back into it.
    pub fn app_mut(&mut self) -> (r: &mut App)
        ensures
            r@ == old(self)@.app,
            final(self)@ == (SessionView { app: final(r)@, ..old(self)@ }),
    {
        &mut self.app
    }

    /// The mask the game is polled with.
    pub fn pad(&self) -> (r: u16)
        ensures
            r == self@.pad,
    {
        self.pad.mask().0
    }

    /// One action, at `now`.
    pub fn act(&mut self, action: Action, now: u64, core: Option<u16>) -> (r: (Vec<Effect>, Acted))
        requires
            valid(old(self)@.app),
            in_time(now),
        ensures
            valid(final(self)@.app),
            (final(self)@, r.0@, r.1) == acted(old(self)@, action, now, core),
    {
        if action == Action::RewindStart {
            self.rewinding = true;
        } else if action == Action::RewindStop {
            self.rewinding = false;
        } else if action == Action::FfStart {
            self.fast = true;
        } else if action == Action::FfStop {
            self.fast = false;
        }
        let switcher = match self.app.phase() {
            Phase::Polaroids { .. } => true,
            _ => false,
        };
        let effects = self.app.apply(action, now);
        let volume = if core.is_some() && (action == Action::VolumeUp || action
            == Action::VolumeDown || action == Action::MuteToggle) {
            Some(self.app.levels().output_volume())
        } else {
            None
        };
        let now_switcher = match self.app.phase() {
            Phase::Polaroids { .. } => true,
            _ => false,
        };
        if switcher || now_switcher {
            self.pad.clear();
        } else {
            self.pad.apply(action);
        }
        let motor = self.sync_rumble(core);
        (effects, Acted { volume, motor })
    }

    /// The motor after whatever just happened: a cart on its way out, a paused switcher and a
    /// doze all stop it whatever the core last asked for.
    pub fn sync_rumble(&mut self, core: Option<u16>) -> (write: Option<u16>)
        ensures
            (final(self)@.motor, write) == motored(old(self)@.motor, old(self)@.app, core),
            final(self)@ == (SessionView { motor: final(self)@.motor, ..old(self)@ }),
    {
        let want = match core {
            Some(strength) => if self.app.playing() {
                strength
            } else {
                0
            },
            None => 0,
        };
        if want == self.motor {
            return None;
        }
        self.motor = want;
        Some(want)
    }

    /// The speed the core runs at.
    pub fn speed(&self) -> (r: Speed)
        ensures
            r == spec_speed(self@.app, self@.fast),
    {
        self.app.speed(self.fast)
    }

    /// Held through an eject or into the switcher, L2 stops rewinding rather than eating the
    /// history of a cart that is on its way out.
    pub fn rewinding(&self) -> (r: bool)
        ensures
            r == (self@.rewinding && playing(self@.app)),
    {
        self.rewinding && self.app.playing()
    }

    /// The badge tracks the speed the game is actually running at.
    pub fn ff_state(&self, latched: bool) -> (r: FfState)
        ensures
            r == if !(self@.fast && playing(self@.app)) {
                FfState::Off
            } else if latched {
                FfState::Latched
            } else {
                FfState::Held
            },
    {
        if !(self.fast && self.app.playing()) {
            FfState::Off
        } else if latched {
            FfState::Latched
        } else {
            FfState::Held
        }
    }
}

/// The switcher's buttons never reach the game: an action that opens it, acts inside it or
/// closes it leaves the game holding nothing.
pub proof fn law_the_switchers_buttons_are_not_the_games(
    s: SessionView,
    action: Action,
    now: u64,
    core: Option<u16>,
)
    ensures
        (s.app.phase is Polaroids || acted(s, action, now, core).0.app.phase is Polaroids)
            ==> acted(s, action, now, core).0.pad == 0,
{
}

/// The motor is written only when its strength changes, and it is still whenever the game is
/// not the thing being played.
pub proof fn law_the_motor_stops_when_the_game_does(motor: u16, app: AppView, core: Option<u16>)
    ensures
        motored(motor, app, core).1 matches Some(w) ==> w != motor,
        !playing(app) ==> motored(motor, app, core).0 == 0,
{
}

/// A rewind or a fast forward is only ever what the game being played does.
pub proof fn law_holds_only_reach_a_live_game(s: SessionView)
    ensures
        spec_speed(s.app, s.fast) == Speed::Fast ==> playing(s.app),
{
}

} // verus!
