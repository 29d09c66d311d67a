//! The rules the frontend runs by that do not depend on anything being drawn: the three
//! levels and the mute chord, the charge LED, the battery cutoff, the power menu and the core
//! picker's rows, the undo offer's grace, the link session's interlocks, and the deadlines the
//! clock drives. The screen, the card and the platform are the binary's; these are the
//! decisions it makes about them.

use vstd::prelude::*;

use crate::input::btn::{Action, Btn};

pub mod state;

verus! {

/// Volume has ten times the range of the other two, so it moves ten times as far. Twenty
/// presses end to end is close enough to their ten that the three feel like one control.
pub const VOLUME_STEP: u8 = 5;

/// The three levels' tops. Volume is stored 0 to 100 because that is what an ALSA mixer takes
/// on the device.
pub const VOLUME_MAX: u8 = 100;
pub const BRIGHTNESS_MAX: u8 = 10;
pub const BLUE_LIGHT_MAX: u8 = 10;

/// Crash insurance, and the only durable write that happens with the game still running.
pub const AUTOSAVE_MS: u64 = 60_000;

/// A dead battery is a far likelier hard cutoff than anyone holding POWER for eight
/// seconds, so the last of the charge goes on the state and then on stopping.
pub const BATTERY_CRITICAL: u8 = 5;

/// The gauge moves by a percent over minutes and on the device it is a sysfs read, so it
/// is not worth a look every frame.
pub const BATTERY_POLL_MS: u64 = 10_000;

/// The charge state is a step change: it flips the instant a cable goes in.
pub const CHARGE_POLL_MS: u64 = 1_000;

/// Below this the LED goes red. Well clear of `BATTERY_CRITICAL`, since it is a warning with
/// time to act on it rather than a cutoff.
pub const BATTERY_LOW: u8 = 20;

/// Long enough to notice the wrong state loading, short enough that the offer is gone by the
/// time the switcher is opened for any other reason.
pub const UNDO_GRACE_MS: u64 = 30_000;

/// How long A has to be down on the shelf before it means "start this cart clean".
pub const PLAY_HOLD_MS: u64 = 500;

/// How long the shutdown screen is on the panel before the machine is allowed to stop.
pub const SHUTDOWN_SHOW_MS: u64 = 250;

/// Any clock reading earlier than this was never set. An RTC that has lost power reports a
/// fault rather than a time, the kernel then starts at the epoch, and nothing that reaches
/// this frontend can legitimately be older than the frontend itself.
pub const CLOCK_FLOOR: i64 = 1_577_836_800;

/// A level moved up by `step`, held at `max`.
pub open spec fn spec_up(level: u8, step: u8, max: u8) -> u8 {
    if level + step > max {
        max
    } else {
        (level + step) as u8
    }
}

pub fn up(level: u8, step: u8, max: u8) -> (r: u8)
    ensures
        r == if level + step > 255 {
            max
        } else {
            spec_up(level, step, max)
        },
{
    let sum = level.saturating_add(step);
    if sum > max {
        max
    } else {
        sum
    }
}

/// A level moved down by `step`, held at zero.
pub open spec fn down_by(level: u8, step: u8) -> u8 {
    if level >= step {
        (level - step) as u8
    } else {
        0
    }
}

/// Which of the bars the HUD is showing.
#[derive(Copy, Clone, Debug, PartialEq, Eq, Structural)]
pub enum HudKind {
    Brightness,
    BlueLight,
    Volume,
    Rewind,
}

/// The levels as they stand, with where the volume and the silence stood before each of the
/// last two volume presses, oldest first.
pub struct LevelsView {
    pub brightness: u8,
    pub blue_light: u8,
    pub volume: u8,
    pub muted: bool,
    pub before: Seq<(u8, bool, u64)>,
}

/// What the HUD is to show after a level action, and whether the card has to hear of it.
#[derive(Copy, Clone, Debug, PartialEq, Eq, Structural)]
pub struct Shown {
    pub kind: HudKind,
    pub value: u8,
    pub muted: bool,
    pub persist: bool,
}

/// What the sink is actually set to: a muted device at level 70 is silent, not 70.
pub open spec fn spec_output_volume(v: LevelsView) -> u8 {
    if v.muted {
        0
    } else {
        v.volume
    }
}

/// The history after a volume press at `now`: only the last two are kept, because a chord is
/// two presses and anything older belongs to a gesture that already ended.
pub open spec fn remembered(v: LevelsView, now: u64) -> Seq<(u8, bool, u64)> {
    let kept = if v.before.len() >= 2 {
        v.before.drop_first()
    } else {
        v.before
    };
    kept.push((v.volume, v.muted, now))
}

/// Time since `at`, or none at all for a reading from the future.
pub open spec fn elapsed(at: u64, now: u64) -> int {
    if now >= at {
        now - at
    } else {
        0
    }
}

/// The first remembered press still inside the chord window.
pub open spec fn chord_start(before: Seq<(u8, bool, u64)>, now: u64, chord_ms: u64) -> Option<
    (u8, bool, u64),
>
    decreases before.len(),
{
    if before.len() == 0 {
        None
    } else if elapsed(before[0].2, now) <= chord_ms {
        Some(before[0])
    } else {
        chord_start(before.drop_first(), now, chord_ms)
    }
}

/// The levels after the mute chord: whatever the two presses that made it moved is given
/// back, the history is spent, and the silence flips.
pub open spec fn muted_toggle(v: LevelsView, now: u64, chord_ms: u64) -> LevelsView {
    let (volume, muted) = match chord_start(v.before, now, chord_ms) {
        Some((vol, m, _)) => (vol, m),
        None => (v.volume, v.muted),
    };
    LevelsView {
        brightness: v.brightness,
        blue_light: v.blue_light,
        volume,
        muted: !muted,
        before: Seq::empty(),
    }
}

/// The levels after one of the six level actions.
pub open spec fn adjusted(v: LevelsView, action: Action, now: u64) -> LevelsView {
    match action {
        Action::BrightnessUp => LevelsView {
            brightness: spec_up(v.brightness, 1, BRIGHTNESS_MAX),
            ..v
        },
        Action::BrightnessDown => LevelsView { brightness: down_by(v.brightness, 1), ..v },
        Action::BlueLightUp => LevelsView {
            blue_light: spec_up(v.blue_light, 1, BLUE_LIGHT_MAX),
            ..v
        },
        Action::BlueLightDown => LevelsView { blue_light: down_by(v.blue_light, 1), ..v },
        // Turning it up or down is the plainest way to say you want to hear it again.
        Action::VolumeUp => LevelsView {
            volume: spec_up(v.volume, VOLUME_STEP, VOLUME_MAX),
            muted: false,
            before: remembered(v, now),
            ..v
        },
        Action::VolumeDown => LevelsView {
            volume: down_by(v.volume, VOLUME_STEP),
            muted: false,
            before: remembered(v, now),
            ..v
        },
        _ => v,
    }
}

/// The levels after any action: the mute chord and the six level actions move them, and
/// nothing else does.
pub open spec fn levels_after(v: LevelsView, action: Action, now: u64, chord_ms: u64) -> LevelsView {
    if action == Action::MuteToggle {
        muted_toggle(v, now, chord_ms)
    } else {
        adjusted(v, action, now)
    }
}

/// What the HUD shows after an action, and whether the card has to hear of it: `None` for an
/// action that is neither a level nor the mute chord.
pub open spec fn spec_shown(v: LevelsView, action: Action, now: u64, chord_ms: u64) -> Option<
    Shown,
> {
    let after = levels_after(v, action, now, chord_ms);
    if action == Action::MuteToggle {
        Some(
            Shown {
                kind: HudKind::Volume,
                value: spec_output_volume(after),
                muted: after.muted,
                persist: true,
            },
        )
    } else if is_level(action) {
        Some(
            match action {
                Action::BrightnessUp | Action::BrightnessDown => Shown {
                    kind: HudKind::Brightness,
                    value: after.brightness,
                    muted: after.muted,
                    persist: after.brightness != v.brightness,
                },
                Action::BlueLightUp | Action::BlueLightDown => Shown {
                    kind: HudKind::BlueLight,
                    value: after.blue_light,
                    muted: after.muted,
                    persist: after.blue_light != v.blue_light,
                },
                _ => Shown {
                    kind: HudKind::Volume,
                    value: spec_output_volume(after),
                    muted: after.muted,
                    persist: after.volume != v.volume || v.muted,
                },
            },
        )
    } else {
        None
    }
}

/// One of the six actions that move a level.
pub open spec fn is_level(action: Action) -> bool {
    action == Action::BrightnessUp || action == Action::BrightnessDown || action
        == Action::BlueLightUp || action == Action::BlueLightDown || action == Action::VolumeUp
        || action == Action::VolumeDown
}

/// Whether an action is one of the six that move a level.
pub fn level_action(action: Action) -> (r: bool)
    ensures
        r == is_level(action),
{
    match action {
        Action::BrightnessUp | Action::BrightnessDown | Action::BlueLightUp
        | Action::BlueLightDown | Action::VolumeUp | Action::VolumeDown => true,
        _ => false,
    }
}

/// Every level within its range.
pub open spec fn in_range(v: LevelsView) -> bool {
    v.brightness <= BRIGHTNESS_MAX && v.blue_light <= BLUE_LIGHT_MAX && v.volume <= VOLUME_MAX
}

/// The three levels and the silence, which the card remembers, and the last two volume
/// presses, which it does not.
pub struct Levels {
    brightness: u8,
    blue_light: u8,
    volume: u8,
    muted: bool,
    before: Vec<(u8, bool, u64)>,
}

impl View for Levels {
    type V = LevelsView;

    closed spec fn view(&self) -> LevelsView {
        LevelsView {
            brightness: self.brightness,
            blue_light: self.blue_light,
            volume: self.volume,
            muted: self.muted,
            before: self.before@,
        }
    }
}

impl Levels {
    /// The levels the card remembers, with no presses behind them.
    pub fn new(brightness: u8, blue_light: u8, volume: u8, muted: bool) -> (r: Levels)
        ensures
            r@ == (LevelsView { brightness, blue_light, volume, muted, before: Seq::empty() }),
    {
        Levels { brightness, blue_light, volume, muted, before: Vec::new() }
    }

    pub fn brightness(&self) -> (r: u8)
        ensures
            r == self@.brightness,
    {
        self.brightness
    }

    pub fn blue_light(&self) -> (r: u8)
        ensures
            r == self@.blue_light,
    {
        self.blue_light
    }

    /// The level the user chose, which a mute does not touch.
    pub fn volume(&self) -> (r: u8)
        ensures
            r == self@.volume,
    {
        self.volume
    }

    pub fn muted(&self) -> (r: bool)
        ensures
            r == self@.muted,
    {
        self.muted
    }

    /// What the sink is actually to be set to. The only one of the two the audio path may
    /// read: a muted device at level 70 is silent, not 70.
    pub fn output_volume(&self) -> (r: u8)
        ensures
            r == spec_output_volume(self@),
    {
        if self.muted {
            0
        } else {
            self.volume
        }
    }

    /// Where the volume stood before the press about to happen.
    fn remember_volume(&mut self, now: u64)
        ensures
            final(self)@ == (LevelsView { before: remembered(old(self)@, now), ..old(self)@ }),
    {
        if self.before.len() >= 2 {
            self.before.remove(0);
        }
        self.before.push((self.volume, self.muted, now));
        assert(self.before@ =~= remembered(old(self)@, now));
    }

    /// Silence is a state rather than a level, so muting neither moves the number nor is
    /// moved by the two presses that asked for it. Both keys fire their own adjustment on
    /// the way to the chord, and from an end those two do not cancel: the chord is delivered
    /// behind them, so toggling gives back what they already moved. `chord_ms` is how far
    /// apart the two presses of the chord may be.
    pub fn mute_toggle(&mut self, now: u64, chord_ms: u64) -> (shown: Shown)
        ensures
            final(self)@ == muted_toggle(old(self)@, now, chord_ms),
            shown == (Shown {
                kind: HudKind::Volume,
                value: spec_output_volume(final(self)@),
                muted: final(self)@.muted,
                persist: true,
            }),
    {
        let mut i: usize = 0;
        let n = self.before.len();
        let mut found: Option<(u8, bool)> = None;
        assert(self@.before.subrange(0, n as int) =~= self@.before);
        while i < n
            invariant_except_break
                found is None,
                chord_start(self@.before, now, chord_ms) == chord_start(
                    self@.before.subrange(i as int, n as int),
                    now,
                    chord_ms,
                ),
            invariant
                n == self.before@.len(),
                i <= n,
                self@ == old(self)@,
            ensures
                match chord_start(self@.before, now, chord_ms) {
                    Some((vol, m, _)) => found == Some((vol, m)),
                    None => found is None,
                },
            decreases n - i,
        {
            let (volume, muted, at) = self.before[i];
            let ghost rest = self@.before.subrange(i as int, n as int);
            assert(rest[0] == (volume, muted, at));
            if now.saturating_sub(at) <= chord_ms {
                found = Some((volume, muted));
                break;
            }
            assert(rest.drop_first() =~= self@.before.subrange(i + 1, n as int));
            i += 1;
        }
        proof {
            if found is None && i == n {
                assert(self@.before.subrange(n as int, n as int).len() == 0);
            }
        }
        if let Some((volume, muted)) = found {
            self.volume = volume;
            self.muted = muted;
        }
        self.before.clear();
        self.muted = !self.muted;
        Shown { kind: HudKind::Volume, value: self.output_volume(), muted: self.muted, persist: true }
    }

    /// One of the six level actions, or the mute chord: `None` when the action is neither.
    /// A press that hits an end still shows the bar, which is how the end announces itself,
    /// but a key held against an end does not rewrite the card at the repeat rate.
    pub fn adjust(&mut self, action: Action, now: u64, chord_ms: u64) -> (shown: Option<Shown>)
        ensures
            final(self)@ == levels_after(old(self)@, action, now, chord_ms),
            shown == spec_shown(old(self)@, action, now, chord_ms),
            action == Action::MuteToggle ==> final(self)@ == muted_toggle(old(self)@, now, chord_ms)
                && shown == Some(
                Shown {
                    kind: HudKind::Volume,
                    value: spec_output_volume(final(self)@),
                    muted: final(self)@.muted,
                    persist: true,
                },
            ),
            is_level(action) ==> final(self)@ == adjusted(old(self)@, action, now),
            is_level(action) ==> (shown matches Some(s) && s.muted == final(self)@.muted && match action {
                Action::BrightnessUp | Action::BrightnessDown => s.kind == HudKind::Brightness
                    && s.value == final(self)@.brightness && s.persist == (final(self)@.brightness
                    != old(self)@.brightness),
                Action::BlueLightUp | Action::BlueLightDown => s.kind == HudKind::BlueLight
                    && s.value == final(self)@.blue_light && s.persist == (final(self)@.blue_light
                    != old(self)@.blue_light),
                _ => s.kind == HudKind::Volume && s.value == spec_output_volume(final(self)@)
                    && s.persist == (final(self)@.volume != old(self)@.volume || old(self)@.muted),
            }),
            !is_level(action) && action != Action::MuteToggle ==> shown is None && final(self)@
                == old(self)@,
    {
        if action == Action::MuteToggle {
            return Some(self.mute_toggle(now, chord_ms));
        }
        let (kind, value) = match action {
            Action::BrightnessUp => (HudKind::Brightness, up(self.brightness, 1, BRIGHTNESS_MAX)),
            Action::BrightnessDown => (HudKind::Brightness, self.brightness.saturating_sub(1)),
            Action::BlueLightUp => (HudKind::BlueLight, up(self.blue_light, 1, BLUE_LIGHT_MAX)),
            Action::BlueLightDown => (HudKind::BlueLight, self.blue_light.saturating_sub(1)),
            Action::VolumeUp => (HudKind::Volume, up(self.volume, VOLUME_STEP, VOLUME_MAX)),
            Action::VolumeDown => (HudKind::Volume, self.volume.saturating_sub(VOLUME_STEP)),
            _ => return None,
        };
        if kind == HudKind::Volume {
            self.remember_volume(now);
        }
        let moved = match kind {
            HudKind::Brightness => {
                let moved = self.brightness != value;
                self.brightness = value;
                moved
            },
            HudKind::BlueLight => {
                let moved = self.blue_light != value;
                self.blue_light = value;
                moved
            },
            _ => {
                let moved = self.volume != value;
                self.volume = value;
                moved
            },
        };
        let unmuted = kind == HudKind::Volume && self.muted;
        if kind == HudKind::Volume {
            self.muted = false;
        }
        let shown = match kind {
            HudKind::Volume => self.output_volume(),
            _ => value,
        };
        Some(Shown { kind, value: shown, muted: self.muted, persist: moved || unmuted })
    }
}

/// The mute chord gives back what its two presses moved: from any levels an app can hold,
/// VOL+ and VOL- with the chord landing inside the window of the first press mutes at the
/// level the player had before touching either key.
pub proof fn law_the_mute_chord_keeps_the_level(
    v: LevelsView,
    t1: u64,
    t2: u64,
    t3: u64,
    chord_ms: u64,
)
    requires
        v.before.len() <= 2,
        t1 <= t3,
        t3 - t1 <= chord_ms,
    ensures
        ({
            let after = muted_toggle(
                adjusted(adjusted(v, Action::VolumeUp, t1), Action::VolumeDown, t2),
                t3,
                chord_ms,
            );
            &&& after.volume == v.volume
            &&& after.muted == !v.muted
            &&& after.before.len() == 0
        }),
{
    let a = adjusted(v, Action::VolumeUp, t1);
    let b = adjusted(a, Action::VolumeDown, t2);
    assert(a.before.last() == (v.volume, v.muted, t1));
    assert(a.before.len() <= 2);
    assert(b.before[0] == (v.volume, v.muted, t1)) by {
        if a.before.len() >= 2 {
            assert(a.before.len() == 2);
            assert(b.before[0] == a.before.drop_first()[0]);
        } else {
            assert(a.before.len() == 1);
            assert(b.before[0] == a.before[0]);
        }
    }
}

/// Muting never loses the level: toggling twice with no presses in between comes back to
/// the same volume, heard.
pub proof fn law_muting_keeps_the_level(v: LevelsView, t1: u64, t2: u64, chord_ms: u64)
    requires
        v.before.len() == 0,
    ensures
        muted_toggle(muted_toggle(v, t1, chord_ms), t2, chord_ms).volume == v.volume,
        muted_toggle(muted_toggle(v, t1, chord_ms), t2, chord_ms).muted == v.muted,
        spec_output_volume(muted_toggle(v, t1, chord_ms)) == if v.muted {
            v.volume
        } else {
            0
        },
{
}

/// The levels never leave their ranges, whatever is pressed.
pub proof fn law_levels_stay_in_range(v: LevelsView, action: Action, now: u64)
    requires
        in_range(v),
    ensures
        in_range(adjusted(v, action, now)),
{
}

/// How the charge is going, as the platform reports it.
#[derive(Copy, Clone, Debug, PartialEq, Eq, Structural)]
pub enum Charge {
    Unknown,
    Discharging,
    Charging,
    Full,
}

/// One reading of the gauge.
#[derive(Copy, Clone, Debug, PartialEq, Eq, Structural)]
pub struct Battery {
    pub percent: u8,
    pub charge: Charge,
}

/// The charge LED.
#[derive(Copy, Clone, Debug, PartialEq, Eq, Structural)]
pub enum LedState {
    Running,
    Low,
    Charging,
    Charged,
    Off,
}

/// Modelled on the OG SP: green running, red low, amber charging, green once it is full.
/// Charging outranks low, since a flat device on a cable is filling rather than dying.
pub open spec fn spec_led_state(battery: Option<Battery>) -> LedState {
    match battery {
        None => LedState::Running,
        Some(b) => match b.charge {
            Charge::Charging => LedState::Charging,
            Charge::Full => LedState::Charged,
            _ => if b.percent <= BATTERY_LOW {
                LedState::Low
            } else {
                LedState::Running
            },
        },
    }
}

pub fn led_state(battery: Option<Battery>) -> (r: LedState)
    ensures
        r == spec_led_state(battery),
{
    let b = match battery {
        Some(b) => b,
        None => return LedState::Running,
    };
    match b.charge {
        Charge::Charging => LedState::Charging,
        Charge::Full => LedState::Charged,
        _ => if b.percent <= BATTERY_LOW {
            LedState::Low
        } else {
            LedState::Running
        },
    }
}

/// The one place a state reaches the platform's LED, so a state repeated from the previous
/// second never becomes a write, and a shutdown that darkened the case stays dark.
pub struct Led {
    last: Option<LedState>,
}

impl Led {
    pub closed spec fn spec_last(&self) -> Option<LedState> {
        self.last
    }

    /// Nothing written yet: the first state asked for is always written.
    pub fn new() -> (r: Led)
        ensures
            r.spec_last() is None,
    {
        Led { last: None }
    }

    /// Forget what was written, for a platform that has only just arrived.
    pub fn reset(&mut self)
        ensures
            final(self).spec_last() is None,
    {
        self.last = None;
    }

    /// The state to write now, if any.
    pub fn set(&mut self, state: LedState, shutting_down: bool) -> (write: Option<LedState>)
        ensures
            write == led_write(old(self).spec_last(), state, shutting_down),
            final(self).spec_last() == led_after(old(self).spec_last(), state, shutting_down),
    {
        if shutting_down && state != LedState::Off {
            return None;
        }
        if let Some(last) = self.last {
            if last == state {
                return None;
            }
        }
        self.last = Some(state);
        Some(state)
    }
}

/// What a request for `state` writes, given what was written last.
pub open spec fn led_write(last: Option<LedState>, state: LedState, shutting_down: bool) -> Option<
    LedState,
> {
    if (shutting_down && state != LedState::Off) || last == Some(state) {
        None
    } else {
        Some(state)
    }
}

/// What is remembered as written afterwards.
pub open spec fn led_after(last: Option<LedState>, state: LedState, shutting_down: bool) -> Option<
    LedState,
> {
    match led_write(last, state, shutting_down) {
        Some(s) => Some(s),
        None => last,
    }
}

/// A state is written once and not again until it changes, and once a shutdown has begun
/// nothing but `Off` ever reaches the case.
pub proof fn law_the_led_writes_only_changes(
    last: Option<LedState>,
    state: LedState,
    shutting_down: bool,
)
    ensures
        led_write(led_after(last, state, shutting_down), state, shutting_down) is None,
        shutting_down ==> (led_write(last, state, shutting_down) matches Some(s) ==> s
            == LedState::Off),
{
}

/// Whether a reading is the cutoff: a critical charge that the device has not positively
/// said is being filled. Unknown and discharging both power off at the threshold.
pub open spec fn spec_battery_cutoff(b: Battery, powering_off: bool) -> bool {
    !powering_off && b.percent <= BATTERY_CRITICAL && !(b.charge == Charge::Charging || b.charge
        == Charge::Full)
}

pub fn battery_cutoff(b: Battery, powering_off: bool) -> (r: bool)
    ensures
        r == spec_battery_cutoff(b, powering_off),
{
    if b.percent > BATTERY_CRITICAL || powering_off {
        return false;
    }
    match b.charge {
        Charge::Charging | Charge::Full => false,
        _ => true,
    }
}

/// A cable in always stops the cutoff, and a critical reading with nothing charging always
/// starts it.
pub proof fn law_a_charging_device_is_never_cut_off(percent: u8, charge: Charge)
    ensures
        charge == Charge::Charging || charge == Charge::Full ==> !spec_battery_cutoff(
            Battery { percent, charge },
            false,
        ),
        percent <= BATTERY_CRITICAL && (charge == Charge::Unknown || charge == Charge::Discharging)
            ==> spec_battery_cutoff(Battery { percent, charge }, false),
{
}

/// What the power menu does with a button.
#[derive(Copy, Clone, Debug, PartialEq, Eq, Structural)]
pub enum MenuStep {
    /// Still open, on this row.
    Stay(usize),
    /// Backed out.
    Close,
    /// The row in hand chosen.
    Choose(usize),
}

/// Up and down move and stop at the ends, A commits, B leaves. Nothing times out: a menu that
/// closed itself would do it exactly when the user looked away to think.
pub open spec fn spec_power_menu_step(index: usize, rows: usize, action: Action) -> MenuStep {
    match action {
        Action::GbaDown(Btn::Up) => MenuStep::Stay(if index >= 1 { (index - 1) as usize } else { 0 }),
        Action::GbaDown(Btn::Down) => MenuStep::Stay(
            if index + 1 > rows - 1 {
                (rows - 1) as usize
            } else {
                (index + 1) as usize
            },
        ),
        Action::GbaDown(Btn::B) => MenuStep::Close,
        Action::GbaDown(Btn::A) => MenuStep::Choose(index),
        _ => MenuStep::Stay(index),
    }
}

pub fn power_menu_step(index: usize, rows: usize, action: Action) -> (r: MenuStep)
    requires
        rows >= 1,
        index < rows,
    ensures
        r == spec_power_menu_step(index, rows, action),
{
    let last = rows - 1;
    match action {
        Action::GbaDown(Btn::Up) => MenuStep::Stay(if index >= 1 { index - 1 } else { 0 }),
        Action::GbaDown(Btn::Down) => MenuStep::Stay(if index + 1 > last { last } else { index + 1 }),
        Action::GbaDown(Btn::B) => MenuStep::Close,
        Action::GbaDown(Btn::A) => MenuStep::Choose(index),
        _ => MenuStep::Stay(index),
    }
}

/// The core picker owns every button while it is up. Up and down wrap, because with two rows
/// either arrow is the other's undo and an end that stuck would need the player to know which
/// one they were against.
pub open spec fn spec_picker_step(row: usize, rows: usize, action: Action) -> MenuStep {
    match action {
        Action::GbaDown(Btn::Up) => MenuStep::Stay(((row + rows - 1) % (rows as int)) as usize),
        Action::GbaDown(Btn::Down) => MenuStep::Stay(((row + 1) % (rows as int)) as usize),
        Action::GbaDown(Btn::A) => MenuStep::Choose(row),
        Action::GbaDown(Btn::B) => MenuStep::Close,
        _ => MenuStep::Stay(row),
    }
}

pub fn picker_step(row: usize, rows: usize, action: Action) -> (r: MenuStep)
    requires
        rows >= 1,
        row < rows,
    ensures
        r == spec_picker_step(row, rows, action),
{
    match action {
        Action::GbaDown(Btn::Up) => {
            let r = if row == 0 {
                rows - 1
            } else {
                row - 1
            };
            assert(r == (row + rows - 1) % (rows as int)) by (nonlinear_arith)
                requires
                    rows >= 1,
                    row < rows,
                    r == if row == 0 {
                        rows - 1
                    } else {
                        row - 1
                    },
            ;
            MenuStep::Stay(r)
        },
        Action::GbaDown(Btn::Down) => {
            let r = if row + 1 == rows {
                0
            } else {
                row + 1
            };
            assert(r == (row + 1) % (rows as int)) by (nonlinear_arith)
                requires
                    rows >= 1,
                    row < rows,
                    r == if row + 1 == rows {
                        0
                    } else {
                        row + 1
                    },
            ;
            MenuStep::Stay(r)
        },
        Action::GbaDown(Btn::A) => MenuStep::Choose(row),
        Action::GbaDown(Btn::B) => MenuStep::Close,
        _ => MenuStep::Stay(row),
    }
}

/// Both menus keep their highlight on a row, and on the picker either arrow undoes the other.
pub proof fn law_menus_stay_on_a_row(index: usize, rows: usize, action: Action)
    requires
        rows >= 1,
        index < rows,
    ensures
        spec_power_menu_step(index, rows, action) matches MenuStep::Stay(i) ==> i < rows,
        spec_picker_step(index, rows, action) matches MenuStep::Stay(i) ==> i < rows,
        spec_picker_step(index, rows, action) matches MenuStep::Choose(i) ==> i < rows,
        spec_picker_step(index, rows, Action::GbaDown(Btn::Down)) matches MenuStep::Stay(i)
            ==> spec_picker_step(i, rows, Action::GbaDown(Btn::Up)) == MenuStep::Stay(index),
{
    let d = ((index + 1) % (rows as int)) as usize;
    assert(((d + rows - 1) % (rows as int)) == index) by (nonlinear_arith)
        requires
            rows >= 1,
            index < rows,
            d == (index + 1) % (rows as int),
    ;
}

/// Whether the one undoable action is still on offer at `now`.
pub open spec fn spec_undo_available(pending_at: Option<u64>, now: u64) -> bool {
    match pending_at {
        Some(at) => (if now >= at { now - at } else { 0 }) <= UNDO_GRACE_MS,
        None => false,
    }
}

pub fn undo_available(pending_at: Option<u64>, now: u64) -> (r: bool)
    ensures
        r == spec_undo_available(pending_at, now),
{
    match pending_at {
        Some(at) => now.saturating_sub(at) <= UNDO_GRACE_MS,
        None => false,
    }
}

/// The offer lasts exactly the grace period from the moment it was made.
pub proof fn law_the_undo_offer_lasts_the_grace(at: u64, now: u64)
    requires
        at <= now,
    ensures
        spec_undo_available(Some(at), now) == (now - at <= UNDO_GRACE_MS),
{
}

/// Rewinding, loading a state and fast forward all move this device's machine to a moment
/// the peer never agreed to; none of them is allowed while a link session is live.
pub fn may_manipulate_time(link_active: bool) -> (r: bool)
    ensures
        r == !link_active,
{
    !link_active
}

/// Whether a doze has lasted long enough to power off. Suspended for as long as a session is
/// live: a trade partner reading a menu on the other device must not have the link dropped
/// out from under them by this one's own idle timer.
pub fn doze_expired(link_active: bool, dozing: bool, now: u64, dozed_at: u64, timeout_ms: u64) -> (r:
    bool)
    ensures
        r == (!link_active && dozing && (if now >= dozed_at {
            now - dozed_at
        } else {
            0
        }) >= timeout_ms),
{
    if link_active || !dozing {
        return false;
    }
    now.saturating_sub(dozed_at) >= timeout_ms
}

/// Whether a clock reading was ever set: anything before the frontend existed was not.
pub fn clock_was_set(secs: i64) -> (r: bool)
    ensures
        r == (secs >= CLOCK_FLOOR),
{
    secs >= CLOCK_FLOOR
}

/// Whether A has been down long enough on the shelf to start the cart clean.
pub fn play_held_long_enough(held_at: u64, now: u64) -> (r: bool)
    ensures
        r == ((if now >= held_at {
            now - held_at
        } else {
            0
        }) >= PLAY_HOLD_MS),
{
    now.saturating_sub(held_at) >= PLAY_HOLD_MS
}


/// Each level key moves its own level one way and leaves the others alone: up never lowers a
/// level that is in range and raises it by its step until the top; down never raises it and
/// lowers it by its step until zero.
pub proof fn law_each_level_key_moves_its_own_level(v: LevelsView, now: u64)
    requires
        v.brightness <= BRIGHTNESS_MAX,
        v.blue_light <= BLUE_LIGHT_MAX,
        v.volume <= VOLUME_MAX,
    ensures
        ({
            let up = adjusted(v, Action::BlueLightUp, now);
            let down = adjusted(v, Action::BlueLightDown, now);
            &&& v.blue_light <= up.blue_light <= BLUE_LIGHT_MAX
            &&& v.blue_light < BLUE_LIGHT_MAX ==> up.blue_light == v.blue_light + 1
            &&& down.blue_light <= v.blue_light
            &&& v.blue_light > 0 ==> down.blue_light == v.blue_light - 1
            &&& up.brightness == v.brightness && up.volume == v.volume
            &&& down.brightness == v.brightness && down.volume == v.volume
        }),
        ({
            let up = adjusted(v, Action::BrightnessUp, now);
            let down = adjusted(v, Action::BrightnessDown, now);
            &&& v.brightness <= up.brightness <= BRIGHTNESS_MAX
            &&& v.brightness < BRIGHTNESS_MAX ==> up.brightness == v.brightness + 1
            &&& down.brightness <= v.brightness
            &&& v.brightness > 0 ==> down.brightness == v.brightness - 1
            &&& up.blue_light == v.blue_light && up.volume == v.volume
            &&& down.blue_light == v.blue_light && down.volume == v.volume
        }),
        ({
            let up = adjusted(v, Action::VolumeUp, now);
            let down = adjusted(v, Action::VolumeDown, now);
            &&& v.volume <= up.volume <= VOLUME_MAX
            &&& v.volume + VOLUME_STEP <= VOLUME_MAX ==> up.volume == v.volume + VOLUME_STEP
            &&& down.volume <= v.volume
            &&& v.volume >= VOLUME_STEP ==> down.volume == v.volume - VOLUME_STEP
            &&& !up.muted && !down.muted
            &&& up.brightness == v.brightness && up.blue_light == v.blue_light
            &&& down.brightness == v.brightness && down.blue_light == v.blue_light
        }),
{
}

} // verus!
