//! What the app is doing and what it does next: the screen that is up, the overlays over it,
//! the link session's interlocks, the one undo on offer, the shutdown, and the deadlines the
//! clock drives. Everything here is a decision; what it asks of the card, the panel, the
//! platform and the core comes back out as an `Effect`, in the order it is to happen, and the
//! answers go back in through the methods that take them.

use vstd::prelude::*;

use crate::app::{
    elapsed, is_level, led_write, levels_after, picker_step, power_menu_step, spec_battery_cutoff,
    spec_led_state, spec_picker_step, spec_power_menu_step, spec_shown, spec_undo_available,
    Battery, Charge, HudKind, Led, LedState, Levels, LevelsView, MenuStep, Shown, AUTOSAVE_MS,
    BATTERY_POLL_MS, CHARGE_POLL_MS, CLOCK_FLOOR, PLAY_HOLD_MS, SHUTDOWN_SHOW_MS, UNDO_GRACE_MS,
};
use crate::emu::{CoreState, Speed};
use crate::input::btn::{Action, Btn};
use crate::text::same_text;

verus! {

/// Which screen is up. The carts are the shelf's, by position; how far an animation has got
/// is the binary's, which says when one has finished.
#[derive(Copy, Clone, Debug, PartialEq, Eq, Structural)]
#[allow(inconsistent_fields)]
pub enum Phase {
    /// Slot's own first launch, ahead of the shelf and ahead of a seated cart.
    SetClock,
    Shelf,
    Inserting {
        cart: usize,
        core_ready: bool,
        /// A cart already in the slot at boot: drawn seated from the first frame.
        resumed: bool,
        /// Start the cart from the beginning, ignoring whatever resume state it has.
        clean: bool,
    },
    Playing { cart: usize },
    Ejecting { cart: usize },
    Polaroids { cart: usize },
    About,
    Doze { cart: Option<usize> },
}

/// A direction on the shelf, the switcher or the clock.
#[derive(Copy, Clone, Debug, PartialEq, Eq, Structural)]
pub enum Side {
    Left,
    Right,
}

/// The rows of the power menu.
#[derive(Copy, Clone, Debug, PartialEq, Eq, Structural)]
pub enum PowerChoice {
    PowerOff,
    Restart,
}

/// The most recent undoable action. There is exactly one slot for it and a new save or load
/// replaces it: a stack of undos would be a knob.
pub enum PendingUndo {
    Save {
        stamp: String,
        /// Read out of the ring before the push that dropped it, which is what makes the
        /// undo a restore rather than a reconstruction.
        evicted: Option<(String, Vec<u8>, Vec<u8>)>,
    },
    Load { prior: Vec<u8> },
}

/// An undo, by its contents.
pub enum UndoView {
    Save { stamp: Seq<char>, evicted: Option<(Seq<char>, Seq<u8>, Seq<u8>)> },
    Load { prior: Seq<u8> },
}

impl View for PendingUndo {
    type V = UndoView;

    open spec fn view(&self) -> UndoView {
        match self {
            PendingUndo::Save { stamp, evicted } => UndoView::Save {
                stamp: stamp@,
                evicted: match evicted {
                    Some((s, state, thumb)) => Some((s@, state@, thumb@)),
                    None => None,
                },
            },
            PendingUndo::Load { prior } => UndoView::Load { prior: prior@ },
        }
    }
}

/// What the app asks of everything it does not own, in the order it is to happen.
#[derive(Copy, Clone, Debug, PartialEq, Eq, Structural)]
pub enum Effect {
    /// Write the cart's resume state and battery save; the slot is left alone.
    FlushResume(usize),
    /// Write the cart's resume state and battery save on its way out, and empty the slot.
    FlushEject(usize),
    /// Write what the card remembers: `App::remembered`.
    Persist,
    /// The lid closed over a dozing device, and opened again.
    LidClosed,
    LidOpened,
    Led(LedState),
    Backlight(u8),
    /// A direction went down on the shelf, or came back up.
    ShelfHold(Side),
    ShelfRelease(Side),
    /// An arrow on the clock screen: `Left`, `Right`, `Up` or `Down`.
    ClockStep(Btn),
    /// Set the clock to what the clock screen shows, then `App::confirm_clock`.
    ConfirmClock,
    /// Raise the core picker on the cart's own core: `App::core_picker_opened`.
    OpenCorePicker(usize),
    /// Remember core row `.1` for cart `.0`.
    WriteCore(usize, usize),
    /// Show a level on the HUD.
    Hud(Shown),
    /// Count the cart's states: `App::open_polaroids`.
    ListStates(usize),
    /// Push the running state onto the cart's ring: `App::state_saved` or `App::refuse`.
    SaveState(usize),
    /// Load the cart's newest state, or refuse when it has none: `App::loaded`.
    LoadNewest(usize),
    /// Load the state under the switcher's eye: `App::load_selected`.
    LoadSelected,
    /// Move the switcher's eye.
    Flick(Side),
    /// Take back the offered save or load: `App::undo`.
    Undo,
    /// Delete the state under the switcher's eye: `App::deleted`.
    DeleteSelected,
    /// Read the gauge: `App::on_battery_read`.
    ReadBattery,
    /// Read whether a cable is in: `App::on_charge_read`.
    ReadCharge,
}

/// What the card remembers between boots.
pub struct Remembered {
    /// The cart in the slot, by its file stem.
    pub cart: Option<String>,
    pub clock_set: bool,
    /// Minutes east of utc, the only thing that turns the platform's clock into wall time.
    pub utc_offset_min: i16,
    pub brightness: u8,
    pub blue_light: u8,
    pub volume: u8,
    pub muted: bool,
}

/// The app's whole state.
pub struct AppView {
    pub carts: Seq<Seq<char>>,
    /// The cart under the shelf's highlight.
    pub index: usize,
    pub phase: Phase,
    /// When A went down on the shelf.
    pub play_held: Option<u64>,
    /// When the last refusal started.
    pub refused_at: Option<u64>,
    /// Whether the cart on its way out is one the core refused.
    pub refused_exit: bool,
    pub power_menu: Option<usize>,
    pub choices: Seq<PowerChoice>,
    pub core_picker: Option<usize>,
    pub cores: usize,
    pub restarting: bool,
    pub powering_off: bool,
    /// When the binary may act on a shutdown or restart.
    pub act_at: u64,
    /// The live link session's client id.
    pub link: Option<u16>,
    pub pending: Option<(UndoView, u64)>,
    /// What the card remembers as seated.
    pub cart: Option<Seq<char>>,
    pub clock_set: bool,
    pub utc_offset_min: i16,
    pub levels: LevelsView,
    pub chord_ms: u64,
    pub dozed_at: u64,
    pub autosave_at: u64,
    pub battery_at: u64,
    pub charge_at: u64,
    pub battery: Option<Battery>,
    /// What the platform's LED was last told.
    pub led: Option<LedState>,
    /// The platform's doze timeout, once there is a platform.
    pub power: Option<u64>,
}

/// A moment early enough that every deadline set from it is still a moment.
pub open spec fn in_time(now: u64) -> bool {
    now + AUTOSAVE_MS <= u64::MAX
}

/// The cart a phase has seated and running, switcher or not.
pub open spec fn seated(p: Phase) -> Option<usize> {
    match p {
        Phase::Playing { cart } => Some(cart),
        Phase::Polaroids { cart } => Some(cart),
        _ => None,
    }
}

/// Whether the shutdown screen is what should be on the panel.
pub open spec fn shutting_down(v: AppView) -> bool {
    v.powering_off || v.restarting
}

/// The refusal shake, started at `now`.
pub open spec fn refused(v: AppView, now: u64) -> AppView {
    AppView { refused_at: Some(now), ..v }
}

/// A state flush: the autosave deadline moves whether or not there is a cart to write,
/// because the invariant is time since the state was last durable.
pub open spec fn flushed(v: AppView, now: u64) -> (AppView, Seq<Effect>) {
    (
        AppView { autosave_at: (now + AUTOSAVE_MS) as u64, ..v },
        match seated(v.phase) {
            Some(c) => seq![Effect::FlushResume(c)],
            None => Seq::empty(),
        },
    )
}

/// The LED asked for `state`: written once per change, and nothing but `Off` once a shutdown
/// has begun.
pub open spec fn led_set(v: AppView, state: LedState) -> (AppView, Seq<Effect>) {
    match led_write(v.led, state, shutting_down(v)) {
        Some(s) => (
            AppView { led: Some(s), ..v },
            if v.power is Some {
                seq![Effect::Led(s)]
            } else {
                Seq::empty()
            },
        ),
        None => (v, Seq::empty()),
    }
}

/// Every path to a power off comes through here, and only the first one counts.
pub open spec fn powered_off(v: AppView, now: u64) -> (AppView, Seq<Effect>) {
    if v.powering_off {
        (v, Seq::empty())
    } else {
        led_set(
            AppView {
                link: None,
                powering_off: true,
                act_at: (now + SHUTDOWN_SHOW_MS) as u64,
                ..v
            },
            LedState::Off,
        )
    }
}

/// Flush, then dark, then idle; a live session ends, and the doze still happens.
pub open spec fn dozed(v: AppView, now: u64) -> (AppView, Seq<Effect>) {
    let v1 = AppView { link: None, ..v };
    if v1.phase is Doze {
        (v1, Seq::empty())
    } else {
        let (v2, e) = flushed(v1, now);
        let v3 = AppView { phase: Phase::Doze { cart: seated(v2.phase) }, dozed_at: now, ..v2 };
        (
            v3,
            e + if v3.power is Some {
                seq![Effect::LidClosed]
            } else {
                Seq::empty()
            },
        )
    }
}

/// Back to the cart that was running when the lid shut, or to the shelf.
pub open spec fn woken(v: AppView) -> (AppView, Seq<Effect>) {
    match v.phase {
        Phase::Doze { cart } => (
            AppView {
                phase: match cart {
                    Some(c) => Phase::Playing { cart: c },
                    None => Phase::Shelf,
                },
                ..v
            },
            if v.power is Some {
                seq![Effect::LidOpened]
            } else {
                Seq::empty()
            },
        ),
        _ => (v, Seq::empty()),
    }
}

/// A tap dozes and a second one wakes.
pub open spec fn power_pressed(v: AppView, now: u64) -> (AppView, Seq<Effect>) {
    if v.phase is Doze {
        woken(v)
    } else {
        dozed(v, now)
    }
}

/// A held POWER raises the menu, durable first; never over a live session.
pub open spec fn menu_opened(v: AppView, now: u64) -> (AppView, Seq<Effect>) {
    if v.power_menu is Some {
        (v, Seq::empty())
    } else if v.link is Some {
        (refused(v, now), Seq::empty())
    } else {
        let (v1, e) = flushed(v, now);
        (AppView { power_menu: Some(0), ..v1 }, e)
    }
}

/// A button on the power menu.
pub open spec fn menu_input(v: AppView, action: Action, now: u64) -> (AppView, Seq<Effect>) {
    match v.power_menu {
        None => (v, Seq::empty()),
        Some(index) => match spec_power_menu_step(index, v.choices.len() as usize, action) {
            MenuStep::Stay(i) => (AppView { power_menu: Some(i), ..v }, Seq::empty()),
            MenuStep::Close => (AppView { power_menu: None, ..v }, Seq::empty()),
            MenuStep::Choose(i) => {
                let v1 = AppView { power_menu: None, ..v };
                match v.choices[i as int] {
                    PowerChoice::Restart => led_set(
                        AppView {
                            restarting: true,
                            act_at: (now + SHUTDOWN_SHOW_MS) as u64,
                            ..v1
                        },
                        LedState::Off,
                    ),
                    PowerChoice::PowerOff => powered_off(v1, now),
                }
            },
        },
    }
}

/// The highlighted cart into the slot, from the shelf only.
pub open spec fn inserted(v: AppView, clean: bool) -> AppView {
    if v.phase != Phase::Shelf || v.index >= v.carts.len() {
        v
    } else {
        AppView {
            play_held: None,
            refused_at: None,
            refused_exit: false,
            phase: Phase::Inserting { cart: v.index, core_ready: false, resumed: false, clean },
            ..v
        }
    }
}

/// The cart out of the slot: refused on a one-cart card, and only from an insert or a game.
/// The session and the undo leave with it.
pub open spec fn ejected(v: AppView, now: u64) -> (AppView, Seq<Effect>) {
    if v.carts.len() == 1 {
        (refused(v, now), Seq::empty())
    } else {
        match v.phase {
            Phase::Playing { cart } => (
                AppView {
                    link: None,
                    pending: None,
                    refused_at: None,
                    refused_exit: false,
                    phase: Phase::Ejecting { cart },
                    ..v
                },
                seq![Effect::FlushEject(cart)],
            ),
            Phase::Inserting { cart, .. } => (
                AppView {
                    link: None,
                    pending: None,
                    refused_at: None,
                    refused_exit: false,
                    phase: Phase::Ejecting { cart },
                    ..v
                },
                seq![Effect::FlushEject(cart)],
            ),
            _ => (v, Seq::empty()),
        }
    }
}

/// The switcher closed, back to the game under it.
pub open spec fn polaroids_closed(v: AppView) -> AppView {
    match v.phase {
        Phase::Polaroids { cart } => AppView { phase: Phase::Playing { cart }, ..v },
        _ => v,
    }
}

/// What the card remembers as seated, and a write when that changed.
pub open spec fn recorded(v: AppView, cart: Option<Seq<char>>) -> (AppView, Seq<Effect>) {
    if v.cart == cart {
        (v, Seq::empty())
    } else {
        (AppView { cart, ..v }, seq![Effect::Persist])
    }
}

/// A level or the mute chord: the bar, the backlight when it is brightness and there is a
/// panel, and a write when the card's value changed.
pub open spec fn levels_applied(v: AppView, action: Action, now: u64) -> (AppView, Seq<Effect>) {
    let after = levels_after(v.levels, action, now, v.chord_ms);
    match spec_shown(v.levels, action, now, v.chord_ms) {
        Some(s) => (
            AppView { levels: after, ..v },
            seq![Effect::Hud(s)] + (if s.kind == HudKind::Brightness && v.power is Some {
                seq![Effect::Backlight(s.value)]
            } else {
                Seq::empty()
            }) + (if s.persist {
                seq![Effect::Persist]
            } else {
                Seq::empty()
            }),
        ),
        None => (v, Seq::empty()),
    }
}

/// The arrows and A on the clock screen, which owns all four directions.
pub open spec fn clock_effects(action: Action) -> Seq<Effect> {
    if action == Action::GbaDown(Btn::Left) || action == Action::ShelfLeft {
        seq![Effect::ClockStep(Btn::Left)]
    } else if action == Action::GbaDown(Btn::Right) || action == Action::ShelfRight {
        seq![Effect::ClockStep(Btn::Right)]
    } else if action == Action::GbaDown(Btn::Up) {
        seq![Effect::ClockStep(Btn::Up)]
    } else if action == Action::GbaDown(Btn::Down) {
        seq![Effect::ClockStep(Btn::Down)]
    } else if action == Action::GbaDown(Btn::A) || action == Action::Insert {
        seq![Effect::ConfirmClock]
    } else {
        Seq::empty()
    }
}

/// A direction let go of reaches the shelf whatever is on screen.
pub open spec fn released(action: Action) -> Seq<Effect> {
    if action == Action::GbaUp(Btn::Left) {
        seq![Effect::ShelfRelease(Side::Left)]
    } else if action == Action::GbaUp(Btn::Right) {
        seq![Effect::ShelfRelease(Side::Right)]
    } else {
        Seq::empty()
    }
}

/// A button while the core picker is up.
pub open spec fn picker_input(v: AppView, action: Action) -> (AppView, Seq<Effect>) {
    match v.core_picker {
        None => (v, Seq::empty()),
        Some(row) => match spec_picker_step(row, v.cores, action) {
            MenuStep::Stay(r) => (AppView { core_picker: Some(r), ..v }, Seq::empty()),
            MenuStep::Choose(r) => (
                AppView { core_picker: None, ..v },
                seq![Effect::WriteCore(v.index, r)],
            ),
            MenuStep::Close => (AppView { core_picker: None, ..v }, Seq::empty()),
        },
    }
}

/// A button on the shelf.
pub open spec fn shelf_applied(v: AppView, action: Action, now: u64) -> (AppView, Seq<Effect>) {
    if action == Action::GbaDown(Btn::Start) && v.core_picker is None {
        (
            v,
            if v.index < v.carts.len() {
                seq![Effect::OpenCorePicker(v.index)]
            } else {
                Seq::empty()
            },
        )
    } else if v.core_picker is Some {
        picker_input(v, action)
    } else if action == Action::ShelfLeft || action == Action::GbaDown(Btn::Left) {
        (v, seq![Effect::ShelfHold(Side::Left)])
    } else if action == Action::ShelfRight || action == Action::GbaDown(Btn::Right) {
        (v, seq![Effect::ShelfHold(Side::Right)])
    } else if action == Action::OpenAbout {
        (AppView { phase: Phase::About, ..v }, Seq::empty())
    } else if action == Action::GbaDown(Btn::A) {
        (AppView { play_held: Some(now), ..v }, Seq::empty())
    } else if action == Action::GbaUp(Btn::A) {
        if v.play_held is Some {
            (inserted(AppView { play_held: None, ..v }, false), Seq::empty())
        } else {
            (v, Seq::empty())
        }
    } else if action == Action::Insert {
        (inserted(v, false), Seq::empty())
    } else {
        (v, Seq::empty())
    }
}

/// A gesture while a game is playing. Time cannot be moved while a session is live.
pub open spec fn playing_applied(v: AppView, cart: usize, action: Action, now: u64) -> (
    AppView,
    Seq<Effect>,
) {
    if action == Action::Eject {
        ejected(v, now)
    } else if action == Action::Polaroids {
        if v.link is Some {
            (refused(v, now), Seq::empty())
        } else {
            (v, seq![Effect::ListStates(cart)])
        }
    } else if action == Action::SaveState {
        (v, seq![Effect::SaveState(cart)])
    } else if action == Action::LoadState {
        if v.link is Some {
            (refused(v, now), Seq::empty())
        } else {
            (v, seq![Effect::LoadNewest(cart)])
        }
    } else if (action == Action::RewindStart || action == Action::FfStart) && v.link is Some {
        (refused(v, now), Seq::empty())
    } else {
        (v, Seq::empty())
    }
}

/// A button in the switcher.
pub open spec fn polaroids_applied(v: AppView, action: Action) -> (AppView, Seq<Effect>) {
    if action == Action::ShelfLeft || action == Action::GbaDown(Btn::Left) {
        (v, seq![Effect::Flick(Side::Left)])
    } else if action == Action::ShelfRight || action == Action::GbaDown(Btn::Right) {
        (v, seq![Effect::Flick(Side::Right)])
    } else if action == Action::GbaDown(Btn::A) {
        (v, seq![Effect::LoadSelected])
    } else if action == Action::GbaDown(Btn::B) || action == Action::Polaroids {
        (polaroids_closed(v), Seq::empty())
    } else if action == Action::GbaDown(Btn::X) {
        (v, seq![Effect::Undo])
    } else if action == Action::GbaDown(Btn::Y) {
        (v, seq![Effect::DeleteSelected])
    } else {
        (v, Seq::empty())
    }
}

/// What the screen that is up makes of an action.
pub open spec fn phase_applied(v: AppView, action: Action, now: u64) -> (AppView, Seq<Effect>) {
    match v.phase {
        Phase::Shelf => shelf_applied(v, action, now),
        Phase::Inserting { .. } => if action == Action::Eject {
            ejected(v, now)
        } else {
            (v, Seq::empty())
        },
        Phase::Playing { cart } => playing_applied(v, cart, action, now),
        Phase::Polaroids { .. } => polaroids_applied(v, action),
        Phase::About => if action == Action::GbaDown(Btn::B) || action == Action::OpenAbout {
            (AppView { phase: Phase::Shelf, ..v }, Seq::empty())
        } else {
            (v, Seq::empty())
        },
        _ => (v, Seq::empty()),
    }
}

/// One action. The power menu takes everything but the lid; then the lid and POWER, which
/// belong to the device; then the clock screen, which owns every button; then the levels;
/// then whatever is on screen.
pub open spec fn applied(v: AppView, action: Action, now: u64) -> (AppView, Seq<Effect>) {
    if v.power_menu is Some {
        if action == Action::LidClose {
            dozed(v, now)
        } else if action == Action::LidOpen {
            woken(v)
        } else {
            menu_input(v, action, now)
        }
    } else if action == Action::LidClose {
        dozed(v, now)
    } else if action == Action::LidOpen {
        woken(v)
    } else if action == Action::PowerPress {
        // A live session ends here rather than flushing: ending it is a decision, not
        // nothing to flush.
        if v.link is Some {
            (AppView { link: None, ..v }, Seq::empty())
        } else {
            flushed(v, now)
        }
    } else if action == Action::PowerTap {
        power_pressed(v, now)
    } else if action == Action::PowerHold {
        menu_opened(v, now)
    } else if action == Action::PowerOff {
        (v, Seq::empty())
    } else if v.phase == Phase::SetClock {
        (v, clock_effects(action))
    } else if action == Action::MuteToggle || is_level(action) {
        levels_applied(v, action, now)
    } else {
        let (v1, e) = phase_applied(v, action, now);
        (v1, released(action) + e)
    }
}


/// What the card remembers, by its contents.
pub struct RememberedView {
    pub cart: Option<Seq<char>>,
    pub clock_set: bool,
    pub utc_offset_min: i16,
    pub brightness: u8,
    pub blue_light: u8,
    pub volume: u8,
    pub muted: bool,
}

impl View for Remembered {
    type V = RememberedView;

    open spec fn view(&self) -> RememberedView {
        RememberedView {
            cart: match self.cart {
                Some(c) => Some(c@),
                None => None,
            },
            clock_set: self.clock_set,
            utc_offset_min: self.utc_offset_min,
            brightness: self.brightness,
            blue_light: self.blue_light,
            volume: self.volume,
            muted: self.muted,
        }
    }
}

/// A new app on the shelf with what the card remembers, before anything has happened.
pub open spec fn fresh(
    carts: Seq<Seq<char>>,
    choices: Seq<PowerChoice>,
    cores: usize,
    chord_ms: u64,
    r: RememberedView,
) -> AppView {
    AppView {
        carts,
        index: 0,
        phase: Phase::Shelf,
        play_held: None,
        refused_at: None,
        refused_exit: false,
        power_menu: None,
        choices,
        core_picker: None,
        cores,
        restarting: false,
        powering_off: false,
        act_at: 0,
        link: None,
        pending: None,
        cart: r.cart,
        clock_set: r.clock_set,
        utc_offset_min: r.utc_offset_min,
        levels: LevelsView {
            brightness: r.brightness,
            blue_light: r.blue_light,
            volume: r.volume,
            muted: r.muted,
            before: Seq::empty(),
        },
        chord_ms,
        dozed_at: 0,
        autosave_at: AUTOSAVE_MS,
        battery_at: BATTERY_POLL_MS,
        charge_at: CHARGE_POLL_MS,
        battery: None,
        led: None,
        power: None,
    }
}

/// The first cart at or after `from` whose stem is `stem`.
pub open spec fn position_from(carts: Seq<Seq<char>>, stem: Seq<char>, from: int) -> Option<usize>
    decreases carts.len() - from,
{
    if from < 0 || from >= carts.len() {
        None
    } else if carts[from] == stem {
        Some(from as usize)
    } else {
        position_from(carts, stem, from + 1)
    }
}

/// Into the slot or onto the shelf. One cart is a dedicated device, so whatever the card
/// remembers names the only thing it could have meant; otherwise the remembered cart goes
/// back in, seated already, and one the library no longer has is an empty slot.
pub open spec fn started(v: AppView) -> AppView {
    let seated = if v.carts.len() == 1 {
        Some(0usize)
    } else {
        match v.cart {
            Some(stem) => position_from(v.carts, stem, 0),
            None => None,
        }
    };
    let v1 = AppView { phase: Phase::Shelf, ..v };
    match seated {
        Some(i) => {
            let v2 = inserted(AppView { index: i, ..v1 }, false);
            AppView {
                phase: match v2.phase {
                    Phase::Inserting { cart, core_ready, clean, .. } => Phase::Inserting {
                        cart,
                        core_ready,
                        resumed: true,
                        clean,
                    },
                    p => p,
                },
                ..v2
            }
        },
        None => AppView { cart: None, ..v1 },
    }
}

/// A boot: the clock screen first if the clock was never confirmed.
pub open spec fn booted(v: AppView) -> AppView {
    if v.clock_set {
        started(v)
    } else {
        AppView { phase: Phase::SetClock, ..v }
    }
}

/// The clock screen confirmed, `offset_min` east of utc.
pub open spec fn clock_confirmed(v: AppView, offset_min: i16) -> (AppView, Seq<Effect>) {
    if v.phase != Phase::SetClock {
        (v, Seq::empty())
    } else {
        (
            started(AppView { utc_offset_min: offset_min, clock_set: true, ..v }),
            seq![Effect::Persist],
        )
    }
}

/// The platform arrived: the panel comes up at the remembered level, a clock that reads as
/// never set goes back to the clock screen, and the gauge and LED start again from nothing.
pub open spec fn powered(v: AppView, doze_timeout_ms: u64, secs: i64, now: u64) -> (
    AppView,
    Seq<Effect>,
) {
    (
        AppView {
            phase: if v.phase == Phase::SetClock || secs < CLOCK_FLOOR {
                Phase::SetClock
            } else {
                v.phase
            },
            power: Some(doze_timeout_ms),
            battery_at: now,
            charge_at: now,
            led: None,
            ..v
        },
        seq![Effect::Backlight(v.levels.brightness)],
    )
}

/// The core behind an insert finished loading.
pub open spec fn core_readied(v: AppView) -> AppView {
    match v.phase {
        Phase::Inserting { cart, resumed, clean, .. } => AppView {
            phase: Phase::Inserting { cart, core_ready: true, resumed, clean },
            ..v
        },
        _ => v,
    }
}

/// The core refused the cart: it comes back out, carrying the refusal.
pub open spec fn core_refused(v: AppView) -> AppView {
    match v.phase {
        Phase::Inserting { cart, .. } => AppView {
            phase: Phase::Ejecting { cart },
            refused_exit: true,
            ..v
        },
        _ => v,
    }
}

/// The insert animation ran its length: with the core ready the game is on.
pub open spec fn insert_done(v: AppView) -> (AppView, Seq<Effect>) {
    match v.phase {
        Phase::Inserting { cart, core_ready: true, .. } => recorded(
            AppView { phase: Phase::Playing { cart }, refused_exit: false, ..v },
            Some(v.carts[cart as int]),
        ),
        _ => (v, Seq::empty()),
    }
}

/// The eject animation ran its length: back on the shelf with an empty slot.
pub open spec fn eject_done(v: AppView) -> (AppView, Seq<Effect>) {
    match v.phase {
        Phase::Ejecting { .. } => recorded(
            AppView { phase: Phase::Shelf, refused_exit: false, ..v },
            None,
        ),
        _ => (v, Seq::empty()),
    }
}

/// The switcher, if the session allows it and the cart has states to show.
pub open spec fn polaroids_opened(v: AppView, entries: usize, now: u64) -> AppView {
    if v.link is Some || entries == 0 {
        refused(v, now)
    } else {
        match v.phase {
            Phase::Playing { cart } => AppView { phase: Phase::Polaroids { cart }, ..v },
            _ => v,
        }
    }
}

/// When the offer was made.
pub open spec fn pending_at(v: AppView) -> Option<u64> {
    match v.pending {
        Some((_, at)) => Some(at),
        None => None,
    }
}

/// The offer taken up, if it is still open: a load's undo is refused while a session is
/// live, without spending the offer; an offer past its grace is gone.
pub open spec fn undone(v: AppView, now: u64) -> (AppView, Option<UndoView>) {
    if !spec_undo_available(pending_at(v), now) {
        (AppView { pending: None, ..v }, None)
    } else if (v.pending matches Some((UndoView::Load { .. }, _))) && v.link is Some {
        (refused(v, now), None)
    } else {
        (
            polaroids_closed(AppView { pending: None, ..v }),
            match v.pending {
                Some((what, _)) => Some(what),
                None => None,
            },
        )
    }
}

/// A state deleted from the switcher: an offer pointing at it would remove nothing and then
/// put the evicted entry back.
pub open spec fn after_delete(v: AppView, stamp: Seq<char>) -> AppView {
    match v.pending {
        Some((UndoView::Save { stamp: s, .. }, _)) => if s == stamp {
            AppView { pending: None, ..v }
        } else {
            v
        },
        _ => v,
    }
}

/// The hold fires under the finger: A held long enough on the shelf starts the cart clean.
/// A shelf that left the screen takes the arming with it.
pub open spec fn play_hold_checked(v: AppView, now: u64) -> AppView {
    match v.play_held {
        None => v,
        Some(at) => if v.phase != Phase::Shelf {
            AppView { play_held: None, ..v }
        } else if elapsed(at, now) >= PLAY_HOLD_MS {
            inserted(v, true)
        } else {
            v
        },
    }
}

/// A doze that has lasted the platform's timeout, with no session to keep alive.
pub open spec fn doze_due(v: AppView, now: u64) -> bool {
    &&& v.link is None
    &&& v.phase is Doze
    &&& v.power matches Some(t) && elapsed(v.dozed_at, now) >= t
}

/// A doze that ran out powers the device off.
pub open spec fn doze_checked(v: AppView, now: u64) -> (AppView, Seq<Effect>) {
    if doze_due(v, now) {
        powered_off(v, now)
    } else {
        (v, Seq::empty())
    }
}

/// The state is written at least once a minute while a game runs.
pub open spec fn autosaved(v: AppView, now: u64) -> (AppView, Seq<Effect>) {
    if now >= v.autosave_at {
        flushed(v, now)
    } else {
        (v, Seq::empty())
    }
}

/// The two readings of the gauge, each on its own cadence.
pub open spec fn polled(v: AppView, now: u64) -> (AppView, Seq<Effect>) {
    let (v1, e1) = if now >= v.battery_at {
        (AppView { battery_at: (now + BATTERY_POLL_MS) as u64, ..v }, seq![Effect::ReadBattery])
    } else {
        (v, Seq::empty())
    };
    if now >= v1.charge_at {
        (
            AppView { charge_at: (now + CHARGE_POLL_MS) as u64, ..v1 },
            e1.push(Effect::ReadCharge),
        )
    } else {
        (v1, e1)
    }
}

/// Everything the clock alone drives: the play hold, the doze running out, the autosave, and
/// the two readings of the gauge.
pub open spec fn ticked(v: AppView, now: u64) -> (AppView, Seq<Effect>) {
    let v1 = play_hold_checked(v, now);
    let (v2, e2) = doze_checked(v1, now);
    let (v3, e3) = autosaved(v2, now);
    let (v4, e4) = polled(v3, now);
    (v4, e2 + e3 + e4)
}

/// A gauge reading: a critical charge that nothing says is being filled is a real power off,
/// durable first.
pub open spec fn battery_checked(v: AppView, b: Battery, now: u64) -> (AppView, Seq<Effect>) {
    if spec_battery_cutoff(b, v.powering_off) {
        let (v1, e1) = flushed(v, now);
        let (v2, e2) = powered_off(v1, now);
        (v2, e1 + e2)
    } else {
        (v, Seq::empty())
    }
}

/// The slow tick's reading, kept, and acted on.
pub open spec fn battery_read(v: AppView, reading: Option<Battery>, now: u64) -> (
    AppView,
    Seq<Effect>,
) {
    let v1 = AppView { battery: reading, ..v };
    match reading {
        Some(b) => battery_checked(v1, b, now),
        None => (v1, Seq::empty()),
    }
}

/// The fast tick: only the charge half of the reading moves, and the LED follows.
pub open spec fn charge_read(v: AppView, charge: Option<Charge>) -> (AppView, Seq<Effect>) {
    let v1 = match (v.battery, charge) {
        (Some(b), Some(c)) => AppView { battery: Some(Battery { charge: c, ..b }), ..v },
        _ => v,
    };
    led_set(v1, spec_led_state(v1.battery))
}

/// The screens that have taken the panel away from a cart still seated.
pub open spec fn held(v: AppView) -> bool {
    v.power_menu is Some || shutting_down(v)
}

/// Whether the game is live and in charge of the device.
pub open spec fn playing(v: AppView) -> bool {
    v.phase is Playing && !held(v)
}

/// The speed the core is to run at: paused through an insert, an eject, the switcher, a doze
/// and the screens that hold the game; fast only when it is the game being played.
pub open spec fn spec_speed(v: AppView, fast: bool) -> Speed {
    if v.phase is Inserting || v.phase is Ejecting || v.phase is Polaroids || v.phase is Doze
        || held(v) {
        Speed::Paused
    } else if fast && playing(v) {
        Speed::Fast
    } else {
        Speed::Normal
    }
}

/// Every cart a phase names is on the shelf, the menus' highlights are on rows, there is a
/// row to be on, and the volume remembers no more than the two presses a mute chord is made
/// of.
pub open spec fn valid(v: AppView) -> bool {
    &&& v.levels.before.len() <= 2
    &&& v.choices.len() >= 1
    &&& v.cores >= 1
    &&& (v.power_menu matches Some(i) ==> i < v.choices.len())
    &&& (v.core_picker matches Some(r) ==> r < v.cores)
    &&& match v.phase {
        Phase::Inserting { cart, .. } => cart < v.carts.len(),
        Phase::Playing { cart } => cart < v.carts.len(),
        Phase::Ejecting { cart } => cart < v.carts.len(),
        Phase::Polaroids { cart } => cart < v.carts.len(),
        Phase::Doze { cart: Some(c) } => c < v.carts.len(),
        _ => true,
    }
}

pub struct App {
    carts: Vec<String>,
    index: usize,
    phase: Phase,
    play_held: Option<u64>,
    refused_at: Option<u64>,
    refused_exit: bool,
    power_menu: Option<usize>,
    choices: Vec<PowerChoice>,
    core_picker: Option<usize>,
    cores: usize,
    restarting: bool,
    powering_off: bool,
    act_at: u64,
    link: Option<u16>,
    pending: Option<(PendingUndo, u64)>,
    cart: Option<String>,
    clock_set: bool,
    utc_offset_min: i16,
    levels: Levels,
    chord_ms: u64,
    dozed_at: u64,
    autosave_at: u64,
    battery_at: u64,
    charge_at: u64,
    battery: Option<Battery>,
    led: Led,
    power: Option<u64>,
}

impl View for App {
    type V = AppView;

    closed spec fn view(&self) -> AppView {
        AppView {
            carts: self.carts@.map_values(|s: String| s@),
            index: self.index,
            phase: self.phase,
            play_held: self.play_held,
            refused_at: self.refused_at,
            refused_exit: self.refused_exit,
            power_menu: self.power_menu,
            choices: self.choices@,
            core_picker: self.core_picker,
            cores: self.cores,
            restarting: self.restarting,
            powering_off: self.powering_off,
            act_at: self.act_at,
            link: self.link,
            pending: match self.pending {
                Some((p, at)) => Some((p@, at)),
                None => None,
            },
            cart: match self.cart {
                Some(c) => Some(c@),
                None => None,
            },
            clock_set: self.clock_set,
            utc_offset_min: self.utc_offset_min,
            levels: self.levels@,
            chord_ms: self.chord_ms,
            dozed_at: self.dozed_at,
            autosave_at: self.autosave_at,
            battery_at: self.battery_at,
            charge_at: self.charge_at,
            battery: self.battery,
            led: self.led.spec_last(),
            power: self.power,
        }
    }
}

impl App {
    fn refuse_at(&mut self, now: u64)
        ensures
            final(self)@ == refused(old(self)@, now),
    {
        self.refused_at = Some(now);
    }

    fn flush(&mut self, now: u64, out: &mut Vec<Effect>)
        requires
            in_time(now),
        ensures
            final(self)@ == flushed(old(self)@, now).0,
            final(out)@ == old(out)@ + flushed(old(self)@, now).1,
    {
        self.autosave_at = now + AUTOSAVE_MS;
        match self.phase {
            Phase::Playing { cart } | Phase::Polaroids { cart } => out.push(Effect::FlushResume(cart)),
            _ => {},
        }
        assert(out@ =~= old(out)@ + flushed(old(self)@, now).1);
    }

    fn set_led(&mut self, state: LedState, out: &mut Vec<Effect>)
        ensures
            final(self)@ == led_set(old(self)@, state).0,
            final(out)@ == old(out)@ + led_set(old(self)@, state).1,
    {
        let shutting = self.powering_off || self.restarting;
        match self.led.set(state, shutting) {
            Some(s) => {
                if self.power.is_some() {
                    out.push(Effect::Led(s));
                }
            },
            None => {},
        }
        assert(out@ =~= old(out)@ + led_set(old(self)@, state).1);
    }

    fn begin_power_off(&mut self, now: u64, out: &mut Vec<Effect>)
        requires
            in_time(now),
        ensures
            final(self)@ == powered_off(old(self)@, now).0,
            final(out)@ == old(out)@ + powered_off(old(self)@, now).1,
    {
        if self.powering_off {
            assert(out@ =~= old(out)@ + powered_off(old(self)@, now).1);
            return;
        }
        self.link = None;
        self.powering_off = true;
        self.act_at = now + SHUTDOWN_SHOW_MS;
        self.set_led(LedState::Off, out);
    }

    fn doze(&mut self, now: u64, out: &mut Vec<Effect>)
        requires
            in_time(now),
        ensures
            final(self)@ == dozed(old(self)@, now).0,
            final(out)@ == old(out)@ + dozed(old(self)@, now).1,
    {
        self.link = None;
        if let Phase::Doze { .. } = self.phase {
            assert(out@ =~= old(out)@ + dozed(old(self)@, now).1);
            return;
        }
        let ghost before = out@;
        self.flush(now, out);
        let cart = match self.phase {
            Phase::Playing { cart } | Phase::Polaroids { cart } => Some(cart),
            _ => None,
        };
        self.phase = Phase::Doze { cart };
        self.dozed_at = now;
        if self.power.is_some() {
            out.push(Effect::LidClosed);
        }
        assert(out@ =~= old(out)@ + dozed(old(self)@, now).1);
    }

    fn wake(&mut self, out: &mut Vec<Effect>)
        ensures
            final(self)@ == woken(old(self)@).0,
            final(out)@ == old(out)@ + woken(old(self)@).1,
    {
        if let Phase::Doze { cart } = self.phase {
            self.phase = match cart {
                Some(c) => Phase::Playing { cart: c },
                None => Phase::Shelf,
            };
            if self.power.is_some() {
                out.push(Effect::LidOpened);
            }
        }
        assert(out@ =~= old(out)@ + woken(old(self)@).1);
    }

    fn power_press(&mut self, now: u64, out: &mut Vec<Effect>)
        requires
            in_time(now),
        ensures
            final(self)@ == power_pressed(old(self)@, now).0,
            final(out)@ == old(out)@ + power_pressed(old(self)@, now).1,
    {
        match self.phase {
            Phase::Doze { .. } => self.wake(out),
            _ => self.doze(now, out),
        }
    }

    fn open_power_menu(&mut self, now: u64, out: &mut Vec<Effect>)
        requires
            in_time(now),
        ensures
            final(self)@ == menu_opened(old(self)@, now).0,
            final(out)@ == old(out)@ + menu_opened(old(self)@, now).1,
    {
        if self.power_menu.is_some() {
            assert(out@ =~= old(out)@ + menu_opened(old(self)@, now).1);
            return;
        }
        if self.link.is_some() {
            self.refuse_at(now);
            assert(out@ =~= old(out)@ + menu_opened(old(self)@, now).1);
            return;
        }
        self.flush(now, out);
        self.power_menu = Some(0);
    }

    fn power_menu_input(&mut self, action: Action, now: u64, out: &mut Vec<Effect>)
        requires
            in_time(now),
            valid(old(self)@),
        ensures
            final(self)@ == menu_input(old(self)@, action, now).0,
            final(out)@ == old(out)@ + menu_input(old(self)@, action, now).1,
    {
        let index = match self.power_menu {
            Some(index) => index,
            None => {
                assert(out@ =~= old(out)@ + menu_input(old(self)@, action, now).1);
                return;
            },
        };
        match power_menu_step(index, self.choices.len(), action) {
            MenuStep::Stay(i) => {
                self.power_menu = Some(i);
                assert(out@ =~= old(out)@ + menu_input(old(self)@, action, now).1);
            },
            MenuStep::Close => {
                self.power_menu = None;
                assert(out@ =~= old(out)@ + menu_input(old(self)@, action, now).1);
            },
            MenuStep::Choose(i) => {
                self.power_menu = None;
                match self.choices[i] {
                    PowerChoice::Restart => {
                        self.restarting = true;
                        self.act_at = now + SHUTDOWN_SHOW_MS;
                        self.set_led(LedState::Off, out);
                    },
                    PowerChoice::PowerOff => self.begin_power_off(now, out),
                }
            },
        }
    }

    fn insert(&mut self, clean: bool)
        ensures
            final(self)@ == inserted(old(self)@, clean),
    {
        if self.phase != Phase::Shelf || self.index >= self.carts.len() {
            return;
        }
        self.play_held = None;
        self.refused_at = None;
        self.refused_exit = false;
        self.phase = Phase::Inserting { cart: self.index, core_ready: false, resumed: false, clean };
    }

    fn eject(&mut self, now: u64, out: &mut Vec<Effect>)
        ensures
            final(self)@ == ejected(old(self)@, now).0,
            final(out)@ == old(out)@ + ejected(old(self)@, now).1,
    {
        if self.carts.len() == 1 {
            self.refuse_at(now);
            assert(out@ =~= old(out)@ + ejected(old(self)@, now).1);
            return;
        }
        let cart = match self.phase {
            Phase::Playing { cart } | Phase::Inserting { cart, .. } => cart,
            _ => {
                assert(out@ =~= old(out)@ + ejected(old(self)@, now).1);
                return;
            },
        };
        self.link = None;
        out.push(Effect::FlushEject(cart));
        self.pending = None;
        self.refused_at = None;
        self.refused_exit = false;
        self.phase = Phase::Ejecting { cart };
        assert(out@ =~= old(out)@ + ejected(old(self)@, now).1);
    }

    fn close_switcher(&mut self)
        ensures
            final(self)@ == polaroids_closed(old(self)@),
    {
        if let Phase::Polaroids { cart } = self.phase {
            self.phase = Phase::Playing { cart };
        }
    }

    fn adjust(&mut self, action: Action, now: u64, out: &mut Vec<Effect>)
        requires
            action == Action::MuteToggle || is_level(action),
        ensures
            final(self)@ == levels_applied(old(self)@, action, now).0,
            final(out)@ == old(out)@ + levels_applied(old(self)@, action, now).1,
    {
        let shown = self.levels.adjust(action, now, self.chord_ms);
        match shown {
            Some(s) => {
                out.push(Effect::Hud(s));
                if s.kind == HudKind::Brightness && self.power.is_some() {
                    out.push(Effect::Backlight(s.value));
                }
                if s.persist {
                    out.push(Effect::Persist);
                }
            },
            None => {},
        }
        assert(out@ =~= old(out)@ + levels_applied(old(self)@, action, now).1);
    }

    fn picker_input(&mut self, action: Action, out: &mut Vec<Effect>)
        requires
            valid(old(self)@),
        ensures
            final(self)@ == picker_input(old(self)@, action).0,
            final(out)@ == old(out)@ + picker_input(old(self)@, action).1,
    {
        let row = match self.core_picker {
            Some(row) => row,
            None => {
                assert(out@ =~= old(out)@ + picker_input(old(self)@, action).1);
                return;
            },
        };
        match picker_step(row, self.cores, action) {
            MenuStep::Stay(r) => self.core_picker = Some(r),
            MenuStep::Choose(r) => {
                out.push(Effect::WriteCore(self.index, r));
                self.core_picker = None;
            },
            MenuStep::Close => self.core_picker = None,
        }
        assert(out@ =~= old(out)@ + picker_input(old(self)@, action).1);
    }

    fn shelf_input(&mut self, action: Action, now: u64, out: &mut Vec<Effect>)
        requires
            valid(old(self)@),
        ensures
            final(self)@ == shelf_applied(old(self)@, action, now).0,
            final(out)@ == old(out)@ + shelf_applied(old(self)@, action, now).1,
    {
        if action == Action::GbaDown(Btn::Start) && self.core_picker.is_none() {
            if self.index < self.carts.len() {
                out.push(Effect::OpenCorePicker(self.index));
            }
        } else if self.core_picker.is_some() {
            self.picker_input(action, out);
        } else if action == Action::ShelfLeft || action == Action::GbaDown(Btn::Left) {
            out.push(Effect::ShelfHold(Side::Left));
        } else if action == Action::ShelfRight || action == Action::GbaDown(Btn::Right) {
            out.push(Effect::ShelfHold(Side::Right));
        } else if action == Action::OpenAbout {
            self.phase = Phase::About;
        } else if action == Action::GbaDown(Btn::A) {
            self.play_held = Some(now);
        } else if action == Action::GbaUp(Btn::A) {
            if self.play_held.is_some() {
                self.play_held = None;
                self.insert(false);
            }
        } else if action == Action::Insert {
            self.insert(false);
        }
        assert(out@ =~= old(out)@ + shelf_applied(old(self)@, action, now).1);
    }

    fn playing_input(&mut self, cart: usize, action: Action, now: u64, out: &mut Vec<Effect>)
        requires
            old(self)@.phase == (Phase::Playing { cart }),
        ensures
            final(self)@ == playing_applied(old(self)@, cart, action, now).0,
            final(out)@ == old(out)@ + playing_applied(old(self)@, cart, action, now).1,
    {
        if action == Action::Eject {
            self.eject(now, out);
        } else if action == Action::Polaroids {
            if self.link.is_some() {
                self.refuse_at(now);
            } else {
                out.push(Effect::ListStates(cart));
            }
        } else if action == Action::SaveState {
            out.push(Effect::SaveState(cart));
        } else if action == Action::LoadState {
            if self.link.is_some() {
                self.refuse_at(now);
            } else {
                out.push(Effect::LoadNewest(cart));
            }
        } else if (action == Action::RewindStart || action == Action::FfStart)
            && self.link.is_some() {
            self.refuse_at(now);
        }
        assert(out@ =~= old(out)@ + playing_applied(old(self)@, cart, action, now).1);
    }

    fn polaroids_input(&mut self, action: Action, out: &mut Vec<Effect>)
        ensures
            final(self)@ == polaroids_applied(old(self)@, action).0,
            final(out)@ == old(out)@ + polaroids_applied(old(self)@, action).1,
    {
        if action == Action::ShelfLeft || action == Action::GbaDown(Btn::Left) {
            out.push(Effect::Flick(Side::Left));
        } else if action == Action::ShelfRight || action == Action::GbaDown(Btn::Right) {
            out.push(Effect::Flick(Side::Right));
        } else if action == Action::GbaDown(Btn::A) {
            out.push(Effect::LoadSelected);
        } else if action == Action::GbaDown(Btn::B) || action == Action::Polaroids {
            self.close_switcher();
        } else if action == Action::GbaDown(Btn::X) {
            out.push(Effect::Undo);
        } else if action == Action::GbaDown(Btn::Y) {
            out.push(Effect::DeleteSelected);
        }
        assert(out@ =~= old(out)@ + polaroids_applied(old(self)@, action).1);
    }

    /// Whether a netpacket session is live right now.
    pub fn link_active(&self) -> (r: bool)
        ensures
            r == (self@.link is Some),
    {
        self.link.is_some()
    }

    /// One action, at `now`. The face buttons belong to whatever is on screen; while the game
    /// is playing they are the game's, and only the gestures that are never the game's are
    /// seen here.
    pub fn apply(&mut self, action: Action, now: u64) -> (effects: Vec<Effect>)
        requires
            valid(old(self)@),
            in_time(now),
        ensures
            valid(final(self)@),
            (final(self)@, effects@) == applied(old(self)@, action, now),
    {
        let mut out: Vec<Effect> = Vec::new();
        if self.power_menu.is_some() {
            if action == Action::LidClose {
                self.doze(now, &mut out);
            } else if action == Action::LidOpen {
                self.wake(&mut out);
            } else {
                self.power_menu_input(action, now, &mut out);
            }
        } else if action == Action::LidClose {
            self.doze(now, &mut out);
        } else if action == Action::LidOpen {
            self.wake(&mut out);
        } else if action == Action::PowerPress {
            if self.link.is_some() {
                self.link = None;
            } else {
                self.flush(now, &mut out);
            }
        } else if action == Action::PowerTap {
            self.power_press(now, &mut out);
        } else if action == Action::PowerHold {
            self.open_power_menu(now, &mut out);
        } else if action == Action::PowerOff {
        } else if self.phase == Phase::SetClock {
            if action == Action::GbaDown(Btn::Left) || action == Action::ShelfLeft {
                out.push(Effect::ClockStep(Btn::Left));
            } else if action == Action::GbaDown(Btn::Right) || action == Action::ShelfRight {
                out.push(Effect::ClockStep(Btn::Right));
            } else if action == Action::GbaDown(Btn::Up) {
                out.push(Effect::ClockStep(Btn::Up));
            } else if action == Action::GbaDown(Btn::Down) {
                out.push(Effect::ClockStep(Btn::Down));
            } else if action == Action::GbaDown(Btn::A) || action == Action::Insert {
                out.push(Effect::ConfirmClock);
            }
        } else if action == Action::MuteToggle || crate::app::level_action(action) {
            self.adjust(action, now, &mut out);
        } else {
            if action == Action::GbaUp(Btn::Left) {
                out.push(Effect::ShelfRelease(Side::Left));
            } else if action == Action::GbaUp(Btn::Right) {
                out.push(Effect::ShelfRelease(Side::Right));
            }
            let ghost released_out = out@;
            assert(released_out =~= released(action));
            match self.phase {
                Phase::Shelf => self.shelf_input(action, now, &mut out),
                Phase::Inserting { .. } => {
                    if action == Action::Eject {
                        self.eject(now, &mut out);
                    }
                },
                Phase::Playing { cart } => self.playing_input(cart, action, now, &mut out),
                Phase::Polaroids { .. } => self.polaroids_input(action, &mut out),
                Phase::About => {
                    if action == Action::GbaDown(Btn::B) || action == Action::OpenAbout {
                        self.phase = Phase::Shelf;
                    }
                },
                _ => {},
            }
        }
        assert(out@ =~= applied(old(self)@, action, now).1);
        out
    }
}

impl App {
    /// A new app on the shelf. `choices` are the power menu's rows and `cores` the core
    /// picker's, in the order they are drawn; `chord_ms` is how far apart the mute chord's two
    /// presses may be.
    pub fn new(
        carts: Vec<String>,
        choices: Vec<PowerChoice>,
        cores: usize,
        chord_ms: u64,
        remembered: Remembered,
    ) -> (r: App)
        requires
            choices@.len() >= 1,
            cores >= 1,
        ensures
            r@ == fresh(
                carts@.map_values(|s: String| s@),
                choices@,
                cores,
                chord_ms,
                remembered@,
            ),
            valid(r@),
    {
        let Remembered { cart, clock_set, utc_offset_min, brightness, blue_light, volume, muted } =
            remembered;
        App {
            carts,
            index: 0,
            phase: Phase::Shelf,
            play_held: None,
            refused_at: None,
            refused_exit: false,
            power_menu: None,
            choices,
            core_picker: None,
            cores,
            restarting: false,
            powering_off: false,
            act_at: 0,
            link: None,
            pending: None,
            cart,
            clock_set,
            utc_offset_min,
            levels: Levels::new(brightness, blue_light, volume, muted),
            chord_ms,
            dozed_at: 0,
            autosave_at: AUTOSAVE_MS,
            battery_at: BATTERY_POLL_MS,
            charge_at: CHARGE_POLL_MS,
            battery: None,
            led: Led::new(),
            power: None,
        }
    }

    /// A new app, as a boot leaves it: the remembered cart seated again, or the clock screen
    /// if the clock was never confirmed.
    pub fn boot(
        carts: Vec<String>,
        choices: Vec<PowerChoice>,
        cores: usize,
        chord_ms: u64,
        remembered: Remembered,
    ) -> (r: App)
        requires
            choices@.len() >= 1,
            cores >= 1,
        ensures
            r@ == booted(
                fresh(carts@.map_values(|s: String| s@), choices@, cores, chord_ms, remembered@),
            ),
            valid(r@),
    {
        let mut app = App::new(carts, choices, cores, chord_ms, remembered);
        if app.clock_set {
            app.start();
        } else {
            app.phase = Phase::SetClock;
        }
        app
    }

    /// Where `stem` is on the shelf.
    fn position(&self, stem: &str) -> (r: Option<usize>)
        ensures
            r == position_from(self@.carts, stem@, 0),
    {
        let n = self.carts.len();
        let mut i: usize = 0;
        while i < n
            invariant
                n == self.carts@.len(),
                i <= n,
                position_from(self@.carts, stem@, 0) == position_from(self@.carts, stem@, i as int),
            decreases n - i,
        {
            assert(self@.carts[i as int] == self.carts@[i as int]@);
            if same_text(self.carts[i].as_str(), stem) {
                return Some(i);
            }
            i += 1;
        }
        None
    }

    fn start(&mut self)
        requires
            valid(old(self)@),
        ensures
            final(self)@ == started(old(self)@),
            valid(final(self)@),
    {
        let seated = if self.carts.len() == 1 {
            Some(0)
        } else {
            match &self.cart {
                Some(stem) => self.position(stem.as_str()),
                None => None,
            }
        };
        self.phase = Phase::Shelf;
        match seated {
            Some(i) => {
                proof {
                    if self.carts@.len() != 1 {
                        assert(self@.carts.len() == self.carts@.len());
                        lemma_position_in_bounds(self@.carts, self@.cart->0, 0);
                    }
                }
                self.index = i;
                self.insert(false);
                if let Phase::Inserting { cart, core_ready, clean, .. } = self.phase {
                    self.phase = Phase::Inserting { cart, core_ready, resumed: true, clean };
                }
            },
            None => self.cart = None,
        }
    }

    /// Confirms whatever is on the clock screen, `offset_min` east of utc. It is asked once,
    /// so this is also the only way off it.
    pub fn confirm_clock(&mut self, offset_min: i16) -> (effects: Vec<Effect>)
        requires
            valid(old(self)@),
        ensures
            valid(final(self)@),
            (final(self)@, effects@) == clock_confirmed(old(self)@, offset_min),
    {
        let mut out: Vec<Effect> = Vec::new();
        if self.phase != Phase::SetClock {
            return out;
        }
        self.utc_offset_min = offset_min;
        self.clock_set = true;
        out.push(Effect::Persist);
        self.start();
        assert(out@ =~= clock_confirmed(old(self)@, offset_min).1);
        out
    }

    /// The platform, with its doze timeout and its clock's reading in seconds.
    pub fn set_power(&mut self, doze_timeout_ms: u64, secs: i64, now: u64) -> (effects: Vec<
        Effect,
    >)
        requires
            valid(old(self)@),
        ensures
            valid(final(self)@),
            (final(self)@, effects@) == powered(old(self)@, doze_timeout_ms, secs, now),
    {
        let mut out: Vec<Effect> = Vec::new();
        out.push(Effect::Backlight(self.levels.brightness()));
        if self.phase == Phase::SetClock || secs < CLOCK_FLOOR {
            self.phase = Phase::SetClock;
        }
        self.power = Some(doze_timeout_ms);
        self.battery_at = now;
        self.charge_at = now;
        self.led.reset();
        assert(out@ =~= powered(old(self)@, doze_timeout_ms, secs, now).1);
        out
    }

    /// Begins a session as libretro client `client_id`: 0 the host, 1 the joiner.
    pub fn begin_link(&mut self, client_id: u16)
        ensures
            final(self)@ == (AppView { link: Some(client_id), ..old(self)@ }),
    {
        self.link = Some(client_id);
    }

    /// Ends the session. Never an error: the peer vanishing and the player ending it look the
    /// same from here.
    pub fn end_link(&mut self)
        ensures
            final(self)@ == (AppView { link: None, ..old(self)@ }),
    {
        self.link = None;
    }

    pub fn link_client_id(&self) -> (r: Option<u16>)
        ensures
            r == self@.link,
    {
        self.link
    }

    /// Rewinding one device desynchronises the other with no way back.
    pub fn may_rewind(&self) -> (r: bool)
        ensures
            r == (self@.link is None),
    {
        self.link.is_none()
    }

    /// Loading a state moves this device's machine to a moment the peer never agreed to.
    pub fn may_load_state(&self) -> (r: bool)
        ensures
            r == (self@.link is None),
    {
        self.link.is_none()
    }

    /// Fast forward runs this device's machine out ahead of what the peer has been sent.
    pub fn may_fast_forward(&self) -> (r: bool)
        ensures
            r == (self@.link is None),
    {
        self.link.is_none()
    }

    /// Any action the app will not carry out: the shake starts at `now`.
    pub fn refuse(&mut self, now: u64)
        ensures
            final(self)@ == refused(old(self)@, now),
    {
        self.refuse_at(now);
    }

    /// When the last refusal started.
    pub fn refused_at(&self) -> (r: Option<u64>)
        ensures
            r == self@.refused_at,
    {
        self.refused_at
    }

    /// Whether the cart on its way out is carrying the refusal.
    pub fn refused_exit(&self) -> (r: bool)
        ensures
            r == self@.refused_exit,
    {
        self.refused_exit
    }

    pub fn on_core_ready(&mut self)
        requires
            valid(old(self)@),
        ensures
            valid(final(self)@),
            final(self)@ == core_readied(old(self)@),
    {
        if let Phase::Inserting { cart, resumed, clean, .. } = self.phase {
            self.phase = Phase::Inserting { cart, core_ready: true, resumed, clean };
        }
    }

    pub fn on_core_failed(&mut self)
        requires
            valid(old(self)@),
        ensures
            valid(final(self)@),
            final(self)@ == core_refused(old(self)@),
    {
        if let Phase::Inserting { cart, .. } = self.phase {
            self.phase = Phase::Ejecting { cart };
            self.refused_exit = true;
        }
    }

    /// What the card remembers as seated, written when it changes.
    fn record_cart(&mut self, cart: Option<String>, out: &mut Vec<Effect>)
        ensures
            final(self)@ == recorded(
                old(self)@,
                match cart {
                    Some(c) => Some(c@),
                    None => None,
                },
            ).0,
            final(out)@ == old(out)@ + recorded(
                old(self)@,
                match cart {
                    Some(c) => Some(c@),
                    None => None,
                },
            ).1,
    {
        let same = match (&self.cart, &cart) {
            (Some(a), Some(b)) => same_text(a.as_str(), b.as_str()),
            (None, None) => true,
            _ => false,
        };
        if same {
            assert(out@ =~= old(out)@);
            return;
        }
        self.cart = cart;
        out.push(Effect::Persist);
        assert(out@ =~= old(out)@.push(Effect::Persist));
    }

    /// The insert animation has run its length.
    pub fn insert_finished(&mut self) -> (effects: Vec<Effect>)
        requires
            valid(old(self)@),
        ensures
            valid(final(self)@),
            (final(self)@, effects@) == insert_done(old(self)@),
    {
        let mut out: Vec<Effect> = Vec::new();
        if let Phase::Inserting { cart, core_ready: true, .. } = self.phase {
            self.phase = Phase::Playing { cart };
            self.refused_exit = false;
            let stem = self.carts[cart].clone();
            assert(stem@ == old(self)@.carts[cart as int]);
            self.record_cart(Some(stem), &mut out);
        }
        assert(out@ =~= insert_done(old(self)@).1);
        out
    }

    /// The eject animation has run its length.
    pub fn eject_finished(&mut self) -> (effects: Vec<Effect>)
        requires
            valid(old(self)@),
        ensures
            valid(final(self)@),
            (final(self)@, effects@) == eject_done(old(self)@),
    {
        let mut out: Vec<Effect> = Vec::new();
        if let Phase::Ejecting { .. } = self.phase {
            self.phase = Phase::Shelf;
            self.refused_exit = false;
            self.record_cart(None, &mut out);
        }
        assert(out@ =~= eject_done(old(self)@).1);
        out
    }

    /// The eject's flush landed: the slot is empty on the card.
    pub fn eject_written(&mut self)
        ensures
            final(self)@ == (AppView { cart: None, ..old(self)@ }),
    {
        self.cart = None;
    }

    /// The shelf's highlight moved to cart `index`.
    pub fn select(&mut self, index: usize)
        requires
            index < old(self)@.carts.len(),
        ensures
            final(self)@ == (AppView { index, ..old(self)@ }),
    {
        self.index = index;
    }

    /// The core picker came up on row `row`, the cart's own core.
    pub fn core_picker_opened(&mut self, row: usize)
        requires
            valid(old(self)@),
            row < old(self)@.cores,
        ensures
            valid(final(self)@),
            final(self)@ == (AppView { core_picker: Some(row), ..old(self)@ }),
    {
        self.core_picker = Some(row);
    }

    /// The switcher, over a cart with `entries` states. Refused while a session is live,
    /// since opening it pauses the core, and refused on an empty ring rather than opening an
    /// empty screen.
    pub fn open_polaroids(&mut self, entries: usize, now: u64)
        requires
            valid(old(self)@),
        ensures
            valid(final(self)@),
            final(self)@ == polaroids_opened(old(self)@, entries, now),
    {
        if self.link.is_some() || entries == 0 {
            self.refuse_at(now);
            return;
        }
        if let Phase::Playing { cart } = self.phase {
            self.phase = Phase::Polaroids { cart };
        }
    }

    pub fn close_polaroids(&mut self)
        requires
            valid(old(self)@),
        ensures
            valid(final(self)@),
            final(self)@ == polaroids_closed(old(self)@),
    {
        self.close_switcher();
    }

    /// The guard every load from the card goes through: `false`, and the shake, while a
    /// session is live.
    pub fn load_file(&mut self, now: u64) -> (go: bool)
        ensures
            go == (old(self)@.link is None),
            final(self)@ == if go {
                old(self)@
            } else {
                refused(old(self)@, now)
            },
    {
        if self.link.is_some() {
            self.refuse_at(now);
            return false;
        }
        true
    }

    /// A state was loaded at `now`; `prior` is what the core held just before, and is what
    /// an undo gives back.
    pub fn loaded(&mut self, prior: Option<Vec<u8>>, now: u64)
        ensures
            final(self)@ == match prior {
                Some(p) => AppView {
                    pending: Some((UndoView::Load { prior: p@ }, now)),
                    ..old(self)@
                },
                None => old(self)@,
            },
    {
        if let Some(prior) = prior {
            self.pending = Some((PendingUndo::Load { prior }, now));
        }
    }

    /// A state was pushed at `now` under `stamp`; `evicted` is the entry the push dropped.
    pub fn state_saved(
        &mut self,
        stamp: String,
        evicted: Option<(String, Vec<u8>, Vec<u8>)>,
        now: u64,
    )
        ensures
            final(self)@ == (AppView {
                pending: Some((PendingUndo::Save { stamp, evicted }@, now)),
                ..old(self)@
            }),
    {
        self.pending = Some((PendingUndo::Save { stamp, evicted }, now));
    }

    /// Whether the one undoable action is still on offer at `now`.
    pub fn undo_available(&self, now: u64) -> (r: bool)
        ensures
            r == spec_undo_available(pending_at(self@), now),
    {
        let at = match &self.pending {
            Some((_, at)) => Some(*at),
            None => None,
        };
        crate::app::undo_available(at, now)
    }

    /// What the offer says, or `None` when there is nothing on offer.
    pub fn undo_label(&self, now: u64) -> (r: Option<&'static str>)
        ensures
            match r {
                None => !spec_undo_available(pending_at(self@), now),
                Some(s) => spec_undo_available(pending_at(self@), now) && s@ == match self@.pending {
                    Some((UndoView::Save { .. }, _)) => "undo save"@,
                    _ => "undo load"@,
                },
            },
    {
        if !self.undo_available(now) {
            return None;
        }
        match &self.pending {
            Some((PendingUndo::Save { .. }, _)) => Some("undo save"),
            _ => Some("undo load"),
        }
    }

    /// One shot: the undo to carry out, or `None` when there is none to take. The switcher
    /// closes behind it.
    pub fn undo(&mut self, now: u64) -> (r: Option<PendingUndo>)
        requires
            valid(old(self)@),
        ensures
            valid(final(self)@),
            final(self)@ == undone(old(self)@, now).0,
            match r {
                Some(u) => undone(old(self)@, now).1 == Some(u@),
                None => undone(old(self)@, now).1 is None,
            },
    {
        if !self.undo_available(now) {
            self.pending = None;
            return None;
        }
        let load = match &self.pending {
            Some((PendingUndo::Load { .. }, _)) => true,
            _ => false,
        };
        if load && self.link.is_some() {
            self.refuse_at(now);
            return None;
        }
        let taken = self.pending.take();
        self.close_switcher();
        match taken {
            Some((what, _)) => Some(what),
            None => None,
        }
    }

    /// Whether the offer is an undo of the save `stamp`.
    fn undo_targets(&self, stamp: &str) -> (r: bool)
        ensures
            r == (self@.pending matches Some((UndoView::Save { stamp: s, .. }, _)) && s
                == stamp@),
    {
        match &self.pending {
            Some((PendingUndo::Save { stamp: pending, .. }, _)) => same_text(pending.as_str(), stamp),
            _ => false,
        }
    }

    /// The state `stamp` was deleted from the card.
    pub fn deleted(&mut self, stamp: &str)
        ensures
            final(self)@ == after_delete(old(self)@, stamp@),
    {
        if self.undo_targets(stamp) {
            self.pending = None;
        }
    }

    /// Everything the clock alone drives, at `now`.
    pub fn timers(&mut self, now: u64) -> (effects: Vec<Effect>)
        requires
            valid(old(self)@),
            in_time(now),
        ensures
            valid(final(self)@),
            (final(self)@, effects@) == ticked(old(self)@, now),
    {
        let mut out: Vec<Effect> = Vec::new();
        self.play_hold(now);
        let ghost v1 = self@;
        if self.doze_expired(now) {
            self.begin_power_off(now, &mut out);
        }
        let ghost e2 = out@;
        assert((self@, e2) == doze_checked(v1, now));
        let ghost v2 = self@;
        if now >= self.autosave_at {
            self.flush(now, &mut out);
        }
        let ghost e3 = out@.subrange(e2.len() as int, out@.len() as int);
        assert(out@ =~= e2 + e3);
        assert((self@, e3) == autosaved(v2, now));
        let ghost v3 = self@;
        let ghost before = out@;
        self.poll(now, &mut out);
        assert(out@ =~= e2 + e3 + polled(v3, now).1);
        out
    }

    /// The gauge's two cadences.
    fn poll(&mut self, now: u64, out: &mut Vec<Effect>)
        requires
            in_time(now),
        ensures
            final(self)@ == polled(old(self)@, now).0,
            final(out)@ == old(out)@ + polled(old(self)@, now).1,
    {
        if now >= self.battery_at {
            self.battery_at = now + BATTERY_POLL_MS;
            out.push(Effect::ReadBattery);
        }
        if now >= self.charge_at {
            self.charge_at = now + CHARGE_POLL_MS;
            out.push(Effect::ReadCharge);
        }
        assert(out@ =~= old(out)@ + polled(old(self)@, now).1);
    }

    /// The play hold, checked against the clock.
    fn play_hold(&mut self, now: u64)
        requires
            valid(old(self)@),
        ensures
            valid(final(self)@),
            final(self)@ == play_hold_checked(old(self)@, now),
    {
        match self.play_held {
            None => {},
            Some(at) => {
                if self.phase != Phase::Shelf {
                    self.play_held = None;
                } else if now.saturating_sub(at) >= PLAY_HOLD_MS {
                    self.insert(true);
                }
            },
        }
    }

    fn doze_expired(&self, now: u64) -> (r: bool)
        ensures
            r == doze_due(self@, now),
    {
        if self.link.is_some() {
            return false;
        }
        match (self.phase, self.power) {
            (Phase::Doze { .. }, Some(timeout)) => now.saturating_sub(self.dozed_at) >= timeout,
            _ => false,
        }
    }

    /// The lid shut too long: the device stops for real.
    pub fn on_doze_timeout(&mut self, now: u64) -> (effects: Vec<Effect>)
        requires
            valid(old(self)@),
            in_time(now),
        ensures
            valid(final(self)@),
            (final(self)@, effects@) == if old(self)@.phase is Doze {
                powered_off(old(self)@, now)
            } else {
                (old(self)@, Seq::<Effect>::empty())
            },
    {
        let mut out: Vec<Effect> = Vec::new();
        if let Phase::Doze { .. } = self.phase {
            self.begin_power_off(now, &mut out);
        }
        assert(out@ =~= if old(self)@.phase is Doze {
            powered_off(old(self)@, now).1
        } else {
            Seq::<Effect>::empty()
        });
        out
    }

    /// A gauge reading, polled or injected.
    pub fn on_battery(&mut self, b: Battery, now: u64) -> (effects: Vec<Effect>)
        requires
            valid(old(self)@),
            in_time(now),
        ensures
            valid(final(self)@),
            (final(self)@, effects@) == battery_checked(old(self)@, b, now),
    {
        let mut out: Vec<Effect> = Vec::new();
        if crate::app::battery_cutoff(b, self.powering_off) {
            self.flush(now, &mut out);
            self.begin_power_off(now, &mut out);
        }
        assert(out@ =~= battery_checked(old(self)@, b, now).1);
        out
    }

    /// What `ReadBattery` found: `None` with no gauge to read.
    pub fn on_battery_read(&mut self, reading: Option<Battery>, now: u64) -> (effects: Vec<Effect>)
        requires
            valid(old(self)@),
            in_time(now),
        ensures
            valid(final(self)@),
            (final(self)@, effects@) == battery_read(old(self)@, reading, now),
    {
        self.battery = reading;
        match reading {
            Some(b) => self.on_battery(b, now),
            None => Vec::new(),
        }
    }

    /// What `ReadCharge` found: `None` with no platform to ask.
    pub fn on_charge_read(&mut self, charge: Option<Charge>) -> (effects: Vec<Effect>)
        requires
            valid(old(self)@),
        ensures
            valid(final(self)@),
            (final(self)@, effects@) == charge_read(old(self)@, charge),
    {
        if let (Some(b), Some(c)) = (self.battery, charge) {
            self.battery = Some(Battery { charge: c, ..b });
        }
        let mut out: Vec<Effect> = Vec::new();
        let state = crate::app::led_state(self.battery);
        self.set_led(state, &mut out);
        assert(out@ =~= charge_read(old(self)@, charge).1);
        out
    }

    pub fn phase(&self) -> (r: Phase)
        ensures
            r == self@.phase,
    {
        self.phase
    }

    pub fn power_menu(&self) -> (r: Option<usize>)
        ensures
            r == self@.power_menu,
    {
        self.power_menu
    }

    pub fn core_picker(&self) -> (r: Option<usize>)
        ensures
            r == self@.core_picker,
    {
        self.core_picker
    }

    pub fn powering_off(&self) -> (r: bool)
        ensures
            r == self@.powering_off,
    {
        self.powering_off
    }

    pub fn restarting(&self) -> (r: bool)
        ensures
            r == self@.restarting,
    {
        self.restarting
    }

    /// Whether the shutdown screen is what should be on the panel.
    pub fn shutting_down(&self) -> (r: bool)
        ensures
            r == shutting_down(self@),
    {
        self.powering_off || self.restarting
    }

    /// The machine is not allowed to stop until the shutdown screen has been on the panel.
    pub fn ready_to_power_off(&self, now: u64) -> (r: bool)
        ensures
            r == (self@.powering_off && now >= self@.act_at),
    {
        self.powering_off && now >= self.act_at
    }

    pub fn ready_to_restart(&self, now: u64) -> (r: bool)
        ensures
            r == (self@.restarting && now >= self@.act_at),
    {
        self.restarting && now >= self.act_at
    }

    /// The cached reading. `None` until the first slow tick, and on a device with no gauge.
    pub fn battery(&self) -> (r: Option<Battery>)
        ensures
            r == self@.battery,
    {
        self.battery
    }

    pub fn led_state(&self) -> (r: LedState)
        ensures
            r == spec_led_state(self@.battery),
    {
        crate::app::led_state(self.battery)
    }

    /// Exactly one cart on the card. The shelf is unreachable and eject is refused.
    pub fn single_cart(&self) -> (r: bool)
        ensures
            r == (self@.carts.len() == 1),
    {
        self.carts.len() == 1
    }

    /// The cart under the highlight, and `None` on an empty shelf.
    pub fn selected_stem(&self) -> (r: Option<&str>)
        ensures
            match r {
                Some(s) => self@.index < self@.carts.len() && s@ == self@.carts[self@.index as int],
                None => self@.index >= self@.carts.len(),
            },
    {
        if self.index < self.carts.len() {
            Some(self.carts[self.index].as_str())
        } else {
            None
        }
    }

    /// Whether the cart going in is starting from the beginning.
    pub fn starting_clean(&self) -> (r: bool)
        ensures
            r == (self@.phase matches Phase::Inserting { clean: true, .. }),
    {
        match self.phase {
            Phase::Inserting { clean, .. } => clean,
            _ => false,
        }
    }

    /// The levels, for the binary to read back.
    pub fn levels(&self) -> (r: &Levels)
        ensures
            r@ == self@.levels,
    {
        &self.levels
    }

    /// What the card is to remember, for a `Persist`.
    pub fn remembered(&self) -> (r: Remembered)
        ensures
            r@ == (RememberedView {
                cart: self@.cart,
                clock_set: self@.clock_set,
                utc_offset_min: self@.utc_offset_min,
                brightness: self@.levels.brightness,
                blue_light: self@.levels.blue_light,
                volume: self@.levels.volume,
                muted: self@.levels.muted,
            }),
    {
        Remembered {
            cart: match &self.cart {
                Some(c) => Some(c.clone()),
                None => None,
            },
            clock_set: self.clock_set,
            utc_offset_min: self.utc_offset_min,
            brightness: self.levels.brightness(),
            blue_light: self.levels.blue_light(),
            volume: self.levels.volume(),
            muted: self.levels.muted(),
        }
    }

    /// Local time from the platform's utc seconds: the offset is applied once, here.
    pub fn wall_secs(&self, utc: i64) -> (r: i64)
        requires
            i64::MIN + 60 * 32768 <= utc <= i64::MAX - 60 * 32768,
        ensures
            r == utc + self@.utc_offset_min * 60,
    {
        utc + (self.utc_offset_min as i64) * 60
    }

    /// The speed the core is to run at, given whether fast forward is held.
    pub fn speed(&self, fast: bool) -> (r: Speed)
        ensures
            r == spec_speed(self@, fast),
    {
        let held = self.power_menu.is_some() || self.powering_off || self.restarting;
        match self.phase {
            Phase::Inserting { .. } | Phase::Ejecting { .. } | Phase::Polaroids { .. } | Phase::Doze {
                ..
            } => Speed::Paused,
            _ => if held {
                Speed::Paused
            } else if fast && match self.phase {
                Phase::Playing { .. } => true,
                _ => false,
            } {
                Speed::Fast
            } else {
                Speed::Normal
            },
        }
    }

    /// Whether the game is live and in charge of the device: the menus and the shutdown
    /// screen hold it even with its phase still playing.
    pub fn playing(&self) -> (r: bool)
        ensures
            r == playing(self@),
    {
        let held = self.power_menu.is_some() || self.powering_off || self.restarting;
        match self.phase {
            Phase::Playing { .. } => !held,
            _ => false,
        }
    }
}


impl App {
    /// The cart a core has to exist for: the one on its way in. A core exists exactly while a
    /// cart is in the slot, and loading it is what the insert animation hides.
    pub fn core_wanted(&self) -> (r: Option<usize>)
        ensures
            r == match self@.phase {
                Phase::Inserting { cart, .. } => Some(cart),
                _ => None,
            },
    {
        match self.phase {
            Phase::Inserting { cart, .. } => Some(cart),
            _ => None,
        }
    }

    /// Whether a core may stay: back on the shelf it goes, since libretro allows only one.
    pub fn core_kept(&self) -> (r: bool)
        ensures
            r == (self@.phase != Phase::Shelf),
    {
        self.phase != Phase::Shelf
    }

    /// What the core behind an insert reports, `None` when there is none: ready finishes the
    /// load, and a refused cart or a core that never started sends it back out. `true` when
    /// the dead worker is to be dropped, which frees the core for the next insert.
    pub fn on_core_state(&mut self, state: Option<CoreState>) -> (drop: bool)
        requires
            valid(old(self)@),
        ensures
            valid(final(self)@),
            drop == (old(self)@.phase is Inserting && !(state == Some(CoreState::Loading))
                && !(state == Some(CoreState::Ready))),
            final(self)@ == if !(old(self)@.phase is Inserting) {
                old(self)@
            } else if state == Some(CoreState::Ready) {
                core_readied(old(self)@)
            } else if state == Some(CoreState::Loading) {
                old(self)@
            } else {
                core_refused(old(self)@)
            },
    {
        if let Phase::Inserting { .. } = self.phase {
            match state {
                Some(CoreState::Loading) => false,
                Some(CoreState::Ready) => {
                    self.on_core_ready();
                    false
                },
                _ => {
                    self.on_core_failed();
                    true
                },
            }
        } else {
            false
        }
    }
}

/// A cart found is one on the shelf.
proof fn lemma_position_in_bounds(carts: Seq<Seq<char>>, stem: Seq<char>, from: int)
    requires
        carts.len() <= usize::MAX,
    ensures
        position_from(carts, stem, from) matches Some(i) ==> from <= i < carts.len(),
    decreases carts.len() - from,
{
    if from < 0 || from >= carts.len() {
    } else if carts[from] == stem {
    } else {
        lemma_position_in_bounds(carts, stem, from + 1);
    }
}

/// While a session is live nothing moves this device's machine in time: no action loads a
/// state or opens the switcher, the power menu (which pauses the core) never opens, and a
/// rewind, a fast forward, a load or the switcher asked for during the game is refused.
pub proof fn law_a_live_session_never_moves_time(v: AppView, action: Action, now: u64)
    requires
        valid(v),
        v.link is Some,
    ensures
        ({
            let (w, e) = applied(v, action, now);
            &&& forall|i: int|
                0 <= i < e.len() ==> !(#[trigger] e[i] is LoadNewest) && !(e[i] is ListStates)
            &&& v.power_menu is None ==> w.power_menu is None
            &&& (v.phase is Playing && v.power_menu is None && (action == Action::RewindStart
                || action == Action::FfStart || action == Action::LoadState || action
                == Action::Polaroids)) ==> w.refused_at == Some(now)
        }),
{
    let (w, e) = applied(v, action, now);
    if v.power_menu is None && action != Action::LidClose && action != Action::LidOpen && action
        != Action::PowerPress && action != Action::PowerTap && action != Action::PowerHold
        && action != Action::PowerOff && v.phase != Phase::SetClock && !(action
        == Action::MuteToggle || is_level(action)) {
        let (w1, e1) = phase_applied(v, action, now);
        assert(e =~= released(action) + e1);
    }
}

/// An undo of a load waits for the session to end: refused, with the offer left standing.
pub proof fn law_an_undo_of_a_load_waits_for_the_session(v: AppView, now: u64)
    requires
        v.link is Some,
        v.pending matches Some((UndoView::Load { .. }, _)),
        spec_undo_available(pending_at(v), now),
    ensures
        undone(v, now).1 is None,
        undone(v, now).0.pending == v.pending,
        undone(v, now).0.refused_at == Some(now),
{
}

/// An offer past its grace is gone, whatever it was: taking it up does nothing but clear it.
pub proof fn law_an_expired_offer_undoes_nothing(v: AppView, at: u64, now: u64)
    requires
        pending_at(v) == Some(at),
        at <= now,
        now - at > UNDO_GRACE_MS,
    ensures
        undone(v, now).1 is None,
        undone(v, now).0.pending is None,
        undone(v, now).0.phase == v.phase,
{
}

/// A doze always ends a live session, and the doze still happens.
pub proof fn law_a_doze_ends_the_session(v: AppView, now: u64)
    ensures
        dozed(v, now).0.link is None,
        dozed(v, now).0.phase is Doze,
{
}

/// Waking goes back to the game that was running when the lid shut, switcher or not, and
/// from anywhere else to the shelf.
pub proof fn law_waking_returns_to_the_game(v: AppView, now: u64)
    requires
        !(v.phase is Doze),
    ensures
        match seated(v.phase) {
            Some(c) => woken(dozed(v, now).0).0.phase == (Phase::Playing { cart: c }),
            None => woken(dozed(v, now).0).0.phase == Phase::Shelf,
        },
{
}

/// A power off is armed once: every later route in changes nothing and writes nothing, so
/// its deadline is never walked ahead of the clock. Arming it ends a live session.
pub proof fn law_a_power_off_is_armed_once(v: AppView, t1: u64, t2: u64)
    ensures
        powered_off(powered_off(v, t1).0, t2) == (powered_off(v, t1).0, Seq::<Effect>::empty()),
        powered_off(v, t1).0.powering_off,
        !v.powering_off ==> powered_off(v, t1).0.link is None,
{
}

/// Once a shutdown has begun, nothing but `Off` ever reaches the LED.
pub proof fn law_a_shutdown_keeps_the_case_dark(v: AppView, state: LedState)
    requires
        shutting_down(v),
        state != LedState::Off,
    ensures
        led_set(v, state) == (v, Seq::<Effect>::empty()),
{
}

/// An eject takes the session and the undo with the cart: neither outlives what carried it.
pub proof fn law_an_eject_takes_the_session_and_the_undo(v: AppView, now: u64)
    requires
        v.carts.len() != 1,
        v.phase is Playing || v.phase is Inserting,
    ensures
        ejected(v, now).0.link is None,
        ejected(v, now).0.pending is None,
        ejected(v, now).0.phase is Ejecting,
        ejected(v, now).1.len() == 1,
        ejected(v, now).1[0] is FlushEject,
{
}

/// A card with one cart is a dedicated device: no action ever ejects it.
pub proof fn law_a_single_cart_is_never_ejected(v: AppView, action: Action, now: u64)
    requires
        v.carts.len() == 1,
        !(v.phase is Ejecting),
    ensures
        !(applied(v, action, now).0.phase is Ejecting),
{
}

/// Whatever the clock does, after a tick the next autosave is still ahead of it.
pub proof fn law_the_autosave_is_always_ahead(v: AppView, now: u64)
    requires
        in_time(now),
    ensures
        now < ticked(v, now).0.autosave_at || (now < v.autosave_at && ticked(v, now).0.autosave_at
            == v.autosave_at),
{
}

/// A critical reading with nothing charging is a real power off, and the state is written
/// first.
pub proof fn law_a_flat_battery_powers_off(v: AppView, b: Battery, now: u64)
    requires
        spec_battery_cutoff(b, v.powering_off),
    ensures
        battery_checked(v, b, now).0.powering_off,
        battery_checked(v, b, now).0.link is None,
        seated(v.phase) matches Some(c) ==> battery_checked(v, b, now).1[0] == Effect::FlushResume(
            c,
        ),
{
}

/// The menus and the shutdown hold the game: the core is paused under them, and fast forward
/// only ever runs the game being played.
pub proof fn law_a_held_game_is_paused(v: AppView, fast: bool)
    ensures
        held(v) ==> spec_speed(v, fast) == Speed::Paused,
        spec_speed(v, fast) == Speed::Fast ==> fast && playing(v),
{
}


/// In the save-state switcher A loads the picture under the cursor and Y deletes it: a
/// button asks for a load exactly when it is A and for a delete exactly when it is Y, and A
/// asks for nothing else and moves nothing. X undoes, the arrows flick the carousel their
/// own way, and B goes back to the game the switcher was opened over.
pub proof fn law_a_loads_and_y_deletes_in_the_switcher(v: AppView, b: Btn, now: u64)
    requires
        v.power_menu is None,
        v.phase is Polaroids,
    ensures
        applied(v, Action::GbaDown(b), now).1.contains(Effect::LoadSelected) <==> b == Btn::A,
        applied(v, Action::GbaDown(b), now).1.contains(Effect::DeleteSelected) <==> b == Btn::Y,
        applied(v, Action::GbaDown(Btn::A), now) == (v, seq![Effect::LoadSelected]),
        applied(v, Action::GbaDown(Btn::Y), now) == (v, seq![Effect::DeleteSelected]),
        applied(v, Action::GbaDown(Btn::X), now) == (v, seq![Effect::Undo]),
        applied(v, Action::GbaDown(Btn::Left), now) == (v, seq![Effect::Flick(Side::Left)]),
        applied(v, Action::GbaDown(Btn::Right), now) == (v, seq![Effect::Flick(Side::Right)]),
        applied(v, Action::GbaDown(Btn::B), now).1.len() == 0,
        applied(v, Action::GbaDown(Btn::B), now).0.phase == (Phase::Playing { cart: v.phase->Polaroids_cart }),
{
    let e = applied(v, Action::GbaDown(b), now).1;
    assert(released(Action::GbaDown(b)) =~= Seq::<Effect>::empty());
    assert(Seq::<Effect>::empty() + seq![Effect::Undo] =~= seq![Effect::Undo]);
    assert(Seq::<Effect>::empty() + seq![Effect::Flick(Side::Left)] =~= seq![Effect::Flick(Side::Left)]);
    assert(Seq::<Effect>::empty() + seq![Effect::Flick(Side::Right)] =~= seq![Effect::Flick(Side::Right)]);
    assert(Seq::<Effect>::empty() + Seq::<Effect>::empty() =~= Seq::<Effect>::empty());
    assert(seq![Effect::LoadSelected][0] == Effect::LoadSelected);
    assert(seq![Effect::DeleteSelected][0] == Effect::DeleteSelected);
    assert(Seq::<Effect>::empty() + seq![Effect::LoadSelected] =~= seq![Effect::LoadSelected]);
    assert(Seq::<Effect>::empty() + seq![Effect::DeleteSelected] =~= seq![Effect::DeleteSelected]);
    if b == Btn::A {
        assert(e =~= seq![Effect::LoadSelected]);
        assert(e[0] == Effect::LoadSelected);
    } else if b == Btn::Y {
        assert(e =~= seq![Effect::DeleteSelected]);
        assert(e[0] == Effect::DeleteSelected);
    } else {
        assert(e.len() <= 1);
        assert(forall|i: int| 0 <= i < e.len() ==> e[i] != Effect::LoadSelected && e[i]
            != Effect::DeleteSelected);
    }
}

} // verus!
