//! The device's buttons and the edges they make, as the rest of the frontend names them.

use vstd::prelude::*;

verus! {

/// Every button the device has, by where it is on the case rather than what a kernel
/// header calls it. The lid is a switch, but it arrives as an edge like any key.
#[derive(Copy, Clone, Debug, PartialEq, Eq, Structural)]
pub enum Btn {
    Up,
    Down,
    Left,
    Right,
    A,
    B,
    X,
    Y,
    L1,
    R1,
    L2,
    R2,
    Start,
    Select,
    Menu,
    VolUp,
    VolDown,
    Power,
    Lid,
}

/// One edge of one button.
#[derive(Copy, Clone, Debug, PartialEq, Eq, Structural)]
pub enum RawEvent {
    Down(Btn),
    Up(Btn),
}

/// What the gesture layer makes of the edges: the GBA's own buttons, passed through, and the
/// gestures that are never the game's.
#[derive(Copy, Clone, Debug, PartialEq, Eq, Structural)]
pub enum Action {
    GbaDown(Btn),
    GbaUp(Btn),
    RewindStart,
    RewindStop,
    FfStart,
    FfStop,
    VolumeUp,
    VolumeDown,
    MuteToggle,
    BrightnessUp,
    BrightnessDown,
    BlueLightUp,
    BlueLightDown,
    LidClose,
    LidOpen,
    PowerPress,
    PowerTap,
    PowerHold,
    PowerOff,
    ShelfLeft,
    ShelfRight,
    OpenAbout,
    Insert,
    Eject,
    Polaroids,
    SaveState,
    LoadState,
}

} // verus!
