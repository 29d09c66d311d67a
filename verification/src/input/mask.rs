//! The buttons the gesture layer let through to the game, as a libretro joypad mask.

use vstd::prelude::*;

use crate::input::btn::{Action, Btn};

verus! {

/// A libretro joypad mask: bit `n` is `RETRO_DEVICE_ID_JOYPAD_*` number `n`.
#[derive(Copy, Clone, Debug, Default, PartialEq, Eq, Structural)]
pub struct ButtonMask(pub u16);

impl ButtonMask {
    pub const B: u16 = 1 << 0;
    pub const Y: u16 = 1 << 1;
    pub const SELECT: u16 = 1 << 2;
    pub const START: u16 = 1 << 3;
    pub const UP: u16 = 1 << 4;
    pub const DOWN: u16 = 1 << 5;
    pub const LEFT: u16 = 1 << 6;
    pub const RIGHT: u16 = 1 << 7;
    pub const A: u16 = 1 << 8;
    pub const X: u16 = 1 << 9;
    pub const L: u16 = 1 << 10;
    pub const R: u16 = 1 << 11;
}

/// The mask bit a button drives, for the ten the GBA has.
pub open spec fn spec_bit(btn: Btn) -> Option<u16> {
    match btn {
        Btn::Up => Some(ButtonMask::UP),
        Btn::Down => Some(ButtonMask::DOWN),
        Btn::Left => Some(ButtonMask::LEFT),
        Btn::Right => Some(ButtonMask::RIGHT),
        Btn::A => Some(ButtonMask::A),
        Btn::B => Some(ButtonMask::B),
        Btn::L1 => Some(ButtonMask::L),
        Btn::R1 => Some(ButtonMask::R),
        Btn::Start => Some(ButtonMask::START),
        Btn::Select => Some(ButtonMask::SELECT),
        _ => None,
    }
}

/// What an action does to the held mask.
pub open spec fn applied(mask: u16, action: Action) -> u16 {
    match action {
        Action::GbaDown(b) => match spec_bit(b) {
            Some(bit) => mask | bit,
            None => mask,
        },
        Action::GbaUp(b) => match spec_bit(b) {
            Some(bit) => mask & !bit,
            None => mask,
        },
        _ => mask,
    }
}

pub fn bit(btn: Btn) -> (r: Option<u16>)
    ensures
        r == spec_bit(btn),
{
    match btn {
        Btn::Up => Some(ButtonMask::UP),
        Btn::Down => Some(ButtonMask::DOWN),
        Btn::Left => Some(ButtonMask::LEFT),
        Btn::Right => Some(ButtonMask::RIGHT),
        Btn::A => Some(ButtonMask::A),
        Btn::B => Some(ButtonMask::B),
        Btn::L1 => Some(ButtonMask::L),
        Btn::R1 => Some(ButtonMask::R),
        Btn::Start => Some(ButtonMask::START),
        Btn::Select => Some(ButtonMask::SELECT),
        _ => None,
    }
}

/// The buttons the gesture layer let through to the game, held as a libretro mask. It is
/// level state, not edges, because that is what the core is polled for every frame.
#[derive(Default)]
pub struct Pad {
    mask: u16,
}

impl Pad {
    /// The mask the game would be polled with now.
    pub closed spec fn held(&self) -> u16 {
        self.mask
    }

    pub fn new() -> (r: Pad)
        ensures
            r.held() == 0,
    {
        Pad { mask: 0 }
    }

    pub fn apply(&mut self, action: Action)
        ensures
            final(self).held() == applied(old(self).held(), action),
    {
        match action {
            Action::GbaDown(b) => {
                if let Some(bit) = bit(b) {
                    self.mask = self.mask | bit;
                }
            },
            Action::GbaUp(b) => {
                if let Some(bit) = bit(b) {
                    self.mask = self.mask & !bit;
                }
            },
            _ => {},
        }
    }

    pub fn mask(&self) -> (r: ButtonMask)
        ensures
            r.0 == self.held(),
    {
        ButtonMask(self.mask)
    }

    /// Buttons pressed for the switcher are not the game's. Without this the game resumes
    /// holding whatever was down when the switcher took the input.
    pub fn clear(&mut self)
        ensures
            final(self).held() == 0,
    {
        self.mask = 0;
    }
}

/// A press and its release leave a GBA button's bit clear, and every other bit as it was.
pub proof fn law_release_undoes_press(mask: u16, btn: Btn)
    requires
        spec_bit(btn) is Some,
    ensures
        applied(applied(mask, Action::GbaDown(btn)), Action::GbaUp(btn)) == mask & !spec_bit(
            btn,
        )->0,
{
    let bit = spec_bit(btn)->0;
    assert((mask | bit) & !bit == mask & !bit) by (bit_vector);
}

/// A held button shows in the mask, and only the GBA's ten ever reach it.
pub proof fn law_press_sets_its_bit(mask: u16, btn: Btn)
    ensures
        spec_bit(btn) matches Some(bit) ==> applied(mask, Action::GbaDown(btn)) & bit == bit,
        spec_bit(btn) is None ==> applied(mask, Action::GbaDown(btn)) == mask,
{
    if let Some(bit) = spec_bit(btn) {
        assert((mask | bit) & bit == bit) by (bit_vector);
    }
}


/// Each GBA button sets its own libretro joypad bit, numbered as libretro numbers them (B 0,
/// Y 1, SELECT 2, START 3, UP 4, DOWN 5, LEFT 6, RIGHT 7, A 8, R 11, L 10), whatever else is
/// held; and no two buttons share a bit.
pub proof fn law_each_button_sets_its_own_bit(mask: u16)
    ensures
        applied(mask, Action::GbaDown(Btn::B)) == mask | 0x001,
        applied(mask, Action::GbaDown(Btn::Select)) == mask | 0x004,
        applied(mask, Action::GbaDown(Btn::Start)) == mask | 0x008,
        applied(mask, Action::GbaDown(Btn::Up)) == mask | 0x010,
        applied(mask, Action::GbaDown(Btn::Down)) == mask | 0x020,
        applied(mask, Action::GbaDown(Btn::Left)) == mask | 0x040,
        applied(mask, Action::GbaDown(Btn::Right)) == mask | 0x080,
        applied(mask, Action::GbaDown(Btn::A)) == mask | 0x100,
        applied(mask, Action::GbaDown(Btn::L1)) == mask | 0x400,
        applied(mask, Action::GbaDown(Btn::R1)) == mask | 0x800,
        ButtonMask::START == 8 && ButtonMask::SELECT == 4,
        forall|a: Btn, b: Btn|
            #[trigger] spec_bit(a) is Some && #[trigger] spec_bit(b) == spec_bit(a) ==> a == b,
{
    assert(1u16 << 0u16 == 0x001) by (bit_vector);
    assert(1u16 << 2u16 == 0x004) by (bit_vector);
    assert(1u16 << 3u16 == 0x008) by (bit_vector);
    assert(1u16 << 4u16 == 0x010) by (bit_vector);
    assert(1u16 << 5u16 == 0x020) by (bit_vector);
    assert(1u16 << 6u16 == 0x040) by (bit_vector);
    assert(1u16 << 7u16 == 0x080) by (bit_vector);
    assert(1u16 << 8u16 == 0x100) by (bit_vector);
    assert(1u16 << 1u16 == 0x002) by (bit_vector);
    assert(1u16 << 9u16 == 0x200) by (bit_vector);
    assert(1u16 << 10u16 == 0x400) by (bit_vector);
    assert(1u16 << 11u16 == 0x800) by (bit_vector);
}

} // verus!
