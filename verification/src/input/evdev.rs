//! The evdev wire format and the codes the device's buttons arrive as. No I/O: which node is
//! which is read off sysfs by the binary, so all of this is testable off device.

use vstd::prelude::*;

use crate::input::btn::{Btn, RawEvent};

verus! {

/// `struct input_event`: a 64 bit timeval, then type, code and value. The kernel writes
/// these in the machine's own endianness; every target slot builds for is little endian, and
/// pinning that is what lets the decode be tested away from the device.
pub const EVENT_BYTES: usize = 24;

/// The frame marker the kernel ends every group of edges with.
pub const EV_SYN: u16 = 0x00;
pub const EV_KEY: u16 = 0x01;
pub const EV_SW: u16 = 0x05;
pub const SW_LID: u16 = 0x00;

pub const EV_ABS: u16 = 0x03;
pub const ABS_HAT0X: u16 = 0x10;
pub const ABS_HAT0Y: u16 = 0x11;

/// Every key code the frontend has a use for. A node reporting none of them is not this
/// device's button pad, whatever it is called. The power key earns its place even though it is
/// the only thing its own node reports: left out, that whole node is passed over and the
/// button is dead however well it is mapped.
pub const WANTED: [u16; 15] = [
    0x130, 0x131, 0x132, 0x133, 0x134, 0x135, 0x136, 0x137, 0x138, 0x13a, 0x13b, 0x162, 115, 114,
    116,
];

#[derive(Copy, Clone, PartialEq, Eq, Debug, Structural)]
pub struct Ev {
    pub kind: u16,
    pub code: u16,
    pub value: i32,
}

/// Two little endian bytes.
pub open spec fn le_u16(lo: u8, hi: u8) -> u16 {
    (lo as u16 | (hi as u16) << 8u16) as u16
}

/// Four little endian bytes, read as the signed value the kernel wrote.
pub open spec fn le_i32(b0: u8, b1: u8, b2: u8, b3: u8) -> i32 {
    ((b0 as u32 | (b1 as u32) << 8u32 | (b2 as u32) << 16u32 | (b3 as u32) << 24u32) as u32) as i32
}

/// The event a packet holds, when there is a whole one.
pub open spec fn spec_decode(bytes: Seq<u8>) -> Option<Ev> {
    if bytes.len() < EVENT_BYTES {
        None
    } else {
        Some(
            Ev {
                kind: le_u16(bytes[16], bytes[17]),
                code: le_u16(bytes[18], bytes[19]),
                value: le_i32(bytes[20], bytes[21], bytes[22], bytes[23]),
            },
        )
    }
}

pub fn decode(bytes: &[u8]) -> (r: Option<Ev>)
    ensures
        r == spec_decode(bytes@),
{
    if bytes.len() < EVENT_BYTES {
        return None;
    }
    let kind = (bytes[16] as u16 | (bytes[17] as u16) << 8u16) as u16;
    let code = (bytes[18] as u16 | (bytes[19] as u16) << 8u16) as u16;
    let raw = (bytes[20] as u32 | (bytes[21] as u32) << 8u32 | (bytes[22] as u32) << 16u32 | (
    bytes[23] as u32) << 24u32) as u32;
    Some(Ev { kind, code, value: raw as i32 })
}

/// The table read off the device, pressing the buttons in a known order. The board does not
/// use the kernel's names for its own layout — `0x137` is `BTN_TR` in the headers and START on
/// the case — so these are transcribed rather than reasoned about. The directions are absent
/// because they are not keys here at all; see `Hat`.
pub open spec fn spec_code_to_btn(code: u16) -> Option<Btn> {
    if code == 0x130 {
        Some(Btn::A)
    } else if code == 0x131 {
        Some(Btn::B)
    } else if code == 0x132 {
        Some(Btn::Y)
    } else if code == 0x133 {
        Some(Btn::X)
    } else if code == 0x134 {
        Some(Btn::L1)
    } else if code == 0x135 {
        Some(Btn::R1)
    } else if code == 0x136 {
        Some(Btn::Select)
    } else if code == 0x137 {
        Some(Btn::Start)
    } else if code == 0x138 {
        Some(Btn::Menu)
    } else if code == 0x13a {
        Some(Btn::L2)
    } else if code == 0x13b {
        Some(Btn::R2)
    } else if code == 115 {
        Some(Btn::VolUp)
    } else if code == 114 {
        Some(Btn::VolDown)
    } else if code == 116 {
        Some(Btn::Power)
    } else {
        None
    }
}

pub fn code_to_btn(code: u16) -> (r: Option<Btn>)
    ensures
        r == spec_code_to_btn(code),
{
    match code {
        0x130 => Some(Btn::A),
        0x131 => Some(Btn::B),
        0x132 => Some(Btn::Y),
        0x133 => Some(Btn::X),
        0x134 => Some(Btn::L1),
        0x135 => Some(Btn::R1),
        0x136 => Some(Btn::Select),
        0x137 => Some(Btn::Start),
        0x138 => Some(Btn::Menu),
        0x13a => Some(Btn::L2),
        0x13b => Some(Btn::R2),
        115 => Some(Btn::VolUp),
        114 => Some(Btn::VolDown),
        116 => Some(Btn::Power),
        // 0x162 arrives immediately behind 0x138 on one press of MENU. Mapping it too would
        // make every menu press a double tap, which is the gesture the state switcher opens
        // on, so it is deliberately nothing.
        _ => None,
    }
}

/// A key or the lid, as an edge. 2 is autorepeat: presses with no release, which would
/// re-arm every hold and double tap window in the gesture layer, so it is no edge at all.
pub open spec fn spec_to_raw(ev: Ev) -> Option<RawEvent> {
    let btn = if ev.kind == EV_KEY {
        spec_code_to_btn(ev.code)
    } else if ev.kind == EV_SW && ev.code == SW_LID {
        Some(Btn::Lid)
    } else {
        None
    };
    match btn {
        None => None,
        Some(b) => if ev.value == 0 {
            Some(RawEvent::Up(b))
        } else if ev.value == 1 {
            Some(RawEvent::Down(b))
        } else {
            None
        },
    }
}

pub fn to_raw(ev: Ev) -> (r: Option<RawEvent>)
    ensures
        r == spec_to_raw(ev),
{
    let btn = if ev.kind == EV_KEY {
        match code_to_btn(ev.code) {
            Some(b) => b,
            None => return None,
        }
    } else if ev.kind == EV_SW && ev.code == SW_LID {
        // The hinge is a switch, and its "code" collides with a key the pad may also send.
        Btn::Lid
    } else {
        return None;
    };
    match ev.value {
        0 => Some(RawEvent::Up(btn)),
        1 => Some(RawEvent::Down(btn)),
        _ => None,
    }
}

/// The sign of an axis reading: which end it is at, or the middle.
pub open spec fn sign(v: i32) -> i32 {
    if v > 0 {
        1i32
    } else if v < 0 {
        -1i32
    } else {
        0i32
    }
}

/// The direction an axis end is: the first of `ends` below the middle, the second above.
pub open spec fn end_of(ends: (Btn, Btn), v: i32) -> Btn {
    if v > 0 {
        ends.1
    } else {
        ends.0
    }
}

/// The edges an axis moving from `was` to `now` makes: the end being left is released and
/// the end arrived at is pressed, in that order.
pub open spec fn swing(ends: (Btn, Btn), was: i32, now: i32) -> Seq<RawEvent> {
    if now == was {
        Seq::empty()
    } else {
        (if was != 0 {
            seq![RawEvent::Up(end_of(ends, was))]
        } else {
            Seq::empty()
        }) + (if now != 0 {
            seq![RawEvent::Down(end_of(ends, now))]
        } else {
            Seq::empty()
        })
    }
}

/// The d-pad, which is two axes on hat 0 rather than four keys. A zero releases whichever
/// direction the axis was last at, and only the axis knows which that was, so this is the one
/// part of the decode that has to remember anything.
#[derive(Default)]
pub struct Hat {
    x: i32,
    y: i32,
}

impl Hat {
    /// Where each axis was last seen: -1, 0 or 1.
    pub closed spec fn axes(&self) -> (i32, i32) {
        (self.x, self.y)
    }

    pub closed spec fn wf(&self) -> bool {
        -1 <= self.x <= 1 && -1 <= self.y <= 1
    }

    pub fn new() -> (r: Hat)
        ensures
            r.wf(),
            r.axes() == (0i32, 0i32),
    {
        Hat { x: 0, y: 0 }
    }

    /// Up to two events. A thumb rolled around the pivot swings the axis end to end without
    /// stopping in the middle, and the direction being left has to be released or it stays
    /// down for as long as the device is on.
    pub fn feed(&mut self, ev: Ev) -> (out: Vec<RawEvent>)
        requires
            old(self).wf(),
        ensures
            final(self).wf(),
            ev.code == ABS_HAT0X ==> {
                &&& final(self).axes() == (sign(ev.value), old(self).axes().1)
                &&& out@ == swing((Btn::Left, Btn::Right), old(self).axes().0, sign(ev.value))
            },
            ev.code == ABS_HAT0Y ==> {
                &&& final(self).axes() == (old(self).axes().0, sign(ev.value))
                &&& out@ == swing((Btn::Up, Btn::Down), old(self).axes().1, sign(ev.value))
            },
            ev.code != ABS_HAT0X && ev.code != ABS_HAT0Y ==> {
                &&& final(self).axes() == old(self).axes()
                &&& out@ == Seq::<RawEvent>::empty()
            },
    {
        let (was, ends) = if ev.code == ABS_HAT0X {
            (self.x, (Btn::Left, Btn::Right))
        } else if ev.code == ABS_HAT0Y {
            (self.y, (Btn::Up, Btn::Down))
        } else {
            return Vec::new();
        };
        let now: i32 = if ev.value > 0 {
            1
        } else if ev.value < 0 {
            -1
        } else {
            0
        };
        if now == was {
            return Vec::new();
        }
        if ev.code == ABS_HAT0X {
            self.x = now;
        } else {
            self.y = now;
        }
        let mut out = Vec::new();
        if was != 0 {
            out.push(RawEvent::Up(if was > 0 { ends.1 } else { ends.0 }));
        }
        if now != 0 {
            out.push(RawEvent::Down(if now > 0 { ends.1 } else { ends.0 }));
        }
        assert(out@ =~= swing(ends, was, now));
        out
    }
}

/// A swing never presses the end it releases, and a direction is only ever released once it
/// has been left: releases name where the axis was, presses where it is now.
pub proof fn law_a_swing_releases_the_end_it_left(ends: (Btn, Btn), was: i32, now: i32)
    requires
        ends.0 != ends.1,
        -1 <= was <= 1,
        -1 <= now <= 1,
    ensures
        was != now && was != 0 ==> swing(ends, was, now)[0] == RawEvent::Up(end_of(ends, was)),
        was != now && now != 0 ==> swing(ends, was, now).last() == RawEvent::Down(
            end_of(ends, now),
        ),
        swing(ends, was, now).len() <= 2,
        was == now ==> swing(ends, was, now).len() == 0,
{
}

/// Autorepeat never becomes an edge: only a 0 or a 1 is a release or a press.
pub proof fn law_autorepeat_is_dropped(ev: Ev)
    requires
        ev.value != 0 && ev.value != 1,
    ensures
        spec_to_raw(ev) is None,
{
}

/// What one event does on a node: the d-pad moves the hat and makes the edges of its swing;
/// every other kind is a key, the lid, or nothing.
pub open spec fn step(axes: (i32, i32), ev: Ev) -> ((i32, i32), Seq<RawEvent>) {
    if ev.kind == EV_ABS {
        if ev.code == ABS_HAT0X {
            ((sign(ev.value), axes.1), swing((Btn::Left, Btn::Right), axes.0, sign(ev.value)))
        } else if ev.code == ABS_HAT0Y {
            ((axes.0, sign(ev.value)), swing((Btn::Up, Btn::Down), axes.1, sign(ev.value)))
        } else {
            (axes, Seq::empty())
        }
    } else {
        (
            axes,
            match spec_to_raw(ev) {
                Some(r) => seq![r],
                None => Seq::empty(),
            },
        )
    }
}

/// A run of events, in order, from where the hat was.
pub open spec fn stepped(axes: (i32, i32), evs: Seq<Ev>) -> ((i32, i32), Seq<RawEvent>)
    decreases evs.len(),
{
    if evs.len() == 0 {
        (axes, Seq::empty())
    } else {
        let (a, e) = stepped(axes, evs.drop_last());
        let (b, f) = step(a, evs.last());
        (b, e + f)
    }
}

/// The whole events in a read, in order. The driver never splits one, so a tail shorter than
/// an event is not one.
pub open spec fn events_in(bytes: Seq<u8>) -> Seq<Ev> {
    Seq::new(
        bytes.len() / (EVENT_BYTES as nat),
        |i: int| spec_decode(bytes.subrange(i * 24, i * 24 + 24))->0,
    )
}

/// The event at `at`.
fn decode_at(bytes: &[u8], at: usize) -> (ev: Ev)
    requires
        at + EVENT_BYTES <= bytes@.len(),
    ensures
        Some(ev) == spec_decode(bytes@.subrange(at as int, at + 24)),
{
    let len = bytes.len();
    let kind = (bytes[at + 16] as u16 | (bytes[at + 17] as u16) << 8u16) as u16;
    let code = (bytes[at + 18] as u16 | (bytes[at + 19] as u16) << 8u16) as u16;
    let raw = (bytes[at + 20] as u32 | (bytes[at + 21] as u32) << 8u32 | (bytes[at + 22] as u32)
        << 16u32 | (bytes[at + 23] as u32) << 24u32) as u32;
    Ev { kind, code, value: raw as i32 }
}

/// One read off a node: its events, for the trace, and the edges they make, with the hat
/// carried from one read to the next.
pub fn read_events(bytes: &[u8], hat: &mut Hat) -> (r: (Vec<Ev>, Vec<RawEvent>))
    requires
        old(hat).wf(),
    ensures
        final(hat).wf(),
        r.0@ == events_in(bytes@),
        (final(hat).axes(), r.1@) == stepped(old(hat).axes(), r.0@),
{
    let len = bytes.len();
    let n = len / EVENT_BYTES;
    let mut evs: Vec<Ev> = Vec::new();
    let mut raws: Vec<RawEvent> = Vec::new();
    let mut i: usize = 0;
    while i < n
        invariant
            n == bytes@.len() / 24,
            len == bytes@.len(),
            i <= n,
            hat.wf(),
            evs@ == events_in(bytes@).subrange(0, i as int),
            (hat.axes(), raws@) == stepped(old(hat).axes(), evs@),
        decreases n - i,
    {
        assert(i * 24 + 24 <= bytes@.len()) by (nonlinear_arith)
            requires
                i < n,
                n == bytes@.len() / 24,
        ;
        let ev = decode_at(bytes, i * EVENT_BYTES);
        let ghost before = evs@;
        let ghost was = raws@;
        evs.push(ev);
        assert(evs@.drop_last() =~= before);
        assert(evs@ =~= events_in(bytes@).subrange(0, i + 1));
        let out = if ev.kind == EV_ABS {
            hat.feed(ev)
        } else {
            match to_raw(ev) {
                Some(r) => {
                    let mut one = Vec::new();
                    one.push(r);
                    one
                },
                None => Vec::new(),
            }
        };
        let ghost more = out@;
        let mut out = out;
        raws.append(&mut out);
        assert(raws@ =~= was + more);
        i += 1;
    }
    assert(evs@ =~= events_in(bytes@));
    (evs, raws)
}


/// The board's key table: each code the handheld's buttons send, and the button it is. Every
/// button comes from one code and one only, and no other code is a button.
pub proof fn law_each_code_is_its_own_button(code: u16)
    ensures
        spec_code_to_btn(0x130) == Some(Btn::A),
        spec_code_to_btn(0x131) == Some(Btn::B),
        spec_code_to_btn(0x132) == Some(Btn::Y),
        spec_code_to_btn(0x133) == Some(Btn::X),
        spec_code_to_btn(0x134) == Some(Btn::L1),
        spec_code_to_btn(0x135) == Some(Btn::R1),
        spec_code_to_btn(0x136) == Some(Btn::Select),
        spec_code_to_btn(0x137) == Some(Btn::Start),
        spec_code_to_btn(0x138) == Some(Btn::Menu),
        spec_code_to_btn(0x13a) == Some(Btn::L2),
        spec_code_to_btn(0x13b) == Some(Btn::R2),
        spec_code_to_btn(115) == Some(Btn::VolUp),
        spec_code_to_btn(114) == Some(Btn::VolDown),
        spec_code_to_btn(116) == Some(Btn::Power),
        !(0x130 <= code <= 0x138 || code == 0x13a || code == 0x13b || 114 <= code <= 116)
            ==> spec_code_to_btn(code) is None,
        forall|other: u16|
            spec_code_to_btn(code) is Some && #[trigger] spec_code_to_btn(other) == spec_code_to_btn(
                code,
            ) ==> other == code,
{
}


/// A key event is a press of the key's button when its value is 1 and a release when it is
/// 0; the lid switch is the lid the same way; nothing else is an edge.
pub proof fn law_a_press_is_one_and_a_release_is_zero(code: u16, btn: Btn)
    requires
        spec_code_to_btn(code) == Some(btn),
    ensures
        spec_to_raw(Ev { kind: 0x01, code, value: 1 }) == Some(RawEvent::Down(btn)),
        spec_to_raw(Ev { kind: 0x01, code, value: 0 }) == Some(RawEvent::Up(btn)),
        spec_to_raw(Ev { kind: 0x05, code: 0x00, value: 1 }) == Some(RawEvent::Down(Btn::Lid)),
        spec_to_raw(Ev { kind: 0x05, code: 0x00, value: 0 }) == Some(RawEvent::Up(Btn::Lid)),
        forall|k: u16, c: u16, value: i32|
            k != 0x01 && k != 0x05 ==> #[trigger] spec_to_raw(Ev { kind: k, code: c, value }) is None,
{
}

} // verus!
