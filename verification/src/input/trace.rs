//! A record of what the buttons actually send, written to the card.
//!
//! The code table in `evdev` was transcribed from one of these, and a board that disagrees
//! with it reads as a dead button rather than as an error. There is no console on the device
//! to print to, so tracing writes a file the card can be taken out to read; this is the line
//! it writes for one event.

use vstd::prelude::*;

use crate::input::btn::Btn;
use crate::input::evdev::{
    code_to_btn, spec_code_to_btn, Ev, ABS_HAT0X, ABS_HAT0Y, EV_ABS, EV_KEY, EV_SW, SW_LID,
};

verus! {

/// Set to anything but `0` to write the trace. Off by default: it is a bring-up tool, and it
/// writes a line per button edge for as long as the device is on.
pub const TRACE_VAR: &'static str = "SLOT_TRACE_INPUT";

/// Beside the content folders rather than inside one, so it is the first thing seen when the
/// card is put back in a computer and nothing has to be fished out of `System`.
pub const TRACE_FILE: &'static str = "input-trace.log";

/// The character for one digit, 0 to 15, lower case past nine.
pub open spec fn digit_char(d: nat) -> char {
    if d < 10 {
        ('0' as u8 + d) as char
    } else {
        ('a' as u8 + (d - 10)) as char
    }
}

/// `n` written out in `base`, most significant digit first, with no leading zeros.
pub open spec fn digits(n: nat, base: nat) -> Seq<char>
    recommends
        2 <= base <= 16,
    decreases n,
{
    if base < 2 || n < base {
        seq![digit_char(n % 16)]
    } else {
        proof {
            vstd::arithmetic::div_mod::lemma_div_decreases(n as int, base as int);
        }
        digits(n / base, base).push(digit_char(n % base))
    }
}

/// `v` in decimal, with a minus sign when it is negative.
pub open spec fn signed_decimal(v: int) -> Seq<char> {
    if v < 0 {
        seq!['-'] + digits((-v) as nat, 10)
    } else {
        digits(v as nat, 10)
    }
}

/// `n` spaces.
pub open spec fn spaces(n: nat) -> Seq<char> {
    Seq::new(n, |i: int| ' ')
}

/// `s` right aligned in a field `width` wide.
pub open spec fn right_aligned(s: Seq<char>, width: nat) -> Seq<char> {
    if s.len() >= width {
        s
    } else {
        spaces((width - s.len()) as nat) + s
    }
}

/// Rust's `{:#x}`.
pub open spec fn alt_hex(n: nat) -> Seq<char> {
    seq!['0', 'x'] + digits(n, 16)
}

/// Rust's `{:#04x}`: the prefix counts toward the width, and the digits are zero padded to
/// make it up.
pub open spec fn alt_hex_04(n: nat) -> Seq<char> {
    if digits(n, 16).len() >= 2 {
        alt_hex(n)
    } else {
        seq!['0', 'x', '0'] + digits(n, 16)
    }
}

/// A button by its name, as `{:?}` prints it.
pub open spec fn btn_name(b: Btn) -> Seq<char> {
    match b {
        Btn::Up => "Up"@,
        Btn::Down => "Down"@,
        Btn::Left => "Left"@,
        Btn::Right => "Right"@,
        Btn::A => "A"@,
        Btn::B => "B"@,
        Btn::X => "X"@,
        Btn::Y => "Y"@,
        Btn::L1 => "L1"@,
        Btn::R1 => "R1"@,
        Btn::L2 => "L2"@,
        Btn::R2 => "R2"@,
        Btn::Start => "Start"@,
        Btn::Select => "Select"@,
        Btn::Menu => "Menu"@,
        Btn::VolUp => "VolUp"@,
        Btn::VolDown => "VolDown"@,
        Btn::Power => "Power"@,
        Btn::Lid => "Lid"@,
    }
}

/// What an event is to the frontend. The d-pad is named by the axis rather than by the
/// direction, because which end of it is pressed is the sign of the value on the same line.
pub open spec fn event_label(ev: Ev) -> Seq<char> {
    if ev.kind == EV_KEY {
        match spec_code_to_btn(ev.code) {
            Some(b) => btn_name(b),
            None => "unmapped"@,
        }
    } else if ev.kind == EV_SW && ev.code == SW_LID {
        "Lid"@
    } else if ev.kind == EV_ABS && ev.code == ABS_HAT0X {
        "hat0x"@
    } else if ev.kind == EV_ABS && ev.code == ABS_HAT0Y {
        "hat0y"@
    } else {
        "ignored"@
    }
}

/// One button edge. The code is printed in hex and decimal because the table is written in
/// hex and `evtest` and the kernel headers speak decimal.
pub open spec fn spec_event_line(node: Seq<char>, ms: u128, ev: Ev) -> Seq<char> {
    right_aligned(digits(ms as nat, 10), 8) + "ms "@ + node + " type="@ + alt_hex_04(
        ev.kind as nat,
    ) + " code="@ + alt_hex(ev.code as nat) + "("@ + digits(ev.code as nat, 10)
        + ") value="@ + signed_decimal(ev.value as int) + " -> "@ + event_label(ev)
}

/// The one-character text for a digit.
fn digit_text(d: u8) -> (s: &'static str)
    requires
        d < 16,
    ensures
        s@ == seq![digit_char(d as nat)],
{
    match d {
        0 => {
            proof {
                reveal_strlit("0");
            }
            "0"
        },
        1 => {
            proof {
                reveal_strlit("1");
            }
            "1"
        },
        2 => {
            proof {
                reveal_strlit("2");
            }
            "2"
        },
        3 => {
            proof {
                reveal_strlit("3");
            }
            "3"
        },
        4 => {
            proof {
                reveal_strlit("4");
            }
            "4"
        },
        5 => {
            proof {
                reveal_strlit("5");
            }
            "5"
        },
        6 => {
            proof {
                reveal_strlit("6");
            }
            "6"
        },
        7 => {
            proof {
                reveal_strlit("7");
            }
            "7"
        },
        8 => {
            proof {
                reveal_strlit("8");
            }
            "8"
        },
        9 => {
            proof {
                reveal_strlit("9");
            }
            "9"
        },
        10 => {
            proof {
                reveal_strlit("a");
            }
            "a"
        },
        11 => {
            proof {
                reveal_strlit("b");
            }
            "b"
        },
        12 => {
            proof {
                reveal_strlit("c");
            }
            "c"
        },
        13 => {
            proof {
                reveal_strlit("d");
            }
            "d"
        },
        14 => {
            proof {
                reveal_strlit("e");
            }
            "e"
        },
        _ => {
            proof {
                reveal_strlit("f");
            }
            "f"
        },
    }
}

/// `n` in `base`, appended.
pub(crate) fn push_digits(out: &mut String, n: u128, base: u128)
    requires
        base == 10 || base == 16,
    ensures
        final(out)@ == old(out)@ + digits(n as nat, base as nat),
    decreases n,
{
    if n < base {
        out.append(digit_text(n as u8));
        assert(n % 16 == n);
    } else {
        push_digits(out, n / base, base);
        out.append(digit_text((n % base) as u8));
    }
}

/// How many digits `n` takes in `base`.
fn digit_count(n: u128, base: u128) -> (r: u128)
    requires
        base == 10 || base == 16,
    ensures
        r == digits(n as nat, base as nat).len(),
        r <= n + 1,
    decreases n,
{
    if n < base {
        1
    } else {
        let r = digit_count(n / base, base);
        r + 1
    }
}

/// `n` spaces, appended.
fn push_spaces(out: &mut String, n: usize)
    ensures
        final(out)@ == old(out)@ + spaces(n as nat),
{
    let mut i: usize = 0;
    while i < n
        invariant
            i <= n,
            out@ == old(out)@ + spaces(i as nat),
        decreases n - i,
    {
        out.append(" ");
        proof {
            reveal_strlit(" ");
        }
        i += 1;
        assert(out@ =~= old(out)@ + spaces(i as nat));
    }
}

/// A button's name, as `{:?}` prints it.
pub fn btn_text(b: Btn) -> (s: &'static str)
    ensures
        s@ == btn_name(b),
{
    match b {
        Btn::Up => "Up",
        Btn::Down => "Down",
        Btn::Left => "Left",
        Btn::Right => "Right",
        Btn::A => "A",
        Btn::B => "B",
        Btn::X => "X",
        Btn::Y => "Y",
        Btn::L1 => "L1",
        Btn::R1 => "R1",
        Btn::L2 => "L2",
        Btn::R2 => "R2",
        Btn::Start => "Start",
        Btn::Select => "Select",
        Btn::Menu => "Menu",
        Btn::VolUp => "VolUp",
        Btn::VolDown => "VolDown",
        Btn::Power => "Power",
        Btn::Lid => "Lid",
    }
}

/// The time column: milliseconds, right aligned eight wide.
fn push_time(out: &mut String, ms: u128)
    ensures
        final(out)@ == old(out)@ + right_aligned(digits(ms as nat, 10), 8),
{
    let width = digit_count(ms, 10);
    if width < 8 {
        push_spaces(out, (8 - width) as usize);
    }
    push_digits(out, ms, 10);
    assert(out@ =~= old(out)@ + right_aligned(digits(ms as nat, 10), 8));
}

/// `{:#04x}`, appended.
fn push_hex_04(out: &mut String, n: u16)
    ensures
        final(out)@ == old(out)@ + alt_hex_04(n as nat),
{
    out.append("0x");
    proof {
        reveal_strlit("0x");
    }
    if digit_count(n as u128, 16) < 2 {
        out.append("0");
        proof {
            reveal_strlit("0");
        }
    }
    push_digits(out, n as u128, 16);
    assert(out@ =~= old(out)@ + alt_hex_04(n as nat));
}

/// `{:#x}`, appended.
fn push_hex(out: &mut String, n: u16)
    ensures
        final(out)@ == old(out)@ + alt_hex(n as nat),
{
    out.append("0x");
    proof {
        reveal_strlit("0x");
    }
    push_digits(out, n as u128, 16);
    assert(out@ =~= old(out)@ + alt_hex(n as nat));
}

/// A signed value in decimal, appended.
fn push_signed(out: &mut String, v: i32)
    ensures
        final(out)@ == old(out)@ + signed_decimal(v as int),
{
    if v < 0 {
        out.append("-");
        proof {
            reveal_strlit("-");
        }
        let magnitude: u128 = (0i64 - v as i64) as u128;
        push_digits(out, magnitude, 10);
    } else {
        push_digits(out, v as u128, 10);
    }
    assert(out@ =~= old(out)@ + signed_decimal(v as int));
}

/// What the frontend makes of an event.
fn label_text(ev: Ev) -> (s: &'static str)
    ensures
        s@ == event_label(ev),
{
    if ev.kind == EV_KEY {
        match code_to_btn(ev.code) {
            Some(b) => btn_text(b),
            None => "unmapped",
        }
    } else if ev.kind == EV_SW && ev.code == SW_LID {
        "Lid"
    } else if ev.kind == EV_ABS && ev.code == ABS_HAT0X {
        "hat0x"
    } else if ev.kind == EV_ABS && ev.code == ABS_HAT0Y {
        "hat0y"
    } else {
        "ignored"
    }
}

/// One button edge, as the trace file has it: the time since the trace began, the node, the
/// raw type, code and value, and what the frontend makes of it.
pub fn event_line(node: &str, ms: u128, ev: Ev) -> (line: String)
    ensures
        line@ == spec_event_line(node@, ms, ev),
{
    let mut out = String::new();
    push_time(&mut out, ms);
    out.append("ms ");
    out.append(node);
    out.append(" type=");
    push_hex_04(&mut out, ev.kind);
    out.append(" code=");
    push_hex(&mut out, ev.code);
    out.append("(");
    push_digits(&mut out, ev.code as u128, 10);
    out.append(") value=");
    push_signed(&mut out, ev.value);
    out.append(" -> ");
    out.append(label_text(ev));
    assert(out@ =~= spec_event_line(node@, ms, ev));
    out
}

} // verus!
