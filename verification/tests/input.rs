use slot::input::btn::{Action, Btn, RawEvent};
use slot::input::evdev::{
    code_to_btn, decode, to_raw, Ev, Hat, ABS_HAT0X, ABS_HAT0Y, EVENT_BYTES, EV_ABS, EV_KEY,
    EV_SW, EV_SYN, SW_LID, WANTED,
};
use slot::input::host::HostInput;
use slot::input::mask::{bit, ButtonMask, Pad};
use slot::input::trace::{btn_text, event_line, TRACE_FILE, TRACE_VAR};

fn packet(kind: u16, code: u16, value: i32) -> Vec<u8> {
    let mut p = vec![0xee; 16];
    p.extend_from_slice(&kind.to_le_bytes());
    p.extend_from_slice(&code.to_le_bytes());
    p.extend_from_slice(&value.to_le_bytes());
    p
}

#[test]
fn an_event_is_read_from_the_tail_of_the_packet() {
    let p = packet(EV_KEY, 0x130, 1);
    assert_eq!(p.len(), EVENT_BYTES);
    assert_eq!(decode(&p), Some(Ev { kind: EV_KEY, code: 0x130, value: 1 }));
    assert_eq!(decode(&packet(EV_ABS, ABS_HAT0Y, -1)), Some(Ev { kind: EV_ABS, code: ABS_HAT0Y, value: -1 }));
    assert_eq!(decode(&p[..23]), None);
}

#[test]
fn the_board_table_maps_its_own_codes() {
    assert_eq!(code_to_btn(0x130), Some(Btn::A));
    assert_eq!(code_to_btn(0x137), Some(Btn::Start));
    assert_eq!(code_to_btn(0x13b), Some(Btn::R2));
    assert_eq!(code_to_btn(116), Some(Btn::Power));
    assert_eq!(code_to_btn(0x162), None);
    assert_eq!(code_to_btn(0x139), None);
    assert!(WANTED.iter().filter(|c| **c != 0x162).all(|c| code_to_btn(*c).is_some()));
}

#[test]
fn keys_and_the_lid_become_edges_and_autorepeat_does_not() {
    assert_eq!(to_raw(Ev { kind: EV_KEY, code: 0x131, value: 1 }), Some(RawEvent::Down(Btn::B)));
    assert_eq!(to_raw(Ev { kind: EV_KEY, code: 0x131, value: 0 }), Some(RawEvent::Up(Btn::B)));
    assert_eq!(to_raw(Ev { kind: EV_KEY, code: 0x131, value: 2 }), None);
    assert_eq!(to_raw(Ev { kind: EV_SW, code: SW_LID, value: 1 }), Some(RawEvent::Down(Btn::Lid)));
    assert_eq!(to_raw(Ev { kind: EV_SYN, code: 0, value: 0 }), None);
}

#[test]
fn a_hat_swing_releases_the_end_it_left() {
    let mut hat = Hat::new();
    assert_eq!(hat.feed(Ev { kind: EV_ABS, code: ABS_HAT0X, value: -1 }), vec![RawEvent::Down(Btn::Left)]);
    assert_eq!(
        hat.feed(Ev { kind: EV_ABS, code: ABS_HAT0X, value: 1 }),
        vec![RawEvent::Up(Btn::Left), RawEvent::Down(Btn::Right)]
    );
    assert_eq!(hat.feed(Ev { kind: EV_ABS, code: ABS_HAT0X, value: 1 }), vec![]);
    assert_eq!(hat.feed(Ev { kind: EV_ABS, code: ABS_HAT0Y, value: 1 }), vec![RawEvent::Down(Btn::Down)]);
    assert_eq!(hat.feed(Ev { kind: EV_ABS, code: ABS_HAT0X, value: 0 }), vec![RawEvent::Up(Btn::Right)]);
    assert_eq!(hat.feed(Ev { kind: EV_ABS, code: ABS_HAT0Y, value: 0 }), vec![RawEvent::Up(Btn::Down)]);
    assert_eq!(hat.feed(Ev { kind: EV_ABS, code: 0x12, value: 1 }), vec![]);
}

#[test]
fn the_pad_holds_only_the_gba_buttons() {
    let mut pad = Pad::new();
    pad.apply(Action::GbaDown(Btn::A));
    pad.apply(Action::GbaDown(Btn::Up));
    pad.apply(Action::GbaDown(Btn::Menu));
    assert_eq!(pad.mask(), ButtonMask(ButtonMask::A | ButtonMask::UP));
    pad.apply(Action::GbaUp(Btn::A));
    assert_eq!(pad.mask(), ButtonMask(ButtonMask::UP));
    pad.apply(Action::VolumeUp);
    assert_eq!(pad.mask(), ButtonMask(0x10));
    pad.clear();
    assert_eq!(pad.mask(), ButtonMask(0));
    assert_eq!(bit(Btn::L1), Some(1 << 10));
    assert_eq!(bit(Btn::X), None);
}

#[test]
fn a_trace_line_has_the_time_the_raw_event_and_its_meaning() {
    assert_eq!(
        event_line("event0", 42, Ev { kind: EV_KEY, code: 0x130, value: 1 }),
        "      42ms event0 type=0x01 code=0x130(304) value=1 -> A"
    );
    assert_eq!(
        event_line("event1", 123456789, Ev { kind: EV_ABS, code: ABS_HAT0X, value: -1 }),
        "123456789ms event1 type=0x03 code=0x10(16) value=-1 -> hat0x"
    );
    assert_eq!(
        event_line("event2", 0, Ev { kind: EV_KEY, code: 0x162, value: 0 }),
        "       0ms event2 type=0x01 code=0x162(354) value=0 -> unmapped"
    );
    assert_eq!(
        event_line("event3", 7, Ev { kind: EV_SW, code: SW_LID, value: 1 }),
        "       7ms event3 type=0x05 code=0x0(0) value=1 -> Lid"
    );
    assert_eq!(
        event_line("e", 7, Ev { kind: 0x1f, code: 3, value: 2 }),
        "       7ms e type=0x1f code=0x3(3) value=2 -> ignored"
    );
}

#[test]
fn the_trace_is_named_for_the_card() {
    assert_eq!(TRACE_VAR, "SLOT_TRACE_INPUT");
    assert_eq!(TRACE_FILE, "input-trace.log");
    assert_eq!(btn_text(Btn::VolDown), "VolDown");
}

#[test]
fn host_keys_are_let_go_of_when_the_window_loses_focus() {
    let mut keys = HostInput::new();
    keys.key(Some(Btn::A), true, false);
    keys.key(Some(Btn::A), true, true);
    keys.key(Some(Btn::Up), true, false);
    keys.key(None, true, false);
    keys.focus_lost();
    keys.focus_lost();
    assert_eq!(
        keys.poll(),
        vec![
            RawEvent::Down(Btn::A),
            RawEvent::Down(Btn::Up),
            RawEvent::Up(Btn::A),
            RawEvent::Up(Btn::Up),
        ]
    );
    assert!(keys.poll().is_empty());
}

#[test]
fn a_released_key_is_not_released_again_on_focus_loss() {
    let mut keys = HostInput::new();
    keys.key(Some(Btn::B), true, false);
    keys.key(Some(Btn::B), false, false);
    keys.pad(Btn::X, true);
    keys.focus_lost();
    assert_eq!(keys.poll(), vec![RawEvent::Down(Btn::B), RawEvent::Up(Btn::B), RawEvent::Down(Btn::X)]);
}

#[test]
fn the_host_lid_key_latches() {
    let mut keys = HostInput::new();
    keys.key(Some(Btn::Lid), true, false);
    keys.key(Some(Btn::Lid), false, false);
    keys.key(Some(Btn::Lid), true, false);
    keys.focus_lost();
    assert_eq!(keys.poll(), vec![RawEvent::Down(Btn::Lid), RawEvent::Up(Btn::Lid)]);
}
