use slot::input::btn::{Btn, RawEvent};
use slot::input::evdev::{read_events, Ev, Hat, ABS_HAT0X, EV_ABS, EV_KEY, EV_SYN};

fn event(kind: u16, code: u16, value: i32) -> Vec<u8> {
    let mut p = vec![0u8; 16];
    p.extend_from_slice(&kind.to_le_bytes());
    p.extend_from_slice(&code.to_le_bytes());
    p.extend_from_slice(&value.to_le_bytes());
    p
}

#[test]
fn one_read_makes_the_edges_of_its_events_in_order() {
    let mut bytes = Vec::new();
    bytes.extend(event(EV_KEY, 0x130, 1));
    bytes.extend(event(EV_SYN, 0, 0));
    bytes.extend(event(EV_ABS, ABS_HAT0X, 1));
    bytes.extend(event(EV_KEY, 0x130, 2));
    bytes.extend(event(EV_ABS, ABS_HAT0X, -1));
    bytes.extend([1, 2, 3]);
    let mut hat = Hat::new();
    let (evs, raws) = read_events(&bytes, &mut hat);
    assert_eq!(evs.len(), 5);
    assert_eq!(evs[1], Ev { kind: EV_SYN, code: 0, value: 0 });
    assert_eq!(
        raws,
        vec![
            RawEvent::Down(Btn::A),
            RawEvent::Down(Btn::Right),
            RawEvent::Up(Btn::Right),
            RawEvent::Down(Btn::Left),
        ]
    );
    let (_, more) = read_events(&event(EV_ABS, ABS_HAT0X, 0), &mut hat);
    assert_eq!(more, vec![RawEvent::Up(Btn::Left)]);
}

#[test]
fn a_short_read_holds_no_event() {
    let mut hat = Hat::new();
    let (evs, raws) = read_events(&[0u8; 23], &mut hat);
    assert!(evs.is_empty() && raws.is_empty());
}
