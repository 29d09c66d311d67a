use slot::cable::{decode, encode, Cable, DELAY, PACKET, QUIET_FRAMES};
use slot::input::mask::ButtonMask;

#[test]
fn a_packet_is_the_frame_then_the_mask_little_endian() {
    let p = encode(0x0102_0304_0506_0708, ButtonMask(0x0a0b));
    assert_eq!(p, [8, 7, 6, 5, 4, 3, 2, 1, 0x0b, 0x0a]);
    assert_eq!(p.len(), PACKET);
}

#[test]
fn decode_reads_back_encode() {
    for (frame, mask) in [(0u64, 0u16), (1, 0x101), (u64::MAX, 0xfff), (12345678, 0x8000)] {
        assert_eq!(decode(&encode(frame, ButtonMask(mask))), Some((frame, ButtonMask(mask))));
    }
}

#[test]
fn a_short_packet_is_not_one() {
    assert_eq!(decode(&[1, 2, 3]), None);
    assert_eq!(decode(&[0; 11]), None);
}

#[test]
fn the_first_frames_run_idle_on_both_ends() {
    let host = Cable::new(0);
    assert_eq!(host.frame(), 0);
    assert_eq!(host.ready(), Some((ButtonMask(0), ButtonMask(0))));
    assert_eq!(DELAY, 2);
    assert_eq!(QUIET_FRAMES, 60);
}

#[test]
fn two_ends_run_the_same_pairs_in_port_order() {
    let mut host = Cable::new(0);
    let mut join = Cable::new(1);
    for f in 0..10u16 {
        let from_host = host.sample(ButtonMask(f));
        let from_join = join.sample(ButtonMask(0x100 | f));
        assert!(host.accept(&from_join));
        assert!(join.accept(&from_host));
        let a = host.ready().expect("host ready");
        let b = join.ready().expect("joiner ready");
        assert_eq!(a, b);
        if f >= 2 {
            assert_eq!(a, (ButtonMask(f - 2), ButtonMask(0x100 | (f - 2))));
        }
        host.advance();
        join.advance();
    }
}

#[test]
fn a_sampled_frame_is_never_revised() {
    let mut c = Cable::new(0);
    let first = c.sample(ButtonMask(1));
    let again = c.sample(ButtonMask(2));
    assert_eq!(first, again);
    assert_eq!(decode(&again), Some((DELAY, ButtonMask(1))));
}

#[test]
fn a_late_peer_stalls_and_an_old_packet_is_dropped() {
    let mut c = Cable::new(1);
    c.advance();
    c.advance();
    assert_eq!(c.ready(), None);
    c.stall();
    c.stall();
    assert_eq!(c.stalled(), 2);
    assert!(!c.accept(&encode(1, ButtonMask(3))));
    assert!(!c.accept(&[0; 3]));
    c.sample(ButtonMask(4));
    assert_eq!(c.ready(), None);
    assert!(c.accept(&encode(2, ButtonMask(5))));
    let _ = c.sample(ButtonMask(6));
    assert_eq!(c.player(), 1);
    c.advance();
    assert_eq!(c.stalled(), 0);
}

#[test]
fn an_already_known_frame_is_dropped() {
    let mut c = Cable::new(0);
    c.sample(ButtonMask(1));
    assert!(c.accept(&encode(2, ButtonMask(5))));
    assert!(!c.accept(&encode(2, ButtonMask(7))));
    c.advance();
    c.advance();
    assert_eq!(c.ready(), Some((ButtonMask(1), ButtonMask(5))));
}

#[test]
fn a_second_sample_in_a_frame_is_the_first_packet() {
    let mut c = Cable::new(0);
    let first = c.sample(ButtonMask(3));
    let second = c.sample(ButtonMask(9));
    assert_eq!(first, second);
    assert_eq!(first, encode(2, ButtonMask(3)));
}
