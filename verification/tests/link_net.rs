use slot::link_net::{frame, frame_len, FRAME_MAX};

#[test]
fn a_packet_goes_out_behind_its_length() {
    assert_eq!(frame(&[7, 8, 9]), Some(vec![0, 3, 7, 8, 9]));
    assert_eq!(frame(&[]), Some(vec![0, 0]));
    let big = vec![1u8; 300];
    let f = frame(&big).expect("fits");
    assert_eq!(&f[..2], &[1, 44]);
    assert_eq!(frame_len([1, 44]), 300);
}

#[test]
fn a_packet_too_long_for_its_header_is_refused() {
    assert!(frame(&vec![0u8; FRAME_MAX]).is_some());
    assert_eq!(frame(&vec![0u8; FRAME_MAX + 1]), None);
    assert_eq!(frame_len([0xff, 0xff]), FRAME_MAX);
}
