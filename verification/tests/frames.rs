use slot::frames::Frames;

#[test]
fn the_renderer_gets_the_newest_frame_and_the_stale_one_is_reused() {
    let mut f = Frames::new(4);
    assert!(!f.is_ready());
    let mut a = f.take_write();
    a.extend_from_slice(&[1, 1, 1, 1]);
    f.publish(a);
    let mut b = f.take_write();
    b.extend_from_slice(&[2, 2, 2, 2]);
    f.publish(b);
    assert_eq!(f.allocated(), 2);
    assert!(f.is_ready());
    let shown = f.latest().expect("a frame waits");
    assert_eq!(shown, vec![2, 2, 2, 2]);
    assert_eq!(f.taken(), 1);
    assert!(f.latest().is_none());
    assert_eq!(f.taken(), 1);
    let reused = f.take_write();
    assert_eq!(reused, vec![1, 1, 1, 1]);
    assert_eq!(f.allocated(), 2);
    f.recycle(shown);
    f.recycle(reused);
    let _ = f.take_write();
    let _ = f.take_write();
    assert_eq!(f.allocated(), 2);
    let _ = f.take_write();
    assert_eq!(f.allocated(), 3);
}

#[test]
fn three_buffers_are_enough() {
    let mut f = Frames::new(16);
    let mut held: Option<Vec<u8>> = None;
    for i in 0..60u32 {
        let buf = f.take_write();
        f.publish(buf);
        if i % 3 == 0 {
            if let Some(old) = held.take() {
                f.recycle(old);
            }
            held = f.latest();
        }
        assert!(f.allocated() <= 3);
    }
    assert_eq!(f.allocated(), 3);
}
