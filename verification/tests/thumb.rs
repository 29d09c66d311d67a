use slot::thumb::{png, rgb, GBA_H, GBA_W};

#[test]
fn a_frame_comes_out_as_rgb() {
    let n = GBA_W * GBA_H;
    let mut xrgb = Vec::with_capacity(n * 4 + 4);
    for i in 0..n {
        xrgb.extend_from_slice(&[i as u8, (i >> 8) as u8, 7, 0xff]);
    }
    xrgb.extend_from_slice(&[9, 9, 9, 9]);
    let out = rgb(&xrgb).expect("a whole frame");
    assert_eq!(out.len(), n * 3);
    assert_eq!(&out[..6], &[7, 0, 0, 7, 0, 1]);
    assert_eq!(&out[n * 3 - 3..], &[7, ((n - 1) >> 8) as u8, (n - 1) as u8]);
}

#[test]
fn a_short_buffer_is_no_frame() {
    assert!(rgb(&vec![0u8; GBA_W * GBA_H * 4 - 1]).is_none());
}

fn frame() -> Vec<u8> {
    let n = GBA_W * GBA_H;
    let mut xrgb = Vec::with_capacity(n * 4);
    for i in 0..n {
        xrgb.extend_from_slice(&[i as u8, (i >> 8) as u8, (i % 7) as u8, 0]);
    }
    xrgb
}

#[test]
fn a_frame_is_a_png_of_its_own_size() {
    let file = png(&frame()).expect("a whole frame encodes");
    assert_eq!(&file[..8], &[137, 80, 78, 71, 13, 10, 26, 10]);
    assert_eq!(&file[12..16], b"IHDR");
    assert_eq!(&file[16..20], &(GBA_W as u32).to_be_bytes());
    assert_eq!(&file[20..24], &(GBA_H as u32).to_be_bytes());
    assert_eq!(file[24], 8, "eight bits a channel");
    assert_eq!(file[25], 2, "RGB, no alpha");
}

#[test]
fn the_png_holds_the_frames_pixels() {
    let xrgb = frame();
    let file = png(&xrgb).expect("a whole frame encodes");
    let decoder = ::png::Decoder::new(std::io::Cursor::new(file));
    let mut reader = decoder.read_info().expect("a readable header");
    let mut buf = vec![0; reader.output_buffer_size()];
    let info = reader.next_frame(&mut buf).expect("one image");
    assert_eq!((info.width, info.height), (GBA_W as u32, GBA_H as u32));
    assert_eq!(&buf[..info.buffer_size()], &rgb(&xrgb).unwrap()[..]);
}

#[test]
fn a_short_buffer_is_no_png() {
    assert!(png(&vec![0u8; GBA_W * GBA_H * 4 - 1]).is_none());
}
