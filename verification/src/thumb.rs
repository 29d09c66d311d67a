//! The polaroid picture: one GBA frame, PNG, at its own size. The core's frame is already
//! the 240x160 the switcher shows, so there is nothing to scale.

use vstd::prelude::*;

verus! {

pub const GBA_W: usize = 240;
pub const GBA_H: usize = 160;

/// The pixels of one frame.
pub open spec fn frame_pixels() -> nat {
    (GBA_W * GBA_H) as nat
}

/// A frame's RGB: libretro's XRGB8888 is little endian, so each pixel's bytes arrive B, G, R,
/// X, and anything past one frame is not part of it.
pub open spec fn spec_rgb(xrgb: Seq<u8>) -> Seq<u8> {
    Seq::new(
        frame_pixels() * 3,
        |i: int| xrgb[(i / 3) * 4 + (2 - i % 3)],
    )
}

/// `None` for a buffer shorter than a frame.
pub fn rgb(xrgb8888: &[u8]) -> (r: Option<Vec<u8>>)
    ensures
        r is Some <==> xrgb8888@.len() >= frame_pixels() * 4,
        r matches Some(v) ==> v@ == spec_rgb(xrgb8888@),
{
    let n = GBA_W * GBA_H;
    if xrgb8888.len() < n * 4 {
        return None;
    }
    let mut out: Vec<u8> = Vec::with_capacity(n * 3);
    let mut p: usize = 0;
    while p < n
        invariant
            n == frame_pixels(),
            xrgb8888@.len() >= n * 4,
            p <= n,
            out@.len() == p * 3,
            forall|i: int| 0 <= i < p * 3 ==> #[trigger] out@[i] == spec_rgb(xrgb8888@)[i],
        decreases n - p,
    {
        let ghost before = out@;
        out.push(xrgb8888[p * 4 + 2]);
        out.push(xrgb8888[p * 4 + 1]);
        out.push(xrgb8888[p * 4]);
        assert forall|i: int| 0 <= i < (p + 1) * 3 implies #[trigger] out@[i] == spec_rgb(
            xrgb8888@,
        )[i] by {
            if i >= p * 3 {
                assert(i / 3 == p);
                assert(i % 3 == i - p * 3);
            } else {
                assert(out@[i] == before[i]);
            }
        }
        p += 1;
    }
    assert(out@ =~= spec_rgb(xrgb8888@));
    Some(out)
}

/// The PNG file that the `png` crate writes for 8-bit RGB pixels `rgb` of a `width` by
/// `height` image, with its default filter and compression; `None` where it refuses.
pub uninterp spec fn png_rgb8(rgb: Seq<u8>, width: u32, height: u32) -> Option<Seq<u8>>;

/// The bytes an encoder handed back, if it handed any.
pub open spec fn bytes_of(r: Option<Vec<u8>>) -> Option<Seq<u8>> {
    match r {
        Some(v) => Some(v@),
        None => None,
    }
}

/// `png::Encoder` into a `Vec`: `Encoder::new`, `set_color(Rgb)`, `set_depth(Eight)`,
/// `write_header`, `Writer::write_image_data` and `Writer::finish`, one image and nothing
/// else. Claimed: the result is what `png_rgb8` names for these arguments, a failure of any
/// step being `None`. Which bytes the encoder writes is not stated. Held to the frame's own
/// size: the encoder multiplies a row's bytes by the height in the machine word, which a
/// large enough image would overflow. Given exactly the image's bytes it succeeds: the
/// encoder refuses only a zero size, a wrong length or a writer's error, and a `Vec` never
/// refuses a write.
#[verifier::external_body]
fn encode_rgb8(rgb: &[u8], width: u32, height: u32) -> (r: Option<Vec<u8>>)
    requires
        width == GBA_W,
        height == GBA_H,
    ensures
        bytes_of(r) == png_rgb8(rgb@, width, height),
        rgb@.len() == width * height * 3 ==> r is Some,
{
    let mut out = Vec::new();
    let mut enc = png::Encoder::new(&mut out, width, height);
    enc.set_color(png::ColorType::Rgb);
    enc.set_depth(png::BitDepth::Eight);
    let mut writer = enc.write_header().ok()?;
    writer.write_image_data(rgb).ok()?;
    writer.finish().ok()?;
    Some(out)
}

/// The polaroid picture of one frame of libretro's XRGB8888, as a PNG file. `None` only for
/// a buffer shorter than a frame.
pub fn png(xrgb8888: &[u8]) -> (r: Option<Vec<u8>>)
    ensures
        xrgb8888@.len() < frame_pixels() * 4 ==> r is None,
        xrgb8888@.len() >= frame_pixels() * 4 ==> r is Some,
        xrgb8888@.len() >= frame_pixels() * 4 ==> bytes_of(r) == png_rgb8(
            spec_rgb(xrgb8888@),
            GBA_W as u32,
            GBA_H as u32,
        ),
{
    let rgb = match rgb(xrgb8888) {
        Some(v) => v,
        None => return None,
    };
    encode_rgb8(rgb.as_slice(), GBA_W as u32, GBA_H as u32)
}

} // verus!
