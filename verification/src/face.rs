//! Screens the binary uploads as one texture: a picture built from rectangles and lines of
//! type, painted in order. The rectangles are painted here; the type takes a font and a
//! rasteriser, and is drawn over the face by whoever has them.

use vstd::prelude::*;

verus! {

/// The screen a face is drawn for, in pixels.
pub const OUT_W: u32 = 640;
pub const OUT_H: u32 = 480;

/// A picture `w` by `h`, four bytes a pixel, row after row.
pub struct Face {
    pub rgba: Vec<u8>,
    pub w: u32,
    pub h: u32,
}

/// A face whose buffer is exactly its pixels, small enough to be addressed in `i32`.
pub open spec fn sized(f: Face) -> bool {
    &&& f.rgba@.len() == f.w * f.h * 4
    &&& f.w <= i32::MAX
    &&& f.h <= i32::MAX
}

/// Byte `k` of the pixel at row `r`, column `c`, in a face `width` pixels wide.
pub open spec fn at(width: int, r: int, c: int, k: int) -> int {
    (r * width + c) * 4 + k
}

/// Whether a rectangle covers the pixel at row `r`, column `c`.
pub open spec fn covers(x: i32, y: i32, w: i32, h: i32, r: int, c: int) -> bool {
    x <= c < x + w && y <= r < y + h
}

/// Every pixel's bytes sit inside the buffer.
proof fn lemma_at_in_bounds(width: int, height: int, r: int, c: int, k: int)
    requires
        0 <= r < height,
        0 <= c < width,
        0 <= k < 4,
    ensures
        0 <= at(width, r, c, k),
        at(width, r, c, k) + 4 - k <= width * height * 4,
{
    assert(0 <= r * width + c) by (nonlinear_arith)
        requires
            0 <= r,
            0 <= c,
            0 <= width,
    ;
    assert(r * width + c + 1 <= width * height) by (nonlinear_arith)
        requires
            0 <= r < height,
            0 <= c < width,
    ;
}

/// No two pixels share a byte.
proof fn lemma_at_unique(width: int, r1: int, c1: int, k1: int, r2: int, c2: int, k2: int)
    requires
        0 <= c1 < width,
        0 <= c2 < width,
        0 <= k1 < 4,
        0 <= k2 < 4,
        at(width, r1, c1, k1) == at(width, r2, c2, k2),
    ensures
        r1 == r2,
        c1 == c2,
        k1 == k2,
{
    let x = at(width, r1, c1, k1);
    let p1 = r1 * width + c1;
    let p2 = r2 * width + c2;
    vstd::arithmetic::div_mod::lemma_fundamental_div_mod_converse_mod(x, 4, p1, k1);
    vstd::arithmetic::div_mod::lemma_fundamental_div_mod_converse_mod(x, 4, p2, k2);
    vstd::arithmetic::div_mod::lemma_fundamental_div_mod_converse_div(x, 4, p1, k1);
    vstd::arithmetic::div_mod::lemma_fundamental_div_mod_converse_div(x, 4, p2, k2);
    vstd::arithmetic::div_mod::lemma_fundamental_div_mod_converse_mod(p1, width, r1, c1);
    vstd::arithmetic::div_mod::lemma_fundamental_div_mod_converse_mod(p1, width, r2, c2);
    vstd::arithmetic::div_mod::lemma_fundamental_div_mod_converse_div(p1, width, r1, c1);
    vstd::arithmetic::div_mod::lemma_fundamental_div_mod_converse_div(p1, width, r2, c2);
}

/// A face of `w` by `h` pixels, every byte zero.
pub fn blank(w: u32, h: u32) -> (r: Face)
    requires
        w * h * 4 <= usize::MAX,
        w <= i32::MAX,
        h <= i32::MAX,
    ensures
        sized(r),
        r.w == w,
        r.h == h,
        forall|i: int| 0 <= i < r.rgba@.len() ==> #[trigger] r.rgba@[i] == 0,
{
    assert(w * h <= w * h * 4) by (nonlinear_arith);
    let n = (w as usize) * (h as usize) * 4;
    Face { rgba: vec![0u8; n], w, h }
}

/// Paint a rectangle, clipped to the face.
pub fn fill(face: &mut Face, x: i32, y: i32, w: i32, h: i32, colour: [u8; 4])
    requires
        sized(*old(face)),
        i32::MIN <= x + w <= i32::MAX,
        i32::MIN <= y + h <= i32::MAX,
    ensures
        sized(*final(face)),
        final(face).w == old(face).w,
        final(face).h == old(face).h,
        forall|r: int, c: int, k: int|
            0 <= r < old(face).h && 0 <= c < old(face).w && 0 <= k < 4
                ==> #[trigger] final(face).rgba@[at(old(face).w as int, r, c, k)] == if covers(
                x,
                y,
                w,
                h,
                r,
                c,
            ) {
                colour@[k]
            } else {
                old(face).rgba@[at(old(face).w as int, r, c, k)]
            },
{
    let ghost before = face.rgba@;
    let ghost width = face.w as int;
    let ghost height = face.h as int;
    let fw = face.w as i32;
    let fh = face.h as i32;
    let y0 = if y > 0 {
        y
    } else {
        0
    };
    let y1 = if y + h < fh {
        y + h
    } else {
        fh
    };
    let x0 = if x > 0 {
        x
    } else {
        0
    };
    let x1 = if x + w < fw {
        x + w
    } else {
        fw
    };
    let mut yy = y0;
    while yy < y1
        invariant
            sized(*face),
            face.w == width,
            face.h == height,
            fw == width,
            fh == height,
            width == old(face).w,
            height == old(face).h,
            before == old(face).rgba@,
            0 <= y0 <= yy,
            y0 <= y1 ==> yy <= y1,
            y1 <= fh,
            y0 == if y > 0 {
                y
            } else {
                0i32
            },
            y1 == if y + h < fh {
                (y + h) as i32
            } else {
                fh
            },
            x0 == if x > 0 {
                x
            } else {
                0i32
            },
            x1 == if x + w < fw {
                (x + w) as i32
            } else {
                fw
            },
            i32::MIN <= x + w <= i32::MAX,
            i32::MIN <= y + h <= i32::MAX,
            forall|r: int, c: int, k: int|
                0 <= r < height && 0 <= c < width && 0 <= k < 4 ==> #[trigger] face.rgba@[at(
                    width,
                    r,
                    c,
                    k,
                )] == if covers(x, y, w, h, r, c) && r < yy {
                    colour@[k]
                } else {
                    before[at(width, r, c, k)]
                },
        decreases y1 - yy,
    {
        let mut xx = x0;
        while xx < x1
            invariant
                sized(*face),
                face.w == width,
                face.h == height,
                fw == width,
                fh == height,
                before == old(face).rgba@,
                0 <= y0 <= yy < y1,
                y1 <= fh,
                y0 == if y > 0 {
                    y
                } else {
                    0i32
                },
                y1 == if y + h < fh {
                    (y + h) as i32
                } else {
                    fh
                },
                0 <= x0 <= xx,
                x0 <= x1 ==> xx <= x1,
                i32::MIN <= x + w <= i32::MAX,
                i32::MIN <= y + h <= i32::MAX,
                x1 <= fw,
                x0 == if x > 0 {
                    x
                } else {
                    0i32
                },
                x1 == if x + w < fw {
                    (x + w) as i32
                } else {
                    fw
                },
                forall|r: int, c: int, k: int|
                    0 <= r < height && 0 <= c < width && 0 <= k < 4 ==> #[trigger] face.rgba@[at(
                        width,
                        r,
                        c,
                        k,
                    )] == if covers(x, y, w, h, r, c) && (r < yy || (r == yy && c < xx)) {
                        colour@[k]
                    } else {
                        before[at(width, r, c, k)]
                    },
            decreases x1 - xx,
        {
            proof {
                lemma_at_in_bounds(width, height, yy as int, xx as int, 0);
                assert((yy as int) * width + xx <= width * height) by (nonlinear_arith)
                    requires
                        0 <= yy < height,
                        0 <= xx < width,
                ;
                assert(0 <= (yy as int) * width) by (nonlinear_arith)
                    requires
                        0 <= yy,
                        0 <= width,
                ;
                assert((yy as int) * width <= width * height) by (nonlinear_arith)
                    requires
                        0 <= yy < height,
                        0 <= width,
                ;
            }
            let len = face.rgba.len();
            assert(len == width * height * 4);
            let base = ((yy as usize) * (face.w as usize) + (xx as usize)) * 4;
            let ghost mid = face.rgba@;
            assert(base == at(width, yy as int, xx as int, 0));
            face.rgba.set(base, colour[0]);
            face.rgba.set(base + 1, colour[1]);
            face.rgba.set(base + 2, colour[2]);
            face.rgba.set(base + 3, colour[3]);
            assert forall|r: int, c: int, k: int|
                0 <= r < height && 0 <= c < width && 0 <= k < 4 implies #[trigger] face.rgba@[at(
                    width,
                    r,
                    c,
                    k,
                )] == if covers(x, y, w, h, r, c) && (r < yy || (r == yy && c < xx + 1)) {
                    colour@[k]
                } else {
                    before[at(width, r, c, k)]
                } by {
                lemma_at_in_bounds(width, height, r, c, k);
                if r == yy && c == xx {
                    assert(at(width, r, c, k) == base + k);
                    assert(covers(x, y, w, h, r, c));
                } else {
                    if at(width, r, c, k) == base || at(width, r, c, k) == base + 1 || at(
                        width,
                        r,
                        c,
                        k,
                    ) == base + 2 || at(width, r, c, k) == base + 3 {
                        let kk = at(width, r, c, k) - base;
                        assert(at(width, yy as int, xx as int, kk) == at(width, r, c, k));
                        lemma_at_unique(width, r, c, k, yy as int, xx as int, kk);
                    }
                    assert(face.rgba@[at(width, r, c, k)] == mid[at(width, r, c, k)]);
                }
            }
            xx = xx + 1;
        }
        assert forall|r: int, c: int, k: int|
            0 <= r < height && 0 <= c < width && 0 <= k < 4 implies #[trigger] face.rgba@[at(
                width,
                r,
                c,
                k,
            )] == if covers(x, y, w, h, r, c) && r < yy + 1 {
                colour@[k]
            } else {
                before[at(width, r, c, k)]
            } by {
            if r == yy && covers(x, y, w, h, r, c) {
                assert(c < xx);
            }
        }
        yy = yy + 1;
    }
    assert forall|r: int, c: int, k: int|
        0 <= r < height && 0 <= c < width && 0 <= k < 4 implies #[trigger] face.rgba@[at(
            width,
            r,
            c,
            k,
        )] == if covers(x, y, w, h, r, c) {
            colour@[k]
        } else {
            before[at(width, r, c, k)]
        } by {
        if covers(x, y, w, h, r, c) {
            assert(r < yy);
        }
    }
}

/// One step of a screen: a rectangle, or a line of type `size` pixels high whose top left is
/// at `x`, `y` and which stops at the glyph that would cross `width`.
#[derive(Clone, Debug, PartialEq, Eq)]
pub enum Paint {
    Fill { x: i32, y: i32, w: i32, h: i32, colour: [u8; 4] },
    Text { s: String, x: i32, y: i32, size: u32, width: i32, ink: [u8; 3] },
}

/// A step of a screen, its type as characters.
pub enum PaintView {
    Fill { x: i32, y: i32, w: i32, h: i32, colour: [u8; 4] },
    Text { s: Seq<char>, x: i32, y: i32, size: u32, width: i32, ink: [u8; 3] },
}

impl View for Paint {
    type V = PaintView;

    open spec fn view(&self) -> PaintView {
        match self {
            Paint::Fill { x, y, w, h, colour } => PaintView::Fill {
                x: *x,
                y: *y,
                w: *w,
                h: *h,
                colour: *colour,
            },
            Paint::Text { s, x, y, size, width, ink } => PaintView::Text {
                s: s@,
                x: *x,
                y: *y,
                size: *size,
                width: *width,
                ink: *ink,
            },
        }
    }
}

/// The steps of a screen, as views.
pub open spec fn views(ps: Seq<Paint>) -> Seq<PaintView> {
    ps.map_values(|p: Paint| p@)
}

pub open spec fn fill_view(x: int, y: int, w: int, h: int, colour: [u8; 4]) -> PaintView {
    PaintView::Fill { x: x as i32, y: y as i32, w: w as i32, h: h as i32, colour }
}

pub open spec fn text_view(
    s: Seq<char>,
    x: int,
    y: int,
    size: u32,
    width: int,
    ink: [u8; 3],
) -> PaintView {
    PaintView::Text { s, x: x as i32, y: y as i32, size, width: width as i32, ink }
}

/// A rectangle, after whatever is already on the screen.
pub fn push_fill(out: &mut Vec<Paint>, x: i32, y: i32, w: i32, h: i32, colour: [u8; 4])
    ensures
        views(final(out)@) == views(old(out)@).push(
            fill_view(x as int, y as int, w as int, h as int, colour),
        ),
{
    out.push(Paint::Fill { x, y, w, h, colour });
    assert(views(out@) =~= views(old(out)@).push(
        fill_view(x as int, y as int, w as int, h as int, colour),
    ));
}

/// A line of type, after whatever is already on the screen.
pub fn push_text(out: &mut Vec<Paint>, s: String, x: i32, y: i32, size: u32, width: i32, ink: [u8; 3])
    ensures
        views(final(out)@) == views(old(out)@).push(
            text_view(s@, x as int, y as int, size, width as int, ink),
        ),
{
    let ghost text = s@;
    out.push(Paint::Text { s, x, y, size, width, ink });
    assert(views(out@) =~= views(old(out)@).push(
        text_view(text, x as int, y as int, size, width as int, ink),
    ));
}

/// Byte `k` of the pixel at row `r`, column `c` once the rectangles among `ps` are painted in
/// order on a face of zeros: the last rectangle over the pixel decides it. Type leaves the
/// pixels to the rasteriser.
pub open spec fn painted(ps: Seq<PaintView>, r: int, c: int, k: int) -> u8
    decreases ps.len(),
{
    if ps.len() == 0 {
        0
    } else {
        match ps.last() {
            PaintView::Fill { x, y, w, h, colour } => if covers(x, y, w, h, r, c) {
                colour@[k]
            } else {
                painted(ps.drop_last(), r, c, k)
            },
            PaintView::Text { .. } => painted(ps.drop_last(), r, c, k),
        }
    }
}

/// A face `w` by `h` with the rectangles among `paints` painted in order, each clipped to it.
pub fn render(paints: &Vec<Paint>, w: u32, h: u32) -> (r: Face)
    requires
        w * h * 4 <= usize::MAX,
        w <= i32::MAX,
        h <= i32::MAX,
    ensures
        sized(r),
        r.w == w,
        r.h == h,
        forall|row: int, col: int, k: int|
            0 <= row < h && 0 <= col < w && 0 <= k < 4 ==> #[trigger] r.rgba@[at(
                w as int,
                row,
                col,
                k,
            )] == painted(views(paints@), row, col, k),
{
    let mut face = blank(w, h);
    let ghost all = views(paints@);
    let mut i: usize = 0;
    proof {
        assert forall|row: int, col: int, k: int|
            0 <= row < h && 0 <= col < w && 0 <= k < 4 implies #[trigger] face.rgba@[at(
                w as int,
                row,
                col,
                k,
            )] == painted(all.take(0), row, col, k) by {
            lemma_at_in_bounds(w as int, h as int, row, col, k);
        }
    }
    while i < paints.len()
        invariant
            all == views(paints@),
            i <= paints.len(),
            sized(face),
            face.w == w,
            face.h == h,
            forall|row: int, col: int, k: int|
                0 <= row < h && 0 <= col < w && 0 <= k < 4 ==> #[trigger] face.rgba@[at(
                    w as int,
                    row,
                    col,
                    k,
                )] == painted(all.take(i as int), row, col, k),
        decreases paints.len() - i,
    {
        proof {
            assert(all.take(i as int + 1).drop_last() =~= all.take(i as int));
            assert(all.take(i as int + 1).last() == paints@[i as int]@);
        }
        match &paints[i] {
            Paint::Fill { x, y, w: fw, h: fh, colour } => {
                let x0: i64 = if *x > 0 { *x as i64 } else { 0 };
                let y0: i64 = if *y > 0 { *y as i64 } else { 0 };
                let x1: i64 = if (*x as i64) + (*fw as i64) < (w as i64) {
                    (*x as i64) + (*fw as i64)
                } else {
                    w as i64
                };
                let y1: i64 = if (*y as i64) + (*fh as i64) < (h as i64) {
                    (*y as i64) + (*fh as i64)
                } else {
                    h as i64
                };
                if x0 < x1 && y0 < y1 {
                    let ghost before = face.rgba@;
                    fill(&mut face, x0 as i32, y0 as i32, (x1 - x0) as i32, (y1 - y0) as i32, *colour);
                    assert forall|row: int, col: int, k: int|
                        0 <= row < h && 0 <= col < w && 0 <= k < 4 implies #[trigger] face.rgba@[at(
                            w as int,
                            row,
                            col,
                            k,
                        )] == painted(all.take(i as int + 1), row, col, k) by {
                        assert(covers(x0 as i32, y0 as i32, (x1 - x0) as i32, (y1 - y0) as i32, row, col)
                            == covers(*x, *y, *fw, *fh, row, col));
                    }
                } else {
                    assert forall|row: int, col: int, k: int|
                        0 <= row < h && 0 <= col < w && 0 <= k < 4 implies #[trigger] face.rgba@[at(
                            w as int,
                            row,
                            col,
                            k,
                        )] == painted(all.take(i as int + 1), row, col, k) by {
                        assert(!covers(*x, *y, *fw, *fh, row, col));
                    }
                }
            },
            Paint::Text { .. } => {},
        }
        i = i + 1;
    }
    assert(all.take(paints.len() as int) =~= all);
    face
}

/// Type after the first `n` steps leaves every pixel as those steps painted it.
pub proof fn lemma_painted_skips_type(ps: Seq<PaintView>, n: int, r: int, c: int, k: int)
    requires
        0 <= n <= ps.len(),
        forall|i: int| n <= i < ps.len() ==> #[trigger] ps[i] is Text,
    ensures
        painted(ps, r, c, k) == painted(ps.take(n), r, c, k),
    decreases ps.len(),
{
    if ps.len() > n {
        assert(ps.last() is Text);
        let rest = ps.drop_last();
        assert forall|i: int| n <= i < rest.len() implies #[trigger] rest[i] is Text by {
            assert(rest[i] == ps[i]);
        }
        lemma_painted_skips_type(rest, n, r, c, k);
        assert(rest.take(n) =~= ps.take(n));
    } else {
        assert(ps.take(n) =~= ps);
    }
}

} // verus!
