//! Turning a raw framebuffer frame into screenshot pixels: the display
//! panel is mounted upside down and stores blue first, so the capture is
//! rotated half a turn and its channels swapped. Reading the framebuffer
//! and encoding the image file live with the surrounding process.

use vstd::prelude::*;

verus! {

/// The byte offset of a pixel inside the frame.
pub open spec fn pixel_offset(x0: int, y0: int, w: int, bpp: int, x: int, y: int) -> int {
    ((y0 + y) * w + (x0 + x)) * bpp
}

/// One output channel of the rotated image: the pixel at `(x, y)` of the
/// output is the source pixel at `(w-1-x, h-1-y)` read blue, green, red.
pub open spec fn rotated_channel(
    frame: Seq<u8>,
    x0: int,
    y0: int,
    w: int,
    h: int,
    bpp: int,
    x: int,
    y: int,
    c: int,
) -> u8 {
    let sx = w - 1 - x;
    let sy = h - 1 - y;
    frame[pixel_offset(x0, y0, w, bpp, sx, sy) + (2 - c)]
}

/// Rotates a captured frame half a turn and swaps its blue and red
/// channels, yielding packed RGB rows, top to bottom.
pub fn rotate_frame(frame: &Vec<u8>, x0: usize, y0: usize, w: usize, h: usize, bpp: usize) -> (r:
    Vec<u8>)
    requires
        bpp >= 3,
        w * h * bpp <= usize::MAX,
        w + x0 <= w * 2,
        h + y0 <= h * 2,
        (y0 + h) * w * bpp + w * bpp <= frame@.len(),
        w * h * 3 <= usize::MAX,
    ensures
        r@.len() == w * h * 3,
        forall|x: int, y: int, c: int|
            0 <= x < w && 0 <= y < h && 0 <= c < 3 ==> #[trigger] r@[(y * w + x) * 3 + c]
                == rotated_channel(frame@, x0 as int, y0 as int, w as int, h as int, bpp as int, x, y, c),
{
    let flen = frame.len();
    let mut r: Vec<u8> = Vec::new();
    let mut y: usize = 0;
    while y < h
        invariant
            bpp >= 3,
            w * h * bpp <= usize::MAX,
            w + x0 <= w * 2,
            h + y0 <= h * 2,
            (y0 + h) * w * bpp + w * bpp <= frame@.len(),
            w * h * 3 <= usize::MAX,
            flen == frame@.len(),
            0 <= y <= h,
            r@.len() == y * w * 3,
            forall|xx: int, yy: int, c: int|
                0 <= xx < w && 0 <= yy < y && 0 <= c < 3 ==> #[trigger] r@[(yy * w + xx) * 3 + c]
                    == rotated_channel(
                    frame@,
                    x0 as int,
                    y0 as int,
                    w as int,
                    h as int,
                    bpp as int,
                    xx,
                    yy,
                    c,
                ),
        decreases h - y,
    {
        let mut x: usize = 0;
        while x < w
            invariant
                bpp >= 3,
                w * h * bpp <= usize::MAX,
                w + x0 <= w * 2,
                h + y0 <= h * 2,
                (y0 + h) * w * bpp + w * bpp <= frame@.len(),
                w * h * 3 <= usize::MAX,
                flen == frame@.len(),
                0 <= y < h,
                0 <= x <= w,
                r@.len() == y * w * 3 + x * 3,
                forall|xx: int, yy: int, c: int|
                    0 <= xx < w && 0 <= yy < y && 0 <= c < 3 ==> #[trigger] r@[(yy * w + xx) * 3
                        + c] == rotated_channel(
                        frame@,
                        x0 as int,
                        y0 as int,
                        w as int,
                        h as int,
                        bpp as int,
                        xx,
                        yy,
                        c,
                    ),
                forall|xx: int, c: int|
                    0 <= xx < x && 0 <= c < 3 ==> #[trigger] r@[(y * w + xx) * 3 + c]
                        == rotated_channel(
                        frame@,
                        x0 as int,
                        y0 as int,
                        w as int,
                        h as int,
                        bpp as int,
                        xx,
                        y as int,
                        c,
                    ),
            decreases w - x,
        {
            let sx = w - 1 - x;
            let sy = h - 1 - y;
            proof {
                lemma_offset_fits(
                    frame@.len() as int,
                    x0 as int,
                    y0 as int,
                    w as int,
                    h as int,
                    bpp as int,
                    sx as int,
                    sy as int,
                );
            }
            let base = ((y0 + sy) * w + (x0 + sx)) * bpp;
            let b2 = frame[base + 2];
            let b1 = frame[base + 1];
            let b0 = frame[base];
            let ghost r_old = r@;
            r.push(b2);
            r.push(b1);
            r.push(b0);
            proof {
                lemma_row_arith(w as int, h as int, y as int, x as int);
                assert(r@ =~= r_old.push(b2).push(b1).push(b0));
                assert forall|xx: int, c: int| 0 <= xx < x + 1 && 0 <= c < 3 implies
                    #[trigger] r@[(y * w + xx) * 3 + c] == rotated_channel(
                    frame@,
                    x0 as int,
                    y0 as int,
                    w as int,
                    h as int,
                    bpp as int,
                    xx,
                    y as int,
                    c,
                ) by {
                    lemma_index_arith(w as int, h as int, y as int, xx, c);
                    if xx < x {
                        assert(r_old[(y * w + xx) * 3 + c] == rotated_channel(
                            frame@,
                            x0 as int,
                            y0 as int,
                            w as int,
                            h as int,
                            bpp as int,
                            xx,
                            y as int,
                            c,
                        ));
                    } else {
                        assert((y * w + xx) * 3 + c == r_old.len() + c);
                    }
                }
                assert forall|xx: int, yy: int, c: int|
                    0 <= xx < w && 0 <= yy < y && 0 <= c < 3 implies #[trigger] r@[(yy * w + xx)
                    * 3 + c] == rotated_channel(
                    frame@,
                    x0 as int,
                    y0 as int,
                    w as int,
                    h as int,
                    bpp as int,
                    xx,
                    yy,
                    c,
                ) by {
                    lemma_index_arith(w as int, h as int, yy, xx, c);
                    lemma_mul_le(yy + 1, y as int, (w * 3) as int);
                    assert((yy + 1) * (w * 3) == (yy + 1) * w * 3) by (nonlinear_arith);
                    assert((y as int) * (w * 3) == (y as int) * w * 3) by (nonlinear_arith);
                    assert(r_old[(yy * w + xx) * 3 + c] == rotated_channel(
                        frame@,
                        x0 as int,
                        y0 as int,
                        w as int,
                        h as int,
                        bpp as int,
                        xx,
                        yy,
                        c,
                    ));
                }
            }
            x += 1;
        }
        proof {
            lemma_row_end(w as int, y as int);
        }
        y += 1;
    }
    proof {
        assert((h as int) * w * 3 == (w as int) * h * 3) by (nonlinear_arith);
    }
    r
}

/// Offsets stay inside the machine range and the frame.
proof fn lemma_offset_fits(
    len: int,
    x0: int,
    y0: int,
    w: int,
    h: int,
    bpp: int,
    sx: int,
    sy: int,
)
    requires
        bpp >= 3,
        0 <= sx < w,
        0 <= sy < h,
        0 <= x0,
        0 <= y0,
        w + x0 <= w * 2,
        h + y0 <= h * 2,
        (y0 + h) * w * bpp + w * bpp <= len,
    ensures
        0 <= y0 + sy,
        y0 + sy <= len,
        x0 + sx <= len,
        (y0 + sy) * w <= len,
        (y0 + sy) * w + (x0 + sx) <= len,
        0 <= ((y0 + sy) * w + (x0 + sx)) * bpp,
        ((y0 + sy) * w + (x0 + sx)) * bpp + 2 < len,
    decreases 0int,
{
    assert(y0 + sy <= len && x0 + sx <= len && (y0 + sy) * w + (x0 + sx) <= len && (y0 + sy) * w
        <= len && 0 <= ((y0 + sy) * w + (x0 + sx)) * bpp && ((y0 + sy) * w + (x0 + sx)) * bpp + 2
        < len) by (nonlinear_arith)
        requires
            bpp >= 3,
            0 <= sx < w,
            0 <= sy < h,
            0 <= x0,
            0 <= y0,
            w + x0 <= w * 2,
            h + y0 <= h * 2,
            (y0 + h) * w * bpp + w * bpp <= len,
    ;
}

/// A pixel's output index stays inside the row bounds.
proof fn lemma_index_arith(w: int, h: int, y: int, x: int, c: int)
    requires
        0 <= y < h,
        0 <= x < w,
        0 <= c < 3,
    ensures
        (y * w + x) * 3 == y * w * 3 + x * 3,
        0 <= (y * w + x) * 3 + c,
        (y * w + x) * 3 + c < y * w * 3 + (x + 1) * 3,
        (y * w + x) * 3 + c < (y + 1) * w * 3,
    decreases 0int,
{
    assert((y * w + x) * 3 == y * w * 3 + x * 3 && 0 <= (y * w + x) * 3 + c && (y * w + x) * 3 + c
        < (y + 1) * w * 3) by (nonlinear_arith)
        requires
            0 <= y,
            0 <= x < w,
            0 <= c < 3,
    ;
}

/// Multiplication keeps order for nonnegative factors.
proof fn lemma_mul_le(a: int, b: int, k: int)
    requires
        a <= b,
        0 <= k,
    ensures
        a * k <= b * k,
    decreases 0int,
{
    assert(a * k <= b * k) by (nonlinear_arith)
        requires
            a <= b,
            0 <= k,
    ;
}

proof fn lemma_row_arith(w: int, h: int, y: int, x: int)
    requires
        0 <= y < h,
        0 <= x < w,
    ensures
        y * w * 3 + x * 3 + 3 == y * w * 3 + (x + 1) * 3,
        (y * w + x) * 3 == y * w * 3 + x * 3,
        y * w * 3 + w * 3 <= h * w * 3,
    decreases 0int,
{
    assert((y * w + x) * 3 == y * w * 3 + x * 3) by (nonlinear_arith);
    assert(y * w * 3 + w * 3 <= h * w * 3) by (nonlinear_arith)
        requires
            0 <= y < h,
            0 <= x < w,
    ;
}

proof fn lemma_row_end(w: int, y: int)
    requires
        0 <= w,
        0 <= y,
    ensures
        y * w * 3 + w * 3 == (y + 1) * w * 3,
    decreases 0int,
{
    assert(y * w * 3 + w * 3 == (y + 1) * w * 3) by (nonlinear_arith);
}

} // verus!
