//! The grayscale raster model and the downsampler that turns a pixel
//! grid into a grid of symbols by fixed-size block sampling.

use vstd::prelude::*;
use vstd::arithmetic::div_mod::lemma_fundamental_div_mod;
use crate::glyphs::{Symbol, spec_classify, classify};

verus! {

/// A decoded grayscale raster: row-major intensity samples with
/// explicit dimensions. An intensity of 0 is black, 255 is white.
pub struct GrayscaleImage {
    /// Number of pixel columns.
    pub width: usize,
    /// Number of pixel rows.
    pub height: usize,
    /// Row-major intensity samples, exactly `width * height` of them.
    pub pixels: Vec<u8>,
}

impl GrayscaleImage {
    /// The pixel buffer matches the dimensions, and the dimensions fit
    /// the bounds of the decoders that produce such rasters.
    pub open spec fn wf(&self) -> bool {
        &&& self.pixels@.len() == self.width * self.height
        &&& self.width <= u32::MAX
        &&& self.height <= u32::MAX
    }

    /// Build a raster, accepting exactly the well-formed, non-empty ones.
    pub fn new(width: usize, height: usize, pixels: Vec<u8>) -> (r: Option<GrayscaleImage>)
        ensures
            r is Some <==> {
                &&& pixels@.len() == width * height
                &&& 1 <= width <= u32::MAX
                &&& 1 <= height <= u32::MAX
            },
            r is Some ==> r.unwrap() == (GrayscaleImage { width, height, pixels }),
            r is Some ==> r.unwrap().wf(),
    {
        if width >= 1 && width <= u32::MAX as usize && height >= 1 && height <= u32::MAX as usize {
            proof {
                assert((width as int) * (height as int) < u128::MAX) by (nonlinear_arith)
                    requires
                        width <= u32::MAX,
                        height <= u32::MAX,
                ;
            }
            if (pixels.len() as u128) == (width as u128) * (height as u128) {
                Some(GrayscaleImage { width, height, pixels })
            } else {
                None
            }
        } else {
            None
        }
    }
}

/// A pixel counts as dark when its intensity lies strictly below 128.
pub open spec fn spec_is_dark(p: u8) -> bool {
    p < 128
}

/// The intensity sampled at `(x, y)`, with out-of-range coordinates
/// clamped to the last valid column and row.
pub open spec fn spec_sample(img: GrayscaleImage, x: int, y: int) -> u8 {
    let px = vstd::math::min(x, img.width - 1);
    let py = vstd::math::min(y, img.height - 1);
    img.pixels@[py * img.width + px]
}

/// How many of the `n` samples at `(x0 .. x0 + n, y)` are dark.
pub open spec fn spec_row_dark(img: GrayscaleImage, x0: int, y: int, n: nat) -> nat
    decreases n,
{
    if n == 0 {
        0
    } else {
        spec_row_dark(img, x0, y, (n - 1) as nat) + if spec_is_dark(
            spec_sample(img, x0 + n - 1, y),
        ) {
            1nat
        } else {
            0nat
        }
    }
}

/// How many samples are dark in the block of `rows` rows of `sx`
/// samples each whose top-left corner is `(x0, y0)`.
pub open spec fn spec_block_dark(
    img: GrayscaleImage,
    x0: int,
    y0: int,
    sx: nat,
    rows: nat,
) -> nat
    decreases rows,
{
    if rows == 0 {
        0
    } else {
        spec_block_dark(img, x0, y0, sx, (rows - 1) as nat) + spec_row_dark(
            img,
            x0,
            y0 + rows - 1,
            sx,
        )
    }
}

/// The horizontal sampling step: one source column per output column
/// for narrow images, `width / terminal_width` otherwise.
pub open spec fn spec_scale_x(width: int, terminal_width: int) -> int {
    vstd::math::max(1, width / terminal_width)
}

/// Ceiling division for positive operands.
pub open spec fn spec_div_ceil(a: int, b: int) -> int {
    (a + b - 1) / b
}

/// The symbol of the block in output row `r` and output column `c`.
pub open spec fn spec_block_symbol(img: GrayscaleImage, terminal_width: int, r: int, c: int) -> Symbol {
    let sx = spec_scale_x(img.width as int, terminal_width);
    let sy = 2 * sx;
    spec_classify(spec_block_dark(img, c * sx, r * sy, sx as nat, (2 * sx) as nat), (sx * sy) as nat)
}

/// Law: for every width and every positive terminal width the
/// horizontal sampling step is at least one, so the step sizes that
/// drive the block iteration are never zero.
pub proof fn lemma_scale_x_positive(width: int, terminal_width: int)
    requires
        terminal_width >= 1,
    ensures
        spec_scale_x(width, terminal_width) >= 1,
{
}

/// Compute the horizontal sampling step.
pub fn scale_x(width: usize, terminal_width: usize) -> (r: usize)
    requires
        terminal_width >= 1,
    ensures
        r == spec_scale_x(width as int, terminal_width as int),
        1 <= r,
        r <= vstd::math::max(1, width as int),
{
    let q = width / terminal_width;
    if q < 1 {
        1
    } else {
        q
    }
}

/// The basic facts about `spec_div_ceil` on positive operands: the
/// quotient covers `a` and no smaller quotient does.
pub proof fn lemma_div_ceil_props(a: int, b: int)
    requires
        a >= 1,
        b >= 1,
    ensures
        1 <= spec_div_ceil(a, b) <= a,
        (spec_div_ceil(a, b) - 1) * b < a,
        a <= spec_div_ceil(a, b) * b,
{
    let q = spec_div_ceil(a, b);
    lemma_fundamental_div_mod(a + b - 1, b);
    let rem = (a + b - 1) % b;
    assert(a + b - 1 == b * q + rem);
    assert(0 <= rem < b);
    assert(q * b == a + b - 1 - rem) by (nonlinear_arith)
        requires
            a + b - 1 == b * q + rem,
    ;
    assert((q - 1) * b == q * b - b) by (nonlinear_arith);
    assert(q >= 1) by (nonlinear_arith)
        requires
            q * b >= a,
            a >= 1,
            b >= 1,
    ;
    assert((q - 1) * b >= q - 1) by (nonlinear_arith)
        requires
            b >= 1,
            q >= 1,
    ;
}

/// Count the dark samples of one block. Coordinates run over the block
/// extent; samples beyond the image edge are clamped, never skipped.
fn block_dark(img: &GrayscaleImage, x0: u64, y0: u64, sx: u64, sy: u64) -> (d: u128)
    requires
        img.wf(),
        img.width >= 1,
        img.height >= 1,
        sx <= u32::MAX,
        sy <= 2 * (u32::MAX as int),
        x0 + sx <= u64::MAX,
        y0 + sy <= u64::MAX,
    ensures
        d == spec_block_dark(*img, x0 as int, y0 as int, sx as nat, sy as nat),
        d <= sx * sy,
{
    let w: u64 = img.width as u64;
    let h: u64 = img.height as u64;
    let len: usize = img.pixels.len();
    let mut count: u128 = 0;
    let mut dy: u64 = 0;
    while dy < sy
        invariant
            img.wf(),
            img.width >= 1,
            img.height >= 1,
            w == img.width,
            h == img.height,
            len == img.pixels@.len(),
            sx <= u32::MAX,
            sy <= 2 * (u32::MAX as int),
            x0 + sx <= u64::MAX,
            y0 + sy <= u64::MAX,
            dy <= sy,
            count == spec_block_dark(*img, x0 as int, y0 as int, sx as nat, dy as nat),
            count <= dy * sx,
        decreases sy - dy,
    {
        let y = if y0 + dy < h {
            y0 + dy
        } else {
            h - 1
        };
        let mut dx: u64 = 0;
        let ghost count_before = count;
        while dx < sx
            invariant
                img.wf(),
                img.width >= 1,
                img.height >= 1,
                w == img.width,
                h == img.height,
                len == img.pixels@.len(),
                sx <= u32::MAX,
                sy <= 2 * (u32::MAX as int),
                dy < sy,
                x0 + sx <= u64::MAX,
                dx <= sx,
                y == vstd::math::min(y0 + dy, h - 1),
                count == count_before + spec_row_dark(*img, x0 as int, (y0 + dy) as int, dx as nat),
                count_before <= dy * sx,
                count <= count_before + dx,
            decreases sx - dx,
        {
            let x = if x0 + dx < w {
                x0 + dx
            } else {
                w - 1
            };
            proof {
                assert(y * w + x < w * h) by (nonlinear_arith)
                    requires
                        x < w,
                        y < h,
                        w >= 1,
                ;
                assert(count < u128::MAX) by (nonlinear_arith)
                    requires
                        count <= count_before + dx,
                        count_before <= dy * sx,
                        dx < sx,
                        dy < sy,
                        sx <= u32::MAX,
                        sy <= 2 * (u32::MAX as int),
                ;
            }
            let idx: usize = (y * w + x) as usize;
            let p = img.pixels[idx];
            assert(p == spec_sample(*img, (x0 + dx) as int, (y0 + dy) as int));
            if p < 128 {
                count = count + 1;
            }
            dx = dx + 1;
        }
        proof {
            assert(count <= count_before + sx);
            assert(count_before <= dy * sx);
            assert((dy + 1) * sx == dy * sx + sx) by (nonlinear_arith);
        }
        dy = dy + 1;
    }
    proof {
        assert(count <= sy * sx);
        assert(sy * sx == sx * sy) by (nonlinear_arith);
    }
    count
}

/// Downsample a grayscale raster into a symbol grid. The image is
/// partitioned into blocks of `sx` by `2 * sx` pixels, where `sx` is
/// the horizontal sampling step; each block becomes the symbol of its
/// dark-pixel ratio. The grid has `ceil(height / (2 * sx))` rows of
/// `ceil(width / sx)` symbols each, in top-to-bottom, left-to-right
/// order.
pub fn downsample(img: &GrayscaleImage, terminal_width: usize) -> (grid: Vec<Vec<Symbol>>)
    requires
        img.wf(),
        img.width >= 1,
        img.height >= 1,
        terminal_width >= 1,
    ensures
        grid@.len() == spec_div_ceil(
            img.height as int,
            2 * spec_scale_x(img.width as int, terminal_width as int),
        ),
        forall|r: int|
            0 <= r < grid@.len() ==> #[trigger] grid@[r]@.len() == spec_div_ceil(
                img.width as int,
                spec_scale_x(img.width as int, terminal_width as int),
            ),
        forall|r: int, c: int|
            0 <= r < grid@.len() && 0 <= c < grid@[r]@.len() ==> #[trigger] grid@[r]@[c]
                == spec_block_symbol(*img, terminal_width as int, r, c),
{
    let w: u64 = img.width as u64;
    let h: u64 = img.height as u64;
    let sx: u64 = scale_x(img.width, terminal_width) as u64;
    let sy: u64 = 2 * sx;
    let n_cols: u64 = (w + sx - 1) / sx;
    let n_rows: u64 = (h + sy - 1) / sy;
    proof {
        lemma_div_ceil_props(w as int, sx as int);
        lemma_div_ceil_props(h as int, sy as int);
    }
    let mut grid: Vec<Vec<Symbol>> = Vec::new();
    let mut r: u64 = 0;
    while r < n_rows
        invariant
            img.wf(),
            img.width >= 1,
            img.height >= 1,
            w == img.width,
            h == img.height,
            sx == spec_scale_x(img.width as int, terminal_width as int),
            1 <= sx <= w,
            sy == 2 * sx,
            n_cols == spec_div_ceil(w as int, sx as int),
            n_rows == spec_div_ceil(h as int, sy as int),
            1 <= n_cols <= w,
            1 <= n_rows <= h,
            (n_cols - 1) * sx < w,
            (n_rows - 1) * sy < h,
            r <= n_rows,
            grid@.len() == r,
            forall|rr: int| 0 <= rr < r ==> #[trigger] grid@[rr]@.len() == n_cols,
            forall|rr: int, cc: int|
                0 <= rr < r && 0 <= cc < n_cols ==> #[trigger] grid@[rr]@[cc]
                    == spec_block_symbol(*img, terminal_width as int, rr, cc),
        decreases n_rows - r,
    {
        proof {
            assert((r as int) * (sy as int) < h) by (nonlinear_arith)
                requires
                    r < n_rows,
                    (n_rows - 1) * sy < h,
                    sy >= 1,
            ;
        }
        let y0: u64 = r * sy;
        let mut row: Vec<Symbol> = Vec::new();
        let mut c: u64 = 0;
        while c < n_cols
            invariant
                img.wf(),
                img.width >= 1,
                img.height >= 1,
                w == img.width,
                h == img.height,
                sx == spec_scale_x(img.width as int, terminal_width as int),
                1 <= sx <= w,
                sy == 2 * sx,
                n_cols == spec_div_ceil(w as int, sx as int),
                1 <= n_cols <= w,
                (n_cols - 1) * sx < w,
                y0 < h,
                y0 == r * sy,
                c <= n_cols,
                row@.len() == c,
                forall|cc: int|
                    0 <= cc < c ==> #[trigger] row@[cc] == spec_block_symbol(
                        *img,
                        terminal_width as int,
                        r as int,
                        cc,
                    ),
            decreases n_cols - c,
        {
            proof {
                assert((c as int) * (sx as int) < w) by (nonlinear_arith)
                    requires
                        c < n_cols,
                        (n_cols - 1) * sx < w,
                        sx >= 1,
                ;
                assert((sx as int) * (sy as int) <= u128::MAX / 10) by (nonlinear_arith)
                    requires
                        sx <= u32::MAX,
                        sy <= 2 * (u32::MAX as int),
                ;
            }
            let x0: u64 = c * sx;
            let d = block_dark(img, x0, y0, sx, sy);
            let total: u128 = (sx as u128) * (sy as u128);
            let s = classify(d, total);
            row.push(s);
            c = c + 1;
        }
        grid.push(row);
        r = r + 1;
    }
    grid
}

} // verus!
