//! The line-level pipeline: glyph rows, the color-mode transform with
//! its caption-skip rule, the mini-size reduction, the caption lines,
//! and the full raster-to-lines rendering.

use vstd::prelude::*;
use crate::glyphs::{Symbol, spec_glyph, glyph, spec_invert_char, invert_char, spec_merge_pair, merge_pair};
use crate::raster::{GrayscaleImage, spec_scale_x, spec_div_ceil, spec_block_symbol, downsample};
use crate::outside::{char_alnum_of, char_is_alphanumeric, chars_to_string};

verus! {

/// Whether the rendered glyphs match the source polarity (`Direct`) or
/// are flipped (`Inverted`). For light terminal themes use `Direct`;
/// for dark themes `Inverted`. Some scanners read either.
#[derive(Clone, Copy, Debug, Default, PartialEq, Eq, Structural, Hash)]
pub enum QRColorMode {
    /// Dark image pixels become dark glyphs.
    Direct,
    /// The glyph polarity is flipped per cell.
    #[default]
    Inverted,
}

/// Whether the raster keeps one output row per block row (`Full`) or
/// merges vertically adjacent row pairs into half-block glyphs
/// (`Mini`), halving the height.
#[derive(Clone, Copy, Debug, Default, PartialEq, Eq, Structural, Hash)]
pub enum TerminalQRSize {
    /// One output row per block row.
    #[default]
    Full,
    /// Row pairs merged into half-block glyphs.
    Mini,
}

/// Whether a character marks a line as caption text: an alphanumeric
/// character or one of `:`, `.`, `@`, `!`.
pub open spec fn spec_is_marker(c: char) -> bool {
    char_alnum_of(c) || c == ':' || c == '.' || c == '@' || c == '!'
}

/// Whether a line contains a caption marker anywhere.
pub open spec fn spec_has_marker(line: Seq<char>) -> bool {
    exists|i: int| 0 <= i < line.len() && spec_is_marker(line[i])
}

/// The inversion of one line: a line with a caption marker is left
/// alone, any other line is inverted glyph by glyph.
pub open spec fn spec_invert_line(line: Seq<char>) -> Seq<char> {
    if spec_has_marker(line) {
        line
    } else {
        Seq::new(line.len(), |i: int| spec_invert_char(line[i]))
    }
}

/// One line under a color mode: unchanged in `Direct`, inverted with
/// the caption-skip rule in `Inverted`.
pub open spec fn spec_mode_line(line: Seq<char>, mode: QRColorMode) -> Seq<char> {
    match mode {
        QRColorMode::Direct => line,
        QRColorMode::Inverted => spec_invert_line(line),
    }
}

/// The whole grid under a color mode, line by line.
pub open spec fn spec_apply_mode(rows: Seq<Seq<char>>, mode: QRColorMode) -> Seq<Seq<char>> {
    Seq::new(rows.len(), |i: int| spec_mode_line(rows[i], mode))
}

/// A row of `n` spaces.
pub open spec fn spec_blank_row(n: nat) -> Seq<char> {
    Seq::new(n, |i: int| ' ')
}

/// The half-height merge of two rows, column by column, over the
/// columns both rows have.
pub open spec fn spec_merge_rows(top: Seq<char>, bottom: Seq<char>) -> Seq<char> {
    Seq::new(
        vstd::math::min(top.len() as int, bottom.len() as int) as nat,
        |i: int| spec_merge_pair(top[i], bottom[i]),
    )
}

/// The views of a vector of rows, in order.
pub open spec fn views_of(rows: Seq<Vec<char>>) -> Seq<Seq<char>> {
    Seq::new(rows.len(), |i: int| rows[i]@)
}

/// Output row `i` of the mini reduction: rows `2i` and `2i + 1` merged;
/// a final row without a partner is paired with an all-blank row.
pub open spec fn spec_mini_row(rows: Seq<Seq<char>>, i: int) -> Seq<char> {
    if 2 * i + 1 < rows.len() {
        spec_merge_rows(rows[2 * i], rows[2 * i + 1])
    } else {
        spec_merge_rows(rows[2 * i], spec_blank_row(rows[2 * i].len()))
    }
}

/// The grid under a size mode: unchanged in `Full`; in `Mini` the rows
/// are merged two at a time into `ceil(len / 2)` half-height rows.
pub open spec fn spec_reduce(rows: Seq<Seq<char>>, size: TerminalQRSize) -> Seq<Seq<char>> {
    match size {
        TerminalQRSize::Full => rows,
        TerminalQRSize::Mini => Seq::new(
            ((rows.len() + 1) / 2) as nat,
            |i: int| spec_mini_row(rows, i),
        ),
    }
}

/// The downsampled raster as glyph rows.
pub open spec fn spec_glyph_grid(img: GrayscaleImage, terminal_width: int) -> Seq<Seq<char>> {
    Seq::new(
        spec_div_ceil(
            img.height as int,
            2 * spec_scale_x(img.width as int, terminal_width),
        ) as nat,
        |r: int|
            Seq::new(
                spec_div_ceil(img.width as int, spec_scale_x(img.width as int, terminal_width)) as nat,
                |c: int| spec_glyph(spec_block_symbol(img, terminal_width, r, c)),
            ),
    )
}

/// The fixed instructional lines appended after the raster.
pub open spec fn spec_captions() -> Seq<Seq<char>> {
    seq![
        "Scan the above QR code with your authenticator app to set up TOTP."@,
        "BEWARE: this QR code contains your secret key! Handle with care."@,
        "Useful tips: if scanning fails, try inverting the QR code colors by adjusting your terminal's background color or "@,
        "using your mouse to select the entire QR code area. Also, ensure your terminal zoom is set to a level that allows "@,
        "the QR code to be completely visible onscreen."@,
    ]
}

/// The complete rendering of a raster: downsample, apply the color
/// mode, apply the size mode, then append the captions.
pub open spec fn spec_render(
    img: GrayscaleImage,
    terminal_width: int,
    mode: QRColorMode,
    size: TerminalQRSize,
) -> Seq<Seq<char>> {
    spec_reduce(spec_apply_mode(spec_glyph_grid(img, terminal_width), mode), size)
        + spec_captions()
}

/// Law: a line that contains an alphanumeric character or one of `:`,
/// `.`, `@`, `!` is never altered by the inversion transform, whatever
/// the rest of the line holds.
pub proof fn lemma_marker_line_not_inverted(line: Seq<char>)
    requires
        spec_has_marker(line),
    ensures
        spec_invert_line(line) == line,
{
}

/// Turn a symbol grid into rows of printable glyphs.
pub fn glyph_rows(grid: &Vec<Vec<Symbol>>) -> (rows: Vec<Vec<char>>)
    ensures
        rows@.len() == grid@.len(),
        forall|r: int|
            0 <= r < grid@.len() ==> #[trigger] rows@[r]@ == Seq::new(
                grid@[r]@.len(),
                |c: int| spec_glyph(grid@[r]@[c]),
            ),
{
    let mut rows: Vec<Vec<char>> = Vec::new();
    let mut r: usize = 0;
    while r < grid.len()
        invariant
            r <= grid@.len(),
            rows@.len() == r,
            forall|rr: int|
                0 <= rr < r ==> #[trigger] rows@[rr]@ == Seq::new(
                    grid@[rr]@.len(),
                    |c: int| spec_glyph(grid@[rr]@[c]),
                ),
        decreases grid@.len() - r,
    {
        let line = &grid[r];
        let mut row: Vec<char> = Vec::new();
        let mut c: usize = 0;
        while c < line.len()
            invariant
                c <= line@.len(),
                row@.len() == c,
                forall|cc: int| 0 <= cc < c ==> #[trigger] row@[cc] == spec_glyph(line@[cc]),
            decreases line@.len() - c,
        {
            row.push(glyph(line[c]));
            c = c + 1;
        }
        proof {
            assert(row@ =~= Seq::new(line@.len(), |cc: int| spec_glyph(line@[cc])));
        }
        rows.push(row);
        r = r + 1;
    }
    rows
}

/// Whether a line contains a caption marker.
fn line_has_marker(line: &Vec<char>) -> (r: bool)
    ensures
        r == spec_has_marker(line@),
{
    let mut i: usize = 0;
    while i < line.len()
        invariant
            i <= line@.len(),
            forall|j: int| 0 <= j < i ==> !spec_is_marker(#[trigger] line@[j]),
        decreases line@.len() - i,
    {
        let c = line[i];
        let alnum = char_is_alphanumeric(c);
        if alnum || c == ':' || c == '.' || c == '@' || c == '!' {
            assert(spec_is_marker(line@[i as int]));
            return true;
        }
        i = i + 1;
    }
    false
}

/// Invert one line, leaving caption-marked lines alone.
fn invert_line(line: &Vec<char>) -> (out: Vec<char>)
    ensures
        out@ == spec_invert_line(line@),
{
    let mut out: Vec<char> = Vec::new();
    if line_has_marker(line) {
        let mut i: usize = 0;
        while i < line.len()
            invariant
                i <= line@.len(),
                out@ =~= line@.subrange(0, i as int),
            decreases line@.len() - i,
        {
            out.push(line[i]);
            i = i + 1;
        }
        proof {
            assert(out@ =~= line@);
        }
    } else {
        let mut i: usize = 0;
        while i < line.len()
            invariant
                i <= line@.len(),
                out@.len() == i,
                forall|j: int| 0 <= j < i ==> #[trigger] out@[j] == spec_invert_char(line@[j]),
            decreases line@.len() - i,
        {
            out.push(invert_char(line[i]));
            i = i + 1;
        }
        proof {
            assert(out@ =~= Seq::new(line@.len(), |j: int| spec_invert_char(line@[j])));
        }
    }
    out
}

/// Apply a color mode to a grid of glyph rows: `Direct` leaves the grid
/// alone; `Inverted` flips each line's polarity, skipping any line that
/// carries a caption marker.
pub fn apply_color_mode(rows: Vec<Vec<char>>, mode: QRColorMode) -> (out: Vec<Vec<char>>)
    ensures
        out@.len() == rows@.len(),
        forall|i: int|
            0 <= i < rows@.len() ==> #[trigger] out@[i]@ == spec_mode_line(rows@[i]@, mode),
{
    match mode {
        QRColorMode::Direct => rows,
        QRColorMode::Inverted => {
            let mut out: Vec<Vec<char>> = Vec::new();
            let mut i: usize = 0;
            while i < rows.len()
                invariant
                    i <= rows@.len(),
                    out@.len() == i,
                    forall|j: int|
                        0 <= j < i ==> #[trigger] out@[j]@ == spec_invert_line(rows@[j]@),
                decreases rows@.len() - i,
            {
                out.push(invert_line(&rows[i]));
                i = i + 1;
            }
            out
        },
    }
}

/// A row of `n` spaces.
fn blank_row(n: usize) -> (out: Vec<char>)
    ensures
        out@ == spec_blank_row(n as nat),
{
    let mut out: Vec<char> = Vec::new();
    let mut i: usize = 0;
    while i < n
        invariant
            i <= n,
            out@.len() == i,
            forall|j: int| 0 <= j < i ==> #[trigger] out@[j] == ' ',
        decreases n - i,
    {
        out.push(' ');
        i = i + 1;
    }
    proof {
        assert(out@ =~= spec_blank_row(n as nat));
    }
    out
}

/// Merge two rows column by column into half-height glyphs.
fn merge_rows(top: &Vec<char>, bottom: &Vec<char>) -> (out: Vec<char>)
    ensures
        out@ == spec_merge_rows(top@, bottom@),
{
    let n = if top.len() < bottom.len() {
        top.len()
    } else {
        bottom.len()
    };
    let mut out: Vec<char> = Vec::new();
    let mut i: usize = 0;
    while i < n
        invariant
            n == vstd::math::min(top@.len() as int, bottom@.len() as int),
            i <= n,
            out@.len() == i,
            forall|j: int|
                0 <= j < i ==> #[trigger] out@[j] == spec_merge_pair(top@[j], bottom@[j]),
        decreases n - i,
    {
        out.push(merge_pair(top[i], bottom[i]));
        i = i + 1;
    }
    proof {
        assert(out@ =~= spec_merge_rows(top@, bottom@));
    }
    out
}

/// Apply a size mode: `Full` keeps the rows; `Mini` merges them two at
/// a time into `ceil(len / 2)` rows, pairing a final odd row with an
/// all-blank row of its own width.
pub fn reduce_size(rows: Vec<Vec<char>>, size: TerminalQRSize) -> (out: Vec<Vec<char>>)
    ensures
        size == TerminalQRSize::Full ==> out@ == rows@,
        size == TerminalQRSize::Mini ==> {
            &&& out@.len() == (rows@.len() + 1) / 2
            &&& forall|i: int|
                0 <= i < out@.len() ==> #[trigger] out@[i]@ == spec_mini_row(views_of(rows@), i)
        },
{
    match size {
        TerminalQRSize::Full => rows,
        TerminalQRSize::Mini => {
            let len = rows.len();
            let n_out = len / 2 + len % 2;
            proof {
                assert(n_out == (rows@.len() + 1) / 2);
            }
            let mut out: Vec<Vec<char>> = Vec::new();
            let mut i: usize = 0;
            while i < n_out
                invariant
                    len == rows@.len(),
                    n_out == (rows@.len() + 1) / 2,
                    i <= n_out,
                    out@.len() == i,
                    forall|j: int|
                        0 <= j < i ==> #[trigger] out@[j]@ == spec_mini_row(views_of(rows@), j),
                decreases n_out - i,
            {
                proof {
                    assert(2 * n_out <= rows@.len() + 1);
                    assert(2 * (i as int) < rows@.len());
                }
                let top = &rows[2 * i];
                if 2 * i + 1 < rows.len() {
                    let merged = merge_rows(top, &rows[2 * i + 1]);
                    out.push(merged);
                } else {
                    let pad = blank_row(top.len());
                    let merged = merge_rows(top, &pad);
                    out.push(merged);
                }
                proof {
                    assert(out@[i as int]@ == spec_mini_row(views_of(rows@), i as int));
                }
                i = i + 1;
            }
            out
        },
    }
}

/// The fixed instructional lines appended after the raster, in order.
pub fn caption_lines() -> (out: Vec<String>)
    ensures
        out@.len() == spec_captions().len(),
        forall|i: int| 0 <= i < out@.len() ==> #[trigger] out@[i]@ == spec_captions()[i],
{
    let mut out: Vec<String> = Vec::new();
    out.push("Scan the above QR code with your authenticator app to set up TOTP.".to_owned());
    out.push("BEWARE: this QR code contains your secret key! Handle with care.".to_owned());
    out.push(
        "Useful tips: if scanning fails, try inverting the QR code colors by adjusting your terminal's background color or ".to_owned(),
    );
    out.push(
        "using your mouse to select the entire QR code area. Also, ensure your terminal zoom is set to a level that allows ".to_owned(),
    );
    out.push("the QR code to be completely visible onscreen.".to_owned());
    out
}

/// Render a grayscale raster as terminal lines: downsample into blocks,
/// apply the color mode, apply the size mode, then append the captions.
pub fn render_raster(
    img: &GrayscaleImage,
    terminal_width: usize,
    mode: QRColorMode,
    size: TerminalQRSize,
) -> (lines: Vec<String>)
    requires
        img.wf(),
        1 <= img.width,
        1 <= img.height,
        1 <= terminal_width,
    ensures
        lines@.len() == spec_render(*img, terminal_width as int, mode, size).len(),
        forall|i: int|
            0 <= i < lines@.len() ==> #[trigger] lines@[i]@ == spec_render(
                *img,
                terminal_width as int,
                mode,
                size,
            )[i],
{
    let ghost gg = spec_glyph_grid(*img, terminal_width as int);
    let ghost am = spec_apply_mode(gg, mode);
    let ghost red = spec_reduce(am, size);
    let grid = downsample(img, terminal_width);
    let rows = glyph_rows(&grid);
    let ghost rv = rows@;
    proof {
        assert(rv.len() == gg.len());
        assert forall|r: int| 0 <= r < rv.len() implies #[trigger] rv[r]@ == gg[r] by {
            assert(rv[r]@ =~= gg[r]);
        }
    }
    let colored = apply_color_mode(rows, mode);
    let ghost cv = colored@;
    proof {
        assert forall|i: int| 0 <= i < cv.len() implies #[trigger] cv[i]@ == am[i] by {
            assert(cv[i]@ == spec_mode_line(gg[i], mode));
        }
        assert(views_of(cv) =~= am);
    }
    let reduced = reduce_size(colored, size);
    proof {
        assert(reduced@.len() == red.len());
        assert forall|i: int| 0 <= i < reduced@.len() implies #[trigger] reduced@[i]@ == red[i] by {
            if size == TerminalQRSize::Mini {
                assert(reduced@[i]@ == spec_mini_row(views_of(cv), i));
                assert(reduced@[i]@ == spec_mini_row(am, i));
            }
        }
    }
    let mut lines: Vec<String> = Vec::new();
    let mut i: usize = 0;
    while i < reduced.len()
        invariant
            i <= reduced@.len(),
            lines@.len() == i,
            forall|j: int| 0 <= j < i ==> #[trigger] lines@[j]@ == reduced@[j]@,
        decreases reduced@.len() - i,
    {
        lines.push(chars_to_string(&reduced[i]));
        i = i + 1;
    }
    let mut caps = caption_lines();
    let ghost lines_before = lines@;
    let mut k: usize = 0;
    while k < caps.len()
        invariant
            k <= caps@.len(),
            caps@.len() == spec_captions().len(),
            forall|j: int| 0 <= j < caps@.len() ==> #[trigger] caps@[j]@ == spec_captions()[j],
            lines@.len() == lines_before.len() + k,
            forall|j: int| 0 <= j < lines_before.len() ==> #[trigger] lines@[j] == lines_before[j],
            forall|j: int|
                0 <= j < k ==> #[trigger] lines@[lines_before.len() + j]@ == spec_captions()[j],
        decreases caps@.len() - k,
    {
        let s = caps[k].clone();
        lines.push(s);
        k = k + 1;
    }
    proof {
        let full = spec_render(*img, terminal_width as int, mode, size);
        assert(full.len() == red.len() + spec_captions().len());
        assert forall|j: int| 0 <= j < lines@.len() implies #[trigger] lines@[j]@ == full[j] by {
            if j < lines_before.len() {
                assert(lines@[j]@ == red[j]);
                assert(full[j] == red[j]);
            } else {
                let jj = j - red.len();
                assert(lines@[lines_before.len() + jj]@ == spec_captions()[jj]);
                assert(full[j] == spec_captions()[jj]);
            }
        }
    }
    lines
}

} // verus!
