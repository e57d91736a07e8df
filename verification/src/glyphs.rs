//! The glyph alphabet of the rendered raster and the per-cell transforms:
//! darkness classification, color inversion and vertical pair merging.

use vstd::prelude::*;

verus! {

/// One character cell of a downsampled QR raster.
#[derive(Clone, Copy, PartialEq, Eq, Structural, Debug)]
pub enum Symbol {
    /// Very dark block, rendered as a full block glyph.
    Full,
    /// Medium-dark block, rendered as a dark shade glyph.
    MediumShade,
    /// Light block, rendered as a medium shade glyph.
    LightShade,
    /// Very light block, rendered as a space.
    Blank,
}

/// Classification of a sampling block by its dark-pixel ratio
/// `dark / total`. The thresholds are exclusive: a ratio above 7/10 is
/// `Full`, above 4/10 `MediumShade`, above 2/10 `LightShade`, and
/// anything else (a boundary value included) falls to the lower symbol.
pub open spec fn spec_classify(dark: nat, total: nat) -> Symbol {
    if 10 * dark > 7 * total {
        Symbol::Full
    } else if 10 * dark > 4 * total {
        Symbol::MediumShade
    } else if 10 * dark > 2 * total {
        Symbol::LightShade
    } else {
        Symbol::Blank
    }
}

/// Law: the classification is exclusive at each of its thresholds: a
/// block whose darkness ratio equals 7/10, 4/10 or 2/10 exactly fails
/// the strict comparison and falls to the lower symbol. Totality over
/// all ratios holds by construction of `spec_classify`.
pub proof fn lemma_classify_threshold_exclusive(dark: nat, total: nat)
    requires
        total >= 1,
    ensures
        10 * dark == 7 * total ==> spec_classify(dark, total) == Symbol::MediumShade,
        10 * dark == 4 * total ==> spec_classify(dark, total) == Symbol::LightShade,
        10 * dark == 2 * total ==> spec_classify(dark, total) == Symbol::Blank,
{
}

/// Classify a sampling block from its dark-pixel count and its size.
pub fn classify(dark: u128, total: u128) -> (s: Symbol)
    requires
        dark <= total,
        total <= u128::MAX / 10,
    ensures
        s == spec_classify(dark as nat, total as nat),
{
    if 10 * dark > 7 * total {
        Symbol::Full
    } else if 10 * dark > 4 * total {
        Symbol::MediumShade
    } else if 10 * dark > 2 * total {
        Symbol::LightShade
    } else {
        Symbol::Blank
    }
}

/// The printable glyph of a symbol.
pub open spec fn spec_glyph(s: Symbol) -> char {
    match s {
        Symbol::Full => '█',
        Symbol::MediumShade => '▓',
        Symbol::LightShade => '▒',
        Symbol::Blank => ' ',
    }
}

/// Render a symbol as its printable glyph.
pub fn glyph(s: Symbol) -> (c: char)
    ensures
        c == spec_glyph(s),
{
    match s {
        Symbol::Full => '█',
        Symbol::MediumShade => '▓',
        Symbol::LightShade => '▒',
        Symbol::Blank => ' ',
    }
}

/// The inverted-color substitute of a single glyph. The table is
/// asymmetric by design: the dark shade inverts to a light shade glyph
/// that is itself left alone by a further inversion, so only the full
/// block and the space round-trip. Any character outside the table is
/// unchanged.
pub open spec fn spec_invert_char(c: char) -> char {
    if c == '█' {
        ' '
    } else if c == '▓' {
        '░'
    } else if c == '▒' {
        '▓'
    } else if c == ' ' {
        '█'
    } else {
        c
    }
}

/// Invert the polarity of one glyph.
pub fn invert_char(c: char) -> (r: char)
    ensures
        r == spec_invert_char(c),
{
    match c {
        '█' => ' ',
        '▓' => '░',
        '▒' => '▓',
        ' ' => '█',
        _ => c,
    }
}

/// Whether a glyph counts as dark when merging two rows into one.
pub open spec fn spec_is_dark_glyph(c: char) -> bool {
    c == '█' || c == '▓' || c == '▒'
}

/// The half-height glyph standing for a vertical pair of cells: a dark
/// glyph over a space gives an upper half block, a space over a dark
/// glyph a lower half block, two equal dark glyphs keep their shade,
/// and every other pair becomes a space.
pub open spec fn spec_merge_pair(top: char, bottom: char) -> char {
    if spec_is_dark_glyph(top) && bottom == ' ' {
        '▀'
    } else if top == ' ' && spec_is_dark_glyph(bottom) {
        '▄'
    } else if top == '█' && bottom == '█' {
        '█'
    } else if top == '▓' && bottom == '▓' {
        '▓'
    } else if top == '▒' && bottom == '▒' {
        '▒'
    } else {
        ' '
    }
}

/// Merge a vertical pair of glyphs into one half-height glyph.
pub fn merge_pair(top: char, bottom: char) -> (r: char)
    ensures
        r == spec_merge_pair(top, bottom),
{
    match (top, bottom) {
        ('█' | '▓' | '▒', ' ') => '▀',
        (' ', '█' | '▓' | '▒') => '▄',
        ('█', '█') => '█',
        ('▓', '▓') => '▓',
        ('▒', '▒') => '▒',
        _ => ' ',
    }
}

} // verus!
