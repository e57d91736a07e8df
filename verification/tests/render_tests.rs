use easy_totp::glyphs::{classify, glyph, invert_char, merge_pair, Symbol};
use easy_totp::raster::{downsample, scale_x, GrayscaleImage};
use easy_totp::render::{
    apply_color_mode, caption_lines, reduce_size, render_raster, QRColorMode, TerminalQRSize,
};

fn chars(s: &str) -> Vec<char> {
    s.chars().collect()
}

fn solid_image(width: usize, height: usize, intensity: u8) -> GrayscaleImage {
    GrayscaleImage::new(width, height, vec![intensity; width * height]).unwrap()
}

#[test]
fn scale_is_at_least_one() {
    assert_eq!(scale_x(1, 100), 1);
    assert_eq!(scale_x(99, 100), 1);
    assert_eq!(scale_x(100, 100), 1);
    assert_eq!(scale_x(200, 100), 2);
    assert_eq!(scale_x(250, 100), 2);
    assert_eq!(scale_x(5, 1), 5);
}

#[test]
fn classification_thresholds_are_exclusive() {
    assert_eq!(classify(70, 100), Symbol::MediumShade);
    assert_eq!(classify(7, 10), Symbol::MediumShade);
    assert_eq!(classify(71, 100), Symbol::Full);
    assert_eq!(classify(40, 100), Symbol::LightShade);
    assert_eq!(classify(41, 100), Symbol::MediumShade);
    assert_eq!(classify(20, 100), Symbol::Blank);
    assert_eq!(classify(21, 100), Symbol::LightShade);
    assert_eq!(classify(0, 8), Symbol::Blank);
    assert_eq!(classify(8, 8), Symbol::Full);
}

#[test]
fn glyphs_of_symbols() {
    assert_eq!(glyph(Symbol::Full), '█');
    assert_eq!(glyph(Symbol::MediumShade), '▓');
    assert_eq!(glyph(Symbol::LightShade), '▒');
    assert_eq!(glyph(Symbol::Blank), ' ');
}

#[test]
fn inversion_round_trips_only_for_full_and_blank() {
    assert_eq!(invert_char('█'), ' ');
    assert_eq!(invert_char(' '), '█');
    assert_eq!(invert_char(invert_char('█')), '█');
    assert_eq!(invert_char(invert_char(' ')), ' ');
    // The shade glyphs do not round-trip: the table is asymmetric by
    // design and must stay so.
    assert_eq!(invert_char('▓'), '░');
    assert_eq!(invert_char('░'), '░');
    assert_ne!(invert_char(invert_char('▓')), '▓');
    assert_eq!(invert_char('▒'), '▓');
    assert_ne!(invert_char(invert_char('▒')), '▒');
}

#[test]
fn inversion_skips_lines_with_markers() {
    let rows = vec![
        chars("████"),
        chars("Scan me"),
        chars("█:█"),
        chars("█.█"),
        chars("█@█"),
        chars("█!█"),
        chars("█a█"),
        chars("█7█"),
    ];
    let out = apply_color_mode(rows.clone(), QRColorMode::Inverted);
    assert_eq!(out[0], chars("    "));
    for i in 1..rows.len() {
        assert_eq!(out[i], rows[i]);
    }
}

#[test]
fn direct_mode_changes_nothing() {
    let rows = vec![chars("█▓▒ ░"), chars("text.")];
    let out = apply_color_mode(rows.clone(), QRColorMode::Direct);
    assert_eq!(out, rows);
}

#[test]
fn inversion_table_applies_per_glyph() {
    let rows = vec![chars("█▓▒ ░▀")];
    let out = apply_color_mode(rows, QRColorMode::Inverted);
    assert_eq!(out[0], chars(" ░▓█░▀"));
}

#[test]
fn downsample_counts_rows_and_columns() {
    // 10 by 10 image at terminal width 3: the step is 3 columns and 6
    // rows, so the grid is ceil(10 / 3) = 4 columns by ceil(10 / 6) = 2
    // rows.
    let img = solid_image(10, 10, 0);
    let grid = downsample(&img, 3);
    assert_eq!(grid.len(), 2);
    for row in &grid {
        assert_eq!(row.len(), 4);
    }
}

#[test]
fn mini_mode_merges_row_pairs() {
    let rows = vec![chars("█▓ ░"), chars("  ▓░")];
    let out = reduce_size(rows, TerminalQRSize::Mini);
    assert_eq!(out.len(), 1);
    assert_eq!(out[0], chars("▀▀▄ "));
}

#[test]
fn mini_mode_keeps_equal_shades() {
    let rows = vec![chars("█▓▒"), chars("█▓▒")];
    let out = reduce_size(rows, TerminalQRSize::Mini);
    assert_eq!(out, vec![chars("█▓▒")]);
}

#[test]
fn mini_mode_pads_an_odd_final_row_with_blanks() {
    let rows = vec![chars("██"), chars("  "), chars("█▒")];
    let out = reduce_size(rows, TerminalQRSize::Mini);
    assert_eq!(out.len(), 2);
    assert_eq!(out[0], chars("▀▀"));
    assert_eq!(out[1], chars("▀▀"));
}

#[test]
fn full_size_changes_nothing() {
    let rows = vec![chars("█▓"), chars(" ░")];
    let out = reduce_size(rows.clone(), TerminalQRSize::Full);
    assert_eq!(out, rows);
}

#[test]
fn captions_come_in_fixed_order() {
    let caps = caption_lines();
    assert_eq!(caps.len(), 5);
    assert_eq!(
        caps[0],
        "Scan the above QR code with your authenticator app to set up TOTP."
    );
    assert_eq!(
        caps[1],
        "BEWARE: this QR code contains your secret key! Handle with care."
    );
    assert_eq!(caps[4], "the QR code to be completely visible onscreen.");
}

#[test]
fn black_image_renders_full_blocks() {
    // 200 by 200 all-black pixels at terminal width 100: the step is 2
    // by 4, every block is fully dark, so the raster is 50 rows of 100
    // full blocks, followed by the 5 caption lines.
    let img = solid_image(200, 200, 0);
    let lines = render_raster(&img, 100, QRColorMode::Direct, TerminalQRSize::Full);
    assert_eq!(lines.len(), 55);
    for line in &lines[..50] {
        assert_eq!(line, &"█".repeat(100));
    }
    let caps = caption_lines();
    for i in 0..5 {
        assert_eq!(lines[50 + i], caps[i]);
    }
    let inverted = render_raster(&img, 100, QRColorMode::Inverted, TerminalQRSize::Full);
    assert_eq!(inverted.len(), 55);
    for line in &inverted[..50] {
        assert_eq!(line, &" ".repeat(100));
    }
}

#[test]
fn white_image_renders_blanks() {
    let img = solid_image(200, 200, 255);
    let lines = render_raster(&img, 100, QRColorMode::Direct, TerminalQRSize::Full);
    assert_eq!(lines.len(), 55);
    for line in &lines[..50] {
        assert_eq!(line, &" ".repeat(100));
    }
    let inverted = render_raster(&img, 100, QRColorMode::Inverted, TerminalQRSize::Full);
    for line in &inverted[..50] {
        assert_eq!(line, &"█".repeat(100));
    }
}

#[test]
fn checkerboard_renders_medium_shade() {
    // A one-pixel checkerboard makes every 2 by 4 block exactly half
    // dark; a ratio of 0.5 lies above the 0.4 threshold, so every cell
    // is the medium shade.
    let mut pixels = Vec::new();
    for y in 0..200usize {
        for x in 0..200usize {
            pixels.push(if (x + y) % 2 == 0 { 0u8 } else { 255u8 });
        }
    }
    let img = GrayscaleImage::new(200, 200, pixels).unwrap();
    let lines = render_raster(&img, 100, QRColorMode::Direct, TerminalQRSize::Full);
    assert_eq!(lines.len(), 55);
    for line in &lines[..50] {
        assert_eq!(line, &"▓".repeat(100));
    }
}

#[test]
fn mini_render_halves_the_raster_rows() {
    let img = solid_image(200, 200, 0);
    let full = render_raster(&img, 100, QRColorMode::Direct, TerminalQRSize::Full);
    let mini = render_raster(&img, 100, QRColorMode::Direct, TerminalQRSize::Mini);
    let full_raster_rows = full.len() - 5;
    let mini_raster_rows = mini.len() - 5;
    assert_eq!(mini_raster_rows, full_raster_rows.div_ceil(2));
    for line in &mini[..mini_raster_rows] {
        assert_eq!(line, &"█".repeat(100));
    }
}

#[test]
fn narrow_image_keeps_every_column() {
    // An image narrower than the terminal keeps a step of one: every
    // pixel becomes its own column and pairs of rows form one block.
    let img = solid_image(5, 4, 0);
    let grid = downsample(&img, 100);
    assert_eq!(grid.len(), 2);
    for row in &grid {
        assert_eq!(row.len(), 5);
        for s in row {
            assert_eq!(*s, Symbol::Full);
        }
    }
}

#[test]
fn merge_pair_table() {
    assert_eq!(merge_pair('█', ' '), '▀');
    assert_eq!(merge_pair('▓', ' '), '▀');
    assert_eq!(merge_pair('▒', ' '), '▀');
    assert_eq!(merge_pair(' ', '█'), '▄');
    assert_eq!(merge_pair(' ', '▓'), '▄');
    assert_eq!(merge_pair('█', '█'), '█');
    assert_eq!(merge_pair('▓', '▓'), '▓');
    assert_eq!(merge_pair('▒', '▒'), '▒');
    assert_eq!(merge_pair('█', '▓'), ' ');
    assert_eq!(merge_pair('░', ' '), ' ');
    assert_eq!(merge_pair('░', '░'), ' ');
}

#[test]
fn zero_dimensions_are_rejected() {
    assert!(GrayscaleImage::new(0, 5, vec![]).is_none());
    assert!(GrayscaleImage::new(5, 0, vec![]).is_none());
    assert!(GrayscaleImage::new(2, 2, vec![0u8; 3]).is_none());
    assert!(GrayscaleImage::new(2, 2, vec![0u8; 4]).is_some());
}
