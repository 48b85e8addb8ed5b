use badges::font::{measure_text, width_of_advances};
use badges::template::BadgeTemplate;
use badges::{BadgeBuilder, BadgeColor, BadgeStyle, FontFace};

const UNITS_PER_EM: u16 = 2048;

/// The advance of each letter `a` to `z` in the test font, in design units.
fn letter_advance(letter: char) -> u16 {
    match letter {
        'a' => 1255,
        'b' | 'd' | 'g' => 1300,
        'e' => 1260,
        'n' => 1298,
        'r' => 800,
        _ => 1200,
    }
}

fn put_u16(out: &mut Vec<u8>, value: u16) {
    out.extend_from_slice(&value.to_be_bytes());
}

fn put_u32(out: &mut Vec<u8>, value: u32) {
    out.extend_from_slice(&value.to_be_bytes());
}

fn head_table(units_per_em: u16) -> Vec<u8> {
    let mut table = Vec::new();
    put_u32(&mut table, 0x0001_0000); // version
    put_u32(&mut table, 0x0001_0000); // font revision
    put_u32(&mut table, 0); // checksum adjustment
    put_u32(&mut table, 0x5F0F_3CF5); // magic number
    put_u16(&mut table, 0); // flags
    put_u16(&mut table, units_per_em);
    table.extend_from_slice(&[0; 16]); // created, modified
    table.extend_from_slice(&[0; 8]); // bounding box
    put_u16(&mut table, 0); // mac style
    put_u16(&mut table, 8); // lowest readable size
    put_u16(&mut table, 2); // direction hint
    put_u16(&mut table, 0); // index to location format
    put_u16(&mut table, 0); // glyph data format
    table
}

fn hhea_table(number_of_metrics: u16) -> Vec<u8> {
    let mut table = Vec::new();
    put_u32(&mut table, 0x0001_0000); // version
    put_u16(&mut table, 1900); // ascender
    put_u16(&mut table, (-480i16) as u16); // descender
    put_u16(&mut table, 0); // line gap
    table.extend_from_slice(&[0; 24]);
    put_u16(&mut table, number_of_metrics);
    table
}

fn maxp_table(number_of_glyphs: u16) -> Vec<u8> {
    let mut table = Vec::new();
    put_u32(&mut table, 0x0000_5000); // version 0.5
    put_u16(&mut table, number_of_glyphs);
    table
}

/// Glyph 0 is the missing glyph; glyphs 1 to 26 are the letters.
fn hmtx_table() -> Vec<u8> {
    let mut table = Vec::new();
    put_u16(&mut table, 1000);
    put_u16(&mut table, 0);
    for letter in 'a'..='z' {
        put_u16(&mut table, letter_advance(letter));
        put_u16(&mut table, 0);
    }
    table
}

/// One Windows/Unicode subtable in format 6 that maps `a`..`z` to 1..26.
fn cmap_table() -> Vec<u8> {
    let mut table = Vec::new();
    put_u16(&mut table, 0); // version
    put_u16(&mut table, 1); // number of subtables
    put_u16(&mut table, 3); // platform: Windows
    put_u16(&mut table, 1); // encoding: Unicode BMP
    put_u32(&mut table, 12); // offset of the subtable
    put_u16(&mut table, 6); // format
    put_u16(&mut table, 10 + 2 * 26); // length
    put_u16(&mut table, 0); // language
    put_u16(&mut table, 'a' as u16); // first code
    put_u16(&mut table, 26); // entry count
    for glyph in 1..=26 {
        put_u16(&mut table, glyph);
    }
    table
}

/// A TrueType file with the five tables that measuring needs.
fn font_file(units_per_em: u16) -> Vec<u8> {
    let tables: [(&[u8; 4], Vec<u8>); 5] = [
        (b"cmap", cmap_table()),
        (b"head", head_table(units_per_em)),
        (b"hhea", hhea_table(27)),
        (b"hmtx", hmtx_table()),
        (b"maxp", maxp_table(27)),
    ];
    let mut file = Vec::new();
    put_u32(&mut file, 0x0001_0000);
    put_u16(&mut file, tables.len() as u16);
    put_u16(&mut file, 64); // search range
    put_u16(&mut file, 2); // entry selector
    put_u16(&mut file, 16); // range shift
    let mut offset = 12 + 16 * tables.len();
    for (tag, table) in tables.iter() {
        file.extend_from_slice(&tag[..]);
        put_u32(&mut file, 0); // checksum
        put_u32(&mut file, offset as u32);
        put_u32(&mut file, table.len() as u32);
        offset += table.len();
    }
    for (_, table) in tables.iter() {
        file.extend_from_slice(table);
    }
    file
}

fn test_font() -> FontFace {
    FontFace::parse(font_file(UNITS_PER_EM)).expect("the test font should parse")
}

const FLAT_BADGE: &str = "<svg xmlns=\"http://www.w3.org/2000/svg\" width=\"131\" height=\"20\">
<linearGradient id=\"b\" x2=\"0\" y2=\"100%\"><stop offset=\"0\" stop-color=\"#bbb\" stop-opacity=\".1\"/><stop offset=\"1\" stop-opacity=\".1\"/></linearGradient>
<mask id=\"a\"><rect width=\"131\" height=\"20\" rx=\"3\" fill=\"#fff\"/></mask>
<g mask=\"url(#a)\">
\t<rect width=\"58\" height=\"20\" fill=\"#555\"/>
\t<rect x=\"58\" width=\"73\" height=\"20\" fill=\"#4c1\"/>
\t<rect width=\"131\" height=\"20\" fill=\"url(#b)\"/>
</g>

<g fill=\"#fff\" text-anchor=\"middle\" font-family=\"DejaVu Sans,Verdana,Geneva,sans-serif\" font-size=\"11\">
\t<text x=\"29\" y=\"15\" fill=\"#010101\" fill-opacity=\".3\">badge</text>
\t<text x=\"94\" y=\"15\" fill=\"#010101\" fill-opacity=\".3\">rendered</text>
\t<text x=\"29\" y=\"14\">badge</text>
\t<text x=\"94\" y=\"14\">rendered</text>
</g>
</svg>";

const FLAT_SQUARE_BADGE: &str = "<svg xmlns=\"http://www.w3.org/2000/svg\" width=\"131\" height=\"20\">
<g shape-rendering=\"crispEdges\">
\t<rect width=\"58\" height=\"20\" fill=\"#555\"/>
\t<rect x=\"58\" width=\"73\" height=\"20\" fill=\"#4c1\"/>
</g>

<g fill=\"#fff\" text-anchor=\"middle\" font-family=\"DejaVu Sans,Verdana,Geneva,sans-serif\" font-size=\"11\">
\t<text x=\"29\" y=\"14\">badge</text>
\t<text x=\"94\" y=\"14\">rendered</text>
</g>
</svg>";

#[test]
fn test_flat() {
    let font = test_font();
    let template = BadgeTemplate::new(
        Some(&font),
        BadgeStyle::Flat,
        "badge",
        BadgeColor::Grey,
        "rendered",
        BadgeColor::Green,
    );
    let rendered = template.render().expect("failed to render template");
    assert_eq!(rendered, FLAT_BADGE);
}

#[test]
fn test_flat_square() {
    let font = test_font();
    let template = BadgeTemplate::new(
        Some(&font),
        BadgeStyle::FlatSquare,
        "badge",
        BadgeColor::Grey,
        "rendered",
        BadgeColor::Green,
    );
    let rendered = template.render().expect("failed to render template");
    assert_eq!(rendered, FLAT_SQUARE_BADGE);
}

#[test]
fn render_badge() {
    let font = test_font();
    let badge = BadgeBuilder::new()
        .font(&font)
        .message_color(BadgeColor::Green)
        .label("badge")
        .message("rendered")
        .style(BadgeStyle::Flat)
        .render()
        .expect("failed to render badge");

    assert_eq!(badge, FLAT_BADGE);
}

#[test]
fn render_square_badge() {
    let font = test_font();
    let badge = BadgeBuilder::new()
        .font(&font)
        .message_color(BadgeColor::Green)
        .label("badge")
        .message("rendered")
        .style(BadgeStyle::FlatSquare)
        .render()
        .expect("failed to render badge");

    assert_eq!(badge, FLAT_SQUARE_BADGE);
}

#[test]
fn rendering_twice_gives_the_same_document() {
    let font = test_font();
    let render = || {
        BadgeBuilder::new()
            .font(&font)
            .style(BadgeStyle::Flat)
            .label("build")
            .label_color(BadgeColor::CustomRgb(1, 2, 3))
            .message("passing")
            .message_color(BadgeColor::Green)
            .render()
            .expect("failed to render badge")
    };
    assert_eq!(render(), render());
}

#[test]
fn malformed_font_data_is_refused() {
    assert!(FontFace::parse(Vec::new()).is_none());
    assert!(FontFace::parse(vec![0, 1, 0, 0]).is_none());
    assert!(FontFace::parse(b"not a font at all".to_vec()).is_none());
    let mut truncated = font_file(UNITS_PER_EM);
    truncated.truncate(100);
    assert!(FontFace::parse(truncated).is_none());
    // Units per em outside 16..=16384 make a face malformed.
    assert!(FontFace::parse(font_file(8)).is_none());
    assert!(FontFace::parse(font_file(20000)).is_none());
}

#[test]
fn font_face_reports_its_units_per_em() {
    assert_eq!(test_font().units_per_em(), 2048);
    let coarse = FontFace::parse(font_file(1000)).expect("the test font should parse");
    assert_eq!(coarse.units_per_em(), 1000);
}

#[test]
fn measure_adds_scaled_advances_and_padding() {
    let font = test_font();
    // No glyphs: only the padding.
    assert_eq!(measure_text(&font, ""), 24);
    // 1255 * 11 / 2048 = 6.74 -> 6
    assert_eq!(measure_text(&font, "a"), 30);
    // 6415 * 11 / 2048 = 34.45 -> 34
    assert_eq!(measure_text(&font, "badge"), 58);
    // 9278 * 11 / 2048 = 49.83 -> 49
    assert_eq!(measure_text(&font, "rendered"), 73);
    // Characters without a glyph take the advance of the missing glyph:
    // 3000 * 11 / 2048 = 16.11 -> 16
    assert_eq!(measure_text(&font, "123"), 40);
}

#[test]
fn measure_depends_on_units_per_em() {
    let coarse = FontFace::parse(font_file(1000)).expect("the test font should parse");
    // 6415 * 11 / 1000 = 70.565 -> 70
    assert_eq!(measure_text(&coarse, "badge"), 94);
}

#[test]
fn measure_grows_with_trailing_characters() {
    let font = test_font();
    let text = "abcdefghijklmnopqrstuvwxyz";
    let mut previous = measure_text(&font, "");
    for end in 1..=text.len() {
        let width = measure_text(&font, &text[..end]);
        assert!(width >= previous);
        previous = width;
    }
}

#[test]
fn measure_clamps_a_very_long_text() {
    let font = test_font();
    let text = "a".repeat(20000);
    assert_eq!(measure_text(&font, &text), 65535);
    assert_eq!(BadgeTemplate::measure_text_width(Some(&font), &text), 65535);
}

#[test]
fn measure_text_width_uses_the_font_when_there_is_one() {
    let font = test_font();
    assert_eq!(BadgeTemplate::measure_text_width(Some(&font), "badge"), 58);
    assert_eq!(BadgeTemplate::measure_text_width(None, "badge"), 56);
}

#[test]
fn width_of_advances_scales_pads_and_clamps() {
    assert_eq!(width_of_advances(&[], 2048), 24);
    assert_eq!(width_of_advances(&[2048], 2048), 35);
    assert_eq!(width_of_advances(&[1300, 1255, 1300, 1300, 1260], 2048), 58);
    assert_eq!(width_of_advances(&[1000, -400], 1000), 30);
    // 11 * 2047 / 2048 is just under 11.
    assert_eq!(width_of_advances(&[2047], 2048), 34);
    // 65511 pixels and the padding are exactly 65535.
    assert_eq!(width_of_advances(&[65511 * 16], 16 * 11), 65535);
    assert_eq!(width_of_advances(&[65510 * 16], 16 * 11), 65534);
    assert_eq!(width_of_advances(&[65512 * 16], 16 * 11), 65535);
    assert_eq!(width_of_advances(&[i32::MAX; 64], 16), 65535);
}

#[test]
fn width_of_advances_truncates_toward_zero_and_never_goes_negative() {
    // -100 * 11 / 2048 = -0.54 -> 0
    assert_eq!(width_of_advances(&[-100], 2048), 24);
    // -2048 * 11 / 2048 = -11
    assert_eq!(width_of_advances(&[-2048], 2048), 13);
    // -3000 * 11 / 2048 = -16.11 -> -16
    assert_eq!(width_of_advances(&[-3000], 2048), 8);
    // -5000 * 11 / 2048 = -26.86 -> -26, below zero with the padding
    assert_eq!(width_of_advances(&[-5000], 2048), 0);
    assert_eq!(width_of_advances(&[i32::MIN; 64], 16), 0);
}
