//! Text measurement with real font metrics.
//!
//! A text is shaped against a font face by `rustybuzz`; the horizontal
//! advances of the resulting glyphs are summed, scaled from font design
//! units to pixels at the badge's font size, padded and clamped to the
//! 16-bit range.

use vstd::prelude::*;

verus! {

/// The font size of badge texts, in pixels per em.
pub const FONT_SIZE: u16 = 11;

/// Padding added to the width of a shaped text, so that the text never
/// touches the edge of its segment.
pub const PADDING: u16 = 24;

/// The units per em of the first face in the font file `font`, as
/// `rustybuzz` reads it; `None` if `rustybuzz` cannot parse the file.
pub uninterp spec fn face_units_per_em(font: Seq<u8>) -> Option<i32>;

/// The horizontal advances, in font design units, of the glyphs that
/// `rustybuzz` places when it shapes `text` against the first face of the
/// font file `font`, with no user features and with direction and script
/// guessed from the text.
pub uninterp spec fn shaped_advances(font: Seq<u8>, text: Seq<char>) -> Seq<i32>;

/// Calls `rustybuzz::Face::from_slice` for face 0 of `font`, and
/// `Face::units_per_em` on the face if there is one.
///
/// Trusted: the result is a function of the bytes alone, and a face that
/// parses has between 16 and 16384 units per em (`ttf-parser` rejects a
/// `head` table outside that range).
#[verifier::external_body]
fn parse_units_per_em(font: &[u8]) -> (units: Option<i32>)
    ensures
        units == face_units_per_em(font@),
        units matches Some(u) ==> 16 <= u <= 16384,
{
    match rustybuzz::Face::from_slice(font, 0) {
        Some(face) => Some(face.units_per_em()),
        None => None,
    }
}

/// Calls `rustybuzz::shape` on `text` against face 0 of `font`, with an
/// empty feature list and a fresh `UnicodeBuffer`, and collects the
/// `x_advance` of every glyph position.
///
/// Trusted: shaping happens exactly when the face parses, and its outcome
/// is a function of the font bytes and the text alone.
#[verifier::external_body]
fn shape_advances(font: &[u8], text: &str) -> (advances: Option<Vec<i32>>)
    ensures
        advances is Some <==> face_units_per_em(font@) is Some,
        advances matches Some(a) ==> a@ == shaped_advances(font@, text@),
{
    let face = rustybuzz::Face::from_slice(font, 0)?;
    let mut buffer = rustybuzz::UnicodeBuffer::new();
    buffer.push_str(text);
    let glyphs = rustybuzz::shape(&face, &[], buffer);
    Some(glyphs.glyph_positions().iter().map(|position| position.x_advance).collect())
}

/// The sum of a run of advances.
pub open spec fn total_advance(advances: Seq<i32>) -> int
    decreases advances.len(),
{
    if advances.len() == 0 {
        0
    } else {
        total_advance(advances.drop_last()) + advances.last()
    }
}

/// `total` design units in pixels at [`FONT_SIZE`]:
/// `total * FONT_SIZE / units_per_em`, truncated toward zero.
pub open spec fn scale_to_pixels(total: int, units_per_em: int) -> int {
    if total >= 0 {
        (total * FONT_SIZE) / units_per_em
    } else {
        -((-total * FONT_SIZE) / units_per_em)
    }
}

/// The nearest value to `pixels` that a width can take.
pub open spec fn clamp_width(pixels: int) -> int {
    if pixels > u16::MAX {
        u16::MAX as int
    } else if pixels < 0 {
        0
    } else {
        pixels
    }
}

/// The width of a text whose glyphs have the given advances: their sum,
/// scaled to pixels, plus [`PADDING`], clamped to `0..=65535`.
pub open spec fn shaped_width(advances: Seq<i32>, units_per_em: int) -> int {
    clamp_width(scale_to_pixels(total_advance(advances), units_per_em) + PADDING)
}

/// A sum of advances stays within its length times the range of one
/// advance.
proof fn lemma_total_advance_bounds(advances: Seq<i32>)
    ensures
        advances.len() * i32::MIN <= total_advance(advances) <= advances.len() * i32::MAX,
    decreases advances.len(),
{
    if advances.len() > 0 {
        lemma_total_advance_bounds(advances.drop_last());
    }
}

/// Scaling keeps the order of totals.
proof fn lemma_scale_is_monotonic(low: int, high: int, units_per_em: int)
    requires
        units_per_em > 0,
        low <= high,
    ensures
        scale_to_pixels(low, units_per_em) <= scale_to_pixels(high, units_per_em),
{
    if low >= 0 {
        vstd::arithmetic::div_mod::lemma_div_is_ordered(
            low * FONT_SIZE,
            high * FONT_SIZE,
            units_per_em,
        );
    } else if high >= 0 {
        vstd::arithmetic::div_mod::lemma_div_pos_is_pos(-low * FONT_SIZE, units_per_em);
        vstd::arithmetic::div_mod::lemma_div_pos_is_pos(high * FONT_SIZE, units_per_em);
    } else {
        vstd::arithmetic::div_mod::lemma_div_is_ordered(
            -high * FONT_SIZE,
            -low * FONT_SIZE,
            units_per_em,
        );
    }
}

/// Width monotonicity: a run of glyphs that advances at least as far as
/// another is at least as wide.
pub proof fn lemma_shaped_width_is_monotonic(
    narrow: Seq<i32>,
    wide: Seq<i32>,
    units_per_em: int,
)
    requires
        units_per_em > 0,
        total_advance(narrow) <= total_advance(wide),
    ensures
        shaped_width(narrow, units_per_em) <= shaped_width(wide, units_per_em),
{
    lemma_scale_is_monotonic(total_advance(narrow), total_advance(wide), units_per_em);
}

/// Clamping: a width is never negative and never above 65535, and it is
/// 65535 for every run that advances far enough, however far that is.
pub proof fn lemma_shaped_width_is_clamped(advances: Seq<i32>, units_per_em: int)
    requires
        units_per_em > 0,
    ensures
        0 <= shaped_width(advances, units_per_em) <= u16::MAX,
        total_advance(advances) * FONT_SIZE >= (u16::MAX - PADDING) * units_per_em
            ==> shaped_width(advances, units_per_em) == u16::MAX,
{
    let total: int = total_advance(advances);
    if total * FONT_SIZE >= (u16::MAX - PADDING) * units_per_em {
        assert(total >= 0) by (nonlinear_arith)
            requires
                total * 11 >= 65511 * units_per_em,
                units_per_em > 0,
        ;
        vstd::arithmetic::div_mod::lemma_div_is_ordered(
            (u16::MAX - PADDING) * units_per_em,
            total * FONT_SIZE,
            units_per_em,
        );
        vstd::arithmetic::div_mod::lemma_div_by_multiple(
            (u16::MAX - PADDING) as int,
            units_per_em,
        );
    }
}

/// Adds up a run of advances.
pub fn sum_advances(advances: &[i32]) -> (total: i128)
    ensures
        total == total_advance(advances@),
        -0x8000_0000_0000_0000_0000_0000 <= total <= 0x8000_0000_0000_0000_0000_0000,
{
    let mut total: i128 = 0;
    let mut i: usize = 0;
    while i < advances.len()
        invariant
            i <= advances.len(),
            total == total_advance(advances@.take(i as int)),
        decreases advances.len() - i,
    {
        proof {
            lemma_total_advance_bounds(advances@.take(i as int));
            assert(advances@.take(i + 1).drop_last() == advances@.take(i as int));
        }
        total = total + advances[i] as i128;
        i += 1;
    }
    proof {
        assert(advances@.take(i as int) == advances@);
        lemma_total_advance_bounds(advances@);
    }
    total
}

/// Scales a distance in design units to whole pixels at [`FONT_SIZE`],
/// rounding down.
fn scale(distance: u128, units_per_em: i32) -> (pixels: u128)
    requires
        distance <= 0x8000_0000_0000_0000_0000_0000,
        units_per_em > 0,
    ensures
        pixels == (distance * FONT_SIZE) / (units_per_em as int),
{
    assert(distance * FONT_SIZE == distance * 11) by (nonlinear_arith)
        requires
            FONT_SIZE == 11,
    ;
    (distance * FONT_SIZE as u128) / units_per_em as u128
}

/// Computes the width of a shaped text from the advances of its glyphs
/// and the font's units per em.
pub fn width_of_advances(advances: &[i32], units_per_em: i32) -> (width: u16)
    requires
        units_per_em > 0,
    ensures
        width == shaped_width(advances@, units_per_em as int),
{
    let total: i128 = sum_advances(advances);
    if total >= 0 {
        let pixels: u128 = scale(total as u128, units_per_em);
        if pixels > (u16::MAX - PADDING) as u128 {
            u16::MAX
        } else {
            pixels as u16 + PADDING
        }
    } else {
        let below: u128 = scale((-total) as u128, units_per_em);
        if below >= PADDING as u128 {
            0
        } else {
            PADDING - below as u16
        }
    }
}

/// A font file whose first face `rustybuzz` can parse.
///
/// The bytes are checked once, when the value is made, and never change
/// afterwards: measuring against a `FontFace` cannot fail.
pub struct FontFace {
    data: Vec<u8>,
    units_per_em: i32,
}

impl View for FontFace {
    type V = Seq<u8>;

    /// The bytes of the font file.
    closed spec fn view(&self) -> Seq<u8> {
        self.data@
    }
}

impl FontFace {
    #[verifier::type_invariant]
    spec fn well_formed(self) -> bool {
        &&& face_units_per_em(self.data@) == Some(self.units_per_em)
        &&& self.units_per_em > 0
    }

    /// Checks that `data` is a font file whose first face parses, and
    /// keeps it. `None` for malformed font data.
    pub fn parse(data: Vec<u8>) -> (font: Option<FontFace>)
        ensures
            font is Some <==> face_units_per_em(data@) is Some,
            font matches Some(face) ==> face@ == data@,
    {
        match parse_units_per_em(data.as_slice()) {
            Some(units_per_em) => Some(FontFace { data, units_per_em }),
            None => None,
        }
    }

    /// The units per em of the face.
    pub fn units_per_em(&self) -> (units: i32)
        ensures
            units > 0,
            face_units_per_em(self@) == Some(units),
    {
        proof {
            use_type_invariant(self);
        }
        self.units_per_em
    }
}

/// The width in pixels of `text` set in the face of the font file `font`:
/// the [`shaped_width`] of the advances that shaping yields.
pub open spec fn text_width(font: Seq<u8>, text: Seq<char>) -> int {
    shaped_width(shaped_advances(font, text), face_units_per_em(font).unwrap() as int)
}

/// Width monotonicity for texts: where shaping the longer of two texts
/// advances at least as far as shaping the shorter, the longer text is at
/// least as wide.
pub proof fn lemma_text_width_is_monotonic(font: Seq<u8>, shorter: Seq<char>, longer: Seq<char>)
    requires
        face_units_per_em(font) matches Some(units) && units > 0,
        total_advance(shaped_advances(font, shorter)) <= total_advance(
            shaped_advances(font, longer),
        ),
    ensures
        text_width(font, shorter) <= text_width(font, longer),
{
    lemma_shaped_width_is_monotonic(
        shaped_advances(font, shorter),
        shaped_advances(font, longer),
        face_units_per_em(font).unwrap() as int,
    );
}

/// Measures the width of `text` in pixels, by shaping it against `font`.
pub fn measure_text(font: &FontFace, text: &str) -> (width: u16)
    ensures
        width == text_width(font@, text@),
{
    proof {
        use_type_invariant(font);
    }
    match shape_advances(font.data.as_slice(), text) {
        Some(advances) => width_of_advances(advances.as_slice(), font.units_per_em),
        None => vstd::pervasive::unreached(),
    }
}

} // verus!
