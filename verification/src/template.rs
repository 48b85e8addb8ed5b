//! The badge template: segment geometry and the SVG markup.
//!
//! The markup is a fixed format. [`document`] states it character for
//! character; [`write_document`] writes it.

use std::borrow::Cow;
use std::fmt::Write;

use vstd::prelude::*;
use vstd::string::*;

use crate::color::BadgeColor;
use crate::font::{
    clamp_width, face_units_per_em, lemma_text_width_is_monotonic, measure_text, shaped_advances,
    text_width, total_advance, FontFace,
};
use crate::text::{decimal, push_decimal};
use crate::BadgeStyle;

verus! {

/// What one character becomes in XML text or in an attribute value.
pub open spec fn escaped_char(c: char) -> Seq<char> {
    if c == '<' {
        "&lt;"@
    } else if c == '>' {
        "&gt;"@
    } else if c == '&' {
        "&amp;"@
    } else if c == '"' {
        "&quot;"@
    } else if c == '\'' {
        "&#x27;"@
    } else {
        seq![c]
    }
}

/// `text` with each of `<`, `>`, `&`, `"` and `'` replaced by its entity.
pub open spec fn xml_escaped(text: Seq<char>) -> Seq<char>
    decreases text.len(),
{
    if text.len() == 0 {
        Seq::empty()
    } else {
        xml_escaped(text.drop_last()) + escaped_char(text.last())
    }
}

/// Whether `c` is one of the five characters that XML escaping replaces.
pub open spec fn needs_escape(c: char) -> bool {
    c == '<' || c == '>' || c == '&' || c == '"' || c == '\''
}

/// A text without any of the five characters is its own escaped form.
pub proof fn lemma_plain_text_is_unchanged(text: Seq<char>)
    requires
        forall|i: int| 0 <= i < text.len() ==> !needs_escape(#[trigger] text[i]),
    ensures
        xml_escaped(text) == text,
    decreases text.len(),
{
    if text.len() > 0 {
        lemma_plain_text_is_unchanged(text.drop_last());
    }
}

/// The hex string of a colour needs no escaping: it is written into the
/// markup as it is.
pub proof fn lemma_hex_string_is_plain(color: BadgeColor)
    ensures
        xml_escaped(color.hex_string()) == color.hex_string(),
{
    reveal_strlit("#4c1");
    reveal_strlit("#a3c51c");
    reveal_strlit("#dfb317");
    reveal_strlit("#e05d44");
    reveal_strlit("#9f9f9f");
    reveal_strlit("#555");
    lemma_plain_text_is_unchanged(color.hex_string());
}

/// Formats `text` through `askama::MarkupDisplay::new_unsafe` with the
/// `askama::Html` escaper, as a template with XML escaping does for every
/// expression it prints.
///
/// Trusted: the output is the text with the five characters `<`, `>`,
/// `&`, `"`, `'` replaced by `&lt;`, `&gt;`, `&amp;`, `&quot;`, `&#x27;`
/// and every other character kept. Formatting succeeds: the escaper
/// returns an error only where the writer that it is given returns one,
/// and the writer here is a `String`, which returns none. The error arm
/// only converts the type, as `askama::Error::Fmt`.
#[verifier::external_body]
fn escape_xml(text: &str) -> (escaped: Result<String, askama::Error>)
    ensures
        escaped is Ok,
        escaped matches Ok(s) ==> s@ == xml_escaped(text@),
{
    let mut out = String::new();
    match write!(out, "{}", askama::MarkupDisplay::new_unsafe(text, askama::Html)) {
        Ok(()) => Ok(out),
        Err(e) => Err(askama::Error::Fmt(e)),
    }
}

/// The width of a text when no font is at hand: 8 pixels for each
/// character and 16 of padding, clamped to the 16-bit range.
pub open spec fn heuristic_width(text: Seq<char>) -> int {
    clamp_width((text.len() * 8 + 16) as int)
}

/// The width of a text segment: measured in the font if there is one,
/// estimated from the number of characters otherwise.
pub open spec fn segment_width(font: Option<Seq<u8>>, text: Seq<char>) -> int {
    match font {
        Some(data) => text_width(data, text),
        None => heuristic_width(text),
    }
}

/// Width monotonicity of the estimate: a text is at least as wide as each
/// of its prefixes.
pub proof fn lemma_heuristic_width_is_monotonic(shorter: Seq<char>, longer: Seq<char>)
    requires
        shorter.is_prefix_of(longer),
    ensures
        heuristic_width(shorter) <= heuristic_width(longer),
{
}

/// Clamping of the estimate: below 8190 characters it is 8 pixels for each
/// character and 16 more; from 8190 characters on, however many, it is
/// 65535.
pub proof fn lemma_heuristic_width_is_clamped(text: Seq<char>)
    ensures
        16 <= heuristic_width(text) <= u16::MAX,
        text.len() < 8190 ==> heuristic_width(text) == text.len() * 8 + 16,
        text.len() >= 8190 ==> heuristic_width(text) == u16::MAX,
{
}

/// Clamping of a segment: its width is never negative and never above
/// 65535, with or without a font.
pub proof fn lemma_segment_width_is_clamped(font: Option<Seq<u8>>, text: Seq<char>)
    ensures
        0 <= segment_width(font, text) <= u16::MAX,
{
}

/// Width monotonicity of a segment: a text is at least as wide as each of
/// its prefixes when the widths are estimated, and also when they are
/// measured in a font, provided that shaping the longer text advances at
/// least as far as shaping the shorter one.
pub proof fn lemma_segment_width_is_monotonic(
    font: Option<Seq<u8>>,
    shorter: Seq<char>,
    longer: Seq<char>,
)
    requires
        shorter.is_prefix_of(longer),
        font matches Some(data) ==> {
            &&& face_units_per_em(data) matches Some(units) && units > 0
            &&& total_advance(shaped_advances(data, shorter)) <= total_advance(
                shaped_advances(data, longer),
            )
        },
    ensures
        segment_width(font, shorter) <= segment_width(font, longer),
{
    match font {
        Some(data) => lemma_text_width_is_monotonic(data, shorter, longer),
        None => lemma_heuristic_width_is_monotonic(shorter, longer),
    }
}

/// The opening tag of the image, `width` pixels wide and 20 high.
pub open spec fn svg_open(width: nat) -> Seq<char> {
    "<svg xmlns=\"http://www.w3.org/2000/svg\" width=\""@ + decimal(width)
        + "\" height=\"20\">\n"@
}

/// The gloss gradient `b` and the rounded mask `a` of the flat style.
pub open spec fn gloss_definitions(width: nat) -> Seq<char> {
    "<linearGradient id=\"b\" x2=\"0\" y2=\"100%\"><stop offset=\"0\" stop-color=\"#bbb\" stop-opacity=\".1\"/><stop offset=\"1\" stop-opacity=\".1\"/></linearGradient>\n<mask id=\"a\"><rect width=\""@
        + decimal(width) + "\" height=\"20\" rx=\"3\" fill=\"#fff\"/></mask>\n"@
}

/// The background of the label: a rectangle at the left edge.
pub open spec fn label_rect(width: nat, fill: Seq<char>) -> Seq<char> {
    "\t<rect width=\""@ + decimal(width) + "\" height=\"20\" fill=\""@ + fill + "\"/>\n"@
}

/// The background of the message: a rectangle that starts at `x`.
pub open spec fn message_rect(x: nat, width: nat, fill: Seq<char>) -> Seq<char> {
    "\t<rect x=\""@ + decimal(x) + "\" width=\""@ + decimal(width) + "\" height=\"20\" fill=\""@
        + fill + "\"/>\n"@
}

/// The gloss overlay of the flat style, over the whole badge.
pub open spec fn gloss_rect(width: nat) -> Seq<char> {
    "\t<rect width=\""@ + decimal(width) + "\" height=\"20\" fill=\"url(#b)\"/>\n"@
}

/// The opening tag of the group that holds the texts.
pub open spec fn text_group_open() -> Seq<char> {
    "<g fill=\"#fff\" text-anchor=\"middle\" font-family=\"DejaVu Sans,Verdana,Geneva,sans-serif\" font-size=\"11\">\n"@
}

/// A text centred at `x`, drawn dark and faint one pixel below the
/// baseline of the main text.
pub open spec fn shadow_text(x: nat, text: Seq<char>) -> Seq<char> {
    "\t<text x=\""@ + decimal(x) + "\" y=\"15\" fill=\"#010101\" fill-opacity=\".3\">"@ + text
        + "</text>\n"@
}

/// A text centred at `x`, on the main baseline.
pub open spec fn main_text(x: nat, text: Seq<char>) -> Seq<char> {
    "\t<text x=\""@ + decimal(x) + "\" y=\"14\">"@ + text + "</text>\n"@
}

/// The two background rectangles in their group, masked and glossed in
/// the flat style, with crisp edges in the square one.
pub open spec fn backgrounds(
    style: BadgeStyle,
    left_width: nat,
    right_width: nat,
    left_color: Seq<char>,
    right_color: Seq<char>,
) -> Seq<char> {
    match style {
        BadgeStyle::Flat => gloss_definitions(left_width + right_width)
            + "<g mask=\"url(#a)\">\n"@ + label_rect(left_width, left_color) + message_rect(
            left_width,
            right_width,
            right_color,
        ) + gloss_rect(left_width + right_width) + "</g>\n"@,
        BadgeStyle::FlatSquare => "<g shape-rendering=\"crispEdges\">\n"@ + label_rect(
            left_width,
            left_color,
        ) + message_rect(left_width, right_width, right_color) + "</g>\n"@,
    }
}

/// The two texts in their group, each centred in its segment; the flat
/// style draws a shadow under both first.
pub open spec fn texts(
    style: BadgeStyle,
    left_width: nat,
    right_width: nat,
    left_text: Seq<char>,
    right_text: Seq<char>,
) -> Seq<char> {
    let left_x: nat = left_width / 2;
    let right_x: nat = left_width + right_width / 2;
    match style {
        BadgeStyle::Flat => text_group_open() + shadow_text(left_x, left_text) + shadow_text(
            right_x,
            right_text,
        ) + main_text(left_x, left_text) + main_text(right_x, right_text) + "</g>\n"@,
        BadgeStyle::FlatSquare => text_group_open() + main_text(left_x, left_text) + main_text(
            right_x,
            right_text,
        ) + "</g>\n"@,
    }
}

/// The SVG document of a badge, from widths in pixels and from colours
/// and texts that are already escaped.
pub open spec fn document(
    style: BadgeStyle,
    left_width: nat,
    right_width: nat,
    left_color: Seq<char>,
    right_color: Seq<char>,
    left_text: Seq<char>,
    right_text: Seq<char>,
) -> Seq<char> {
    svg_open(left_width + right_width) + backgrounds(
        style,
        left_width,
        right_width,
        left_color,
        right_color,
    ) + "\n"@ + texts(style, left_width, right_width, left_text, right_text) + "</svg>"@
}

fn push_svg_open(out: &mut String, width: u32)
    ensures
        final(out)@ == old(out)@ + svg_open(width as nat),
{
    out.append("<svg xmlns=\"http://www.w3.org/2000/svg\" width=\"");
    push_decimal(out, width);
    out.append("\" height=\"20\">\n");
}

fn push_gloss_definitions(out: &mut String, width: u32)
    ensures
        final(out)@ == old(out)@ + gloss_definitions(width as nat),
{
    out.append(
        "<linearGradient id=\"b\" x2=\"0\" y2=\"100%\"><stop offset=\"0\" stop-color=\"#bbb\" stop-opacity=\".1\"/><stop offset=\"1\" stop-opacity=\".1\"/></linearGradient>\n<mask id=\"a\"><rect width=\"",
    );
    push_decimal(out, width);
    out.append("\" height=\"20\" rx=\"3\" fill=\"#fff\"/></mask>\n");
}

fn push_label_rect(out: &mut String, width: u32, fill: &str)
    ensures
        final(out)@ == old(out)@ + label_rect(width as nat, fill@),
{
    out.append("\t<rect width=\"");
    push_decimal(out, width);
    out.append("\" height=\"20\" fill=\"");
    out.append(fill);
    out.append("\"/>\n");
}

fn push_message_rect(out: &mut String, x: u32, width: u32, fill: &str)
    ensures
        final(out)@ == old(out)@ + message_rect(x as nat, width as nat, fill@),
{
    out.append("\t<rect x=\"");
    push_decimal(out, x);
    out.append("\" width=\"");
    push_decimal(out, width);
    out.append("\" height=\"20\" fill=\"");
    out.append(fill);
    out.append("\"/>\n");
}

fn push_gloss_rect(out: &mut String, width: u32)
    ensures
        final(out)@ == old(out)@ + gloss_rect(width as nat),
{
    out.append("\t<rect width=\"");
    push_decimal(out, width);
    out.append("\" height=\"20\" fill=\"url(#b)\"/>\n");
}

fn push_shadow_text(out: &mut String, x: u32, text: &str)
    ensures
        final(out)@ == old(out)@ + shadow_text(x as nat, text@),
{
    out.append("\t<text x=\"");
    push_decimal(out, x);
    out.append("\" y=\"15\" fill=\"#010101\" fill-opacity=\".3\">");
    out.append(text);
    out.append("</text>\n");
}

fn push_main_text(out: &mut String, x: u32, text: &str)
    ensures
        final(out)@ == old(out)@ + main_text(x as nat, text@),
{
    out.append("\t<text x=\"");
    push_decimal(out, x);
    out.append("\" y=\"14\">");
    out.append(text);
    out.append("</text>\n");
}

fn push_backgrounds(
    out: &mut String,
    style: BadgeStyle,
    left_width: u16,
    right_width: u16,
    left_color: &str,
    right_color: &str,
)
    ensures
        final(out)@ == old(out)@ + backgrounds(
            style,
            left_width as nat,
            right_width as nat,
            left_color@,
            right_color@,
        ),
{
    let total: u32 = left_width as u32 + right_width as u32;
    match style {
        BadgeStyle::Flat => {
            push_gloss_definitions(out, total);
            out.append("<g mask=\"url(#a)\">\n");
            push_label_rect(out, left_width as u32, left_color);
            push_message_rect(out, left_width as u32, right_width as u32, right_color);
            push_gloss_rect(out, total);
            out.append("</g>\n");
        },
        BadgeStyle::FlatSquare => {
            out.append("<g shape-rendering=\"crispEdges\">\n");
            push_label_rect(out, left_width as u32, left_color);
            push_message_rect(out, left_width as u32, right_width as u32, right_color);
            out.append("</g>\n");
        },
    }
}

fn push_texts(
    out: &mut String,
    style: BadgeStyle,
    left_width: u16,
    right_width: u16,
    left_text: &str,
    right_text: &str,
)
    ensures
        final(out)@ == old(out)@ + texts(
            style,
            left_width as nat,
            right_width as nat,
            left_text@,
            right_text@,
        ),
{
    let left_x: u32 = left_width as u32 / 2;
    let right_x: u32 = left_width as u32 + right_width as u32 / 2;
    out.append(
        "<g fill=\"#fff\" text-anchor=\"middle\" font-family=\"DejaVu Sans,Verdana,Geneva,sans-serif\" font-size=\"11\">\n",
    );
    match style {
        BadgeStyle::Flat => {
            push_shadow_text(out, left_x, left_text);
            push_shadow_text(out, right_x, right_text);
        },
        BadgeStyle::FlatSquare => {},
    }
    push_main_text(out, left_x, left_text);
    push_main_text(out, right_x, right_text);
    out.append("</g>\n");
}

/// Writes the SVG document of a badge, from widths in pixels and from
/// colours and texts that are already escaped.
pub fn write_document(
    style: BadgeStyle,
    left_width: u16,
    right_width: u16,
    left_color: &str,
    right_color: &str,
    left_text: &str,
    right_text: &str,
) -> (svg: String)
    ensures
        svg@ == document(
            style,
            left_width as nat,
            right_width as nat,
            left_color@,
            right_color@,
            left_text@,
            right_text@,
        ),
{
    let mut svg = String::new();
    push_svg_open(&mut svg, left_width as u32 + right_width as u32);
    push_backgrounds(&mut svg, style, left_width, right_width, left_color, right_color);
    svg.append("\n");
    push_texts(&mut svg, style, left_width, right_width, left_text, right_text);
    svg.append("</svg>");
    svg
}

/// The data of one badge, ready to be serialised: the style, and for each
/// of the two segments its width in pixels, its background colour and its
/// text.
pub struct BadgeTemplate<'a> {
    /// Which of the two visual variants is drawn
    pub style: BadgeStyle,
    /// Width of the label segment
    pub left_width: u16,
    /// Background colour of the label segment
    pub left_color: Cow<'static, str>,
    /// The label
    pub left_text: &'a str,
    /// Width of the message segment
    pub right_width: u16,
    /// Background colour of the message segment
    pub right_color: Cow<'static, str>,
    /// The message
    pub right_text: &'a str,
}

fn cow_str<'b>(value: &'b Cow<'static, str>) -> (text: &'b str)
    ensures
        text@ == value@,
{
    match value {
        Cow::Borrowed(borrowed) => borrowed,
        Cow::Owned(owned) => owned.as_str(),
    }
}

impl<'a> BadgeTemplate<'a> {
    /// Lays out a badge: measures both texts and resolves both colours to
    /// their hex strings.
    pub fn new(
        font: Option<&FontFace>,
        style: BadgeStyle,
        label: &'a str,
        label_color: BadgeColor,
        message: &'a str,
        message_color: BadgeColor,
    ) -> (template: Self)
        ensures
            template.style == style,
            template.left_width == segment_width(font_data(font), label@),
            template.left_color@ == label_color.hex_string(),
            template.left_text@ == label@,
            template.right_width == segment_width(font_data(font), message@),
            template.right_color@ == message_color.hex_string(),
            template.right_text@ == message@,
    {
        let left_width: u16 = Self::measure_text_width(font, label);
        let right_width: u16 = Self::measure_text_width(font, message);
        BadgeTemplate {
            style,
            left_width,
            left_color: label_color.as_hex_str(),
            left_text: label,
            right_width,
            right_color: message_color.as_hex_str(),
            right_text: message,
        }
    }

    /// The width of a text segment in pixels: measured by shaping the text
    /// in `font` if there is one, estimated from the number of characters
    /// otherwise.
    pub fn measure_text_width(font: Option<&FontFace>, text: &str) -> (width: u16)
        ensures
            width == segment_width(font_data(font), text@),
    {
        match font {
            Some(face) => measure_text(face, text),
            None => {
                let count: usize = text.unicode_len();
                if count >= 8190 {
                    u16::MAX
                } else {
                    (count * 8 + 16) as u16
                }
            },
        }
    }

    /// The SVG document of this badge: [`document`] of its widths and of
    /// its colours and texts, escaped for XML.
    pub open spec fn markup(&self) -> Seq<char> {
        document(
            self.style,
            self.left_width as nat,
            self.right_width as nat,
            xml_escaped(self.left_color@),
            xml_escaped(self.right_color@),
            xml_escaped(self.left_text@),
            xml_escaped(self.right_text@),
        )
    }

    /// Serialises the badge to SVG. Colours and texts are escaped by
    /// `askama`. Rendering succeeds for every badge: escaping writes into
    /// a string, which cannot fail, and the document is assembled from
    /// the escaped parts.
    pub fn render(&self) -> (svg: Result<String, askama::Error>)
        ensures
            svg matches Ok(text) && text@ == self.markup(),
    {
        let left_color = escape_xml(cow_str(&self.left_color))?;
        let right_color = escape_xml(cow_str(&self.right_color))?;
        let left_text = escape_xml(self.left_text)?;
        let right_text = escape_xml(self.right_text)?;
        Ok(
            write_document(
                self.style,
                self.left_width,
                self.right_width,
                left_color.as_str(),
                right_color.as_str(),
                left_text.as_str(),
                right_text.as_str(),
            ),
        )
    }
}

/// The bytes of the font that a measurement uses, if it uses one.
pub open spec fn font_data(font: Option<&FontFace>) -> Option<Seq<u8>> {
    match font {
        Some(face) => Some(face@),
        None => None,
    }
}

} // verus!
