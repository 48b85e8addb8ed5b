//! A small library for generating badge SVG images.
//!
//! A badge is a two-segment status image: a label on the left and a message
//! on the right, each on its own background colour. [`BadgeBuilder`] collects
//! the texts, colours and style, measures both texts and serialises the badge
//! to SVG markup.
//!
//! ## Example
//!
//! ```rust
//! use badges::{BadgeBuilder, BadgeColor, BadgeStyle};
//!
//! let badge_svg = BadgeBuilder::new()
//!     .style(BadgeStyle::Flat)
//!     .label("badge")
//!     .message("rendered")
//!     .message_color(BadgeColor::Green)
//!     .render()
//!     .expect("failed to render badge");
//! ```
//!
//! The widths of the two texts are estimated from their lengths. To have
//! them measured with real font metrics, parse a font file into a
//! [`FontFace`] and hand it to [`BadgeBuilder::font`].

use vstd::prelude::*;

use crate::template::{
    document, lemma_hex_string_is_plain, segment_width, xml_escaped, BadgeTemplate,
};

pub mod color;
pub mod error;
pub mod font;
pub mod template;
pub mod text;

pub use color::BadgeColor;
pub use error::BadgeError;
pub use font::FontFace;

verus! {

/// The style of a badge.
#[derive(Copy, Clone, Debug, PartialEq, Eq)]
pub enum BadgeStyle {
    /// Flat badge: rounded corners, a gloss gradient and shadowed text.
    Flat,
    /// Flat badge with square corners, crisp edges and plain text.
    FlatSquare,
}

/// What a [`BadgeBuilder`] holds: the style, both texts, both colours,
/// and the bytes of the font that measures the texts, if one was given.
pub ghost struct BadgeSettings {
    pub style: BadgeStyle,
    pub label: Seq<char>,
    pub label_color: BadgeColor,
    pub message: Seq<char>,
    pub message_color: BadgeColor,
    pub font: Option<Seq<u8>>,
}

/// The SVG document of a badge with the given settings: both texts are
/// measured, and the document is laid out from the two widths, the hex
/// strings of the colours and the texts escaped for XML.
pub open spec fn badge_markup(settings: BadgeSettings) -> Seq<char> {
    document(
        settings.style,
        segment_width(settings.font, settings.label) as nat,
        segment_width(settings.font, settings.message) as nat,
        settings.label_color.hex_string(),
        settings.message_color.hex_string(),
        xml_escaped(settings.label),
        xml_escaped(settings.message),
    )
}

/// What rendering a badge with the given settings may return: the
/// document of the badge, or a render error.
pub open spec fn is_render_of(settings: BadgeSettings, svg: Result<String, BadgeError>) -> bool {
    match svg {
        Ok(text) => text@ == badge_markup(settings),
        Err(error) => error is RenderError,
    }
}

/// Rendering is repeatable: two badges rendered from the same style,
/// texts, colours and font are the same, character for character.
pub proof fn lemma_render_is_repeatable(
    settings: BadgeSettings,
    first: Result<String, BadgeError>,
    second: Result<String, BadgeError>,
)
    requires
        is_render_of(settings, first),
        is_render_of(settings, second),
        first is Ok,
        second is Ok,
    ensures
        first->Ok_0@ == second->Ok_0@,
{
}

/// Builder for rendering a badge.
pub struct BadgeBuilder<'a> {
    style: BadgeStyle,
    label: &'a str,
    label_color: BadgeColor,
    message: &'a str,
    message_color: BadgeColor,
    font: Option<&'a FontFace>,
}

impl<'a> View for BadgeBuilder<'a> {
    type V = BadgeSettings;

    closed spec fn view(&self) -> BadgeSettings {
        BadgeSettings {
            style: self.style,
            label: self.label@,
            label_color: self.label_color,
            message: self.message@,
            message_color: self.message_color,
            font: template::font_data(self.font),
        }
    }
}

impl<'a> Default for BadgeBuilder<'a> {
    fn default() -> (builder: Self)
        ensures
            builder@ == BadgeBuilder::default_settings(),
    {
        Self::new()
    }
}

impl<'a> BadgeBuilder<'a> {
    /// The settings of a new builder: a flat badge that reads "badge" on
    /// grey and "example" on light grey, measured without a font.
    pub open spec fn default_settings() -> BadgeSettings {
        BadgeSettings {
            style: BadgeStyle::Flat,
            label: "badge"@,
            label_color: BadgeColor::Grey,
            message: "example"@,
            message_color: BadgeColor::LightGrey,
            font: None,
        }
    }

    /// Create a new default [`BadgeBuilder`].
    pub fn new() -> (builder: Self)
        ensures
            builder@ == Self::default_settings(),
    {
        Self {
            style: BadgeStyle::Flat,
            label: "badge",
            label_color: BadgeColor::Grey,
            message: "example",
            message_color: BadgeColor::LightGrey,
            font: None,
        }
    }

    /// Change the style of the generated badge.
    pub fn style(self, style: BadgeStyle) -> (builder: Self)
        ensures
            builder@ == (BadgeSettings { style, ..self@ }),
    {
        Self { style, ..self }
    }

    /// Change the label text of the generated badge.
    pub fn label(self, text: &'a str) -> (builder: Self)
        ensures
            builder@ == (BadgeSettings { label: text@, ..self@ }),
    {
        Self { label: text, ..self }
    }

    /// Change the label background colour of the generated badge.
    pub fn label_color(self, color: BadgeColor) -> (builder: Self)
        ensures
            builder@ == (BadgeSettings { label_color: color, ..self@ }),
    {
        Self { label_color: color, ..self }
    }

    /// Change the message text of the generated badge.
    pub fn message(self, text: &'a str) -> (builder: Self)
        ensures
            builder@ == (BadgeSettings { message: text@, ..self@ }),
    {
        Self { message: text, ..self }
    }

    /// Change the message background colour of the generated badge.
    pub fn message_color(self, color: BadgeColor) -> (builder: Self)
        ensures
            builder@ == (BadgeSettings { message_color: color, ..self@ }),
    {
        Self { message_color: color, ..self }
    }

    /// Measure the texts of the generated badge by shaping them in `font`.
    /// Without a font the widths are estimated from the number of
    /// characters.
    pub fn font(self, font: &'a FontFace) -> (builder: Self)
        ensures
            builder@ == (BadgeSettings { font: Some(font@), ..self@ }),
    {
        Self { font: Some(font), ..self }
    }

    /// Render the created badge.
    ///
    /// Rendering succeeds for every setting of the builder, and the
    /// badge is [`badge_markup`] of the settings. The error type is that
    /// of the serialisation, [`BadgeError::RenderError`].
    pub fn render(self) -> (svg: Result<String, BadgeError>)
        ensures
            svg is Ok,
            is_render_of(self@, svg),
    {
        proof {
            lemma_hex_string_is_plain(self.label_color);
            lemma_hex_string_is_plain(self.message_color);
        }
        let badge = BadgeTemplate::new(
            self.font,
            self.style,
            self.label,
            self.label_color,
            self.message,
            self.message_color,
        );
        match badge.render() {
            Ok(text) => Ok(text),
            Err(cause) => Err(BadgeError::from(cause)),
        }
    }
}

} // verus!
