//! Error type of the crate.

use vstd::prelude::*;
use vstd::string::*;

verus! {

/// `askama::Error`, carried through opaquely.
#[verifier::external_type_specification]
#[verifier::external_body]
pub struct ExAskamaError(askama::Error);

/// The error type of this crate.
#[derive(Debug)]
pub enum BadgeError {
    /// The SVG serialisation failed; wraps the error that `askama` reported.
    RenderError(askama::Error),
    /// A string that does not name a colour; carries the offending input.
    InvalidColor(String),
}

/// Formats an `askama::Error` through its `Display` impl. Nothing is
/// claimed of the text.
#[verifier::external_body]
fn render_error_text(cause: &askama::Error) -> (text: String) {
    format!("{}", cause)
}

impl BadgeError {
    /// The message of this error: a fixed phrase, then the colour string
    /// that was refused, or what `askama` says of its error.
    pub fn message(&self) -> (text: String)
        ensures
            match self {
                BadgeError::InvalidColor(value) => text@ == "Invalid color value: "@ + value@,
                BadgeError::RenderError(_) => "Failed to render SVG: "@.is_prefix_of(text@),
            },
    {
        match self {
            BadgeError::InvalidColor(value) => {
                String::from_str("Invalid color value: ").concat(value.as_str())
            },
            BadgeError::RenderError(cause) => {
                let detail = render_error_text(cause);
                String::from_str("Failed to render SVG: ").concat(detail.as_str())
            },
        }
    }

    /// The error for a string that does not name a colour.
    pub fn invalid_color(value: &str) -> (error: BadgeError)
        ensures
            error matches BadgeError::InvalidColor(s) && s@ == value@,
    {
        BadgeError::InvalidColor(String::from_str(value))
    }
}

impl vstd::std_specs::convert::FromSpecImpl<askama::Error> for BadgeError {
    open spec fn obeys_from_spec() -> bool {
        true
    }

    open spec fn from_spec(e: askama::Error) -> Self {
        BadgeError::RenderError(e)
    }
}

impl From<askama::Error> for BadgeError {
    fn from(e: askama::Error) -> (error: Self) {
        BadgeError::RenderError(e)
    }
}

} // verus!
