//! What can go wrong while a user interface is shown.

use vstd::prelude::*;
use vstd::string::StringExecFns;

verus! {

/// An error of the windowing backend, of font loading, or of drawing.
#[derive(Debug, Clone, PartialEq, Eq)]
pub enum UiError {
    /// The windowing backend failed; the text is its own message.
    SdlError(String),
    /// A font could not be loaded.
    FontError,
    /// Drawing failed; the text says how.
    RenderError(String),
}

impl UiError {
    /// The message of this error.
    pub open spec fn text(&self) -> Seq<char> {
        match self {
            UiError::SdlError(detail) => "SDL2 error: "@ + detail@,
            UiError::FontError => "Font loading error"@,
            UiError::RenderError(detail) => "Rendering error: "@ + detail@,
        }
    }

    /// The message of this error.
    pub fn message(&self) -> (message: String)
        ensures
            message@ == self.text(),
    {
        match self {
            UiError::SdlError(detail) => String::from_str("SDL2 error: ").concat(detail.as_str()),
            UiError::FontError => String::from_str("Font loading error"),
            UiError::RenderError(detail) => String::from_str("Rendering error: ").concat(
                detail.as_str(),
            ),
        }
    }
}

impl From<String> for UiError {
    /// A bare message is an error of the windowing backend.
    fn from(s: String) -> (error: UiError) {
        UiError::SdlError(s)
    }
}

impl vstd::std_specs::convert::FromSpecImpl<String> for UiError {
    open spec fn obeys_from_spec() -> bool {
        true
    }

    open spec fn from_spec(s: String) -> UiError {
        UiError::SdlError(s)
    }
}

} // verus!
