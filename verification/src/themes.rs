//! Themes: the colours that an interface is painted in.
//!
//! A colour is three bytes: red, green and blue.

use vstd::prelude::*;

verus! {

/// The colours and font size that components are drawn with.
#[derive(Clone, Copy, Debug, PartialEq, Eq)]
pub struct Theme {
    pub primary_color: (u8, u8, u8),
    pub secondary_color: (u8, u8, u8),
    pub background_color: (u8, u8, u8),
    pub text_color: (u8, u8, u8),
    pub font_size: u32,
    pub is_dark: bool,
}

impl Theme {
    /// The light theme: black text on a white background.
    pub open spec fn light_spec() -> Theme {
        Theme {
            primary_color: (0u8, 122u8, 255u8),
            secondary_color: (142u8, 142u8, 147u8),
            background_color: (255u8, 255u8, 255u8),
            text_color: (0u8, 0u8, 0u8),
            font_size: 14,
            is_dark: false,
        }
    }

    /// The dark theme: white text on a near-black background.
    pub open spec fn dark_spec() -> Theme {
        Theme {
            primary_color: (10u8, 132u8, 255u8),
            secondary_color: (142u8, 142u8, 147u8),
            background_color: (28u8, 28u8, 30u8),
            text_color: (255u8, 255u8, 255u8),
            font_size: 14,
            is_dark: true,
        }
    }

    pub fn dark() -> (theme: Theme)
        ensures
            theme == Theme::dark_spec(),
    {
        Theme {
            primary_color: (10, 132, 255),
            secondary_color: (142, 142, 147),
            background_color: (28, 28, 30),
            text_color: (255, 255, 255),
            font_size: 14,
            is_dark: true,
        }
    }
}

impl Default for Theme {
    fn default() -> (theme: Theme)
        ensures
            theme == Theme::light_spec(),
    {
        Theme {
            primary_color: (0, 122, 255),
            secondary_color: (142, 142, 147),
            background_color: (255, 255, 255),
            text_color: (0, 0, 0),
            font_size: 14,
            is_dark: false,
        }
    }
}

} // verus!
