//! Presentation attributes of the rendered document. The encoder itself
//! is presentation-agnostic: these colors only parameterize the external
//! rendering of the output string, which consumes them opaquely.

use vstd::prelude::*;
use vstd::string::StringExecFns;

verus! {

/// The colors used when the output string is rendered as a themed
/// document.
#[derive(Debug, Clone)]
pub struct Theme {
    pub background_color: String,
    pub outline_color: String,
    pub icon_color: String,
    pub by_square_text_color: String,
    pub pay_text_color: String,
}

impl Theme {
    /// The default theme: a white background with the standard blue and
    /// grey accents.
    pub fn default() -> (t: Self)
        ensures
            t.background_color@ == "#ffffff"@,
            t.outline_color@ == "#6fa4d7"@,
            t.icon_color@ == "#6fa4d7"@,
            t.by_square_text_color@ == "#b2b4b9"@,
            t.pay_text_color@ == "#6fa4d7"@,
    {
        Self {
            background_color: String::from_str("#ffffff"),
            outline_color: String::from_str("#6fa4d7"),
            icon_color: String::from_str("#6fa4d7"),
            by_square_text_color: String::from_str("#b2b4b9"),
            pay_text_color: String::from_str("#6fa4d7"),
        }
    }
}

} // verus!
