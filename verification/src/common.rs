use vstd::prelude::*;
use crate::text::text_eq;

verus! {

/// The languages the user interface is offered in.
#[derive(Clone, Copy, PartialEq, Eq, Structural, Debug)]
pub enum Language {
    English,
    Hungarian,
    French,
    German,
    Spanish,
}

impl Default for Language {
    fn default() -> (l: Language)
        ensures
            l == Language::English,
    {
        Language::English
    }
}

/// The Stellar network a key belongs to.
#[derive(Clone, Copy, PartialEq, Eq, Structural, Debug)]
pub enum NetworkEnvironment {
    Production,
    Test,
}

/// The language that a settings code selects: `hu`, `fr`, `de` and `es`
/// pick their language, every other code English.
pub open spec fn language_for_code(code: Seq<char>) -> Language {
    if code == "hu"@ {
        Language::Hungarian
    } else if code == "fr"@ {
        Language::French
    } else if code == "de"@ {
        Language::German
    } else if code == "es"@ {
        Language::Spanish
    } else {
        Language::English
    }
}

/// Maps a language code from the settings selector to a language.
pub fn language_from_code(code: &str) -> (l: Language)
    ensures
        l == language_for_code(code@),
{
    if text_eq(code, "hu") {
        Language::Hungarian
    } else if text_eq(code, "fr") {
        Language::French
    } else if text_eq(code, "de") {
        Language::German
    } else if text_eq(code, "es") {
        Language::Spanish
    } else {
        Language::English
    }
}

} // verus!
