//! A small value type holding three localized strings, used as a field
//! type across the catalog entities.

use vstd::prelude::*;

use crate::strutil::str_eq;

verus! {

/// Localized text: Spanish, English and French variants, all present
/// (an empty string is allowed).
#[derive(Debug, PartialEq)]
pub struct MultiLanguageText {
    pub es: String,
    pub en: String,
    pub fr: String,
}

/// The mathematical shape of a `MultiLanguageText`.
pub struct TextV {
    pub es: Seq<char>,
    pub en: Seq<char>,
    pub fr: Seq<char>,
}

impl View for MultiLanguageText {
    type V = TextV;

    open spec fn view(&self) -> TextV {
        TextV { es: self.es@, en: self.en@, fr: self.fr@ }
    }
}

impl DeepView for MultiLanguageText {
    type V = TextV;

    open spec fn deep_view(&self) -> TextV {
        self.view()
    }
}

/// The variant that a language code selects; any unknown code falls back
/// to English.
pub open spec fn text_in(t: TextV, language: Seq<char>) -> Seq<char> {
    if language == "es"@ {
        t.es
    } else if language == "en"@ {
        t.en
    } else if language == "fr"@ {
        t.fr
    } else {
        t.en
    }
}

impl MultiLanguageText {
    /// The variant for a language code, defaulting to English.
    pub fn get_text(&self, language: &str) -> (r: &str)
        ensures
            r@ == text_in(self@, language@),
    {
        if str_eq(language, "es") {
            self.es.as_str()
        } else if str_eq(language, "en") {
            self.en.as_str()
        } else if str_eq(language, "fr") {
            self.fr.as_str()
        } else {
            self.en.as_str()
        }
    }
}

impl Clone for MultiLanguageText {
    fn clone(&self) -> (r: Self)
        ensures
            r == *self,
    {
        MultiLanguageText { es: self.es.clone(), en: self.en.clone(), fr: self.fr.clone() }
    }
}

} // verus!
