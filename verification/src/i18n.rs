//! Output language selection.

use vstd::prelude::*;
use crate::text::{ascii_lower, chars_of, is_text, to_lower};

verus! {

/// Output language of the reports.
#[derive(Debug, Clone, Copy, PartialEq, Eq, Structural)]
pub enum Lang {
    Zh,
    En,
}

impl Lang {
    /// Whether a user-supplied language name selects English.
    pub open spec fn names_english(s: Seq<char>) -> bool {
        let l = ascii_lower(s);
        l == "en"@ || l == "en-us"@ || l == "english"@
    }

    /// Parses a language name: `en`, `en-us` and `english` (any ASCII case)
    /// select English, everything else falls back to Chinese.
    pub fn parse(s: &str) -> (l: Lang)
        ensures
            l == (if Lang::names_english(s@) { Lang::En } else { Lang::Zh }),
    {
        let cs = chars_of(s);
        let low = to_lower(cs.as_slice());
        if is_text(low.as_slice(), "en") || is_text(low.as_slice(), "en-us")
            || is_text(low.as_slice(), "english") {
            Lang::En
        } else {
            Lang::Zh
        }
    }

    /// The text of the two that belongs to this language.
    pub open spec fn text(self, zh: Seq<char>, en: Seq<char>) -> Seq<char> {
        match self {
            Lang::Zh => zh,
            Lang::En => en,
        }
    }

    /// Picks the Chinese or the English wording.
    pub fn pick(self, zh: &'static str, en: &'static str) -> (r: &'static str)
        ensures
            r == (match self { Lang::Zh => zh, Lang::En => en }),
            r@ == self.text(zh@, en@),
    {
        match self {
            Lang::Zh => zh,
            Lang::En => en,
        }
    }
}

} // verus!
