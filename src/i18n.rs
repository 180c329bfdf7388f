//! Languages of the rendered invoice and the lookup of its labels.

use vstd::prelude::*;
use crate::text::str_eq;

pub mod translations;

verus! {

/// A language that invoices can be rendered in.
#[derive(Clone, Copy, Debug, PartialEq, Eq, Structural)]
pub enum Language {
    English,
    German,
}

/// The language of a code: "en" in any letter case is English; every other
/// code falls back to German.
pub open spec fn language_from_code(s: Seq<char>) -> Language {
    if s.len() == 2 && (s[0] == 'e' || s[0] == 'E') && (s[1] == 'n' || s[1] == 'N') {
        Language::English
    } else {
        Language::German
    }
}

impl Language {
    /// Reads a language code; unknown codes give German.
    pub fn parse_lang(s: &str) -> (r: Language)
        ensures
            r == language_from_code(s@),
    {
        if s.unicode_len() == 2 {
            let a = s.get_char(0);
            let b = s.get_char(1);
            if (a == 'e' || a == 'E') && (b == 'n' || b == 'N') {
                return Language::English;
            }
        }
        Language::German
    }

    /// The language chosen where none is given, or none can be read.
    pub fn from_option(code: Option<&str>) -> (r: Language)
        ensures
            r == match code {
                Some(c) => language_from_code(c@),
                None => Language::German,
            },
    {
        match code {
            Some(c) => Language::parse_lang(c),
            None => Language::German,
        }
    }
}

impl std::str::FromStr for Language {
    type Err = std::convert::Infallible;

    /// Reads a language code; this never fails, as unknown codes give German.
    fn from_str(s: &str) -> Result<Language, std::convert::Infallible> {
        Ok(Language::parse_lang(s))
    }
}

impl Default for Language {
    fn default() -> (r: Language)
        ensures
            r == Language::German,
    {
        Language::German
    }
}

/// Labels of one language, as (key, text) pairs.
#[derive(Clone, Debug)]
pub struct TranslationMap {
    pub entries: Vec<(&'static str, &'static str)>,
}

/// The first text stored under `key`, if any.
pub open spec fn lookup(entries: Seq<(&'static str, &'static str)>, key: Seq<char>) -> Option<Seq<char>>
    decreases entries.len(),
{
    if entries.len() == 0 {
        None
    } else if entries[0].0@ == key {
        Some(entries[0].1@)
    } else {
        lookup(entries.drop_first(), key)
    }
}

/// What a missing label renders as.
pub open spec fn missing_label() -> Seq<char> {
    "TRANSLATION_MISSING"@
}

impl TranslationMap {
    /// The text stored under `key`.
    pub fn get(&self, key: &str) -> (r: Option<&'static str>)
        ensures
            match lookup(self.entries@, key@) {
                Some(t) => r matches Some(x) && x@ == t,
                None => r is None,
            },
    {
        let mut i: usize = 0;
        assert(self.entries@.skip(0) =~= self.entries@);
        while i < self.entries.len()
            invariant
                i <= self.entries@.len(),
                lookup(self.entries@, key@) == lookup(self.entries@.skip(i as int), key@),
            decreases self.entries@.len() - i,
        {
            let (k, v) = self.entries[i];
            assert(self.entries@.skip(i as int).drop_first() =~= self.entries@.skip(i + 1));
            if str_eq(k, key) {
                return Some(v);
            }
            i = i + 1;
        }
        None
    }
}

/// The labels of a language for a category of texts.
pub fn get_translations(lang: Language, category: &str) -> (r: TranslationMap)
    ensures
        r.entries@ == translations::invoice_labels(lang),
{
    translations::get_translations(lang, category)
}

/// The label under `key` in `lang`; a missing key renders as "TRANSLATION_MISSING".
pub fn translate(lang: Language, category: &str, key: &str) -> (r: &'static str)
    ensures
        r@ == match lookup(translations::invoice_labels(lang), key@) {
            Some(t) => t,
            None => missing_label(),
        },
{
    let map = get_translations(lang, category);
    match map.get(key) {
        Some(v) => v,
        None => "TRANSLATION_MISSING",
    }
}

} // verus!
