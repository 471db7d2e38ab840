//! The translation catalog: message texts by locale and key, with fallback to
//! the default locale.
//!
//! The texts are held in a `rust_i18n::SimpleBackend`.  What the backend holds
//! is modelled as a map from `(locale, key)` to text; the lookups with
//! fallback on top of it are verified here.

use std::collections::HashMap;
use rust_i18n::Backend;
use rust_i18n::SimpleBackend;
use vstd::prelude::*;
use vstd::string::*;

verus! {

/// The locale whose texts stand in for any text a requested locale lacks.
pub const DEFAULT_LOCALE: &'static str = "en";

/// `rust_i18n::SimpleBackend`, the key-value store of translated texts.
#[verifier::external_type_specification]
#[verifier::external_body]
pub struct ExSimpleBackend(SimpleBackend);

/// The texts a backend holds, by `(locale, key)`.
pub uninterp spec fn catalog_entries(backend: SimpleBackend) -> Map<(Seq<char>, Seq<char>), Seq<char>>;

/// `SimpleBackend::new`: a backend that holds no text.
#[verifier::external_body]
fn backend_new() -> (backend: SimpleBackend)
    ensures
        catalog_entries(backend) == Catalog::empty(),
{
    SimpleBackend::new()
}

/// `SimpleBackend::add_translations`, called with a single `key` and `text`:
/// afterwards the backend holds `text` under `(locale, key)`, in place of any
/// earlier text there, and every other entry as before.
#[verifier::external_body]
fn backend_add(backend: &mut SimpleBackend, locale: &str, key: &str, text: &str)
    ensures
        catalog_entries(*final(backend)) == catalog_entries(*old(backend)).insert(
            (locale@, key@),
            text@,
        ),
{
    let mut data: HashMap<&str, &str> = HashMap::new();
    data.insert(key, text);
    backend.add_translations(locale, &data);
}

/// `Backend::translate` of `SimpleBackend`: the text held under
/// `(locale, key)`, or `None` where the backend holds none.
#[verifier::external_body]
fn backend_translate<'a>(backend: &'a SimpleBackend, locale: &str, key: &str) -> (text: Option<&'a str>)
    ensures
        match text {
            Some(t) => catalog_entries(*backend).contains_key((locale@, key@))
                && t@ == catalog_entries(*backend)[(locale@, key@)],
            None => !catalog_entries(*backend).contains_key((locale@, key@)),
        },
{
    backend.translate(locale, key)
}

/// What a catalog holds: texts by `(locale, key)`.
pub type Catalog = Map<(Seq<char>, Seq<char>), Seq<char>>;

/// The text found for `key` when `locale` is requested: the locale's own text,
/// else the default locale's, else none.
pub open spec fn resolved_text(catalog: Catalog, locale: Seq<char>, key: Seq<char>) -> Option<Seq<char>> {
    if catalog.contains_key((locale, key)) {
        Some(catalog[(locale, key)])
    } else if catalog.contains_key((DEFAULT_LOCALE@, key)) {
        Some(catalog[(DEFAULT_LOCALE@, key)])
    } else {
        None
    }
}

/// The text shown for `key` when `locale` is requested: the resolved text, or
/// the key itself where neither the locale nor the default locale has one.
pub open spec fn shown_text(catalog: Catalog, locale: Seq<char>, key: Seq<char>) -> Seq<char> {
    match resolved_text(catalog, locale, key) {
        Some(text) => text,
        None => key,
    }
}

/// A locale is supported when the catalog holds at least one text for it.
pub open spec fn supports_locale(catalog: Catalog, locale: Seq<char>) -> bool {
    exists|key: Seq<char>| catalog.contains_key((locale, key))
}

/// The translated texts of the process, read-only once filled.
pub struct Translations {
    backend: SimpleBackend,
}

impl View for Translations {
    type V = Catalog;

    closed spec fn view(&self) -> Catalog {
        catalog_entries(self.backend)
    }
}

impl Translations {
    /// A catalog without any text.
    pub fn new() -> (translations: Translations)
        ensures
            translations@ == Catalog::empty(),
    {
        Translations { backend: backend_new() }
    }

    /// Stores `text` under `(locale, key)`, replacing an earlier text there.
    pub fn add(&mut self, locale: &str, key: &str, text: &str)
        ensures
            final(self)@ == old(self)@.insert((locale@, key@), text@),
    {
        backend_add(&mut self.backend, locale, key, text);
    }

    /// The text for `key` in `locale`, falling back to the default locale.
    /// `None` exactly when neither holds a text for `key`.
    pub fn try_translate(&self, locale: &str, key: &str) -> (text: Option<String>)
        ensures
            match text {
                Some(t) => resolved_text(self@, locale@, key@) == Some(t@),
                None => resolved_text(self@, locale@, key@) is None,
            },
    {
        match backend_translate(&self.backend, locale, key) {
            Some(t) => Some(t.to_owned()),
            None => match backend_translate(&self.backend, DEFAULT_LOCALE, key) {
                Some(t) => Some(t.to_owned()),
                None => None,
            },
        }
    }

    /// The text for `key` in `locale`, falling back to the default locale and
    /// then to the key itself: a missing translation is never a failure.
    pub fn translate(&self, locale: &str, key: &str) -> (text: String)
        ensures
            text@ == shown_text(self@, locale@, key@),
    {
        match self.try_translate(locale, key) {
            Some(t) => t,
            None => key.to_owned(),
        }
    }
}

/// A locale for which the catalog holds no text is served exactly as the
/// default locale is.
pub proof fn lemma_unsupported_locale_falls_back(catalog: Catalog, locale: Seq<char>, key: Seq<char>)
    requires
        !supports_locale(catalog, locale),
    ensures
        resolved_text(catalog, locale, key) == resolved_text(catalog, DEFAULT_LOCALE@, key),
        shown_text(catalog, locale, key) == shown_text(catalog, DEFAULT_LOCALE@, key),
{
}

} // verus!
