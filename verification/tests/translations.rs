use notifications::translations::Translations;
use notifications::translations::DEFAULT_LOCALE;

fn catalog() -> Translations {
    let mut translations = Translations::new();
    translations.add("en", "greeting", "Hello");
    translations.add("en", "farewell", "Goodbye");
    translations.add("es", "greeting", "Hola");
    translations
}

#[test]
fn default_locale_is_english() {
    assert_eq!(DEFAULT_LOCALE, "en");
}

#[test]
fn text_is_taken_from_the_requested_locale() {
    let translations = catalog();
    assert_eq!(translations.translate("es", "greeting"), "Hola");
    assert_eq!(translations.translate("en", "greeting"), "Hello");
    assert_eq!(translations.try_translate("es", "greeting"), Some("Hola".to_string()));
}

#[test]
fn missing_text_falls_back_to_the_default_locale() {
    let translations = catalog();
    assert_eq!(translations.translate("es", "farewell"), "Goodbye");
    assert_eq!(translations.try_translate("es", "farewell"), Some("Goodbye".to_string()));
}

#[test]
fn unsupported_locale_is_served_as_the_default_locale() {
    let translations = catalog();
    for key in ["greeting", "farewell", "unknown.key"] {
        assert_eq!(translations.translate("fr", key), translations.translate("en", key));
        assert_eq!(translations.try_translate("fr", key), translations.try_translate("en", key));
    }
    assert_eq!(translations.translate("fr", "greeting"), "Hello");
}

#[test]
fn text_missing_everywhere_is_stood_in_for_by_its_key() {
    let translations = catalog();
    assert_eq!(translations.translate("es", "unknown.key"), "unknown.key");
    assert_eq!(translations.translate("en", "unknown.key"), "unknown.key");
    assert_eq!(translations.try_translate("es", "unknown.key"), None);
    assert_eq!(translations.try_translate("en", "unknown.key"), None);
}

#[test]
fn empty_catalog_holds_no_text() {
    let translations = Translations::new();
    assert_eq!(translations.try_translate("en", "greeting"), None);
    assert_eq!(translations.translate("en", "greeting"), "greeting");
}

#[test]
fn adding_a_text_again_replaces_it() {
    let mut translations = catalog();
    translations.add("en", "greeting", "Hi");
    assert_eq!(translations.translate("en", "greeting"), "Hi");
    assert_eq!(translations.translate("es", "greeting"), "Hola");
    assert_eq!(translations.translate("en", "farewell"), "Goodbye");
}

#[test]
fn the_same_key_is_kept_apart_by_locale() {
    let mut translations = Translations::new();
    translations.add("es", "greeting", "Hola");
    assert_eq!(translations.try_translate("es", "greeting"), Some("Hola".to_string()));
    assert_eq!(translations.try_translate("en", "greeting"), None);
    assert_eq!(translations.try_translate("pt", "greeting"), None);
}

#[test]
fn a_text_only_outside_the_default_locale_is_not_a_fallback() {
    let mut translations = Translations::new();
    translations.add("es", "greeting", "Hola");
    assert_eq!(translations.translate("fr", "greeting"), "greeting");
}
