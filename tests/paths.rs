use perseus_state::path::{
    immutable_store_key, is_dummy_locale, path_segments, store_key_from_encoded, strip_leading_slash, strip_locale,
    strip_trailing_slash, PathMaybeWithLocale, PathWithoutLocale,
};
use perseus_state::template::widget_component::Capsule;

fn pwl(s: &str) -> PathWithoutLocale {
    PathWithoutLocale(s.to_string())
}

#[test]
fn dummy_locale_adds_nothing() {
    let p = PathMaybeWithLocale::new(&pwl("docs/intro"), "xx-XX");
    assert_eq!(p.0, "docs/intro");
    assert!(is_dummy_locale("xx-XX"));
    assert!(!is_dummy_locale("en-US"));
}

#[test]
fn real_locale_becomes_first_segment() {
    let p = PathMaybeWithLocale::new(&pwl("docs/intro"), "en-US");
    assert_eq!(p.0, "en-US/docs/intro");
}

#[test]
fn locale_comes_back_off() {
    let p = PathMaybeWithLocale::new(&pwl("__capsule/toc"), "fr-FR");
    let back = strip_locale(&p, "fr-FR").unwrap();
    assert_eq!(back.0, "__capsule/toc");
    let same = strip_locale(&PathMaybeWithLocale("a/b".to_string()), "xx-XX").unwrap();
    assert_eq!(same.0, "a/b");
}

#[test]
fn foreign_locale_is_not_stripped() {
    let p = PathMaybeWithLocale("de-DE/docs".to_string());
    assert!(strip_locale(&p, "en-US").is_none());
    assert!(strip_locale(&PathMaybeWithLocale("en".to_string()), "en-US").is_none());
}

#[test]
fn slashes_are_stripped_once() {
    assert_eq!(strip_leading_slash("//a"), "/a");
    assert_eq!(strip_trailing_slash("a//"), "a/");
    assert_eq!(strip_leading_slash(""), "");
    assert_eq!(strip_trailing_slash("/"), "");
}

#[test]
fn widget_paths_are_normalized() {
    let capsule = Capsule::build("foo");
    assert_eq!(capsule.inner.get_path(), "__capsule/foo");
    assert_eq!(capsule.widget_path("/bar/").0, "__capsule/foo/bar");
    assert_eq!(capsule.widget_path("bar").0, "__capsule/foo/bar");
    assert_eq!(capsule.widget_path("/").0, "__capsule/foo");
    assert_eq!(capsule.widget_path("").0, "__capsule/foo");
}

#[test]
fn store_key_encodes_the_path() {
    let key = immutable_store_key("en-US", &pwl("__capsule/foo/bar"));
    assert_eq!(key, "static/en-US-__capsule%2Ffoo%2Fbar.json");
    let plain = immutable_store_key("xx-XX", &pwl("toc"));
    assert_eq!(plain, "static/xx-XX-toc.json");
}

#[test]
fn store_key_from_an_encoded_path() {
    assert_eq!(store_key_from_encoded("en-US", "a%20b"), "static/en-US-a%20b.json");
}

#[test]
fn segments_skip_empty_parts() {
    assert_eq!(path_segments("en-US/__capsule/toc"), vec!["en-US", "__capsule", "toc"]);
    assert_eq!(path_segments("//a//b/"), vec!["a", "b"]);
    assert!(path_segments("").is_empty());
    assert!(path_segments("///").is_empty());
    assert_eq!(path_segments("index"), vec!["index"]);
}
