use waydraw::key_store::{KeyStatus, KeyStore};

fn s(text: &str) -> String {
    text.to_string()
}

#[test]
fn empty_store_finds_nothing() {
    let store = KeyStore::new();
    assert_eq!(store.get_key(&s("1234")), Err(KeyStatus::NotFound));
}

#[test]
fn set_then_get_returns_trimmed_body() {
    let mut store = KeyStore::new();
    assert_eq!(store.set_key(s("1234"), s("  peer-key \n")), KeyStatus::NoContent);
    assert_eq!(store.get_key(&s("1234")), Ok(s("peer-key")));
}

#[test]
fn trim_removes_unicode_white_space_only_at_the_ends() {
    let mut store = KeyStore::new();
    store.set_key(s("a"), s("\u{3000}\t x y \u{a0}\u{2029}"));
    assert_eq!(store.get_key(&s("a")), Ok(s("x y")));
    store.set_key(s("b"), s(" \n "));
    assert_eq!(store.get_key(&s("b")), Ok(s("")));
}

#[test]
fn set_overwrites_and_leaves_other_names() {
    let mut store = KeyStore::new();
    store.set_key(s("a"), s("one"));
    store.set_key(s("b"), s("two"));
    store.set_key(s("a"), s("three"));
    assert_eq!(store.get_key(&s("a")), Ok(s("three")));
    assert_eq!(store.get_key(&s("b")), Ok(s("two")));
}

#[test]
fn delete_removes_and_reports() {
    let mut store = KeyStore::new();
    store.set_key(s("a"), s("one"));
    store.set_key(s("b"), s("two"));
    assert_eq!(store.delete_key(&s("a")), KeyStatus::NoContent);
    assert_eq!(store.get_key(&s("a")), Err(KeyStatus::NotFound));
    assert_eq!(store.delete_key(&s("a")), KeyStatus::NotFound);
    assert_eq!(store.get_key(&s("b")), Ok(s("two")));
}

#[test]
fn status_codes() {
    assert_eq!(KeyStatus::NoContent.code(), 204);
    assert_eq!(KeyStatus::NotFound.code(), 404);
}
