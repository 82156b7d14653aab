//! Decimal rendering, base-URL normalization and environment resolution.

use rustemon::client::base_url_of;
use rustemon::client::Environment;
use rustemon::error::Error;
use rustemon::text::ensure_trailing_slash;
use rustemon::text::i64_to_dec;
use rustemon::text::u64_to_dec;

#[test]
fn renders_zero() {
    assert_eq!(u64_to_dec(0), "0");
}

#[test]
fn renders_single_digit() {
    assert_eq!(u64_to_dec(7), "7");
}

#[test]
fn renders_multi_digit() {
    assert_eq!(u64_to_dec(42), "42");
    assert_eq!(u64_to_dec(1200), "1200");
    assert_eq!(u64_to_dec(u64::MAX), "18446744073709551615");
}

#[test]
fn renders_signed() {
    assert_eq!(i64_to_dec(126), "126");
    assert_eq!(i64_to_dec(-120), "-120");
    assert_eq!(i64_to_dec(0), "0");
    assert_eq!(i64_to_dec(i64::MIN), "-9223372036854775808");
    assert_eq!(i64_to_dec(i64::MAX), "9223372036854775807");
}

#[test]
fn trailing_slash_appended_once() {
    let once = ensure_trailing_slash(String::from("http://localhost:8080/api/v2"));
    assert_eq!(once, "http://localhost:8080/api/v2/");
    let twice = ensure_trailing_slash(once.clone());
    assert_eq!(twice, once);
}

#[test]
fn production_base_url() {
    let b = base_url_of(&Environment::Production).unwrap();
    assert_eq!(b, "https://pokeapi.co/api/v2/");
}

#[test]
fn staging_base_url() {
    let b = base_url_of(&Environment::Staging).unwrap();
    assert_eq!(b, "https://staging.pokeapi.co/api/v2/");
}

#[test]
fn default_environment_is_production() {
    let b = base_url_of(&Environment::default()).unwrap();
    assert_eq!(b, "https://pokeapi.co/api/v2/");
}

#[test]
fn custom_base_normalization_agrees() {
    let bare = base_url_of(&Environment::Custom(String::from("http://localhost:8080/api/v2")))
        .unwrap();
    let slashed = base_url_of(&Environment::Custom(String::from("http://localhost:8080/api/v2/")))
        .unwrap();
    assert_eq!(bare, slashed);
    assert_eq!(bare, "http://localhost:8080/api/v2/");
}

#[test]
fn invalid_custom_base_fails_at_construction() {
    let r = base_url_of(&Environment::Custom(String::from("not a url")));
    match r {
        Err(Error::UrlParse(t)) => assert_eq!(t, "not a url/"),
        other => panic!("expected a UrlParse failure, got {:?}", other),
    }
}
