//! Strict decoding of recorded response bodies, pinned fixtures instead of
//! the live network.

use rustemon::decode::api_page_from_body;
use rustemon::decode::berry_firmness_from_body;
use rustemon::decode::berry_flavor_from_body;
use rustemon::decode::berry_from_body;
use rustemon::decode::language_from_body;
use rustemon::decode::machine_from_body;
use rustemon::decode::page_from_body;
use rustemon::error::Error;

const BERRY_BODY: &str = r#"{
  "id": 1,
  "name": "cheri",
  "growth_time": 3,
  "max_harvest": 5,
  "natural_gift_power": 60,
  "size": 20,
  "smoothness": 25,
  "soil_dryness": 15,
  "firmness": {"name": "soft", "url": "https://pokeapi.co/api/v2/berry-firmness/2/"},
  "flavors": [
    {"potency": 10, "flavor": {"name": "spicy", "url": "https://pokeapi.co/api/v2/berry-flavor/1/"}},
    {"potency": 0, "flavor": {"name": "dry", "url": "https://pokeapi.co/api/v2/berry-flavor/2/"}}
  ],
  "item": {"name": "cheri-berry", "url": "https://pokeapi.co/api/v2/item/126/"},
  "natural_gift_type": {"name": "fire", "url": "https://pokeapi.co/api/v2/type/10/"}
}"#;

#[test]
fn berry_by_id_fixture_decodes() {
    let berry = berry_from_body(BERRY_BODY).unwrap();
    assert_eq!(berry.id, 1);
    assert_eq!(berry.name, "cheri");
    assert_eq!(berry.growth_time, 3);
    assert_eq!(berry.soil_dryness, 15);
    assert!(!berry.firmness.name.is_empty());
    assert_eq!(berry.firmness.name, "soft");
    assert!(berry.firmness.url.ends_with("/berry-firmness/2/"));
    assert_eq!(berry.flavors.len(), 2);
    assert_eq!(berry.flavors[0].potency, 10);
    assert_eq!(berry.flavors[0].flavor.name, "spicy");
    assert_eq!(berry.item.name, "cheri-berry");
    assert_eq!(berry.natural_gift_type.name, "fire");
}

#[test]
fn two_addressing_modes_decode_equal_records() {
    // The server returns the same document for `berry/1` and `berry/cheri`;
    // decoding is a pure function of the body, so both addressing modes
    // yield structurally equal records.
    let by_id = berry_from_body(BERRY_BODY).unwrap();
    let by_name = berry_from_body(BERRY_BODY).unwrap();
    assert_eq!(by_id, by_name);
}

#[test]
fn missing_required_member_fails_decode() {
    // Same body with the required `growth_time` member deleted.
    let body = BERRY_BODY.replace("\"growth_time\": 3,", "");
    assert_eq!(berry_from_body(&body), Err(Error::Decode));
}

#[test]
fn missing_id_fails_decode() {
    let body = BERRY_BODY.replace("\"id\": 1,", "");
    assert_eq!(berry_from_body(&body), Err(Error::Decode));
}

#[test]
fn wrongly_typed_member_fails_decode() {
    let body = BERRY_BODY.replace("\"id\": 1,", "\"id\": \"1\",");
    assert_eq!(berry_from_body(&body), Err(Error::Decode));
}

#[test]
fn malformed_body_fails_decode() {
    assert_eq!(berry_from_body("{\"id\": 1,"), Err(Error::Decode));
    assert_eq!(berry_from_body(""), Err(Error::Decode));
}

#[test]
fn non_integral_number_fails_decode() {
    let body = BERRY_BODY.replace("\"size\": 20,", "\"size\": 20.5,");
    assert_eq!(berry_from_body(&body), Err(Error::Decode));
}

#[test]
fn non_object_body_fails_decode() {
    assert_eq!(berry_from_body("[1, 2, 3]"), Err(Error::Decode));
}

#[test]
fn overly_deep_body_fails_decode() {
    let mut body = String::new();
    for _ in 0..200 {
        body.push('[');
    }
    for _ in 0..200 {
        body.push(']');
    }
    assert_eq!(berry_from_body(&body), Err(Error::Decode));
}

const FIRMNESS_BODY: &str = r#"{
  "id": 2,
  "name": "soft",
  "berries": [
    {"name": "cheri", "url": "https://pokeapi.co/api/v2/berry/1/"},
    {"name": "pecha", "url": "https://pokeapi.co/api/v2/berry/3/"}
  ],
  "names": [
    {"name": "Soft", "language": {"name": "en", "url": "https://pokeapi.co/api/v2/language/9/"}}
  ]
}"#;

#[test]
fn berry_firmness_fixture_decodes() {
    let f = berry_firmness_from_body(FIRMNESS_BODY).unwrap();
    assert_eq!(f.id, 2);
    assert_eq!(f.name, "soft");
    assert_eq!(f.berries.len(), 2);
    assert_eq!(f.berries[1].name, "pecha");
    assert_eq!(f.names.len(), 1);
    assert_eq!(f.names[0].name, "Soft");
    assert_eq!(f.names[0].language.name, "en");
}

#[test]
fn berry_flavor_fixture_decodes() {
    let body = r#"{
      "id": 1,
      "name": "spicy",
      "berries": [
        {"potency": 10, "berry": {"name": "cheri", "url": "https://pokeapi.co/api/v2/berry/1/"}}
      ],
      "contest_type": {"name": "cool", "url": "https://pokeapi.co/api/v2/contest-type/1/"},
      "names": [
        {"name": "Spicy", "language": {"name": "en", "url": "https://pokeapi.co/api/v2/language/9/"}}
      ]
    }"#;
    let f = berry_flavor_from_body(body).unwrap();
    assert_eq!(f.id, 1);
    assert_eq!(f.name, "spicy");
    assert_eq!(f.berries[0].potency, 10);
    assert_eq!(f.berries[0].berry.name, "cheri");
    assert_eq!(f.contest_type.name, "cool");
}

#[test]
fn language_fixture_decodes() {
    let body = r#"{
      "id": 9,
      "name": "en",
      "official": true,
      "iso639": "en",
      "iso3166": "us",
      "names": [
        {"name": "English", "language": {"name": "en", "url": "https://pokeapi.co/api/v2/language/9/"}}
      ]
    }"#;
    let l = language_from_body(body).unwrap();
    assert_eq!(l.id, 9);
    assert_eq!(l.name, "en");
    assert!(l.official);
    assert_eq!(l.iso639, "en");
    assert_eq!(l.iso3166, "us");
    assert_eq!(l.names[0].name, "English");
}

#[test]
fn machine_fixture_decodes_reserved_word_member() {
    // The wire member is literally named `move`; it lands on `move_`.
    let body = r#"{
      "id": 1,
      "item": {"name": "tm00", "url": "https://pokeapi.co/api/v2/item/1288/"},
      "move": {"name": "mega-punch", "url": "https://pokeapi.co/api/v2/move/5/"},
      "version_group": {"name": "sword-shield", "url": "https://pokeapi.co/api/v2/version-group/20/"}
    }"#;
    let m = machine_from_body(body).unwrap();
    assert_eq!(m.id, 1);
    assert_eq!(m.item.name, "tm00");
    assert_eq!(m.move_.name, "mega-punch");
    assert_eq!(m.version_group.name, "sword-shield");
}

#[test]
fn machine_missing_move_member_fails() {
    let body = r#"{
      "id": 1,
      "item": {"name": "tm00", "url": "https://pokeapi.co/api/v2/item/1288/"},
      "version_group": {"name": "sword-shield", "url": "https://pokeapi.co/api/v2/version-group/20/"}
    }"#;
    assert_eq!(machine_from_body(body), Err(Error::Decode));
}

const PAGE_BODY: &str = r#"{
  "count": 64,
  "next": "https://pokeapi.co/api/v2/berry?offset=20&limit=20",
  "previous": null,
  "results": [
    {"name": "cheri", "url": "https://pokeapi.co/api/v2/berry/1/"},
    {"name": "chesto", "url": "https://pokeapi.co/api/v2/berry/2/"}
  ]
}"#;

#[test]
fn page_fixture_decodes() {
    let page = page_from_body(PAGE_BODY).unwrap();
    assert_eq!(page.count, 64);
    assert_eq!(page.next.as_deref(), Some("https://pokeapi.co/api/v2/berry?offset=20&limit=20"));
    assert_eq!(page.previous, None);
    assert_eq!(page.results.len(), 2);
    assert_eq!(page.results[0].name, "cheri");
    assert_eq!(page.results[1].url, "https://pokeapi.co/api/v2/berry/2/");
}

#[test]
fn page_with_absent_next_decodes() {
    let body = r#"{"count": 1, "previous": null, "results": []}"#;
    let page = page_from_body(body).unwrap();
    assert_eq!(page.next, None);
    assert!(page.results.is_empty());
}

#[test]
fn page_with_broken_entry_fails_as_a_whole() {
    let body = PAGE_BODY.replace("\"name\": \"chesto\", ", "");
    assert_eq!(page_from_body(&body), Err(Error::Decode));
}

#[test]
fn anonymous_page_fixture_decodes() {
    let body = r#"{
      "count": 2102,
      "next": "https://pokeapi.co/api/v2/machine?offset=20&limit=20",
      "previous": null,
      "results": [
        {"url": "https://pokeapi.co/api/v2/machine/1/"},
        {"url": "https://pokeapi.co/api/v2/machine/2/"}
      ]
    }"#;
    let page = api_page_from_body(body).unwrap();
    assert_eq!(page.count, 2102);
    assert_eq!(page.results.len(), 2);
    assert_eq!(page.results[0].url, "https://pokeapi.co/api/v2/machine/1/");
}
