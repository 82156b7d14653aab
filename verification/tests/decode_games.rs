//! Strict decoding of the games group, fixtures instead of the live
//! network.

use rustemon::decode::generation_from_body;
use rustemon::decode::pokedex_from_body;
use rustemon::decode::version_from_body;
use rustemon::decode::version_group_from_body;
use rustemon::error::Error;

const VERSION_BODY: &str = r#"{
  "id": 1,
  "name": "red",
  "names": [
    {"name": "Red", "language": {"name": "en", "url": "https://pokeapi.co/api/v2/language/9/"}}
  ],
  "version_group": {"name": "red-blue", "url": "https://pokeapi.co/api/v2/version-group/1/"}
}"#;

#[test]
fn version_fixture_decodes() {
    let v = version_from_body(VERSION_BODY).unwrap();
    assert_eq!(v.id, 1);
    assert_eq!(v.name, "red");
    assert_eq!(v.names[0].name, "Red");
    assert_eq!(v.version_group.name, "red-blue");
}

#[test]
fn version_missing_group_fails() {
    let body = VERSION_BODY.replace(
        ",\n  \"version_group\": {\"name\": \"red-blue\", \"url\": \"https://pokeapi.co/api/v2/version-group/1/\"}",
        "",
    );
    assert_eq!(version_from_body(&body), Err(Error::Decode));
}

#[test]
fn version_group_fixture_decodes() {
    let body = r#"{
      "id": 1,
      "name": "red-blue",
      "order": 1,
      "generation": {"name": "generation-i", "url": "https://pokeapi.co/api/v2/generation/1/"},
      "move_learn_methods": [
        {"name": "level-up", "url": "https://pokeapi.co/api/v2/move-learn-method/1/"}
      ],
      "pokedexes": [
        {"name": "kanto", "url": "https://pokeapi.co/api/v2/pokedex/2/"}
      ],
      "regions": [
        {"name": "kanto", "url": "https://pokeapi.co/api/v2/region/1/"}
      ],
      "versions": [
        {"name": "red", "url": "https://pokeapi.co/api/v2/version/1/"},
        {"name": "blue", "url": "https://pokeapi.co/api/v2/version/2/"}
      ]
    }"#;
    let g = version_group_from_body(body).unwrap();
    assert_eq!(g.id, 1);
    assert_eq!(g.order, 1);
    assert_eq!(g.generation.name, "generation-i");
    assert_eq!(g.versions.len(), 2);
    assert_eq!(g.versions[1].name, "blue");
}

#[test]
fn generation_fixture_decodes() {
    let body = r#"{
      "id": 1,
      "name": "generation-i",
      "abilities": [],
      "names": [
        {"name": "Generation I", "language": {"name": "en", "url": "https://pokeapi.co/api/v2/language/9/"}}
      ],
      "main_region": {"name": "kanto", "url": "https://pokeapi.co/api/v2/region/1/"},
      "moves": [
        {"name": "pound", "url": "https://pokeapi.co/api/v2/move/1/"}
      ],
      "pokemon_species": [
        {"name": "bulbasaur", "url": "https://pokeapi.co/api/v2/pokemon-species/1/"}
      ],
      "types": [
        {"name": "normal", "url": "https://pokeapi.co/api/v2/type/1/"}
      ],
      "version_groups": [
        {"name": "red-blue", "url": "https://pokeapi.co/api/v2/version-group/1/"}
      ]
    }"#;
    let g = generation_from_body(body).unwrap();
    assert_eq!(g.id, 1);
    assert_eq!(g.name, "generation-i");
    assert!(g.abilities.is_empty());
    assert_eq!(g.main_region.name, "kanto");
    assert_eq!(g.pokemon_species[0].name, "bulbasaur");
}

const POKEDEX_BODY: &str = r#"{
  "id": 2,
  "name": "kanto",
  "is_main_series": true,
  "descriptions": [
    {"description": "Rot/Blau/Gelb Kanto Dex", "language": {"name": "de", "url": "https://pokeapi.co/api/v2/language/6/"}}
  ],
  "names": [
    {"name": "Kanto", "language": {"name": "en", "url": "https://pokeapi.co/api/v2/language/9/"}}
  ],
  "pokemon_entries": [
    {"entry_number": 1, "pokemon_species": {"name": "bulbasaur", "url": "https://pokeapi.co/api/v2/pokemon-species/1/"}}
  ],
  "region": {"name": "kanto", "url": "https://pokeapi.co/api/v2/region/1/"},
  "version_groups": [
    {"name": "red-blue", "url": "https://pokeapi.co/api/v2/version-group/1/"}
  ]
}"#;

#[test]
fn pokedex_fixture_decodes() {
    let p = pokedex_from_body(POKEDEX_BODY).unwrap();
    assert_eq!(p.id, 2);
    assert!(p.is_main_series);
    assert_eq!(p.descriptions[0].description, "Rot/Blau/Gelb Kanto Dex");
    assert_eq!(p.pokemon_entries[0].entry_number, 1);
    assert_eq!(p.pokemon_entries[0].pokemon_species.name, "bulbasaur");
    assert_eq!(p.region.as_ref().map(|r| r.name.as_str()), Some("kanto"));
}

#[test]
fn pokedex_with_null_region_decodes() {
    let body = POKEDEX_BODY.replace(
        "\"region\": {\"name\": \"kanto\", \"url\": \"https://pokeapi.co/api/v2/region/1/\"}",
        "\"region\": null",
    );
    let p = pokedex_from_body(&body).unwrap();
    assert_eq!(p.region, None);
}

#[test]
fn pokedex_with_wrongly_typed_region_fails() {
    let body = POKEDEX_BODY.replace(
        "\"region\": {\"name\": \"kanto\", \"url\": \"https://pokeapi.co/api/v2/region/1/\"}",
        "\"region\": 7",
    );
    assert_eq!(pokedex_from_body(&body), Err(Error::Decode));
}
