//! Following references embedded in decoded records.

use rustemon::decode::berry_firmness_from_body;
use rustemon::decode::berry_from_body;
use rustemon::error::Error;
use rustemon::follow::follow_url;
use rustemon::follow::follow_url_anonymous;
use rustemon::model::resource::ApiResource;
use rustemon::model::resource::NamedApiResource;

#[test]
fn empty_url_fails_with_exactly_follow_empty_url() {
    let reference = NamedApiResource { name: String::from("ghost"), url: String::new() };
    assert_eq!(follow_url(&reference), Err(Error::FollowEmptyURL));
}

#[test]
fn empty_anonymous_url_fails_with_exactly_follow_empty_url() {
    let reference = ApiResource { url: String::new() };
    assert_eq!(follow_url_anonymous(&reference), Err(Error::FollowEmptyURL));
}

#[test]
fn populated_url_resolves_to_itself() {
    let reference = NamedApiResource {
        name: String::from("soft"),
        url: String::from("https://pokeapi.co/api/v2/berry-firmness/2/"),
    };
    assert_eq!(
        follow_url(&reference),
        Ok(String::from("https://pokeapi.co/api/v2/berry-firmness/2/"))
    );
}

#[test]
fn followed_reference_matches_what_it_advertised() {
    // A berry's firmness reference, followed: the fetched document's own
    // name agrees with the name the reference advertised.
    let berry_body = r#"{
      "id": 1, "name": "cheri", "growth_time": 3, "max_harvest": 5,
      "natural_gift_power": 60, "size": 20, "smoothness": 25, "soil_dryness": 15,
      "firmness": {"name": "soft", "url": "https://pokeapi.co/api/v2/berry-firmness/2/"},
      "flavors": [],
      "item": {"name": "cheri-berry", "url": "https://pokeapi.co/api/v2/item/126/"},
      "natural_gift_type": {"name": "fire", "url": "https://pokeapi.co/api/v2/type/10/"}
    }"#;
    let berry = berry_from_body(berry_body).unwrap();
    let target = follow_url(&berry.firmness).unwrap();
    assert_eq!(target, "https://pokeapi.co/api/v2/berry-firmness/2/");

    // The recorded body that lives at that URL.
    let firmness_body = r#"{
      "id": 2, "name": "soft",
      "berries": [{"name": "cheri", "url": "https://pokeapi.co/api/v2/berry/1/"}],
      "names": []
    }"#;
    let firmness = berry_firmness_from_body(firmness_body).unwrap();
    assert_eq!(firmness.name, berry.firmness.name);
    assert_eq!(firmness.id, 2);
}
