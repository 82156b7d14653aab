//! Bit-exact URL construction and the two-call pagination protocol.

use rustemon::endpoint::by_id_url;
use rustemon::endpoint::by_name_url;
use rustemon::endpoint::combine_pages;
use rustemon::endpoint::index_url;
use rustemon::endpoint::page_url;
use rustemon::endpoint::remainder_params;
use rustemon::endpoint::sub_by_id_url;
use rustemon::endpoint::sub_by_name_url;
use rustemon::model::resource::NamedApiResource;
use rustemon::model::resource::NamedApiResourceList;

const BASE: &str = "https://pokeapi.co/api/v2/";

fn reference(name: &str, url: &str) -> NamedApiResource {
    NamedApiResource { name: String::from(name), url: String::from(url) }
}

#[test]
fn index_url_is_base_plus_kind() {
    assert_eq!(index_url(BASE, "berry"), "https://pokeapi.co/api/v2/berry");
}

#[test]
fn page_url_carries_limit_and_offset() {
    assert_eq!(
        page_url(BASE, "pokemon", 100, 3),
        "https://pokeapi.co/api/v2/pokemon?limit=100&offset=3"
    );
}

#[test]
fn by_id_url_is_exact() {
    assert_eq!(by_id_url(BASE, "berry", 1), "https://pokeapi.co/api/v2/berry/1");
    assert_eq!(by_id_url(BASE, "move", 126), "https://pokeapi.co/api/v2/move/126");
    assert_eq!(by_id_url(BASE, "berry", -7), "https://pokeapi.co/api/v2/berry/-7");
}

#[test]
fn distinct_ids_request_distinct_urls() {
    assert_ne!(by_id_url(BASE, "berry", 1), by_id_url(BASE, "berry", 2));
    assert_ne!(by_id_url(BASE, "berry", 12), by_id_url(BASE, "berry", 120));
}

#[test]
fn by_name_url_is_exact() {
    assert_eq!(
        by_name_url(BASE, "pokemon-species", "wormadam"),
        "https://pokeapi.co/api/v2/pokemon-species/wormadam"
    );
}

#[test]
fn sub_resource_urls_are_exact() {
    assert_eq!(
        sub_by_id_url(BASE, "pokemon", 25, "encounters"),
        "https://pokeapi.co/api/v2/pokemon/25/encounters"
    );
    assert_eq!(
        sub_by_name_url(BASE, "pokemon", "pikachu", "encounters"),
        "https://pokeapi.co/api/v2/pokemon/pikachu/encounters"
    );
}

#[test]
fn remainder_request_covers_the_rest() {
    let first = NamedApiResourceList {
        count: 64,
        next: Some(String::from("https://pokeapi.co/api/v2/berry?offset=20&limit=20")),
        previous: None,
        results: vec![
            reference("cheri", "https://pokeapi.co/api/v2/berry/1/"),
            reference("chesto", "https://pokeapi.co/api/v2/berry/2/"),
        ],
    };
    let (offset, limit) = remainder_params(&first);
    assert_eq!(offset, 2);
    assert_eq!(limit, 62);
}

#[test]
fn combined_pages_keep_order_and_reach_count() {
    let first = NamedApiResourceList {
        count: 4,
        next: Some(String::from("n")),
        previous: None,
        results: vec![
            reference("a", "u/1/"),
            reference("b", "u/2/"),
        ],
    };
    let (offset, limit) = remainder_params(&first);
    assert_eq!((offset, limit), (2, 2));
    let second = NamedApiResourceList {
        count: 4,
        next: None,
        previous: Some(String::from("p")),
        results: vec![
            reference("c", "u/3/"),
            reference("d", "u/4/"),
        ],
    };
    let count = first.count;
    let all = combine_pages(first, second);
    assert_eq!(all.len() as i64, count);
    let names: Vec<&str> = all.iter().map(|r| r.name.as_str()).collect();
    assert_eq!(names, vec!["a", "b", "c", "d"]);
}

#[test]
fn consecutive_windows_are_disjoint_and_contiguous() {
    // One stable underlying collection, addressed twice: offsets 0 and 2,
    // limits 2 and 2 — the windows tile its first four entries.
    let collection = ["a", "b", "c", "d", "e"];
    let first: Vec<&str> = collection[0..2].to_vec();
    let second: Vec<&str> = collection[2..4].to_vec();
    for x in &first {
        assert!(!second.contains(x));
    }
    let mut joined = first.clone();
    joined.extend(&second);
    assert_eq!(joined, collection[0..4].to_vec());
}
