//! The frozen snapshot of recorded responses.

use rustemon::decode::berry_firmness_from_body;
use rustemon::snapshot::Snapshot;
use rustemon::snapshot::SnapshotEntry;

fn entry(kind: &str, id: i64, body: &str) -> SnapshotEntry {
    SnapshotEntry { kind: String::from(kind), id, body: String::from(body) }
}

#[test]
fn lookup_finds_a_recorded_body() {
    let snapshot = Snapshot::new(vec![
        entry("berry", 1, "{\"id\": 1}"),
        entry("berry-firmness", 2, "{\"id\": 2}"),
    ]);
    assert_eq!(snapshot.lookup("berry", 1).map(String::as_str), Some("{\"id\": 1}"));
    assert_eq!(snapshot.lookup("berry-firmness", 2).map(String::as_str), Some("{\"id\": 2}"));
}

#[test]
fn lookup_misses_an_unrecorded_request() {
    let snapshot = Snapshot::new(vec![entry("berry", 1, "{\"id\": 1}")]);
    assert_eq!(snapshot.lookup("berry", 2), None);
    assert_eq!(snapshot.lookup("machine", 1), None);
}

#[test]
fn snapshot_serves_a_decodable_body() {
    let firmness_body = r#"{
      "id": 2, "name": "soft",
      "berries": [{"name": "cheri", "url": "https://pokeapi.co/api/v2/berry/1/"}],
      "names": []
    }"#;
    let snapshot = Snapshot::new(vec![entry("berry-firmness", 2, firmness_body)]);
    let body = snapshot.lookup("berry-firmness", 2).unwrap();
    let firmness = berry_firmness_from_body(body).unwrap();
    assert_eq!(firmness.id, 2);
    assert_eq!(firmness.name, "soft");
}
