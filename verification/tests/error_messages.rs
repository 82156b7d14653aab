//! The textual accounts of the failure kinds.

use rustemon::error::Error;

#[test]
fn transport_message_carries_the_cause() {
    let e = Error::Transport(String::from("connection refused"));
    assert_eq!(e.message(), "transport failure: connection refused");
}

#[test]
fn url_parse_message_names_the_text() {
    let e = Error::UrlParse(String::from("not a url/"));
    assert_eq!(e.message(), "couldn't parse `not a url/` to a valid url");
}

#[test]
fn decode_message_is_fixed() {
    assert_eq!(Error::Decode.message(), "error while decoding a response body");
}

#[test]
fn follow_empty_url_message_is_fixed() {
    assert_eq!(Error::FollowEmptyURL.message(), "error while following empty url");
}
