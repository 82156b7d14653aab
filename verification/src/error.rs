//! The closed set of failure kinds surfaced by every operation.

use vstd::prelude::*;

verus! {

/// The text prefixed to a transport failure's own message.
pub open spec fn transport_prefix() -> Seq<char> {
    "transport failure: "@
}

/// The text put before the URL a parse failure reports.
pub open spec fn url_parse_prefix() -> Seq<char> {
    "couldn't parse `"@
}

/// The text put after the URL a parse failure reports.
pub open spec fn url_parse_suffix() -> Seq<char> {
    "` to a valid url"@
}

/// The whole account of a decode failure.
pub open spec fn decode_message() -> Seq<char> {
    "error while decoding a response body"@
}

/// The whole account of a follow on an empty URL.
pub open spec fn follow_empty_message() -> Seq<char> {
    "error while following empty url"@
}

/// Custom error from the project.
///
/// Every fallible operation of the library reports its failure through this
/// one taxonomy; nothing is retried or substituted locally.
#[derive(Debug, Clone, PartialEq, Eq)]
pub enum Error {
    /// The underlying HTTP call failed (connection, status, middleware);
    /// carries the transport layer's own message.
    Transport(String),
    /// A path or base URL could not be parsed into a valid URL; carries the
    /// offending text. Always a local, deterministic failure.
    UrlParse(String),
    /// A response body could not be decoded into the expected record: the
    /// body is not well-formed JSON, or a required field is missing or has
    /// the wrong type.
    Decode,
    /// A follow operation was attempted on a reference with no URL.
    FollowEmptyURL,
}

impl Error {
    /// A human-readable account of the failure.
    pub fn message(&self) -> (m: String)
        ensures
            self matches Error::Transport(t) ==> m@ == transport_prefix() + t@,
            self matches Error::UrlParse(u) ==> m@ == url_parse_prefix() + u@
                + url_parse_suffix(),
            self is Decode ==> m@ == decode_message(),
            self is FollowEmptyURL ==> m@ == follow_empty_message(),
    {
        match self {
            Error::Transport(t) => {
                let mut m = "transport failure: ".to_owned();
                m.append(t.as_str());
                m
            },
            Error::UrlParse(u) => {
                let mut m = "couldn't parse `".to_owned();
                m.append(u.as_str());
                m.append("` to a valid url");
                proof {
                    assert(m@ =~= url_parse_prefix() + u@ + url_parse_suffix());
                }
                m
            },
            Error::Decode => "error while decoding a response body".to_owned(),
            Error::FollowEmptyURL => "error while following empty url".to_owned(),
        }
    }
}

} // verus!
