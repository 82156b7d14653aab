//! Selection of the environment to target, and the base URL it resolves to.
//!
//! A base URL always ends in a path separator, so that joining a relative
//! path onto it behaves predictably; resolution fails fast at construction
//! time, never lazily on a first request.

use vstd::prelude::*;

use crate::error::Error;
use crate::text::ensure_trailing_slash;
use crate::text::slash_terminated;
use crate::text::with_trailing_slash;

verus! {

/// Environment to target while calling the API.
#[derive(Debug, Clone)]
pub enum Environment {
    /// Targets the production deployment.
    Production,
    /// Targets the staging deployment.
    Staging,
    /// Targets a custom deployment, a local one through Docker for example;
    /// carries its base URL.
    Custom(String),
}

impl Default for Environment {
    /// The environment used when none is chosen explicitly.
    fn default() -> (r: Self)
        ensures
            r is Production,
    {
        Environment::Production
    }
}

/// The well-known production base URL.
pub open spec fn production_base() -> Seq<char> {
    "https://pokeapi.co/api/v2/"@
}

/// The well-known staging base URL.
pub open spec fn staging_base() -> Seq<char> {
    "https://staging.pokeapi.co/api/v2/"@
}

/// Whether `s` is accepted by the URL parser; parsing is deterministic, so
/// this is a function of the text alone.
pub uninterp spec fn url_ok(s: Seq<char>) -> bool;

/// Relies on `reqwest::Url::parse` (the `url` crate's parser): whether a
/// text is accepted as an absolute URL depends on the text alone, here
/// given the name [`url_ok`].
#[verifier::external_body]
pub fn url_is_valid(s: &str) -> (r: bool)
    ensures
        r == url_ok(s@),
{
    reqwest::Url::parse(s).is_ok()
}

/// Resolves `env` to the base URL every request is joined onto.
///
/// The two fixed environments resolve to their well-known bases. A custom
/// base is normalized to end in a path separator, then validated: a text
/// the URL parser rejects is reported right away as [`Error::UrlParse`]
/// carrying the normalized text, not later at request time.
pub fn base_url_of(env: &Environment) -> (r: Result<String, Error>)
    ensures
        env is Production ==> (r matches Ok(b) && b@ == production_base()),
        env is Staging ==> (r matches Ok(b) && b@ == staging_base()),
        env matches Environment::Custom(u) ==> (if url_ok(with_trailing_slash(u@)) {
            r matches Ok(b) && b@ == with_trailing_slash(u@)
        } else {
            r matches Err(e) && (e matches Error::UrlParse(t) && t@ == with_trailing_slash(u@))
        }),
        r matches Ok(b) ==> slash_terminated(b@),
{
    match env {
        Environment::Production => {
            let b = "https://pokeapi.co/api/v2/".to_owned();
            proof {
                reveal_strlit("https://pokeapi.co/api/v2/");
            }
            assert(slash_terminated(b@));
            Ok(b)
        },
        Environment::Staging => {
            let b = "https://staging.pokeapi.co/api/v2/".to_owned();
            proof {
                reveal_strlit("https://staging.pokeapi.co/api/v2/");
            }
            assert(slash_terminated(b@));
            Ok(b)
        },
        Environment::Custom(u) => {
            let norm = ensure_trailing_slash(u.clone());
            if url_is_valid(norm.as_str()) {
                Ok(norm)
            } else {
                Err(Error::UrlParse(norm))
            }
        },
    }
}

} // verus!
