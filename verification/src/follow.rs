//! Uniform dereferencing of reference values.
//!
//! Any reference embedded in a decoded record can be followed: its URL is
//! resolved and the target document decoded as the type the call site
//! expects. The decision lives here, once, for both reference shapes; the
//! caller performs the fetch against the URL this module hands out.

use vstd::prelude::*;

use crate::error::Error;
use crate::model::resource::ApiResource;
use crate::model::resource::NamedApiResource;

verus! {

/// The URL a named reference leads to.
///
/// A reference with an empty URL is structurally degenerate — a relation
/// the record declares but the response chose not to populate — and
/// following it fails with exactly [`Error::FollowEmptyURL`], never with a
/// transport or decode failure, so that callers can tell the two apart.
pub fn follow_url(reference: &NamedApiResource) -> (t: Result<String, Error>)
    ensures
        reference.url@.len() > 0 ==> (t matches Ok(u) && u@ == reference.url@),
        reference.url@.len() == 0 ==> (t matches Err(e) && e is FollowEmptyURL),
{
    if reference.url.as_str().unicode_len() > 0 {
        Ok(reference.url.clone())
    } else {
        Err(Error::FollowEmptyURL)
    }
}

/// The URL an anonymous reference leads to; empty URLs fail exactly as in
/// [`follow_url`].
pub fn follow_url_anonymous(reference: &ApiResource) -> (t: Result<String, Error>)
    ensures
        reference.url@.len() > 0 ==> (t matches Ok(u) && u@ == reference.url@),
        reference.url@.len() == 0 ==> (t matches Err(e) && e is FollowEmptyURL),
{
    if reference.url.as_str().unicode_len() > 0 {
        Ok(reference.url.clone())
    } else {
        Err(Error::FollowEmptyURL)
    }
}

} // verus!
