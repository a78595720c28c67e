//! HTTP status codes, read through reqwest's `StatusCode`.

use vstd::prelude::*;

verus! {

/// What reqwest's `StatusCode` displays for the code `code`: the code, a
/// space and its canonical reason phrase.
pub uninterp spec fn http_status_text(code: u16) -> Seq<char>;

/// Whether the HTTP status `code` reports success.
///
/// Trusted: builds `reqwest::StatusCode::from_u16(code)`, which accepts every
/// code from 100 to 999, and calls `StatusCode::is_success`, which the http
/// crate documents (and implements) as "status is within 200-299".
#[verifier::external_body]
pub(crate) fn status_is_success(code: u16) -> (b: bool)
    requires
        100 <= code <= 999,
    ensures
        b == (200 <= code < 300),
{
    match reqwest::StatusCode::from_u16(code) {
        Ok(status) => status.is_success(),
        Err(_) => false,
    }
}

/// The text that reqwest's `StatusCode` displays for `code`.
///
/// Trusted: builds `reqwest::StatusCode::from_u16(code)`, which accepts every
/// code from 100 to 999, and formats it with its `Display` impl; the contract
/// names that text `http_status_text(code)` and says nothing more of it.
#[verifier::external_body]
pub(crate) fn status_text(code: u16) -> (s: String)
    requires
        100 <= code <= 999,
    ensures
        s@ == http_status_text(code),
{
    match reqwest::StatusCode::from_u16(code) {
        Ok(status) => status.to_string(),
        Err(_) => String::new(),
    }
}

} // verus!
