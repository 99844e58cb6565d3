//! Whether a text is a URI, as the HTTP library reads one.
//!
//! An enhanced reply tells the client which address to show, and the header
//! that does so holds a URI. The reading is the HTTP library's; what is
//! stated of it here is taken on trust.

use axum::http::uri::InvalidUri;
use axum::http::Uri;
use vstd::prelude::*;

verus! {

#[verifier::external_type_specification]
#[verifier::external_body]
pub struct ExUri(Uri);

#[verifier::external_type_specification]
#[verifier::external_body]
pub struct ExInvalidUri(InvalidUri);

/// Whether the HTTP library reads `text` as a URI.
pub uninterp spec fn uri_accepts(text: Seq<char>) -> bool;

/// `http::Uri`'s `from_str`. Trusted: the text is read as a URI or refused,
/// and which of the two depends on the text alone. The reading never
/// panics: a text that is empty, too long or holds a character that a URI
/// cannot hold is refused with an error.
#[verifier::external_body]
fn parse_uri(text: &str) -> (parsed: Result<Uri, InvalidUri>)
    ensures
        parsed is Ok <==> uri_accepts(text@),
{
    text.parse::<Uri>()
}

/// `InvalidUri`'s `Display`: the words with which the HTTP library refused
/// a text. Nothing is claimed of them.
#[verifier::external_body]
fn refusal_text(refusal: &InvalidUri) -> (text: String) {
    refusal.to_string()
}

/// Reads `url` as a URI and reports the refusal, if it is refused.
pub fn check_url(url: &str) -> (refusal: Option<String>)
    ensures
        refusal is None <==> uri_accepts(url@),
{
    match parse_uri(url) {
        Ok(_) => None,
        Err(refusal) => Some(refusal_text(&refusal)),
    }
}

} // verus!
