//! The authorization material for the outbound client: HTTP basic
//! authentication over the provider login and API key.

use vstd::prelude::*;
use vstd::string::StringExecFns;

verus! {

/// What base64-encoding a string's UTF-8 bytes yields; the encoding is a
/// function of the characters alone.
pub uninterp spec fn base64_of(s: Seq<char>) -> Seq<char>;

/// Relies on base64::encode: standard alphabet with padding, output a
/// function of the input bytes alone.
#[verifier::external_body]
fn base64_encode(s: &str) -> (r: String)
    ensures
        r@ == base64_of(s@),
{
    base64::encode(s.as_bytes())
}

/// The value of the `Authorization` header sent on every outbound request:
/// `Basic` followed by the base64 encoding of `login:api_key`.
pub fn auth_header_value(login: &str, api_key: &str) -> (r: String)
    ensures
        r@ == "Basic "@ + base64_of(login@ + ":"@ + api_key@),
{
    let credentials = login.to_owned().concat(":").concat(api_key);
    let encoded = base64_encode(credentials.as_str());
    "Basic ".to_owned().concat(encoded.as_str())
}

/// The fixed `User-Agent` header value sent on every outbound request.
pub fn user_agent() -> (r: &'static str)
    ensures
        r@ == "email-sender"@,
{
    "email-sender"
}

} // verus!
