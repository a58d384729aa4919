//! Addresses of the local synthesis server and the reading of its status
//! codes.
use vstd::prelude::*;

verus! {

/// Where the synthesis server listens.
pub open spec fn api_base() -> Seq<char> {
    "http://127.0.0.1:8000"@
}

/// The decimal digits of `n`, most significant first, without leading zeros.
pub open spec fn decimal(n: nat) -> Seq<char>
    decreases n,
{
    if n < 10 {
        seq!["0123456789"@[n as int]]
    } else {
        decimal(n / 10) + seq!["0123456789"@[(n % 10) as int]]
    }
}

/// The reason phrase that the HTTP registry gives `code`, or
/// `<unknown status code>` for a code it does not list.
pub uninterp spec fn reason_phrase(code: u16) -> Seq<char>;

/// How a status code reads in a message: its number, a space, its reason.
pub open spec fn status_line(code: u16) -> Seq<char> {
    decimal(code as nat) + " "@ + reason_phrase(code)
}

/// Whether `code` lies in the success class `2xx`.
pub open spec fn is_success_spec(code: u16) -> bool {
    200 <= code && code < 300
}

/// A code that an HTTP status can hold: three decimal digits.
pub open spec fn is_status_code(code: u16) -> bool {
    100 <= code && code <= 999
}

pub fn api_base_url() -> (r: String)
    ensures
        r@ == api_base(),
{
    String::from_str("http://127.0.0.1:8000")
}

/// The address that lists the voices of a language.
pub fn voices_url(language_code: &str) -> (r: String)
    ensures
        r@ == api_base() + "/voices/"@ + language_code@,
{
    api_base_url().concat("/voices/").concat(language_code)
}

/// The address that synthesis requests are posted to.
pub fn synthesize_url() -> (r: String)
    ensures
        r@ == api_base() + "/synthesize"@,
{
    api_base_url().concat("/synthesize")
}

/// The full address of a download path that the server handed back.
pub fn server_url(path: &str) -> (r: String)
    ensures
        r@ == api_base() + path@,
{
    api_base_url().concat(path)
}

/// Whether a reply with this status code counts as a success.
pub fn is_success_status(code: u16) -> (r: bool)
    ensures
        r == is_success_spec(code),
{
    200 <= code && code < 300
}

/// Relies on `reqwest::StatusCode::from_u16`, which accepts the codes from
/// 100 to 999, and on its `Display`, which writes the number, a space and
/// `canonical_reason()` (or `<unknown status code>`).
#[verifier::external_body]
pub(crate) fn status_text(code: u16) -> (r: String)
    requires
        is_status_code(code),
    ensures
        r@ == decimal(code as nat) + " "@ + reason_phrase(code),
{
    match reqwest::StatusCode::from_u16(code) {
        Ok(status) => status.to_string(),
        Err(e) => e.to_string(),
    }
}

} // verus!
