//! The messages of the errors of the X (Twitter) scraper.
use vstd::prelude::*;

verus! {

/// The start of the message of an unexpected answer of the scraping service.
pub const INVALID_SCRAPER_RESPONSE: &'static str = "invalid response from Twitter scraper";

pub open spec fn custom_text(msg: Seq<char>) -> Seq<char> {
    msg
}

pub open spec fn missing_field_text(index: Seq<char>) -> Seq<char> {
    INVALID_SCRAPER_RESPONSE@ + ": missing field '"@ + index + "'"@
}

pub open spec fn invalid_field_text(index: Seq<char>) -> Seq<char> {
    INVALID_SCRAPER_RESPONSE@ + ": invalid field '"@ + index + "'"@
}

pub open spec fn invalid_response_text(cause: Seq<char>) -> Seq<char> {
    INVALID_SCRAPER_RESPONSE@ + ": "@ + cause
}

pub open spec fn invalid_url_text(cause: Seq<char>) -> Seq<char> {
    "invalid url: "@ + cause
}

/// An error with the message `msg`.
pub fn custom(msg: &str) -> (res: String)
    ensures
        res@ == custom_text(msg@),
{
    String::from_str(msg)
}

/// The answer of the scraping service lacks the field `index`.
pub fn missing_field(index: &str) -> (res: String)
    ensures
        res@ == missing_field_text(index@),
{
    String::from_str(INVALID_SCRAPER_RESPONSE).concat(": missing field '").concat(index).concat("'")
}

/// The field `index` of the answer of the scraping service is not what it
/// should be.
pub fn invalid_field(index: &str) -> (res: String)
    ensures
        res@ == invalid_field_text(index@),
{
    String::from_str(INVALID_SCRAPER_RESPONSE).concat(": invalid field '").concat(index).concat("'")
}

/// The answer of the scraping service is unusable for `cause`.
pub fn invalid_response(cause: &str) -> (res: String)
    ensures
        res@ == invalid_response_text(cause@),
{
    String::from_str(INVALID_SCRAPER_RESPONSE).concat(": ").concat(cause)
}

/// A link is unusable for `cause`.
pub fn invalid_url(cause: &str) -> (res: String)
    ensures
        res@ == invalid_url_text(cause@),
{
    String::from_str("invalid url: ").concat(cause)
}

} // verus!
