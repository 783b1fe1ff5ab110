use vstd::prelude::*;

use crate::compiled_pattern::{
    compile_regex, pattern_is_match, regex_compiles, regex_finds_match, CompiledPattern,
};
use crate::consts::YOUTUBE_URL_REGEX;
use crate::error::EnqueueError;

verus! {

#[verifier::external_type_specification]
#[verifier::external_body]
pub struct ExAnyhowError(anyhow::Error);

#[verifier::external_type_specification]
#[verifier::external_body]
pub struct ExIoError(std::io::Error);

#[verifier::external_type_specification]
pub struct ExIoErrorKind(std::io::ErrorKind);

/// The kind of an I/O error, as `std::io::Error::kind` reports it.
pub uninterp spec fn io_kind(e: std::io::Error) -> std::io::ErrorKind;

/// The text of an I/O error, as its `Display` (`to_string`) shows it.
pub uninterp spec fn io_error_text(e: std::io::Error) -> Seq<char>;

/// The text of an `anyhow::Error`, as its `Display` (`to_string`) shows it.
pub uninterp spec fn service_error_text(e: anyhow::Error) -> Seq<char>;

/// Calls `std::io::Error::new(std::io::ErrorKind::Other, err)`.
/// Claims what std documents for an error made by `new`: its kind is `Other`,
/// and it carries `err` as its payload, so it shows the text of `err`.
#[verifier::external_body]
fn io_error_other(err: anyhow::Error) -> (r: std::io::Error)
    ensures
        io_kind(r) == std::io::ErrorKind::Other,
        io_error_text(r) == service_error_text(err),
{
    std::io::Error::new(std::io::ErrorKind::Other, err)
}

/// Wraps any error of the service into an I/O error of kind `Other` that shows
/// the error's text.
pub fn anyhow_error_to_stdio_error(err: anyhow::Error) -> (r: std::io::Error)
    ensures
        io_kind(r) == std::io::ErrorKind::Other,
        io_error_text(r) == service_error_text(err),
{
    io_error_other(err)
}

/// The reason given for a URL that is not a YouTube URL.
pub open spec fn not_youtube_reason() -> Seq<char> {
    "URL doesn't match any know YouTube URL"@
}

/// The compiled pattern of YouTube URLs, or `None` when it does not compile.
pub fn youtube_url_pattern() -> (r: Option<CompiledPattern>)
    ensures
        r is Some <==> regex_compiles(YOUTUBE_URL_REGEX@),
        r matches Some(p) ==> p.pattern() == YOUTUBE_URL_REGEX@,
{
    match compile_regex(YOUTUBE_URL_REGEX) {
        Ok(p) => Some(p),
        Err(_) => None,
    }
}

/// Accepts the URL when it matched the YouTube pattern, refuses it otherwise.
pub fn check_url_match(youtube_url: String, matched: bool) -> (r: Result<String, EnqueueError>)
    ensures
        matched ==> r == Ok::<String, EnqueueError>(youtube_url),
        !matched ==> (r matches Err(EnqueueError::SanitizationError(m)) && m@ == not_youtube_reason()),
{
    if !matched {
        Err(EnqueueError::SanitizationError(String::from_str("URL doesn't match any know YouTube URL")))
    } else {
        Ok(youtube_url)
    }
}

/// Only allow youtube urls
pub fn sanitize(youtube_url: String) -> (r: Result<String, EnqueueError>)
    requires
        regex_compiles(YOUTUBE_URL_REGEX@),
    ensures
        regex_finds_match(YOUTUBE_URL_REGEX@, youtube_url@) ==> r == Ok::<String, EnqueueError>(youtube_url),
        !regex_finds_match(YOUTUBE_URL_REGEX@, youtube_url@) ==> (r matches Err(EnqueueError::SanitizationError(m))
            && m@ == not_youtube_reason()),
{
    match youtube_url_pattern() {
        Some(rx) => {
            let matched = pattern_is_match(&rx, youtube_url.as_str());
            check_url_match(youtube_url, matched)
        },
        None => {
            proof {
                assert(false);
            }
            check_url_match(youtube_url, false)
        },
    }
}

/// `sanitize`, run only when the YouTube pattern compiles; `None` when it does not.
pub fn try_sanitize(youtube_url: String) -> (r: Option<Result<String, EnqueueError>>)
    ensures
        r is Some <==> regex_compiles(YOUTUBE_URL_REGEX@),
        r matches Some(v) ==> (regex_finds_match(YOUTUBE_URL_REGEX@, youtube_url@) ==> v == Ok::<
            String,
            EnqueueError,
        >(youtube_url)),
        r matches Some(v) ==> (!regex_finds_match(YOUTUBE_URL_REGEX@, youtube_url@) ==> (v matches Err(
            EnqueueError::SanitizationError(m),
        ) && m@ == not_youtube_reason())),
{
    if youtube_url_pattern().is_some() {
        Some(sanitize(youtube_url))
    } else {
        None
    }
}

} // verus!
