//! What the request handlers decide, on plain values: which base URL a
//! request was made to, which URL its body asks to shorten, and what is
//! answered for each outcome of the store.
//!
//! Reading headers and bodies, holding the lock on the store and building
//! responses is left to the caller.

use crate::store::{RegistrationError, ResolutionError, StoreAccess};
use crate::token::Token;
use core::str::Utf8Error;
use url::{ParseError, Url};
use vstd::prelude::*;
use vstd::string::StringExecFns;
use vstd::utf8::*;

verus! {

/// The error of the `url` crate's parser. Only its presence is looked at.
#[verifier::external_type_specification]
#[verifier::external_body]
pub struct ExParseError(url::ParseError);

/// The error of `core::str::from_utf8`. Only its presence is looked at.
#[verifier::external_type_specification]
#[verifier::external_body]
pub struct ExUtf8Error(core::str::Utf8Error);

/// The URL that `Url::parse` makes of `text`, if it makes one.
pub uninterp spec fn parsed_url(text: Seq<char>) -> Option<Url>;

/// The URL that `Url::join` makes of `reference` against `base`, if it
/// makes one.
pub uninterp spec fn joined_url(base: Url, reference: Seq<char>) -> Option<Url>;

/// The serialization of `url`, as its `Display` writes it.
pub uninterp spec fn url_text(url: Url) -> Seq<char>;

/// `Url::parse` on `text`: the parser of the `url` crate without a base URL
/// and with its default options, so the outcome depends on `text` alone.
#[verifier::external_body]
fn parse_url(text: &str) -> (parsed: Result<Url, ParseError>)
    ensures
        match parsed {
            Ok(url) => parsed_url(text@) == Some(url),
            Err(_) => parsed_url(text@) is None,
        },
{
    Url::parse(text)
}

/// `Url::join` on `base` and `reference`: the same parser with `base` as
/// the base URL, so the outcome depends on the two alone.
#[verifier::external_body]
fn join_url(base: &Url, reference: &str) -> (joined: Result<Url, ParseError>)
    ensures
        match joined {
            Ok(url) => joined_url(*base, reference@) == Some(url),
            Err(_) => joined_url(*base, reference@) is None,
        },
{
    base.join(reference)
}

/// `to_string` on a `Url`: its `Display` writes the serialization that the
/// URL holds.
#[verifier::external_body]
fn url_to_string(url: &Url) -> (text: String)
    ensures
        text@ == url_text(*url),
{
    url.to_string()
}

/// `core::str::from_utf8` on `bytes`: the bytes as a string slice when they
/// are well-formed UTF-8, an error when they are not.
#[verifier::external_body]
fn text_of_bytes(bytes: &[u8]) -> (text: Result<&str, Utf8Error>)
    ensures
        text is Ok <==> valid_utf8(bytes@),
        text matches Ok(slice) ==> encode_utf8(slice@) == bytes@,
{
    core::str::from_utf8(bytes)
}

/// Why a request did not get a URL out of what it sent.
#[derive(Debug, Clone, Copy, PartialEq, Eq, Structural)]
pub enum UrlError {
    /// The bytes are not UTF-8.
    NotUtf8,
    /// The text is not an absolute URL.
    NotAUrl,
}

/// How a request is turned down.
#[derive(Debug, Clone, Copy, PartialEq, Eq, Structural)]
pub enum Failure {
    /// The request did not hold a URL to shorten.
    BadRequest,
    /// The token resolves to nothing.
    NotFound,
    /// The service could not do its own part.
    Internal,
}

/// What a request holds under one header name.
#[derive(Debug, Clone, Copy)]
pub enum Header<'a> {
    /// The request has no such header.
    Missing,
    /// The header is there, and its value is no text.
    Opaque,
    /// The header's value.
    Text(&'a str),
}

/// The scheme that a request came by: the forwarded one where it is text,
/// else `http`.
pub open spec fn base_scheme(forwarded_proto: Header) -> Seq<char> {
    match forwarded_proto {
        Header::Text(proto) => proto@,
        _ => "http"@,
    }
}

/// The host that a request was made to. The forwarded host decides where
/// the request names one, else the host of the request itself; a value that
/// is no text, or none at all, stands for `localhost`.
pub open spec fn base_host(forwarded_host: Header, host: Header) -> Seq<char> {
    let chosen = match forwarded_host {
        Header::Missing => host,
        _ => forwarded_host,
    };
    match chosen {
        Header::Text(name) => name@,
        _ => "localhost"@,
    }
}

/// The text of the base URL: scheme, `://`, host.
pub open spec fn base_url_text(forwarded_proto: Header, forwarded_host: Header, host: Header) -> Seq<
    char,
> {
    base_scheme(forwarded_proto) + "://"@ + base_host(forwarded_host, host)
}

/// What a URL is made of `text`: the parsed URL, or `NotAUrl`.
pub open spec fn url_of_text(text: Seq<char>) -> Result<Url, UrlError> {
    match parsed_url(text) {
        Some(url) => Ok(url),
        None => Err(UrlError::NotAUrl),
    }
}

/// What a URL is made of `body`: `NotUtf8` for bytes that are no text, else
/// what is made of the text.
pub open spec fn url_of_body(body: Seq<u8>) -> Result<Url, UrlError> {
    if valid_utf8(body) {
        url_of_text(decode_utf8(body))
    } else {
        Err(UrlError::NotUtf8)
    }
}

/// The short URL for `token` under `base`: the serialization of `token`
/// joined to `base`, or `Internal` when the two do not join.
pub open spec fn short_url_spec(base: Url, token: Seq<char>) -> Result<Seq<char>, Failure> {
    match joined_url(base, token) {
        Some(url) => Ok(url_text(url)),
        None => Err(Failure::Internal),
    }
}

/// Where a resolution redirects to: the serialization of the URL found, or
/// `NotFound` for every error.
pub open spec fn redirect_spec(resolved: Result<Url, ResolutionError>) -> Result<
    Seq<char>,
    Failure,
> {
    match resolved {
        Ok(url) => Ok(url_text(url)),
        Err(_) => Err(Failure::NotFound),
    }
}

/// The view of an answer: the text of a success, the failure as it is.
pub open spec fn answer_view(answer: Result<String, Failure>) -> Result<Seq<char>, Failure> {
    match answer {
        Ok(text) => Ok(text@),
        Err(failure) => Err(failure),
    }
}

/// The text `scheme://host` that the base URL is parsed from.
pub fn base_url_string(forwarded_proto: Header, forwarded_host: Header, host: Header) -> (text:
    String)
    ensures
        text@ == base_url_text(forwarded_proto, forwarded_host, host),
{
    let proto = match forwarded_proto {
        Header::Text(proto) => proto,
        _ => "http",
    };
    let chosen = match forwarded_host {
        Header::Missing => host,
        _ => forwarded_host,
    };
    let name = match chosen {
        Header::Text(name) => name,
        _ => "localhost",
    };
    let mut text = String::from_str(proto);
    text.append("://");
    text.append(name);
    text
}

/// The public base URL of a request, from what it holds under
/// `x-forwarded-proto`, `x-forwarded-host` and `host`.
pub fn extract_base_url(forwarded_proto: Header, forwarded_host: Header, host: Header) -> (base:
    Result<Url, UrlError>)
    ensures
        base == url_of_text(base_url_text(forwarded_proto, forwarded_host, host)),
{
    let text = base_url_string(forwarded_proto, forwarded_host, host);
    match parse_url(text.as_str()) {
        Ok(url) => Ok(url),
        Err(_) => Err(UrlError::NotAUrl),
    }
}

/// The URL that the body of a request asks to shorten.
pub fn extract_body_url(body: &[u8]) -> (target: Result<Url, UrlError>)
    ensures
        target == url_of_body(body@),
{
    match text_of_bytes(body) {
        Err(_) => Err(UrlError::NotUtf8),
        Ok(text) => {
            proof {
                encode_utf8_decode_utf8(text@);
            }
            match parse_url(text) {
                Ok(url) => Ok(url),
                Err(_) => Err(UrlError::NotAUrl),
            }
        },
    }
}

/// The view of a body that may not have been read.
pub open spec fn body_view(body: Option<&[u8]>) -> Option<Seq<u8>> {
    match body {
        Some(bytes) => Some(bytes@),
        None => None,
    }
}

/// What a registration request asks for: the base URL and the URL to
/// shorten. A request without a base URL fails as `Internal`, whatever
/// became of its body; one with a base URL fails as `BadRequest` where its
/// body was not read or holds no URL.
pub open spec fn registration_request_spec(
    forwarded_proto: Header,
    forwarded_host: Header,
    host: Header,
    body: Option<Seq<u8>>,
) -> Result<(Url, Url), Failure> {
    match url_of_text(base_url_text(forwarded_proto, forwarded_host, host)) {
        Err(_) => Err(Failure::Internal),
        Ok(base) => match body {
            None => Err(Failure::BadRequest),
            Some(bytes) => match url_of_body(bytes) {
                Err(_) => Err(Failure::BadRequest),
                Ok(target) => Ok((base, target)),
            },
        },
    }
}

/// Reads a registration request: its base URL, from the three headers,
/// and the URL that its body asks to shorten. `body` is `None` where the
/// body could not be read.
pub fn registration_request(
    forwarded_proto: Header,
    forwarded_host: Header,
    host: Header,
    body: Option<&[u8]>,
) -> (request: Result<(Url, Url), Failure>)
    ensures
        request == registration_request_spec(
            forwarded_proto,
            forwarded_host,
            host,
            body_view(body),
        ),
{
    let base = match extract_base_url(forwarded_proto, forwarded_host, host) {
        Ok(base) => base,
        Err(_) => {
            return Err(Failure::Internal);
        },
    };
    let bytes = match body {
        Some(bytes) => bytes,
        None => {
            return Err(Failure::BadRequest);
        },
    };
    match extract_body_url(bytes) {
        Ok(target) => Ok((base, target)),
        Err(_) => Err(Failure::BadRequest),
    }
}

/// The short URL that stands for `token` under `base_url`.
pub fn short_url(base_url: &Url, token: &Token) -> (shortened: Result<String, Failure>)
    ensures
        answer_view(shortened) == short_url_spec(*base_url, token@),
        token@.len() == Token::TOKEN_LENGTH,
{
    match join_url(base_url, token.as_str()) {
        Ok(url) => Ok(url_to_string(&url)),
        Err(_) => Err(Failure::Internal),
    }
}

/// The answer to a registration, from what the store returned: the short
/// URL of the token, `Internal` when the store failed.
pub fn registration_answer(base_url: &Url, registered: Result<Token, RegistrationError>) -> (answer:
    Result<String, Failure>)
    ensures
        answer_view(answer) == match registered {
            Ok(token) => short_url_spec(*base_url, token@),
            Err(_) => Err(Failure::Internal),
        },
        registered matches Ok(token) ==> token@.len() == Token::TOKEN_LENGTH,
{
    match registered {
        Ok(token) => short_url(base_url, &token),
        Err(_) => Err(Failure::Internal),
    }
}

/// The answer to a resolution, from what the store returned: the text to
/// redirect to, `NotFound` when the store gave an error of either kind.
pub fn redirect_target(resolved: Result<Url, ResolutionError>) -> (answer: Result<String, Failure>)
    ensures
        answer_view(answer) == redirect_spec(resolved),
{
    match resolved {
        Ok(url) => Ok(url_to_string(&url)),
        Err(_) => Err(Failure::NotFound),
    }
}

/// Registers `target_url` with `store` and answers with the short URL
/// under `base_url`. The store decides the token, and whether it succeeds;
/// the answer is `registration_answer` of what it returned.
pub fn register_url<S: StoreAccess + ?Sized>(store: &mut S, base_url: &Url, target_url: Url) -> (answer:
    Result<String, Failure>)
    ensures
        answer is Err ==> answer == Err::<String, Failure>(Failure::Internal),
        answer is Ok ==> exists|token: Seq<char>|
            token.len() == Token::TOKEN_LENGTH && answer_view(answer) == #[trigger] short_url_spec(
                *base_url,
                token,
            ),
{
    let registered = store.register_url(target_url);
    registration_answer(base_url, registered)
}

/// Resolves `token` with `store` and answers with the text to redirect to.
/// The store decides what the token resolves to; the answer is
/// `redirect_target` of what it returned.
pub fn resolve_url<S: StoreAccess + ?Sized>(store: &S, token: &str) -> (answer: Result<
    String,
    Failure,
>)
    ensures
        answer is Err ==> answer == Err::<String, Failure>(Failure::NotFound),
        answer is Ok ==> exists|url: Url| answer_view(answer) == Ok::<Seq<char>, Failure>(
            #[trigger] url_text(url),
        ),
{
    let resolved = store.resolve_token(token);
    redirect_target(resolved)
}

} // verus!
