//! The rules of the two middlewares that stand before every handler: who is
//! let through, and whose bodies are recorded.

use vstd::prelude::*;
use vstd::string::StringSliceAdditionalSpecFns;
use vstd::utf8::{encode_utf8, is_char_boundary, valid_utf8};
use crate::errors::{CustomJWTTokenError, GenericError};

verus! {

/// The rule that a caller must show a valid token.
#[derive(Clone, Copy, Debug, PartialEq, Eq, Structural)]
pub struct RequireAuth;

/// Whether `result` is the token that a request with the given `token`
/// cookie and `Authorization` header shows. The cookie comes first. Of the
/// header the first seven bytes, the scheme and a blank, are left out. A
/// header that cannot be cut there is no valid credential, and a request
/// with neither shows none: both are turned down as a failure to
/// authenticate.
pub open spec fn is_credential_of(
    result: Result<String, GenericError>,
    cookie: Option<String>,
    authorization: Option<&str>,
) -> bool {
    match (cookie, authorization) {
        (Some(token), _) => result == Ok::<String, GenericError>(token),
        (None, Some(header)) => if is_char_boundary(header.spec_bytes(), 7) {
            result matches Ok(token) && encode_utf8(token@) == header.spec_bytes().skip(7)
        } else {
            result matches Err(GenericError::InvalidJWT(text)) && text@ == "Invalid Token"@
        },
        (None, None) => result matches Err(GenericError::InvalidJWT(text)) && text@
            == "Authorization header is missing"@,
    }
}

/// Whether `result` is what a checked token comes to: its subject, or the
/// error's own text as an invalid credential.
pub open spec fn is_admission_of(
    result: Result<String, GenericError>,
    checked: Result<String, CustomJWTTokenError>,
) -> bool {
    match checked {
        Ok(subject) => result == Ok::<String, GenericError>(subject),
        Err(error) => result matches Err(GenericError::InvalidJWT(text)) && text@ == error.text(),
    }
}

impl RequireAuth {
    /// Picks the token that a request shows.
    pub fn credential(&self, cookie: Option<String>, authorization: Option<&str>) -> (result:
        Result<String, GenericError>)
        ensures
            is_credential_of(result, cookie, authorization),
    {
        match cookie {
            Some(token) => Ok(token),
            None => match authorization {
                Some(header) => {
                    if header.is_char_boundary(7) {
                        let (_, token) = header.split_at(7);
                        Ok(token.to_owned())
                    } else {
                        Err(GenericError::InvalidJWT("Invalid Token".to_owned()))
                    }
                },
                None => Err(GenericError::InvalidJWT("Authorization header is missing".to_owned())),
            },
        }
    }

    /// Lets the caller through if the token was good: gives its subject, or
    /// the rejection that is sent back.
    pub fn let_through(&self, checked: Result<String, CustomJWTTokenError>) -> (result: Result<
        String,
        GenericError,
    >)
        ensures
            is_admission_of(result, checked),
    {
        match checked {
            Ok(subject) => Ok(subject),
            Err(error) => Err(GenericError::InvalidJWT(error.message())),
        }
    }
}

/// The rule that says of which requests the bodies are recorded.
#[derive(Clone, Copy, Debug, PartialEq, Eq, Structural)]
pub struct SaveRequestResponse;

/// Which bodies of an exchange are recorded.
#[derive(Clone, Copy, Debug, PartialEq, Eq, Structural)]
pub enum BodyCapture {
    /// Neither: the exchange passes untouched.
    Bypass,
    /// The body of the response.
    ResponseOnly,
    /// The bodies of the request and of the response.
    RequestAndResponse,
}

/// Whether `part` occurs somewhere in `text`.
pub open spec fn occurs_in(part: Seq<char>, text: Seq<char>) -> bool {
    exists|i: int| 0 <= i <= text.len() - part.len() && #[trigger] text.subrange(
        i,
        i + part.len(),
    ) == part
}

/// Which bodies are recorded of a request with the given `Upgrade` header
/// and path. A socket upgrade and the documentation pages pass untouched;
/// of a path that ends in `on_search` only the response is recorded.
pub open spec fn body_capture(upgrade: Option<&str>, path: Seq<char>) -> BodyCapture {
    if (upgrade matches Some(protocol) && protocol@ == "websocket"@) || occurs_in("/docs/"@, path)
        || occurs_in("/api-docs/"@, path) {
        BodyCapture::Bypass
    } else if "on_search"@.is_suffix_of(path) {
        BodyCapture::ResponseOnly
    } else {
        BodyCapture::RequestAndResponse
    }
}

/// Whether `text` ends with `suffix`. This is `str::ends_with` of std with a
/// string as the pattern.
#[verifier::external_body]
fn ends_with(text: &str, suffix: &str) -> (found: bool)
    ensures
        found == suffix@.is_suffix_of(text@),
{
    text.ends_with(suffix)
}

/// Whether `part` occurs in `text`. This is `str::contains` of std with a
/// string as the pattern.
#[verifier::external_body]
fn contains(text: &str, part: &str) -> (found: bool)
    ensures
        found == occurs_in(part@, text@),
{
    text.contains(part)
}

/// Reads bytes as text. This is `str::from_utf8` of std: the text whose
/// encoding the bytes are, if they are the encoding of one.
#[verifier::external_body]
fn from_utf8(bytes: &[u8]) -> (text: Option<&str>)
    ensures
        text is Some <==> valid_utf8(bytes@),
        text matches Some(text) ==> text.spec_bytes() == bytes@,
{
    std::str::from_utf8(bytes).ok()
}

/// Whether `text` is what is recorded of a body, and sent on in its place:
/// the text that the body encodes, or nothing where it encodes none.
pub open spec fn is_text_of(text: Seq<char>, body: Seq<u8>) -> bool {
    if valid_utf8(body) {
        encode_utf8(text) == body
    } else {
        text.len() == 0
    }
}

impl SaveRequestResponse {
    /// The text of a response's body.
    pub fn body_text(&self, body: &[u8]) -> (text: String)
        ensures
            is_text_of(text@, body@),
    {
        match from_utf8(body) {
            Some(text) => text.to_owned(),
            None => String::new(),
        }
    }

    /// Says which bodies of an exchange are recorded.
    pub fn capture(&self, upgrade: Option<&str>, path: &str) -> (capture: BodyCapture)
        ensures
            capture == body_capture(upgrade, path@),
    {
        let is_websocket = match upgrade {
            Some(protocol) => protocol.to_owned() == "websocket".to_owned(),
            None => false,
        };
        if is_websocket || contains(path, "/docs/") || contains(path, "/api-docs/") {
            BodyCapture::Bypass
        } else if ends_with(path, "on_search") {
            BodyCapture::ResponseOnly
        } else {
            BodyCapture::RequestAndResponse
        }
    }
}

} // verus!
