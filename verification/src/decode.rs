//! Decoding of payloads: URL-safe base64 without padding, then UTF-8, and
//! for a URL the check of its transport scheme against the allow-list.
//!
//! The two steps are layered: [`decode_txt`] decodes to text, and
//! [`decode_url`] checks the decoded text as a URL.

use crate::error::{Error, ErrorView};
use crate::text::{chars_of, find, find_from, same_text};
use vstd::prelude::*;
use vstd::string::{StrSliceExecFns, StringExecFns};

verus! {

/// What the URL-safe base64 alphabet without padding decodes `data` to, or
/// nothing where `data` is not such an encoding.
pub uninterp spec fn url_safe_decoding(data: Seq<char>) -> Option<Seq<u8>>;

/// Whether `c` is one of the 64 symbols of the URL-safe alphabet: a letter
/// of `A` to `Z` or `a` to `z`, a digit, `-` or `_`.
pub open spec fn is_symbol(c: char) -> bool {
    ||| 'A' <= c <= 'Z'
    ||| 'a' <= c <= 'z'
    ||| '0' <= c <= '9'
    ||| c == '-'
    ||| c == '_'
}

/// Whether `data` is made of symbols of the URL-safe alphabet alone.
pub open spec fn all_symbols(data: Seq<char>) -> bool {
    forall|i: int| 0 <= i < data.len() ==> is_symbol(#[trigger] data[i])
}

/// The bytes that `data` encodes: those that the decoder gives for a text
/// of symbols of the alphabet; a text that holds anything else, such as
/// `=`, `?`, `&` or `/`, encodes nothing.
pub open spec fn spec_decoding(data: Seq<char>) -> Option<Seq<u8>> {
    if all_symbols(data) {
        url_safe_decoding(data)
    } else {
        None
    }
}

/// Calls `base64::Engine::decode` on the engine `BASE64_URL_SAFE_NO_PAD`.
/// The contract names the outcome: the bytes that the engine decodes
/// `data` to, or nothing where the engine reports an error. It states one
/// fact of the engine beside: it decodes no text that holds anything but
/// symbols of its alphabet, for it looks every byte up in the table of the
/// alphabet and, being without padding, refuses `=` as well.
#[verifier::external_body]
fn decode_base64(data: &str) -> (r: Result<Vec<u8>, base64::DecodeError>)
    ensures
        match r {
            Ok(bytes) => url_safe_decoding(data@) == Some(bytes@) && all_symbols(data@),
            Err(_) => url_safe_decoding(data@) is None,
        },
{
    base64::Engine::decode(&base64::prelude::BASE64_URL_SAFE_NO_PAD, data)
}

/// Calls `String::from_utf8`: the bytes become a string exactly when they
/// are valid UTF-8, and the string then holds the characters they encode.
#[verifier::external_body]
fn utf8_string(bytes: Vec<u8>) -> (r: Result<String, std::string::FromUtf8Error>)
    ensures
        match r {
            Ok(s) => vstd::utf8::valid_utf8(bytes@) && s@ == vstd::utf8::decode_utf8(bytes@),
            Err(_) => !vstd::utf8::valid_utf8(bytes@),
        },
{
    String::from_utf8(bytes)
}

/// The value of a result that holds a string.
pub open spec fn text_result_view(r: Result<String, Error>) -> Result<Seq<char>, ErrorView> {
    match r {
        Ok(s) => Ok(s@),
        Err(e) => Err(e@),
    }
}

/// The text that `bytes` encode in UTF-8.
pub open spec fn spec_text_of(bytes: Seq<u8>) -> Result<Seq<char>, ErrorView> {
    if vstd::utf8::valid_utf8(bytes) {
        Ok(vstd::utf8::decode_utf8(bytes))
    } else {
        Err(ErrorView::InvalidText)
    }
}

/// The text that `data` encodes: base64 first, UTF-8 second.
pub open spec fn spec_decode_txt(data: Seq<char>) -> Result<Seq<char>, ErrorView> {
    match spec_decoding(data) {
        Some(bytes) => spec_text_of(bytes),
        None => Err(ErrorView::InvalidEncoding),
    }
}

/// Whether `proto` is one of the transport schemes that a URL may have.
pub open spec fn is_safe_proto(proto: Seq<char>) -> bool {
    ||| proto == "http"@
    ||| proto == "https"@
    ||| proto == "ftp"@
    ||| proto == "ftps"@
    ||| proto == "rtmp"@
    ||| proto == "rtmps"@
    ||| proto == "rtmpe"@
    ||| proto == "rtmpt"@
    ||| proto == "rtmpts"@
    ||| proto == "rtmpte"@
    ||| proto == "data"@
}

/// Whether `url` has a transport scheme, and one of the allow-list.
pub open spec fn is_safe_url(url: Seq<char>) -> bool {
    find_from(url, "://"@, 0) matches Some(i) && is_safe_proto(url.subrange(0, i))
}

/// `url` itself where its transport scheme is allowed, else the reason why
/// it is refused.
pub open spec fn spec_check_url(url: Seq<char>) -> Result<Seq<char>, ErrorView> {
    match find_from(url, "://"@, 0) {
        Some(i) => if is_safe_proto(url.subrange(0, i)) {
            Ok(url)
        } else {
            Err(ErrorView::DisallowedScheme(url.subrange(0, i)))
        },
        None => Err(ErrorView::MissingTransportScheme(url)),
    }
}

/// The URL that `data` encodes, checked against the allow-list.
pub open spec fn spec_decode_url(data: Seq<char>) -> Result<Seq<char>, ErrorView> {
    match spec_decode_txt(data) {
        Ok(url) => spec_check_url(url),
        Err(e) => Err(e),
    }
}

/// Reads bytes as UTF-8 text.
pub fn text_of(bytes: Vec<u8>) -> (r: Result<String, Error>)
    ensures
        text_result_view(r) == spec_text_of(bytes@),
{
    match utf8_string(bytes) {
        Ok(s) => Ok(s),
        Err(e) => Err(Error::InvalidText(e)),
    }
}

/// Decodes URL-safe base64 without padding to text.
pub fn decode_txt(data: &str) -> (r: Result<String, Error>)
    ensures
        text_result_view(r) == spec_decode_txt(data@),
{
    match decode_base64(data) {
        Ok(bytes) => text_of(bytes),
        Err(e) => Err(Error::InvalidEncoding(e)),
    }
}

/// Whether `proto` is on the allow-list of transport schemes.
pub fn is_safe_protocol(proto: &str) -> (r: bool)
    ensures
        r == is_safe_proto(proto@),
{
    same_text(proto, "http") || same_text(proto, "https") || same_text(proto, "ftp") || same_text(
        proto,
        "ftps",
    ) || same_text(proto, "rtmp") || same_text(proto, "rtmps") || same_text(proto, "rtmpe")
        || same_text(proto, "rtmpt") || same_text(proto, "rtmpts") || same_text(proto, "rtmpte")
        || same_text(proto, "data")
}

/// Lets a URL pass whose transport scheme, the text before the first `://`,
/// is on the allow-list. The comparison is exact and case-sensitive.
pub fn check_url(url: String) -> (r: Result<String, Error>)
    ensures
        text_result_view(r) == spec_check_url(url@),
        r is Ok <==> is_safe_url(url@),
{
    let chars = chars_of(url.as_str());
    let sep = chars_of("://");
    match find(&chars, &sep, 0) {
        Some(i) => {
            let proto = url.as_str().substring_char(0, i);
            if is_safe_protocol(proto) {
                Ok(url)
            } else {
                Err(Error::DisallowedScheme(String::from_str(proto)))
            }
        },
        None => Err(Error::MissingTransportScheme(url)),
    }
}

/// Decodes URL-safe base64 without padding to a URL and checks its
/// transport scheme against the allow-list.
pub fn decode_url(data: &str) -> (r: Result<String, Error>)
    ensures
        text_result_view(r) == spec_decode_url(data@),
        r matches Ok(url) ==> is_safe_url(url@),
{
    match decode_txt(data) {
        Ok(url) => check_url(url),
        Err(e) => Err(e),
    }
}

/// A payload that decodes to UTF-8 text with a transport scheme of the
/// allow-list is decoded to that very text, unchanged.
pub proof fn lemma_safe_url_is_kept(data: Seq<char>, bytes: Seq<u8>)
    requires
        spec_decoding(data) == Some(bytes),
        vstd::utf8::valid_utf8(bytes),
        is_safe_url(vstd::utf8::decode_utf8(bytes)),
    ensures
        spec_decode_url(data) == Ok::<_, ErrorView>(vstd::utf8::decode_utf8(bytes)),
{
}

/// A payload that holds a character outside the alphabet, such as `?`,
/// `=`, `&` or `/`, is refused as a whole; no part of it is decoded.
pub proof fn lemma_foreign_character_is_refused(data: Seq<char>, i: int)
    requires
        0 <= i < data.len(),
        !is_symbol(data[i]),
    ensures
        spec_decode_txt(data) == Err::<Seq<char>, _>(ErrorView::InvalidEncoding),
        spec_decode_url(data) == Err::<Seq<char>, _>(ErrorView::InvalidEncoding),
{
}

} // verus!
