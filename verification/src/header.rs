//! A log entry as the value of an HTTP header.
use crate::models::{join_commas, parsed, InlineObject, InlineObjectView};
use vstd::prelude::*;
use vstd::string::*;
use vstd::utf8::{decode_utf8, encode_utf8};

verus! {

/// `http::HeaderValue`: the bytes of a header value.
#[verifier::external_type_specification]
#[verifier::external_body]
pub struct ExHeaderValue(http::HeaderValue);

/// `http::header::InvalidHeaderValue`: why a string is no header value.
#[verifier::external_type_specification]
#[verifier::external_body]
pub struct ExInvalidHeaderValue(http::header::InvalidHeaderValue);

/// `http::header::ToStrError`: why a header value is no string.
#[verifier::external_type_specification]
#[verifier::external_body]
pub struct ExToStrError(http::header::ToStrError);

/// The bytes that a header value holds.
pub uninterp spec fn header_bytes(value: http::HeaderValue) -> Seq<u8>;

/// What `Debug` prints of a header value.
pub uninterp spec fn header_debug_text(value: http::HeaderValue) -> Seq<char>;

/// A value that goes into a header or comes out of one.
#[derive(Debug)]
pub struct IntoHeaderValue<T>(pub T);

/// Whether `c` may stand in a string that becomes a header value: any
/// character but the ASCII control characters, of which the tabulator alone
/// is let in.
pub open spec fn is_header_char(c: char) -> bool {
    (c >= ' ' && c != '\x7f') || c == '\t'
}

/// Whether `text` can become a header value.
pub open spec fn is_header_text(text: Seq<char>) -> bool {
    forall|i: int| 0 <= i < text.len() ==> is_header_char(#[trigger] text[i])
}

/// Whether `b` is a visible ASCII character, a blank or a tabulator.
pub open spec fn is_visible_ascii(b: u8) -> bool {
    (32 <= b < 127) || b == 9
}

/// Whether a header value of `bytes` can be read as a string.
pub open spec fn is_readable(bytes: Seq<u8>) -> bool {
    forall|i: int| 0 <= i < bytes.len() ==> is_visible_ascii(#[trigger] bytes[i])
}

/// `http::HeaderValue::from_str`. It goes through the bytes of the string
/// and turns the string down if one of them is below 32 and not 9, or is 127.
/// The bytes of a character from 128 on are all 128 or more, so this is a
/// test on the characters. The value holds a copy of the bytes.
#[verifier::external_body]
fn header_from_str(text: &str) -> (res: Result<http::HeaderValue, http::header::InvalidHeaderValue>)
    ensures
        res is Ok <==> is_header_text(text@),
        res matches Ok(value) ==> header_bytes(value) == encode_utf8(text@),
{
    http::HeaderValue::from_str(text)
}

/// `http::HeaderValue::to_str`, with the string copied. It fails if a byte
/// of the value is neither visible ASCII nor a blank nor a tabulator, and
/// returns the bytes as a string else.
#[verifier::external_body]
fn header_to_str(value: &http::HeaderValue) -> (res: Result<String, http::header::ToStrError>)
    ensures
        res is Ok <==> is_readable(header_bytes(*value)),
        res matches Ok(text) ==> encode_utf8(text@) == header_bytes(*value),
{
    match value.to_str() {
        Ok(text) => Ok(text.to_string()),
        Err(error) => Err(error),
    }
}

/// `Display` of `http::header::InvalidHeaderValue`, which writes one fixed
/// sentence.
#[verifier::external_body]
fn invalid_header_value_text(error: &http::header::InvalidHeaderValue) -> (res: String)
    ensures
        res@ == "failed to parse header value"@,
{
    format!("{}", error)
}

/// `Display` of `http::header::ToStrError`, which writes one fixed sentence.
#[verifier::external_body]
fn to_str_error_text(error: &http::header::ToStrError) -> (res: String)
    ensures
        res@ == "failed to convert header to a str"@,
{
    format!("{}", error)
}

/// `Debug` of `http::HeaderValue`.
#[verifier::external_body]
fn header_debug(value: &http::HeaderValue) -> (res: String)
    ensures
        res@ == header_debug_text(*value),
{
    format!("{:?}", value)
}

/// Why the string `text` of a log entry is no header value.
pub open spec fn invalid_value(text: Seq<char>) -> Seq<char> {
    "Invalid header value for InlineObject - value: "@ + text + " is invalid "@
        + "failed to parse header value"@
}

/// Why a header value that prints as `debug` is no string.
pub open spec fn unreadable_header(debug: Seq<char>) -> Seq<char> {
    "Unable to convert header: "@ + debug + " to string: "@
        + "failed to convert header to a str"@
}

/// Why the header value `text` is no log entry, for the reason `why`.
pub open spec fn unparsed_header(text: Seq<char>, why: Seq<char>) -> Seq<char> {
    "Unable to convert header value '"@ + text + "' into InlineObject - "@ + why
}

/// The log entry as a header value: the bytes of its string. An entry whose
/// string holds a control character other than the tabulator has none.
pub fn inline_object_into_header(hdr_value: IntoHeaderValue<InlineObject>) -> (res: Result<
    http::HeaderValue,
    String,
>)
    ensures
        match res {
            Ok(value) => is_header_text(join_commas(hdr_value.0@.params())) && header_bytes(value)
                == encode_utf8(join_commas(hdr_value.0@.params())),
            Err(why) => !is_header_text(join_commas(hdr_value.0@.params())) && why@
                == invalid_value(join_commas(hdr_value.0@.params())),
        },
{
    let text = hdr_value.0.to_string();
    match header_from_str(text.as_str()) {
        Ok(value) => Ok(value),
        Err(error) => {
            let reason = invalid_header_value_text(&error);
            Err(
                String::from_str("Invalid header value for InlineObject - value: ").concat(
                    text.as_str(),
                ).concat(" is invalid ").concat(reason.as_str()),
            )
        },
    }
}

/// The log entry that a header value holds: the one that its bytes, read as
/// a string, stand for. A value with a byte that is not visible ASCII, a
/// blank or a tabulator holds none, and neither does one whose string is no
/// log entry.
pub fn inline_object_from_header(hdr_value: &http::HeaderValue) -> (res: Result<
    IntoHeaderValue<InlineObject>,
    String,
>)
    ensures
        match res {
            Ok(entry) => is_readable(header_bytes(*hdr_value)) && InlineObjectView::parse(
                decode_utf8(header_bytes(*hdr_value)),
            ) == Ok::<InlineObjectView, Seq<char>>(entry.0@),
            Err(why) => if is_readable(header_bytes(*hdr_value)) {
                InlineObjectView::parse(decode_utf8(header_bytes(*hdr_value))) matches Err(reason)
                    && why@ == unparsed_header(decode_utf8(header_bytes(*hdr_value)), reason)
            } else {
                why@ == unreadable_header(header_debug_text(*hdr_value))
            },
        },
{
    match header_to_str(hdr_value) {
        Ok(text) => {
            proof {
                vstd::utf8::encode_utf8_decode_utf8(text@);
            }
            let read = InlineObject::from_str(text.as_str());
            assert(parsed(read) == InlineObjectView::parse(text@));
            match read {
                Ok(entry) => Ok(IntoHeaderValue(entry)),
                Err(reason) => Err(
                    String::from_str("Unable to convert header value '").concat(
                        text.as_str(),
                    ).concat("' into InlineObject - ").concat(reason.as_str()),
                ),
            }
        },
        Err(error) => {
            let debug = header_debug(hdr_value);
            let reason = to_str_error_text(&error);
            Err(
                String::from_str("Unable to convert header: ").concat(debug.as_str()).concat(
                    " to string: ",
                ).concat(reason.as_str()),
            )
        },
    }
}

} // verus!
