//! Validation of raw responses: from a status code and the bytes of a body to
//! a typed value or a typed error.

use crate::errors::ParseError;
use crate::errors::ServerError;
use crate::errors::ShapeError;
use crate::errors::ValidationError;
use crate::json::json_reading;
use crate::json::parse_document;
use crate::json::FromJson;
use crate::json::Json;
use crate::json::JsonValue;
use crate::json::SyntaxError;
use crate::json::SyntaxFault;
use crate::text::debug_text;
use crate::text::parse_usize;
use crate::text::parse_usize_spec;
use std::fmt::Debug;
use vstd::prelude::*;
use vstd::std_specs::cmp::PartialEqSpec;
use vstd::string::StringSliceAdditionalSpecFns;
use vstd::utf8::decode_utf8;
use vstd::utf8::valid_utf8;

verus! {

/// `std::str::from_utf8` gives the string slice made of `bytes` where they are
/// valid UTF-8, and an error where they are not.
pub assume_specification[ std::str::from_utf8 ](bytes: &[u8]) -> (r: Result<
    &str,
    std::str::Utf8Error,
>)
    ensures
        match r {
            Ok(text) => valid_utf8(bytes@) && text.spec_bytes() == bytes@,
            Err(_) => !valid_utf8(bytes@),
        },
;

/// Whether `t` is the default value of its type.
pub fn is_default<T: Default + PartialEq>(t: &T) -> (r: bool)
    ensures
        T::obeys_eq_spec() ==> exists|d: T|
            #[trigger] call_ensures(T::default, (), d) && r == t.eq_spec(&d),
{
    let d = T::default();
    *t == d
}

/// The body length that a `Content-Length` header announces.
///
/// A header that is absent, or that is no unsigned decimal number that fits in
/// a `usize`, counts as missing.
pub fn content_length(header: Option<&str>) -> (r: Result<usize, ParseError>)
    ensures
        match header {
            Some(text) => match parse_usize_spec(text@) {
                Some(n) => r == Ok::<usize, ParseError>(n),
                None => r == Err::<usize, ParseError>(
                    ParseError::MissingHeader("Content-Length"),
                ),
            },
            None => r == Err::<usize, ParseError>(ParseError::MissingHeader("Content-Length")),
        },
{
    match header {
        Some(text) => match parse_usize(text) {
            Some(n) => Ok(n),
            None => Err(ParseError::MissingHeader("Content-Length")),
        },
        None => Err(ParseError::MissingHeader("Content-Length")),
    }
}

/// Whether `status` is a client or server error code.
pub open spec fn is_error_status(status: u16) -> bool {
    400 <= status <= 599
}

/// What validating a body gives, once it is known which document the bytes
/// spell, if any.
///
/// A document of the shape of `T` gives the value it holds. A document of
/// another shape gives `ResponseParseError` with that document. Bytes that
/// spell no document give `ResponseJsonParseError` with their text where they
/// are valid UTF-8, and `ResponseUtf8Error` where they are not.
pub open spec fn body_outcome<T: FromJson>(
    reading: Result<Json, SyntaxFault>,
    bytes: Seq<u8>,
    r: Result<T, ParseError>,
) -> bool {
    match reading {
        Ok(doc) => if T::accepts(doc) {
            r matches Ok(value) && T::decodes_to(doc, value)
        } else {
            r matches Err(ParseError::ResponseParseError(shape, kept)) && kept@ == doc
                && shape.expected@ == T::spec_expected()
        },
        Err(fault) => if valid_utf8(bytes) {
            r matches Err(ParseError::ResponseJsonParseError(e, text)) && e@ == fault && text@
                == decode_utf8(bytes)
        } else {
            r is Err && r->Err_0 is ResponseUtf8Error
        },
    }
}

/// Turns the outcome of reading `bytes` as a JSON document into a typed value
/// or the most informative error.
pub fn classify_body<T: FromJson>(
    parsed: Result<JsonValue, SyntaxError>,
    bytes: &[u8],
) -> (r: Result<T, ParseError>)
    ensures
        match parsed {
            Ok(doc) => body_outcome::<T>(Ok(doc@), bytes@, r),
            Err(e) => body_outcome::<T>(Err(e@), bytes@, r),
        },
{
    match parsed {
        Ok(doc) => match T::from_json(&doc) {
            Some(value) => Ok(value),
            None => Err(ParseError::ResponseParseError(ShapeError { expected: T::expected() }, doc)),
        },
        Err(e) => match std::str::from_utf8(bytes) {
            Ok(text) => {
                proof {
                    vstd::utf8::encode_utf8_decode_utf8(text@);
                }
                Err(ParseError::ResponseJsonParseError(e, text.to_owned()))
            },
            Err(e) => Err(ParseError::ResponseUtf8Error(e)),
        },
    }
}

/// Reads `bytes` as the JSON of a `T`.
///
/// Bytes that are not valid UTF-8 always give `ResponseUtf8Error`.
pub fn validate_json_bytes<T: FromJson>(bytes: &[u8]) -> (r: Result<T, ParseError>)
    ensures
        body_outcome::<T>(json_reading(bytes@), bytes@, r),
        !valid_utf8(bytes@) ==> r is Err && r->Err_0 is ResponseUtf8Error,
{
    classify_body(parse_document(bytes), bytes)
}

/// What validating a response gives, once it is known which document the
/// body spells, if any.
///
/// Under an error status the result is always a `ServerError` with that
/// status: `ErrorCodeWithValue` where the body holds a `T`, and
/// `ErrorCodeWithValueParseError` with the body's own error where it does
/// not. Under any other status the result is what the body gives.
pub open spec fn response_outcome<T: FromJson>(
    status: u16,
    reading: Result<Json, SyntaxFault>,
    bytes: Seq<u8>,
    r: Result<T, ValidationError>,
) -> bool {
    if is_error_status(status) {
        if reading matches Ok(doc) && T::accepts(doc) {
            r matches Err(ValidationError::ServerError(ServerError::ErrorCodeWithValue(code, _)))
                && code == status
        } else {
            r matches Err(
                ValidationError::ServerError(ServerError::ErrorCodeWithValueParseError(code, e)),
            ) && code == status && body_outcome::<T>(reading, bytes, Err(e))
        }
    } else {
        match r {
            Ok(value) => body_outcome::<T>(reading, bytes, Ok(value)),
            Err(ValidationError::ParseError(e)) => body_outcome::<T>(reading, bytes, Err(e)),
            Err(ValidationError::ServerError(_)) => false,
        }
    }
}

/// The error for an error status whose body holds the value `value`.
pub fn server_error_with_value<T: Debug>(status: u16, value: &T) -> (r: ValidationError)
    ensures
        r matches ValidationError::ServerError(ServerError::ErrorCodeWithValue(code, _)) && code
            == status,
{
    ValidationError::ServerError(ServerError::ErrorCodeWithValue(status, debug_text(value)))
}

/// Validates a response of which the status and the whole body are at hand.
///
/// Under an error status the result is an error with that status, whatever
/// the body holds.
pub fn validate<T: FromJson + Debug>(status: u16, body: &[u8]) -> (r: Result<T, ValidationError>)
    ensures
        response_outcome::<T>(status, json_reading(body@), body@, r),
        is_error_status(status) ==> r is Err && r->Err_0.spec_status() == Some(status),
{
    if status >= 400 && status <= 599 {
        match validate_json_bytes::<T>(body) {
            Ok(value) => Err(server_error_with_value(status, &value)),
            Err(e) => Err(
                ValidationError::ServerError(ServerError::ErrorCodeWithValueParseError(status, e)),
            ),
        }
    } else {
        match validate_json_bytes::<T>(body) {
            Ok(value) => Ok(value),
            Err(e) => Err(ValidationError::ParseError(e)),
        }
    }
}

/// Validates a response of which the status is at hand, and either the whole
/// body or the error that reading it gave.
///
/// Where the body could not be read, the error of reading it is returned:
/// inside `ErrorCodeWithValueParseError` under an error status, and as a
/// `ParseError` under any other.
pub fn validate_response<T: FromJson + Debug>(
    status: u16,
    body: Result<Vec<u8>, ParseError>,
) -> (r: Result<T, ValidationError>)
    ensures
        match body {
            Ok(bytes) => response_outcome::<T>(status, json_reading(bytes@), bytes@, r),
            Err(e) => if is_error_status(status) {
                r == Err::<T, ValidationError>(
                    ValidationError::ServerError(
                        ServerError::ErrorCodeWithValueParseError(status, e),
                    ),
                )
            } else {
                r == Err::<T, ValidationError>(ValidationError::ParseError(e))
            },
        },
{
    match body {
        Ok(bytes) => validate(status, bytes.as_slice()),
        Err(e) => if status >= 400 && status <= 599 {
            Err(ValidationError::ServerError(ServerError::ErrorCodeWithValueParseError(status, e)))
        } else {
            Err(ValidationError::ParseError(e))
        },
    }
}

/// Under a status from 200 to 299, a body that spells a document of the
/// shape of `T` gives the value that the document holds.
pub proof fn lemma_success_with_fitting_body_is_ok<T: FromJson>(
    status: u16,
    doc: Json,
    bytes: Seq<u8>,
    r: Result<T, ValidationError>,
)
    requires
        200 <= status <= 299,
        T::accepts(doc),
        response_outcome::<T>(status, Ok(doc), bytes, r),
    ensures
        r matches Ok(value) && T::decodes_to(doc, value),
{
}

/// Under a status from 400 to 599 the result is always a server error with
/// that status, whether or not the body spells a document of the shape of
/// `T`.
pub proof fn lemma_error_status_is_always_err<T: FromJson>(
    status: u16,
    reading: Result<Json, SyntaxFault>,
    bytes: Seq<u8>,
    r: Result<T, ValidationError>,
)
    requires
        400 <= status <= 599,
        response_outcome::<T>(status, reading, bytes, r),
    ensures
        r matches Err(ValidationError::ServerError(error)),
        r->Err_0.spec_status() == Some(status),
{
}

/// The three ways in which a body can fail give three different errors, each
/// of which keeps what there is to keep: text that spells no document gives
/// `ResponseJsonParseError` with the text, of which the UTF-8 encoding is the
/// body; a document of another shape gives `ResponseParseError` with the
/// document; and bytes that are no text and spell no document give
/// `ResponseUtf8Error`.
pub proof fn lemma_parse_failures_are_told_apart<T: FromJson>(
    malformed: Seq<u8>,
    fault: SyntaxFault,
    from_malformed: Result<T, ParseError>,
    misshapen: Seq<u8>,
    doc: Json,
    from_misshapen: Result<T, ParseError>,
    undecodable: Seq<u8>,
    other_fault: SyntaxFault,
    from_undecodable: Result<T, ParseError>,
)
    requires
        valid_utf8(malformed),
        body_outcome::<T>(Err(fault), malformed, from_malformed),
        !T::accepts(doc),
        body_outcome::<T>(Ok(doc), misshapen, from_misshapen),
        !valid_utf8(undecodable),
        body_outcome::<T>(Err(other_fault), undecodable, from_undecodable),
    ensures
        from_malformed matches Err(ParseError::ResponseJsonParseError(error, text)) && error@
            == fault && vstd::utf8::encode_utf8(text@) == malformed,
        from_misshapen matches Err(ParseError::ResponseParseError(_, kept)) && kept@ == doc,
        from_undecodable matches Err(ParseError::ResponseUtf8Error(_)),
{
    vstd::utf8::decode_utf8_encode_utf8(malformed);
}

} // verus!
