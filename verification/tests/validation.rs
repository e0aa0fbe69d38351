use holodex::errors::ParseError;
use holodex::errors::ServerError;
use holodex::errors::ValidationError;
use holodex::json::JsonValue;
use holodex::model::PaginatedResult;
use holodex::model::PaginatedTotal;
use holodex::util::content_length;
use holodex::util::is_default;
use holodex::util::validate;
use holodex::util::validate_json_bytes;
use holodex::util::validate_response;

#[test]
fn success_status_with_fitting_body_is_ok() {
    let body = b"{\"total\": 3, \"items\": [1, 2, 3]}";
    for status in [200u16, 201, 204, 250, 299] {
        let result: Result<PaginatedResult<u32>, ValidationError> = validate(status, body);
        match result {
            Ok(PaginatedResult::Page { total, items }) => {
                assert_eq!(total, PaginatedTotal::U32(3));
                assert_eq!(items, vec![1, 2, 3]);
            }
            other => panic!("unexpected result under {}: {:?}", status, other),
        }
    }
}

#[test]
fn error_status_is_an_error_even_if_the_body_fits() {
    let body = b"[1, 2, 3]";
    for status in [400u16, 401, 404, 418, 499, 500, 503, 599] {
        let result: Result<PaginatedResult<u32>, ValidationError> = validate(status, body);
        match result {
            Err(ValidationError::ServerError(ServerError::ErrorCodeWithValue(code, message))) => {
                assert_eq!(code, status);
                assert_eq!(message, "Items([1, 2, 3])");
            }
            other => panic!("unexpected result under {}: {:?}", status, other),
        }
    }
}

#[test]
fn error_status_with_unfitting_body_keeps_the_parse_error() {
    let result: Result<Vec<u32>, ValidationError> = validate(404, b"{\"message\": \"not found\"}");
    match result {
        Err(ValidationError::ServerError(ServerError::ErrorCodeWithValueParseError(
            404,
            ParseError::ResponseParseError(shape, doc),
        ))) => {
            assert_eq!(shape.expected, "a sequence");
            assert_eq!(doc.to_string(), "{\"message\":\"not found\"}");
        }
        other => panic!("unexpected result: {:?}", other),
    }
    let result: Result<Vec<u32>, ValidationError> = validate(500, b"<html>");
    match result {
        Err(ValidationError::ServerError(ServerError::ErrorCodeWithValueParseError(
            500,
            ParseError::ResponseJsonParseError(_, text),
        ))) => assert_eq!(text, "<html>"),
        other => panic!("unexpected result: {:?}", other),
    }
}

#[test]
fn statuses_around_the_error_range() {
    let body = b"[7]";
    for status in [100u16, 199, 300, 399, 600, 999] {
        let result: Result<Vec<u32>, ValidationError> = validate(status, body);
        assert_eq!(result.unwrap(), vec![7]);
    }
    for status in [400u16, 599] {
        let result: Result<Vec<u32>, ValidationError> = validate(status, body);
        assert_eq!(result.unwrap_err().status(), Some(status));
    }
}

#[test]
fn malformed_json_that_is_text_gives_json_parse_error_with_the_text() {
    let body = b"{\"total\": 3, \"items\": [1, 2, 3";
    let result: Result<PaginatedResult<u32>, ParseError> = validate_json_bytes(body);
    match result {
        Err(ParseError::ResponseJsonParseError(error, text)) => {
            assert_eq!(text, "{\"total\": 3, \"items\": [1, 2, 3");
            assert_eq!(error.line, 1);
            assert_eq!(error.column, 30);
            assert!(error.message.starts_with("EOF while parsing a list"));
        }
        other => panic!("unexpected result: {:?}", other),
    }
}

#[test]
fn json_of_another_shape_gives_parse_error_with_the_document() {
    let body = b"{\"total\": \"many\", \"items\": []}";
    let result: Result<PaginatedResult<u32>, ParseError> = validate_json_bytes(body);
    match result {
        Err(ParseError::ResponseParseError(shape, doc)) => {
            assert_eq!(shape.expected, "PaginatedResult");
            assert_eq!(doc.to_string(), "{\"items\":[],\"total\":\"many\"}");
            match doc.get("total") {
                Some(JsonValue::String(text)) => assert_eq!(text, "many"),
                other => panic!("unexpected member: {:?}", other),
            }
        }
        other => panic!("unexpected result: {:?}", other),
    }
}

#[test]
fn bytes_that_are_no_text_give_utf8_error() {
    let body = [0x7bu8, 0xff, 0xfe, 0x7d];
    let result: Result<PaginatedResult<u32>, ParseError> = validate_json_bytes(&body);
    match result {
        Err(ParseError::ResponseUtf8Error(error)) => assert_eq!(error.valid_up_to(), 1),
        other => panic!("unexpected result: {:?}", other),
    }
}

#[test]
fn the_three_parse_failures_differ() {
    let malformed: Result<Vec<u32>, ParseError> = validate_json_bytes(b"[1, 2");
    let misshapen: Result<Vec<u32>, ParseError> = validate_json_bytes(b"{\"a\": 1}");
    let undecodable: Result<Vec<u32>, ParseError> = validate_json_bytes(&[0xc3, 0x28]);
    assert!(matches!(malformed, Err(ParseError::ResponseJsonParseError(_, _))));
    assert!(matches!(misshapen, Err(ParseError::ResponseParseError(_, _))));
    assert!(matches!(undecodable, Err(ParseError::ResponseUtf8Error(_))));
}

#[test]
fn empty_body_is_malformed_json() {
    let result: Result<Vec<u32>, ParseError> = validate_json_bytes(b"");
    match result {
        Err(ParseError::ResponseJsonParseError(_, text)) => assert_eq!(text, ""),
        other => panic!("unexpected result: {:?}", other),
    }
}

#[test]
fn unread_body_is_reported_by_status() {
    let missing = || Err(ParseError::MissingHeader("Content-Length"));
    let result: Result<Vec<u32>, ValidationError> = validate_response(200, missing());
    assert!(matches!(
        result,
        Err(ValidationError::ParseError(ParseError::MissingHeader("Content-Length")))
    ));
    let result: Result<Vec<u32>, ValidationError> = validate_response(502, missing());
    assert!(matches!(
        result,
        Err(ValidationError::ServerError(ServerError::ErrorCodeWithValueParseError(
            502,
            ParseError::MissingHeader("Content-Length")
        )))
    ));
    let result: Result<Vec<u32>, ValidationError> = validate_response(200, Ok(b"[4]".to_vec()));
    assert_eq!(result.unwrap(), vec![4]);
}

#[test]
fn content_length_reads_a_decimal_number() {
    assert_eq!(content_length(Some("0")).unwrap(), 0);
    assert_eq!(content_length(Some("1234")).unwrap(), 1234);
    assert_eq!(content_length(Some("+17")).unwrap(), 17);
    assert_eq!(content_length(Some("007")).unwrap(), 7);
    for header in [None, Some(""), Some("+"), Some("-1"), Some("12a"), Some(" 12"), Some("1.5")] {
        assert!(matches!(
            content_length(header),
            Err(ParseError::MissingHeader("Content-Length"))
        ));
    }
    assert!(content_length(Some("99999999999999999999999999")).is_err());
}

#[test]
fn is_default_compares_with_the_default() {
    assert!(is_default(&false));
    assert!(!is_default(&true));
    assert!(is_default(&0u32));
    assert!(!is_default(&5u32));
    assert!(is_default(&String::new()));
}
