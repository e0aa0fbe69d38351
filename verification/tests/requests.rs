use holodex::client::Client;
use holodex::client::Method;
use holodex::client::Response;
use holodex::errors::Error;
use holodex::errors::ParseError;
use holodex::errors::ServerError;
use holodex::errors::ShapeError;
use holodex::errors::TransportError;
use holodex::errors::ValidationError;
use holodex::json::JsonValue;
use holodex::json::SyntaxError;
use holodex::model::id::ChannelId;
use holodex::model::id::VideoId;
use holodex::model::ChannelFilter;
use holodex::model::ChannelVideoFilter;
use holodex::model::ChannelVideoType;
use holodex::model::CommentSearch;
use holodex::model::Language;
use holodex::model::PaginatedResult;
use holodex::model::VideoFilter;
use holodex::model::VideoSearch;

fn pairs(items: &[(&str, &str)]) -> Vec<(String, String)> {
    items.iter().map(|(k, v)| (k.to_string(), v.to_string())).collect()
}

fn client() -> Client {
    Client::new("my-api-token").unwrap()
}

#[test]
fn token_must_fit_in_a_header() {
    assert_eq!(client().token(), "my-api-token");
    assert!(Client::new("").is_ok());
    assert!(Client::new("with space and\ttab ~!").is_ok());
    for token in ["line\nbreak", "carriage\rreturn", "nul\0", "del\u{7f}", "ünïcödé", "tab\u{b}"] {
        assert!(matches!(Client::new(token), Err(Error::InvalidApiToken)), "accepted {:?}", token);
    }
}

#[test]
fn videos_and_live_ask_with_the_filter() {
    let filter = VideoFilter::new();
    let request = client().videos(&filter);
    assert_eq!(request.method, Method::Get);
    assert_eq!(request.url, "https://holodex.net/api/v2/videos");
    assert_eq!(request.endpoint, "/videos");
    assert_eq!(request.token, "my-api-token");
    assert_eq!(request.query, filter.query());
    assert!(request.body.is_none());
    let request = client().live(&filter);
    assert_eq!(request.method, Method::Get);
    assert_eq!(request.url, "https://holodex.net/api/v2/live");
    assert_eq!(request.endpoint, "/live");
    assert_eq!(request.query, filter.query());
}

#[test]
fn channel_requests() {
    let id: ChannelId = "UC1DCedRgGHBdm81E1llLhOQ".parse().unwrap();
    let request = client().channel(&id);
    assert_eq!(request.method, Method::Get);
    assert_eq!(request.url, "https://holodex.net/api/v2/channels/UC1DCedRgGHBdm81E1llLhOQ");
    assert_eq!(request.endpoint, "/channels/{channel_id}");
    assert!(request.query.is_empty());
    assert_eq!(id.metadata(&client()).url, request.url);

    let filter = ChannelVideoFilter { languages: vec![Language::English], ..ChannelVideoFilter::new() };
    let request = client().videos_from_channel(&id, ChannelVideoType::Clips, &filter);
    assert_eq!(request.url, "https://holodex.net/api/v2/channels/UC1DCedRgGHBdm81E1llLhOQ/Clips");
    assert_eq!(request.endpoint, "/channels/{channel_id}/{type}");
    assert_eq!(request.query, filter.query());

    let whole = pairs(&[("include", "live_info"), ("lang", "all"), ("limit", "100"), ("offset", "0")]);
    let request = id.videos(&client());
    assert_eq!(request.url, "https://holodex.net/api/v2/channels/UC1DCedRgGHBdm81E1llLhOQ/Videos");
    assert_eq!(request.query, whole);
    let request = id.clips(&client());
    assert_eq!(request.url, "https://holodex.net/api/v2/channels/UC1DCedRgGHBdm81E1llLhOQ/Clips");
    assert_eq!(request.query, whole);
    let request = id.collabs(&client());
    assert_eq!(request.url, "https://holodex.net/api/v2/channels/UC1DCedRgGHBdm81E1llLhOQ/Clips");
    assert_eq!(request.query, whole);
}

#[test]
fn channels_request_needs_a_filter_without_languages() {
    let request = client().channels(&ChannelFilter::default()).unwrap();
    assert_eq!(request.url, "https://holodex.net/api/v2/channels");
    assert_eq!(request.endpoint, "/channels");
    assert_eq!(request.query, pairs(&[("order", "asc"), ("sort", "org"), ("limit", "25"), ("offset", "0")]));
    let filter = ChannelFilter { languages: vec![Language::Japanese], ..ChannelFilter::default() };
    assert!(matches!(
        client().channels(&filter),
        Err(Error::FilterCreationError(reason)) if reason == "unsupported value"
    ));
}

#[test]
fn live_from_channels_joins_the_ids() {
    let ids: Vec<ChannelId> =
        vec!["UCoSrY_IQQVpmIRZ9Xf-y93g".parse().unwrap(), "UCyl1z3jo3XHR1riLFKG5UAg".parse().unwrap()];
    let request = client().live_from_channels(&ids);
    assert_eq!(request.url, "https://holodex.net/api/v2/users/live");
    assert_eq!(request.endpoint, "/users/live");
    assert_eq!(
        request.query,
        pairs(&[("channels", "UCoSrY_IQQVpmIRZ9Xf-y93g,UCyl1z3jo3XHR1riLFKG5UAg")])
    );
    assert_eq!(client().live_from_channels(&[]).query, pairs(&[("channels", "")]));
}

#[test]
fn video_requests() {
    let id: VideoId = "IhiievWaZMI".parse().unwrap();
    let request = client().video(&id);
    assert_eq!(request.method, Method::Get);
    assert_eq!(request.url, "https://holodex.net/api/v2/videos/IhiievWaZMI");
    assert_eq!(request.endpoint, "/videos/{video_id}");
    assert!(request.query.is_empty());
    assert_eq!(id.metadata(&client()).url, request.url);
    let request = client().video_with_timestamps(&id);
    assert_eq!(request.url, "https://holodex.net/api/v2/videos/IhiievWaZMI");
    assert_eq!(request.query, pairs(&[("c", "1")]));
    assert_eq!(id.timestamps(&client()).query, pairs(&[("c", "1")]));
    let languages = vec![Language::English, Language::Japanese];
    let request = client().video_with_related(&id, &languages);
    assert_eq!(request.url, "https://holodex.net/api/v2/videos/IhiievWaZMI");
    assert_eq!(request.query, pairs(&[("lang", "en,ja")]));
    assert_eq!(id.related(&client(), &languages).query, pairs(&[("lang", "en,ja")]));
    assert_eq!(client().video_with_related(&id, &[]).query, pairs(&[("lang", "")]));
}

#[test]
fn searches_are_posted_with_a_body() {
    let search = VideoSearch::default();
    let request = client().search_videos(&search);
    assert_eq!(request.method, Method::Post);
    assert_eq!(request.url, "https://holodex.net/api/v2/search/videoSearch");
    assert_eq!(request.endpoint, "/search/videoSearch");
    assert!(request.query.is_empty());
    assert_eq!(request.body.unwrap().to_string(), search.to_json().to_string());
    let search = CommentSearch { search: "peko".to_owned(), ..CommentSearch::default() };
    let request = client().search_comments(&search);
    assert_eq!(request.method, Method::Post);
    assert_eq!(request.url, "https://holodex.net/api/v2/search/commentSearch");
    assert_eq!(request.endpoint, "/search/commentSearch");
    assert_eq!(request.body.unwrap().to_string(), search.to_json().to_string());
}

#[test]
fn outcome_of_a_request_is_a_value_or_an_error() {
    let answered = Ok(Response { status: 200, body: Ok(b"[1, 2]".to_vec()) });
    let result: Result<PaginatedResult<u32>, Error> = Client::receive("/videos", answered);
    assert_eq!(result.unwrap(), PaginatedResult::Items(vec![1, 2]));

    let failed = Err(TransportError { message: "Dns Failed".to_owned() });
    let result: Result<PaginatedResult<u32>, Error> = Client::receive("/videos", failed);
    match result {
        Err(Error::ApiRequestFailed { source, endpoint }) => {
            assert_eq!(source.message, "Dns Failed");
            assert_eq!(endpoint, "/videos");
        }
        other => panic!("unexpected result: {:?}", other),
    }

    let refused = Ok(Response { status: 403, body: Ok(b"{\"message\": \"no\"}".to_vec()) });
    let result: Result<PaginatedResult<u32>, Error> = Client::receive("/live", refused);
    match result {
        Err(Error::InvalidResponse { source, endpoint }) => {
            assert_eq!(endpoint, "/live");
            assert_eq!(source.status(), Some(403));
            assert!(matches!(
                source,
                ValidationError::ServerError(ServerError::ErrorCodeWithValueParseError(
                    403,
                    ParseError::ResponseParseError(_, _)
                ))
            ));
        }
        other => panic!("unexpected result: {:?}", other),
    }

    let unread = Ok(Response { status: 200, body: Err(ParseError::MissingHeader("Content-Length")) });
    let result: Result<PaginatedResult<u32>, Error> = Client::receive("/live", unread);
    assert!(matches!(
        result,
        Err(Error::InvalidResponse {
            source: ValidationError::ParseError(ParseError::MissingHeader("Content-Length")),
            endpoint: "/live"
        })
    ));
}

#[test]
fn errors_say_what_went_wrong() {
    assert_eq!(Error::InvalidApiToken.to_string(), "API token contains invalid characters.");
    let transport = || TransportError { message: "Transport(Dns)".to_owned() };
    assert_eq!(
        Error::HttpClientCreationError(transport()).to_string(),
        "Error creating HTTP client: Transport(Dns)"
    );
    assert_eq!(
        Error::ApiRequestFailed { source: transport(), endpoint: "/videos" }.to_string(),
        "Error sending request to /videos: Transport(Dns)"
    );
    assert_eq!(
        Error::InvalidVideoId("abc".to_owned()).to_string(),
        "The provided video ID was not valid: abc"
    );
    assert_eq!(
        Error::InvalidChannelId("abc".to_owned()).to_string(),
        "The provided channel ID was not valid: abc"
    );
    assert_eq!(
        Error::FilterCreationError("unsupported value".to_owned()).to_string(),
        "The filter could not be constructed due to invalid arguments: unsupported value"
    );
    let invalid = Error::InvalidResponse {
        source: ValidationError::ServerError(ServerError::ErrorCode(500)),
        endpoint: "/live",
    };
    assert_eq!(
        invalid.to_string(),
        "Invalid response received from /live: ServerError(ErrorCode(500))"
    );
}

#[test]
fn validation_errors_say_what_went_wrong() {
    assert_eq!(ServerError::ErrorCode(404).to_string(), "Server returned an error code: 404");
    assert_eq!(ServerError::from(404).to_string(), "Server returned an error code: 404");
    assert_eq!(
        ServerError::ErrorCodeWithValue(418, "teapot".to_owned()).to_string(),
        "Server returned an error message: [418] teapot"
    );
    assert_eq!(
        ServerError::ErrorCodeWithValueParseError(500, ParseError::MissingHeader("Content-Length"))
            .to_string(),
        "Server returned code 500 with a message that could not be parsed: \
         MissingHeader(\"Content-Length\")"
    );
    assert_eq!(
        ParseError::MissingHeader("Content-Length").to_string(),
        "Response lacked header: Content-Length"
    );
    let syntax = SyntaxError { line: 1, column: 2, message: "expected value at line 1 column 2".to_owned() };
    assert_eq!(
        ParseError::ResponseJsonParseError(syntax, "[x".to_owned()).to_string(),
        "Failed to parse response as JSON: expected value at line 1 column 2\nResponse: [x"
    );
    let shape = ShapeError { expected: "Video" };
    assert_eq!(shape.to_string(), "data did not match the shape of Video");
    assert_eq!(
        ParseError::ResponseParseError(shape, JsonValue::Array(vec![JsonValue::PosInt(1)])).to_string(),
        "Failed to parse response: data did not match the shape of Video\nResponse: [1]"
    );
    let undecodable = std::str::from_utf8(&[0xffu8]).unwrap_err();
    assert_eq!(
        ParseError::from(undecodable).to_string(),
        "Response was neither valid JSON nor valid UTF-8."
    );
    let unread = std::io::Error::new(std::io::ErrorKind::UnexpectedEof, "cut short");
    assert_eq!(
        ParseError::ResponseDecodeError(unread).to_string(),
        "Could not decode response: cut short"
    );
    assert_eq!(
        ValidationError::from(ServerError::ErrorCode(404)).to_string(),
        "Server error: Server returned an error code: 404"
    );
    assert_eq!(
        ValidationError::from(ParseError::MissingHeader("Content-Length")).to_string(),
        "Parse error: Response lacked header: Content-Length"
    );
    assert_eq!(ValidationError::from(ServerError::ErrorCode(404)).status(), Some(404));
    assert_eq!(ValidationError::from(ParseError::MissingHeader("a")).status(), None);
}
