//! Types for the errors that can occur when interacting with the API.

use crate::json::json_text;
use crate::json::render_document;
use crate::json::JsonValue;
use crate::json::SyntaxError;
use crate::text::debug_text;
use crate::text::decimal_text;
use crate::text::u64_text;
use vstd::prelude::*;
use vstd::std_specs::convert::FromSpecImpl;
use vstd::string::StringExecFns;

verus! {

/// What the transport reported when a request got no response.
#[derive(Debug, Clone, PartialEq, Eq)]
pub struct TransportError {
    /// The report in words.
    pub message: String,
}

/// An I/O error of `std`, carried as it is.
#[verifier::external_type_specification]
#[verifier::external_body]
pub struct ExIoError(std::io::Error);

/// A UTF-8 decoding error of `std`, carried as it is.
#[verifier::external_type_specification]
#[verifier::external_body]
pub struct ExUtf8Error(std::str::Utf8Error);

/// Errors that can occur when interacting with the Holodex API.
#[derive(Debug)]
#[allow(inconsistent_fields)]
pub enum Error {
    /// The API token provided to the client is invalid.
    InvalidApiToken,
    /// An error occurred while creating the HTTP client.
    HttpClientCreationError(TransportError),
    /// An error occurred while sending a request to the API.
    ApiRequestFailed {
        /// What went wrong in transport.
        source: TransportError,
        /// The endpoint that was being called.
        endpoint: &'static str,
    },
    /// The API returned a faulty response or server error.
    InvalidResponse {
        /// Why the response could not be used.
        source: ValidationError,
        /// The endpoint that was being called.
        endpoint: &'static str,
    },
    /// An invalid video ID was passed to the API.
    InvalidVideoId(String),
    /// An invalid channel ID was passed to the API.
    InvalidChannelId(String),
    /// A filter could not be constructed due to invalid arguments.
    FilterCreationError(String),
}

/// Errors that can occur when validating a response from the Holodex API.
#[derive(Debug)]
pub enum ValidationError {
    /// The API returned a server error.
    ServerError(ServerError),
    /// The response from the API could not be parsed.
    ParseError(ParseError),
}

/// Errors that occur when the API returns an error code.
#[derive(Debug)]
pub enum ServerError {
    /// The API returned an error code.
    ErrorCode(u16),
    /// The API returned an error code with a message.
    ErrorCodeWithValue(u16, String),
    /// The API returned an error with a message that could not be parsed.
    ErrorCodeWithValueParseError(u16, ParseError),
}

/// A JSON document that has not the shape of the value asked for.
#[derive(Debug)]
pub struct ShapeError {
    /// What was asked for.
    pub expected: &'static str,
}

/// Errors that occur when parsing a response from the API.
#[derive(Debug)]
pub enum ParseError {
    /// The response from the API could not be converted into bytes.
    ResponseDecodeError(std::io::Error),
    /// The response from the API lacked a header.
    MissingHeader(&'static str),
    /// The response from the API could not be parsed as JSON; its text is
    /// kept.
    ResponseJsonParseError(SyntaxError, String),
    /// The response from the API was JSON of another shape than the one asked
    /// for; the document is kept.
    ResponseParseError(ShapeError, JsonValue),
    /// The response from the API could not be parsed as JSON or UTF-8.
    ResponseUtf8Error(std::str::Utf8Error),
}

impl From<ServerError> for ValidationError {
    fn from(err: ServerError) -> (r: ValidationError) {
        ValidationError::ServerError(err)
    }
}

impl FromSpecImpl<ServerError> for ValidationError {
    open spec fn obeys_from_spec() -> bool {
        true
    }

    open spec fn from_spec(err: ServerError) -> ValidationError {
        ValidationError::ServerError(err)
    }
}

impl From<ParseError> for ValidationError {
    fn from(err: ParseError) -> (r: ValidationError) {
        ValidationError::ParseError(err)
    }
}

impl FromSpecImpl<ParseError> for ValidationError {
    open spec fn obeys_from_spec() -> bool {
        true
    }

    open spec fn from_spec(err: ParseError) -> ValidationError {
        ValidationError::ParseError(err)
    }
}

impl From<u16> for ServerError {
    fn from(code: u16) -> (r: ServerError) {
        ServerError::ErrorCode(code)
    }
}

impl FromSpecImpl<u16> for ServerError {
    open spec fn obeys_from_spec() -> bool {
        true
    }

    open spec fn from_spec(code: u16) -> ServerError {
        ServerError::ErrorCode(code)
    }
}

impl From<std::str::Utf8Error> for ParseError {
    fn from(err: std::str::Utf8Error) -> (r: ParseError) {
        ParseError::ResponseUtf8Error(err)
    }
}

impl FromSpecImpl<std::str::Utf8Error> for ParseError {
    open spec fn obeys_from_spec() -> bool {
        true
    }

    open spec fn from_spec(err: std::str::Utf8Error) -> ParseError {
        ParseError::ResponseUtf8Error(err)
    }
}

impl ValidationError {
    /// The status code that the server answered with, where this is a server
    /// error.
    pub open spec fn spec_status(self) -> Option<u16> {
        match self {
            ValidationError::ServerError(ServerError::ErrorCode(code)) => Some(code),
            ValidationError::ServerError(ServerError::ErrorCodeWithValue(code, _)) => Some(code),
            ValidationError::ServerError(ServerError::ErrorCodeWithValueParseError(code, _)) => Some(
                code,
            ),
            ValidationError::ParseError(_) => None,
        }
    }

    /// The status code that the server answered with, where this is a server
    /// error.
    pub fn status(&self) -> (r: Option<u16>)
        ensures
            r == self.spec_status(),
    {
        match self {
            ValidationError::ServerError(ServerError::ErrorCode(code)) => Some(*code),
            ValidationError::ServerError(ServerError::ErrorCodeWithValue(code, _)) => Some(*code),
            ValidationError::ServerError(ServerError::ErrorCodeWithValueParseError(code, _)) => Some(
                *code,
            ),
            ValidationError::ParseError(_) => None,
        }
    }
}

/// `std::io::Error`'s `to_string` says what went wrong.
#[verifier::external_body]
fn io_error_text(error: &std::io::Error) -> String {
    error.to_string()
}

/// Whether `text` begins with `prefix`.
pub open spec fn starts_with(text: Seq<char>, prefix: Seq<char>) -> bool {
    text.len() >= prefix.len() && text.subrange(0, prefix.len() as int) == prefix
}

/// A text begins with itself.
pub proof fn lemma_starts_with_itself(text: Seq<char>)
    ensures
        starts_with(text, text),
{
    assert(text.subrange(0, text.len() as int) =~= text);
}

/// What begins with `prefix` still does so behind `head`, where the whole
/// then begins with `head` and `prefix`.
pub proof fn lemma_starts_with_behind(head: Seq<char>, text: Seq<char>, prefix: Seq<char>)
    requires
        starts_with(text, prefix),
    ensures
        starts_with(head + text, head + prefix),
{
    assert((head + text).subrange(0, (head + prefix).len() as int) =~= head + text.subrange(
        0,
        prefix.len() as int,
    ));
}

impl ShapeError {
    /// What the error says.
    pub open spec fn spec_to_string(self) -> Seq<char> {
        "data did not match the shape of "@ + self.expected@
    }

    /// What the error says.
    pub fn to_string(&self) -> (r: String)
        ensures
            r@ == self.spec_to_string(),
    {
        let mut out = String::new();
        out.append("data did not match the shape of ");
        assert(out@ =~= "data did not match the shape of "@);
        out.append(self.expected);
        out
    }
}

impl ParseError {
    /// How the error's message begins; for an error that holds nothing but
    /// text, this is the whole message.
    pub open spec fn spec_to_string(self) -> Seq<char> {
        match self {
            ParseError::ResponseDecodeError(_) => "Could not decode response: "@,
            ParseError::MissingHeader(header) => "Response lacked header: "@ + header@,
            ParseError::ResponseJsonParseError(error, response) =>
                "Failed to parse response as JSON: "@ + error.message@ + "\nResponse: "@
                    + response@,
            ParseError::ResponseParseError(error, response) => "Failed to parse response: "@
                + error.spec_to_string() + "\nResponse: "@ + json_text(response@),
            ParseError::ResponseUtf8Error(_) =>
                "Response was neither valid JSON nor valid UTF-8."@,
        }
    }

    /// What the error says. After `Could not decode response: ` comes what
    /// the I/O error says of itself; every other message is given in full by
    /// [`Self::spec_to_string`].
    pub fn to_string(&self) -> (r: String)
        ensures
            self is ResponseDecodeError ==> starts_with(r@, self.spec_to_string()),
            !(self is ResponseDecodeError) ==> r@ == self.spec_to_string(),
    {
        let mut out = String::new();
        match self {
            ParseError::ResponseDecodeError(error) => {
                out.append("Could not decode response: ");
                assert(out@ =~= "Could not decode response: "@);
                let ghost prefix = out@;
                out.append(io_error_text(error).as_str());
                assert(out@.subrange(0, prefix.len() as int) =~= prefix);
            },
            ParseError::MissingHeader(header) => {
                out.append("Response lacked header: ");
                assert(out@ =~= "Response lacked header: "@);
                out.append(header);
            },
            ParseError::ResponseJsonParseError(error, response) => {
                out.append("Failed to parse response as JSON: ");
                assert(out@ =~= "Failed to parse response as JSON: "@);
                out.append(error.message.as_str());
                out.append("\nResponse: ");
                out.append(response.as_str());
            },
            ParseError::ResponseParseError(error, response) => {
                out.append("Failed to parse response: ");
                assert(out@ =~= "Failed to parse response: "@);
                out.append(error.to_string().as_str());
                out.append("\nResponse: ");
                out.append(render_document(response).as_str());
            },
            ParseError::ResponseUtf8Error(_) => {
                out.append("Response was neither valid JSON nor valid UTF-8.");
                assert(out@ =~= "Response was neither valid JSON nor valid UTF-8."@);
            },
        }
        out
    }
}

impl ServerError {
    /// How the error's message begins; for an error that holds nothing but a
    /// code and text, this is the whole message.
    pub open spec fn spec_to_string(self) -> Seq<char> {
        match self {
            ServerError::ErrorCode(code) => "Server returned an error code: "@ + decimal_text(
                code as nat,
            ),
            ServerError::ErrorCodeWithValue(code, message) => "Server returned an error message: ["@
                + decimal_text(code as nat) + "] "@ + message@,
            ServerError::ErrorCodeWithValueParseError(code, _) => "Server returned code "@
                + decimal_text(code as nat) + " with a message that could not be parsed: "@,
        }
    }

    /// What the error says. After `could not be parsed: ` comes the parse
    /// error as it is shown for debugging; every other message is given in
    /// full by [`Self::spec_to_string`].
    pub fn to_string(&self) -> (r: String)
        ensures
            self is ErrorCodeWithValueParseError ==> starts_with(r@, self.spec_to_string()),
            !(self is ErrorCodeWithValueParseError) ==> r@ == self.spec_to_string(),
    {
        let mut out = String::new();
        match self {
            ServerError::ErrorCode(code) => {
                out.append("Server returned an error code: ");
                assert(out@ =~= "Server returned an error code: "@);
                out.append(u64_text(*code as u64).as_str());
            },
            ServerError::ErrorCodeWithValue(code, message) => {
                out.append("Server returned an error message: [");
                assert(out@ =~= "Server returned an error message: ["@);
                out.append(u64_text(*code as u64).as_str());
                out.append("] ");
                out.append(message.as_str());
            },
            ServerError::ErrorCodeWithValueParseError(code, source) => {
                out.append("Server returned code ");
                assert(out@ =~= "Server returned code "@);
                out.append(u64_text(*code as u64).as_str());
                out.append(" with a message that could not be parsed: ");
                let ghost prefix = out@;
                out.append(debug_text(source).as_str());
                assert(out@.subrange(0, prefix.len() as int) =~= prefix);
            },
        }
        out
    }
}

impl ValidationError {
    /// How the error's message begins.
    pub open spec fn spec_to_string(self) -> Seq<char> {
        match self {
            ValidationError::ServerError(error) => "Server error: "@ + error.spec_to_string(),
            ValidationError::ParseError(error) => "Parse error: "@ + error.spec_to_string(),
        }
    }

    /// Whether [`Self::spec_to_string`] gives the error's whole message,
    /// which it does unless the message ends in what an error from outside
    /// says of itself.
    pub open spec fn is_textual(self) -> bool {
        match self {
            ValidationError::ServerError(error) => !(error is ErrorCodeWithValueParseError),
            ValidationError::ParseError(error) => !(error is ResponseDecodeError),
        }
    }

    /// What the error says: `Server error: ` or `Parse error: `, and then
    /// what the error inside says.
    pub fn to_string(&self) -> (r: String)
        ensures
            starts_with(r@, self.spec_to_string()),
            self.is_textual() ==> r@ == self.spec_to_string(),
    {
        let mut out = String::new();
        match self {
            ValidationError::ServerError(error) => {
                out.append("Server error: ");
                assert(out@ =~= "Server error: "@);
                let inner = error.to_string();
                proof {
                    lemma_starts_with_itself(inner@);
                    lemma_starts_with_behind(out@, inner@, error.spec_to_string());
                }
                out.append(inner.as_str());
            },
            ValidationError::ParseError(error) => {
                out.append("Parse error: ");
                assert(out@ =~= "Parse error: "@);
                let inner = error.to_string();
                proof {
                    lemma_starts_with_itself(inner@);
                    lemma_starts_with_behind(out@, inner@, error.spec_to_string());
                }
                out.append(inner.as_str());
            },
        }
        out
    }
}

impl Error {
    /// How the error's message begins; for an error that holds nothing but
    /// text, this is the whole message.
    pub open spec fn spec_to_string(self) -> Seq<char> {
        match self {
            Error::InvalidApiToken => "API token contains invalid characters."@,
            Error::HttpClientCreationError(error) => "Error creating HTTP client: "@
                + error.message@,
            Error::ApiRequestFailed { source, endpoint } => "Error sending request to "@
                + endpoint@ + ": "@ + source.message@,
            Error::InvalidResponse { source, endpoint } => "Invalid response received from "@
                + endpoint@ + ": "@,
            Error::InvalidVideoId(id) => "The provided video ID was not valid: "@ + id@,
            Error::InvalidChannelId(id) => "The provided channel ID was not valid: "@ + id@,
            Error::FilterCreationError(reason) =>
                "The filter could not be constructed due to invalid arguments: "@ + reason@,
        }
    }

    /// What the error says. After `Invalid response received from` and the
    /// endpoint comes the validation error as it is shown for debugging;
    /// every other message is given in full by [`Self::spec_to_string`].
    pub fn to_string(&self) -> (r: String)
        ensures
            self is InvalidResponse ==> starts_with(r@, self.spec_to_string()),
            !(self is InvalidResponse) ==> r@ == self.spec_to_string(),
    {
        let mut out = String::new();
        match self {
            Error::InvalidApiToken => {
                out.append("API token contains invalid characters.");
                assert(out@ =~= "API token contains invalid characters."@);
            },
            Error::HttpClientCreationError(error) => {
                out.append("Error creating HTTP client: ");
                assert(out@ =~= "Error creating HTTP client: "@);
                out.append(error.message.as_str());
            },
            Error::ApiRequestFailed { source, endpoint } => {
                out.append("Error sending request to ");
                assert(out@ =~= "Error sending request to "@);
                out.append(endpoint);
                out.append(": ");
                out.append(source.message.as_str());
            },
            Error::InvalidResponse { source, endpoint } => {
                out.append("Invalid response received from ");
                assert(out@ =~= "Invalid response received from "@);
                out.append(endpoint);
                out.append(": ");
                let ghost prefix = out@;
                out.append(debug_text(source).as_str());
                assert(out@.subrange(0, prefix.len() as int) =~= prefix);
            },
            Error::InvalidVideoId(id) => {
                out.append("The provided video ID was not valid: ");
                assert(out@ =~= "The provided video ID was not valid: "@);
                out.append(id.as_str());
            },
            Error::InvalidChannelId(id) => {
                out.append("The provided channel ID was not valid: ");
                assert(out@ =~= "The provided channel ID was not valid: "@);
                out.append(id.as_str());
            },
            Error::FilterCreationError(reason) => {
                out.append("The filter could not be constructed due to invalid arguments: ");
                assert(out@ =~= "The filter could not be constructed due to invalid arguments: "@);
                out.append(reason.as_str());
            },
        }
        out
    }
}

} // verus!
