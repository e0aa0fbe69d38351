//! The requests that the API answers, and what to make of its answers.
//!
//! Nothing here touches the network. A [`Client`] says which request asks for
//! what; whoever sends it hands the outcome to [`Client::receive`].

use crate::errors::Error;
use crate::errors::ParseError;
use crate::errors::TransportError;
use crate::errors::ValidationError;
use crate::json::json_reading;
use crate::json::FromJson;
use crate::json::Json;
use crate::json::JsonValue;
use crate::model::filter::join_names;
use crate::model::filter::joined;
use crate::model::filter::names;
use crate::model::filter::pairs_of;
use crate::model::filter::ChannelFilter;
use crate::model::filter::ChannelVideoFilter;
use crate::model::filter::CommentSearch;
use crate::model::filter::QueryPair;
use crate::model::filter::VideoFilter;
use crate::model::filter::VideoSearch;
use crate::model::id::ChannelId;
use crate::model::id::VideoId;
use crate::model::kinds::ChannelVideoType;
use crate::model::serializers::Language;
use crate::pagination::DriverState;
use crate::pagination::PaginationDriver;
use crate::pagination::CHUNK_SIZE;
use crate::text::chars_of;
use crate::util::response_outcome;
use crate::util::validate_response;
use std::fmt::Debug;
use vstd::prelude::*;
use vstd::string::StringExecFns;

verus! {

/// How a request is sent.
#[derive(Debug, Clone, Copy, PartialEq, Eq, Structural, Hash)]
pub enum Method {
    /// With its parameters in the query string.
    Get,
    /// With its parameters in a JSON body.
    Post,
}

/// A request to the API, ready to be sent.
#[derive(Debug)]
pub struct Request {
    /// How the request is sent.
    pub method: Method,
    /// The address that the request goes to.
    pub url: String,
    /// The endpoint that the request is for, as errors name it.
    pub endpoint: &'static str,
    /// The token that goes into the `x-apikey` header.
    pub token: String,
    /// The pairs of the query string, in order.
    pub query: Vec<(String, String)>,
    /// The JSON body, for a request that has one.
    pub body: Option<JsonValue>,
}

/// What came back for a request.
#[derive(Debug)]
pub struct Response {
    /// The status code.
    pub status: u16,
    /// The whole body, or the error of reading it.
    pub body: Result<Vec<u8>, ParseError>,
}

/// The root of every address of the API.
pub open spec fn endpoint_root() -> Seq<char> {
    "https://holodex.net/api/v2"@
}

/// Whether `c` may stand in the value of a header: a visible ASCII character,
/// a space or a tab.
pub open spec fn is_header_char(c: char) -> bool {
    c == ' ' || c == '\t' || ('!' <= c && c <= '~')
}

/// Whether every character of `text` may stand in the value of a header.
pub open spec fn is_header_value(text: Seq<char>) -> bool {
    forall|i: int| 0 <= i < text.len() ==> is_header_char(#[trigger] text[i])
}

/// The client used for interacting with the Holodex API.
#[derive(Debug, Clone)]
pub struct Client {
    token: String,
}

impl Client {
    /// The token that the client sends with every request.
    pub closed spec fn spec_token(self) -> Seq<char> {
        self.token@
    }

    /// Whether `request` is the request with the given parts, sent with this
    /// client's token.
    pub open spec fn asks(
        self,
        request: Request,
        method: Method,
        path: Seq<char>,
        endpoint: Seq<char>,
        query: Seq<QueryPair>,
        body: Option<Json>,
    ) -> bool {
        &&& request.method == method
        &&& request.url@ == endpoint_root() + path
        &&& request.endpoint@ == endpoint
        &&& request.token@ == self.spec_token()
        &&& pairs_of(request.query@) == query
        &&& match body {
            Some(doc) => request.body matches Some(held) && held@ == doc,
            None => request.body is None,
        }
    }

    /// Create a new client with the provided API token.
    ///
    /// # Errors
    /// Will return [`Error::InvalidApiToken`] if `api_token` contains a
    /// character that cannot stand in a header.
    pub fn new(api_token: &str) -> (r: Result<Self, Error>)
        ensures
            match r {
                Ok(client) => is_header_value(api_token@) && client.spec_token() == api_token@,
                Err(e) => !is_header_value(api_token@) && e is InvalidApiToken,
            },
    {
        let cs = chars_of(api_token);
        let mut i: usize = 0;
        while i < cs.len()
            invariant
                i <= cs.len(),
                cs@ == api_token@,
                forall|k: int| 0 <= k < i ==> is_header_char(#[trigger] cs@[k]),
            decreases cs.len() - i,
        {
            let c = cs[i];
            if !(c == ' ' || c == '\t' || (c >= '!' && c <= '~')) {
                return Err(Error::InvalidApiToken);
            }
            i += 1;
        }
        Ok(Client { token: api_token.to_owned() })
    }

    /// The token that the client sends with every request.
    pub fn token(&self) -> (r: &str)
        ensures
            r@ == self.spec_token(),
    {
        self.token.as_str()
    }

    /// The request with the given parts, sent with this client's token.
    fn request(
        &self,
        method: Method,
        path: String,
        endpoint: &'static str,
        query: Vec<(String, String)>,
        body: Option<JsonValue>,
    ) -> (r: Request)
        ensures
            self.asks(
                r,
                method,
                path@,
                endpoint@,
                pairs_of(query@),
                match body {
                    Some(held) => Some(held@),
                    None => None,
                },
            ),
    {
        let mut url = String::new();
        url.append("https://holodex.net/api/v2");
        assert(url@ =~= endpoint_root());
        url.append(path.as_str());
        Request { method, url, endpoint, token: self.token.clone(), query, body }
    }

    /// The request that queries videos at `endpoint`.
    fn query_videos(&self, endpoint: &'static str, parameters: &VideoFilter) -> (r: Request)
        ensures
            self.asks(r, Method::Get, endpoint@, endpoint@, parameters.spec_query(), None),
    {
        self.request(Method::Get, endpoint.to_owned(), endpoint, parameters.query(), None)
    }

    /// The request that queries videos.
    ///
    /// Pretty much everything you need.
    /// This is the most 'vanilla' variant with almost no preset values,
    /// and [`videos_from_channel`][`Self::videos_from_channel`] and [`live`][`Self::live`] both use the same query structure
    /// but provision default values differently for some of the query params.
    pub fn videos(&self, parameters: &VideoFilter) -> (r: Request)
        ensures
            self.asks(r, Method::Get, "/videos"@, "/videos"@, parameters.spec_query(), None),
    {
        self.query_videos("/videos", parameters)
    }

    /// The request that queries live and upcoming videos.
    ///
    /// This is somewhat similar to calling [`videos`][`Self::videos`].
    pub fn live(&self, parameters: &VideoFilter) -> (r: Request)
        ensures
            self.asks(r, Method::Get, "/live"@, "/live"@, parameters.spec_query(), None),
    {
        self.query_videos("/live", parameters)
    }

    /// The request for the next page of a walk over the videos at
    /// `endpoint`: the caller's criteria, asked for in a page of
    /// `CHUNK_SIZE` items at the driver's offset. `None` once the walk has
    /// ended.
    ///
    /// The caller's filter is read and never written: what it says of pages
    /// stays as it is, and does not matter to the walk.
    pub fn video_page(
        &self,
        driver: &PaginationDriver,
        endpoint: &'static str,
        parameters: &VideoFilter,
    ) -> (r: Option<Request>)
        ensures
            match driver.state {
                DriverState::Fetching { offset } => r matches Some(request) && exists|
                    page: VideoFilter,
                |
                    {
                        &&& page.same_criteria(*parameters)
                        &&& page.paginated
                        &&& page.limit == CHUNK_SIZE
                        &&& page.offset == offset
                        &&& #[trigger] self.asks(
                            request,
                            Method::Get,
                            endpoint@,
                            endpoint@,
                            page.spec_query(),
                            None,
                        )
                    },
                _ => r is None,
            },
    {
        match driver.page_filter(parameters) {
            Some(page) => Some(self.query_videos(endpoint, &page)),
            None => None,
        }
    }

    /// The address part for the videos of the kind `video_type` that relate
    /// to the channel `channel_id`.
    pub open spec fn channel_videos_path(
        channel_id: ChannelId,
        video_type: ChannelVideoType,
    ) -> Seq<char> {
        "/channels/"@ + channel_id@ + "/"@ + video_type.spec_to_string()
    }

    /// The request that queries videos related to channel.
    ///
    /// A simplified endpoint for access channel specific data.
    /// If you want more customization, the same result can be obtained by
    /// calling [`videos`][`Self::videos`].
    pub fn videos_from_channel(
        &self,
        channel_id: &ChannelId,
        video_type: ChannelVideoType,
        parameters: &ChannelVideoFilter,
    ) -> (r: Request)
        ensures
            self.asks(
                r,
                Method::Get,
                Self::channel_videos_path(*channel_id, video_type),
                "/channels/{channel_id}/{type}"@,
                parameters.spec_query(),
                None,
            ),
    {
        let mut path = String::new();
        path.append("/channels/");
        assert(path@ =~= "/channels/"@);
        path.append(channel_id.as_str());
        path.append("/");
        path.append(video_type.to_string().as_str());
        self.request(Method::Get, path, "/channels/{channel_id}/{type}", parameters.query(), None)
    }

    /// The request for the next page of a walk over the videos of the kind
    /// `video_type` that relate to the channel `channel_id`. `None` once the
    /// walk has ended.
    ///
    /// The caller's filter is read and never written.
    pub fn channel_video_page(
        &self,
        driver: &PaginationDriver,
        channel_id: &ChannelId,
        video_type: ChannelVideoType,
        parameters: &ChannelVideoFilter,
    ) -> (r: Option<Request>)
        ensures
            match driver.state {
                DriverState::Fetching { offset } => r matches Some(request) && exists|
                    page: ChannelVideoFilter,
                |
                    {
                        &&& page.same_criteria(*parameters)
                        &&& page.paginated
                        &&& page.limit == CHUNK_SIZE
                        &&& page.offset == offset
                        &&& #[trigger] self.asks(
                            request,
                            Method::Get,
                            Self::channel_videos_path(*channel_id, video_type),
                            "/channels/{channel_id}/{type}"@,
                            page.spec_query(),
                            None,
                        )
                    },
                _ => r is None,
            },
    {
        match driver.channel_page_filter(parameters) {
            Some(page) => Some(self.videos_from_channel(channel_id, video_type, &page)),
            None => None,
        }
    }

    /// The request that quickly accesses live and upcoming videos for a set
    /// of channels.
    ///
    /// This method is similar to [`live`](#method.live) and usually replies much faster.
    /// It is more friendly in general. The cost to execute a lookup is significantly cheaper.
    /// It's unfortunately less customizable as a result.
    pub fn live_from_channels(&self, channel_ids: &[ChannelId]) -> (r: Request)
        ensures
            self.asks(
                r,
                Method::Get,
                "/users/live"@,
                "/users/live"@,
                seq![("channels"@, joined(names(channel_ids@), ","@))],
                None,
            ),
    {
        let mut query: Vec<(String, String)> = Vec::new();
        query.push(("channels".to_owned(), join_names(channel_ids, ",")));
        assert(pairs_of(query@) =~= seq![("channels"@, joined(names(channel_ids@), ","@))]);
        self.request(Method::Get, "/users/live".to_owned(), "/users/live", query, None)
    }

    /// The request that gets channel information.
    pub fn channel(&self, channel_id: &ChannelId) -> (r: Request)
        ensures
            self.asks(
                r,
                Method::Get,
                "/channels/"@ + channel_id@,
                "/channels/{channel_id}"@,
                Seq::empty(),
                None,
            ),
    {
        let mut path = String::new();
        path.append("/channels/");
        assert(path@ =~= "/channels/"@);
        path.append(channel_id.as_str());
        let query: Vec<(String, String)> = Vec::new();
        assert(pairs_of(query@) =~= Seq::empty());
        self.request(Method::Get, path, "/channels/{channel_id}", query, None)
    }

    /// The request that gets all channels matching the given filter.
    ///
    /// # Errors
    /// Will return [`Error::FilterCreationError`] if the filter names a
    /// language, for which a query string has no form.
    pub fn channels(&self, filter: &ChannelFilter) -> (r: Result<Request, Error>)
        ensures
            match r {
                Ok(request) => filter.languages@.len() == 0 && self.asks(
                    request,
                    Method::Get,
                    "/channels"@,
                    "/channels"@,
                    filter.spec_query(),
                    None,
                ),
                Err(Error::FilterCreationError(reason)) => filter.languages@.len() > 0 && reason@
                    == "unsupported value"@,
                Err(_) => false,
            },
    {
        match filter.query() {
            Ok(query) => Ok(
                self.request(Method::Get, "/channels".to_owned(), "/channels", query, None),
            ),
            Err(e) => Err(e),
        }
    }

    /// The request that gets the metadata of the video `video_id`, with the
    /// query `query`.
    fn get_video(&self, video_id: &VideoId, query: Vec<(String, String)>) -> (r: Request)
        ensures
            self.asks(
                r,
                Method::Get,
                "/videos/"@ + video_id@,
                "/videos/{video_id}"@,
                pairs_of(query@),
                None,
            ),
    {
        let mut path = String::new();
        path.append("/videos/");
        assert(path@ =~= "/videos/"@);
        path.append(video_id.as_str());
        self.request(Method::Get, path, "/videos/{video_id}", query, None)
    }

    /// The request that gets a single video's metadata.
    pub fn video(&self, video_id: &VideoId) -> (r: Request)
        ensures
            self.asks(
                r,
                Method::Get,
                "/videos/"@ + video_id@,
                "/videos/{video_id}"@,
                Seq::empty(),
                None,
            ),
    {
        let query: Vec<(String, String)> = Vec::new();
        assert(pairs_of(query@) =~= Seq::empty());
        self.get_video(video_id, query)
    }

    /// The request that gets a single video's metadata, along with any
    /// indexed comments containing timestamps.
    pub fn video_with_timestamps(&self, video_id: &VideoId) -> (r: Request)
        ensures
            self.asks(
                r,
                Method::Get,
                "/videos/"@ + video_id@,
                "/videos/{video_id}"@,
                seq![("c"@, "1"@)],
                None,
            ),
    {
        let mut query: Vec<(String, String)> = Vec::new();
        query.push(("c".to_owned(), "1".to_owned()));
        assert(pairs_of(query@) =~= seq![("c"@, "1"@)]);
        self.get_video(video_id, query)
    }

    /// The request that gets a single video's metadata, along with any
    /// recommended videos in languages matching the given filter.
    pub fn video_with_related(
        &self,
        video_id: &VideoId,
        related_language_filter: &[Language],
    ) -> (r: Request)
        ensures
            self.asks(
                r,
                Method::Get,
                "/videos/"@ + video_id@,
                "/videos/{video_id}"@,
                seq![("lang"@, joined(names(related_language_filter@), ","@))],
                None,
            ),
    {
        let mut query: Vec<(String, String)> = Vec::new();
        query.push(("lang".to_owned(), join_names(related_language_filter, ",")));
        assert(pairs_of(query@) =~= seq![
            ("lang"@, joined(names(related_language_filter@), ","@)),
        ]);
        self.get_video(video_id, query)
    }

    /// The request that searches for videos matching the given search
    /// conditions.
    ///
    /// Searching for `topics` and `clips` together is not supported,
    /// because clips do not contain `topics`.
    pub fn search_videos(&self, search_parameters: &VideoSearch) -> (r: Request)
        ensures
            self.asks(
                r,
                Method::Post,
                "/search/videoSearch"@,
                "/search/videoSearch"@,
                Seq::empty(),
                Some(Json::Object(search_parameters.spec_members())),
            ),
    {
        let query: Vec<(String, String)> = Vec::new();
        assert(pairs_of(query@) =~= Seq::empty());
        self.request(
            Method::Post,
            "/search/videoSearch".to_owned(),
            "/search/videoSearch",
            query,
            Some(search_parameters.to_json()),
        )
    }

    /// The request that searches for comments matching the given search
    /// conditions.
    pub fn search_comments(&self, search_parameters: &CommentSearch) -> (r: Request)
        ensures
            self.asks(
                r,
                Method::Post,
                "/search/commentSearch"@,
                "/search/commentSearch"@,
                Seq::empty(),
                Some(Json::Object(search_parameters.spec_members())),
            ),
    {
        let query: Vec<(String, String)> = Vec::new();
        assert(pairs_of(query@) =~= Seq::empty());
        self.request(
            Method::Post,
            "/search/commentSearch".to_owned(),
            "/search/commentSearch",
            query,
            Some(search_parameters.to_json()),
        )
    }

    /// What to make of the outcome of a request to `endpoint`.
    ///
    /// # Errors
    /// Will return [`Error::ApiRequestFailed`] if sending the API request
    /// failed.
    ///
    /// Will return [`Error::InvalidResponse`] if the API returned a faulty
    /// response or server error.
    pub fn receive<T: FromJson + Debug>(
        endpoint: &'static str,
        outcome: Result<Response, TransportError>,
    ) -> (r: Result<T, Error>)
        ensures
            match outcome {
                Err(failure) => r == Err::<T, Error>(
                    Error::ApiRequestFailed { source: failure, endpoint },
                ),
                Ok(response) => match r {
                    Ok(value) => Self::answers(response, Ok::<T, ValidationError>(value)),
                    Err(Error::InvalidResponse { source, endpoint: named }) => named == endpoint
                        && Self::answers(response, Err::<T, ValidationError>(source)),
                    Err(_) => false,
                },
            },
    {
        match outcome {
            Err(failure) => Err(Error::ApiRequestFailed { source: failure, endpoint }),
            Ok(response) => match validate_response::<T>(response.status, response.body) {
                Ok(value) => Ok(value),
                Err(source) => Err(Error::InvalidResponse { source, endpoint }),
            },
        }
    }

    /// Whether `validated` is what validating `response` gives.
    pub open spec fn answers<T: FromJson>(
        response: Response,
        validated: Result<T, ValidationError>,
    ) -> bool {
        match response.body {
            Ok(bytes) => response_outcome::<T>(
                response.status,
                json_reading(bytes@),
                bytes@,
                validated,
            ),
            Err(e) => if crate::util::is_error_status(response.status) {
                validated == Err::<T, ValidationError>(
                    ValidationError::ServerError(
                        crate::errors::ServerError::ErrorCodeWithValueParseError(
                            response.status,
                            e,
                        ),
                    ),
                )
            } else {
                validated == Err::<T, ValidationError>(ValidationError::ParseError(e))
            },
        }
    }
}

} // verus!
