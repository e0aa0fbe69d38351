//! Various types wrapping different IDs used in the API.

use crate::client::Client;
use crate::client::Method;
use crate::client::Request;
use crate::errors::Error;
use crate::json::FromJson;
use crate::json::Json;
use crate::json::JsonValue;
use crate::model::filter::joined;
use crate::model::filter::names;
use crate::model::filter::ChannelVideoFilter;
use crate::model::kinds::ChannelVideoType;
use crate::model::kinds::ExtraVideoInfo;
use crate::model::serializers::Language;
use regex::Regex;
use vstd::prelude::*;
use vstd::std_specs::convert::TryFromSpecImpl;

verus! {

/// What searching `text` for the regular expression `pattern` finds: `None`
/// where `pattern` is no regular expression that can be compiled, else the
/// text of the first match, if there is a match.
pub uninterp spec fn regex_first_match(pattern: Seq<char>, text: Seq<char>) -> Option<
    Option<Seq<char>>,
>;

/// `Regex::new` compiles `pattern`, and `Regex::find` searches `text` for
/// its first match, of which `Match::as_str` gives the text.
#[verifier::external_body]
fn first_match(pattern: &str, text: &str) -> (r: Option<Option<String>>)
    ensures
        match r {
            Some(Some(found)) => regex_first_match(pattern@, text@) == Some(Some(found@)),
            Some(None) => regex_first_match(pattern@, text@) == Some(None::<Seq<char>>),
            None => regex_first_match(pattern@, text@) is None,
        },
{
    match Regex::new(pattern) {
        Ok(regex) => Some(regex.find(text).map(|found| found.as_str().to_owned())),
        Err(_) => None,
    }
}

/// The regular expression that a video ID matches.
pub open spec fn video_id_pattern() -> Seq<char> {
    "[0-9A-Za-z_-]{10}[048AEIMQUYcgkosw]"@
}

/// The regular expression that a channel ID matches.
pub open spec fn channel_id_pattern() -> Seq<char> {
    "UC[0-9a-zA-Z_-]{21}[AQgw]"@
}

/// The ID of a video.
#[derive(Debug, PartialEq, Eq, PartialOrd, Ord, Hash)]
pub struct VideoId(pub(crate) String);

impl View for VideoId {
    type V = Seq<char>;

    closed spec fn view(&self) -> Seq<char> {
        self.0@
    }
}

impl Clone for VideoId {
    fn clone(&self) -> (r: Self)
        ensures
            r == *self,
    {
        VideoId(self.0.clone())
    }
}

impl VideoId {
    /// What a search for a video ID in `text` makes of `text`: the ID found,
    /// or `InvalidVideoId` with the whole text where none was found.
    pub open spec fn outcome(
        found: Option<Option<Seq<char>>>,
        text: Seq<char>,
        r: Result<VideoId, Error>,
    ) -> bool {
        match found {
            Some(Some(id)) => r matches Ok(value) && value@ == id,
            _ => r matches Err(Error::InvalidVideoId(rejected)) && rejected@ == text,
        }
    }

    /// The ID that a search of `text` has found, or the error for `text`
    /// where it has found none.
    pub fn from_match(text: &str, found: Option<Option<String>>) -> (r: Result<VideoId, Error>)
        ensures
            Self::outcome(
                match found {
                    Some(Some(id)) => Some(Some(id@)),
                    Some(None) => Some(None),
                    None => None,
                },
                text@,
                r,
            ),
    {
        match found {
            Some(Some(id)) => Ok(VideoId(id)),
            _ => Err(Error::InvalidVideoId(text.to_owned())),
        }
    }

    /// Finds the video ID in `text`: the first part of it that has the form
    /// of one.
    pub fn parse(text: &str) -> (r: Result<VideoId, Error>)
        ensures
            Self::outcome(regex_first_match(video_id_pattern(), text@), text@, r),
    {
        let found = first_match("[0-9A-Za-z_-]{10}[048AEIMQUYcgkosw]", text);
        Self::from_match(text, found)
    }

    /// The ID as text.
    pub fn as_str(&self) -> (r: &str)
        ensures
            r@ == self@,
    {
        self.0.as_str()
    }

    /// The ID as text.
    pub fn to_string(&self) -> (r: String)
        ensures
            r@ == self@,
    {
        self.0.clone()
    }
}

impl VideoId {
    /// The request that gets all the metadata associated with this video.
    pub fn metadata(&self, client: &Client) -> (r: Request)
        ensures
            client.asks(
                r,
                Method::Get,
                "/videos/"@ + self@,
                "/videos/{video_id}"@,
                Seq::empty(),
                None,
            ),
    {
        client.video(self)
    }

    /// The request that gets this video with all its indexed comments that
    /// contain timestamps.
    pub fn timestamps(&self, client: &Client) -> (r: Request)
        ensures
            client.asks(
                r,
                Method::Get,
                "/videos/"@ + self@,
                "/videos/{video_id}"@,
                seq![("c"@, "1"@)],
                None,
            ),
    {
        client.video_with_timestamps(self)
    }

    /// The request that gets this video with the videos related to it, in
    /// the given languages.
    pub fn related(&self, client: &Client, languages: &[Language]) -> (r: Request)
        ensures
            client.asks(
                r,
                Method::Get,
                "/videos/"@ + self@,
                "/videos/{video_id}"@,
                seq![("lang"@, joined(names(languages@), ","@))],
                None,
            ),
    {
        client.video_with_related(self, languages)
    }
}

impl std::str::FromStr for VideoId {
    type Err = Error;

    fn from_str(s: &str) -> (r: Result<Self, Error>)
        ensures
            VideoId::outcome(regex_first_match(video_id_pattern(), s@), s@, r),
    {
        VideoId::parse(s)
    }
}

impl TryFrom<String> for VideoId {
    type Error = Error;

    fn try_from(s: String) -> (r: Result<Self, Error>)
        ensures
            VideoId::outcome(regex_first_match(video_id_pattern(), s@), s@, r),
    {
        VideoId::parse(s.as_str())
    }
}

impl TryFromSpecImpl<String> for VideoId {
    /// What `try_from` gives is stated on `try_from` itself, over what the
    /// search finds.
    open spec fn obeys_try_from_spec() -> bool {
        false
    }

    open spec fn try_from_spec(s: String) -> Result<Self, Error> {
        arbitrary()
    }
}

impl FromJson for VideoId {
    /// Any string: an ID that comes from the API is taken as it is.
    open spec fn accepts(doc: Json) -> bool {
        doc is Text
    }

    open spec fn decodes_to(doc: Json, value: Self) -> bool {
        doc == Json::Text(value@)
    }

    open spec fn spec_expected() -> Seq<char> {
        "VideoId"@
    }

    fn expected() -> (name: &'static str) {
        "VideoId"
    }

    fn from_json(doc: &JsonValue) -> (r: Option<Self>) {
        match doc.as_str() {
            Some(text) => Some(VideoId(text.to_owned())),
            None => None,
        }
    }
}

/// The ID of a channel.
#[derive(Debug, PartialEq, Eq, PartialOrd, Ord, Hash)]
pub struct ChannelId(pub(crate) String);

impl View for ChannelId {
    type V = Seq<char>;

    closed spec fn view(&self) -> Seq<char> {
        self.0@
    }
}

impl Clone for ChannelId {
    fn clone(&self) -> (r: Self)
        ensures
            r == *self,
    {
        ChannelId(self.0.clone())
    }
}

impl ChannelId {
    /// What a search for a channel ID in `text` makes of `text`: the ID
    /// found, or `InvalidChannelId` with the whole text where none was found.
    pub open spec fn outcome(
        found: Option<Option<Seq<char>>>,
        text: Seq<char>,
        r: Result<ChannelId, Error>,
    ) -> bool {
        match found {
            Some(Some(id)) => r matches Ok(value) && value@ == id,
            _ => r matches Err(Error::InvalidChannelId(rejected)) && rejected@ == text,
        }
    }

    /// The ID that a search of `text` has found, or the error for `text`
    /// where it has found none.
    pub fn from_match(text: &str, found: Option<Option<String>>) -> (r: Result<ChannelId, Error>)
        ensures
            Self::outcome(
                match found {
                    Some(Some(id)) => Some(Some(id@)),
                    Some(None) => Some(None),
                    None => None,
                },
                text@,
                r,
            ),
    {
        match found {
            Some(Some(id)) => Ok(ChannelId(id)),
            _ => Err(Error::InvalidChannelId(text.to_owned())),
        }
    }

    /// Finds the channel ID in `text`: the first part of it that has the form
    /// of one.
    pub fn parse(text: &str) -> (r: Result<ChannelId, Error>)
        ensures
            Self::outcome(regex_first_match(channel_id_pattern(), text@), text@, r),
    {
        let found = first_match("UC[0-9a-zA-Z_-]{21}[AQgw]", text);
        Self::from_match(text, found)
    }

    /// The ID as text.
    pub fn as_str(&self) -> (r: &str)
        ensures
            r@ == self@,
    {
        self.0.as_str()
    }

    /// The ID as text.
    pub fn to_string(&self) -> (r: String)
        ensures
            r@ == self@,
    {
        self.0.clone()
    }
}

impl ChannelId {
    /// The pairs of the query string that asks for all videos at once, with
    /// their live information, in any language.
    pub open spec fn whole_query() -> Seq<(Seq<char>, Seq<char>)> {
        ChannelVideoFilter::query_of(
            seq![ExtraVideoInfo::LiveInfo],
            seq![Language::All],
            false,
            100,
            0,
        )
    }

    /// The request that asks for all videos of the kind `video_type` that
    /// relate to this channel.
    fn all_of(&self, client: &Client, video_type: ChannelVideoType) -> (r: Request)
        ensures
            client.asks(
                r,
                Method::Get,
                Client::channel_videos_path(*self, video_type),
                "/channels/{channel_id}/{type}"@,
                Self::whole_query(),
                None,
            ),
    {
        let mut filter = ChannelVideoFilter::new();
        filter.paginated = false;
        client.videos_from_channel(self, video_type, &filter)
    }

    /// The request that gets all the metadata associated with this channel.
    pub fn metadata(&self, client: &Client) -> (r: Request)
        ensures
            client.asks(
                r,
                Method::Get,
                "/channels/"@ + self@,
                "/channels/{channel_id}"@,
                Seq::empty(),
                None,
            ),
    {
        client.channel(self)
    }

    /// The request that gets all the videos uploaded by this channel.
    pub fn videos(&self, client: &Client) -> (r: Request)
        ensures
            client.asks(
                r,
                Method::Get,
                Client::channel_videos_path(*self, ChannelVideoType::Videos),
                "/channels/{channel_id}/{type}"@,
                Self::whole_query(),
                None,
            ),
    {
        self.all_of(client, ChannelVideoType::Videos)
    }

    /// The request that gets all the clips made of this channel.
    pub fn clips(&self, client: &Client) -> (r: Request)
        ensures
            client.asks(
                r,
                Method::Get,
                Client::channel_videos_path(*self, ChannelVideoType::Clips),
                "/channels/{channel_id}/{type}"@,
                Self::whole_query(),
                None,
            ),
    {
        self.all_of(client, ChannelVideoType::Clips)
    }

    /// The request that gets the videos that this channel has a part in; it
    /// asks at the address of the clips.
    pub fn collabs(&self, client: &Client) -> (r: Request)
        ensures
            client.asks(
                r,
                Method::Get,
                Client::channel_videos_path(*self, ChannelVideoType::Clips),
                "/channels/{channel_id}/{type}"@,
                Self::whole_query(),
                None,
            ),
    {
        self.all_of(client, ChannelVideoType::Clips)
    }
}

impl std::str::FromStr for ChannelId {
    type Err = Error;

    fn from_str(s: &str) -> (r: Result<Self, Error>)
        ensures
            ChannelId::outcome(regex_first_match(channel_id_pattern(), s@), s@, r),
    {
        ChannelId::parse(s)
    }
}

impl TryFrom<String> for ChannelId {
    type Error = Error;

    fn try_from(s: String) -> (r: Result<Self, Error>)
        ensures
            ChannelId::outcome(regex_first_match(channel_id_pattern(), s@), s@, r),
    {
        ChannelId::parse(s.as_str())
    }
}

impl TryFromSpecImpl<String> for ChannelId {
    /// What `try_from` gives is stated on `try_from` itself, over what the
    /// search finds.
    open spec fn obeys_try_from_spec() -> bool {
        false
    }

    open spec fn try_from_spec(s: String) -> Result<Self, Error> {
        arbitrary()
    }
}

impl FromJson for ChannelId {
    /// Any string: an ID that comes from the API is taken as it is.
    open spec fn accepts(doc: Json) -> bool {
        doc is Text
    }

    open spec fn decodes_to(doc: Json, value: Self) -> bool {
        doc == Json::Text(value@)
    }

    open spec fn spec_expected() -> Seq<char> {
        "ChannelId"@
    }

    fn expected() -> (name: &'static str) {
        "ChannelId"
    }

    fn from_json(doc: &JsonValue) -> (r: Option<Self>) {
        match doc.as_str() {
            Some(text) => Some(ChannelId(text.to_owned())),
            None => None,
        }
    }
}

} // verus!
