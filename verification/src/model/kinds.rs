//! The fixed vocabularies of the API: orders, criteria, types and statuses.

use crate::json::FromJson;
use crate::json::Json;
use crate::json::JsonValue;
use vstd::prelude::*;

verus! {

/// The order in which search results should be returned.
#[derive(Debug, Clone, Copy, PartialEq, Eq, Structural, PartialOrd, Ord, Hash)]
pub enum SearchOrder {
    /// Return the oldest videos first.
    Oldest,
    /// Return the newest videos first.
    Newest,
}

impl SearchOrder {
    /// The name under which the value travels to and from the API.
    pub open spec fn spec_as_str(self) -> Seq<char> {
        match self {
            SearchOrder::Oldest => "oldest"@,
            SearchOrder::Newest => "newest"@,
        }
    }

    /// The name under which the value travels to and from the API.
    pub fn as_str(&self) -> (r: &'static str)
        ensures
            r@ == self.spec_as_str(),
    {
        match self {
            SearchOrder::Oldest => "oldest",
            SearchOrder::Newest => "newest",
        }
    }
}

/// What extra info to include in the response.
#[non_exhaustive]
#[derive(Debug, Clone, Copy, PartialEq, Eq, Structural, PartialOrd, Ord, Hash)]
pub enum ExtraVideoInfo {
    /// Any clips created from the video.
    Clips,
    /// Any videos referencing the video in their description.
    Refers,
    /// Any videos listed as sources for the video.
    Sources,
    /// Any videos that refer to the video and go live or are uploaded around the same time.
    Simulcasts,
    /// Any channels mentioned in the description of the video.
    Mentions,
    /// The description of the video.
    Description,
    /// The [`VideoLiveInfo`] of the video, if it is a stream.
    LiveInfo,
    /// The statistics of the channel that uploaded the video.
    ChannelStats,
    /// Any songs that were played in the video.
    Songs,
}

impl ExtraVideoInfo {
    /// The name under which the value travels to and from the API.
    pub open spec fn spec_as_str(self) -> Seq<char> {
        match self {
            ExtraVideoInfo::Clips => "clips"@,
            ExtraVideoInfo::Refers => "refers"@,
            ExtraVideoInfo::Sources => "sources"@,
            ExtraVideoInfo::Simulcasts => "simulcasts"@,
            ExtraVideoInfo::Mentions => "mentions"@,
            ExtraVideoInfo::Description => "description"@,
            ExtraVideoInfo::LiveInfo => "live_info"@,
            ExtraVideoInfo::ChannelStats => "channel_stats"@,
            ExtraVideoInfo::Songs => "songs"@,
        }
    }

    /// The name under which the value travels to and from the API.
    pub fn as_str(&self) -> (r: &'static str)
        ensures
            r@ == self.spec_as_str(),
    {
        match self {
            ExtraVideoInfo::Clips => "clips",
            ExtraVideoInfo::Refers => "refers",
            ExtraVideoInfo::Sources => "sources",
            ExtraVideoInfo::Simulcasts => "simulcasts",
            ExtraVideoInfo::Mentions => "mentions",
            ExtraVideoInfo::Description => "description",
            ExtraVideoInfo::LiveInfo => "live_info",
            ExtraVideoInfo::ChannelStats => "channel_stats",
            ExtraVideoInfo::Songs => "songs",
        }
    }

    /// The name under which the value is shown.
    pub open spec fn spec_to_string(self) -> Seq<char> {
        self.spec_as_str()
    }

    /// The name under which the value is shown.
    pub fn to_string(&self) -> (r: String)
        ensures
            r@ == self.spec_to_string(),
    {
        self.as_str().to_owned()
    }
}

/// What order items should be returned in, ascending or descending.
#[derive(Debug, Clone, Copy, PartialEq, Eq, Structural, PartialOrd, Ord, Hash)]
pub enum Order {
    /// Sort videos in ascending order.
    Ascending,
    /// Sort videos in descending order.
    Descending,
}

impl Order {
    /// The name under which the value travels to and from the API.
    pub open spec fn spec_as_str(self) -> Seq<char> {
        match self {
            Order::Ascending => "asc"@,
            Order::Descending => "desc"@,
        }
    }

    /// The name under which the value travels to and from the API.
    pub fn as_str(&self) -> (r: &'static str)
        ensures
            r@ == self.spec_as_str(),
    {
        match self {
            Order::Ascending => "asc",
            Order::Descending => "desc",
        }
    }

    /// The name under which the value is shown.
    pub open spec fn spec_to_string(self) -> Seq<char> {
        match self {
            Order::Ascending => "Ascending"@,
            Order::Descending => "Descending"@,
        }
    }

    /// The name under which the value is shown.
    pub fn to_string(&self) -> (r: String)
        ensures
            r@ == self.spec_to_string(),
    {
        let name: &str = match self {
            Order::Ascending => "Ascending",
            Order::Descending => "Descending",
        };
        name.to_owned()
    }

    /// The value that travels under the name `name`.
    pub open spec fn spec_from_name(name: Seq<char>) -> Option<Order> {
        if name == "asc"@ {
            Some(Order::Ascending)
        } else if name == "desc"@ {
            Some(Order::Descending)
        } else {
            None
        }
    }

    /// The value that travels under the name `name`.
    pub fn from_name(name: &str) -> (r: Option<Order>)
        ensures
            r == Self::spec_from_name(name@),
    {
        if name.eq("asc") {
            Some(Order::Ascending)
        } else if name.eq("desc") {
            Some(Order::Descending)
        } else {
            None
        }
    }

    /// Every value is read back from its own name.
    pub proof fn lemma_name_round_trip(self)
        ensures
            Self::spec_from_name(self.spec_as_str()) == Some(self),
    {
        reveal_strlit("asc");
        assert("asc"@ =~= seq!['a', 's', 'c']);
        reveal_strlit("desc");
        assert("desc"@ =~= seq!['d', 'e', 's', 'c']);
    }
}

impl FromJson for Order {
    /// A string that is the name of a value.
    open spec fn accepts(doc: Json) -> bool {
        doc matches Json::Text(name) && Self::spec_from_name(name) is Some
    }

    open spec fn decodes_to(doc: Json, value: Self) -> bool {
        doc matches Json::Text(name) && Self::spec_from_name(name) == Some(value)
    }

    open spec fn spec_expected() -> Seq<char> {
        "Order"@
    }

    fn expected() -> (name: &'static str) {
        "Order"
    }

    fn from_json(doc: &JsonValue) -> (r: Option<Self>) {
        match doc.as_str() {
            Some(name) => Self::from_name(name),
            None => None,
        }
    }
}

/// Different criteria for sorting videos.
#[non_exhaustive]
#[derive(Debug, Clone, Copy, PartialEq, Eq, Structural, PartialOrd, Ord, Hash)]
pub enum VideoSortingCriteria {
    /// Sort by [`Video::id`].
    Id,
    /// Sort alphabetically by [`Video::title`].
    Title,
    /// Sort by the [`VideoType`] of the video.
    Type,
    /// Sort by [`Video::topic`].
    Topics,
    /// Sort by when the video was first published.
    PublishedAt,
    /// Sort by when the video became, or will become, available.
    AvailableAt,
    /// Sort by video length.
    Duration,
    /// Sort by the [`VideoStatus`] of the video.
    Status,
    /// Sort by when the video is scheduled to start, if it is a stream or premiere.
    StartScheduled,
    /// Sort by when the video started, if it is a stream or premiere.
    StartActual,
    /// Sort by when the video ended, if it is a stream or premiere.
    EndActual,
    /// Sort by amount of viewers, if the video is a stream or premiere.
    LiveViewers,
    /// Sort alphabetically by video description.
    Description,
    /// Sort by amount of songs in the video.
    SongCount,
    /// Sort alphabetically by the uploader's channel ID.
    ChannelId,
}

impl VideoSortingCriteria {
    /// The name under which the value travels to and from the API.
    pub open spec fn spec_as_str(self) -> Seq<char> {
        match self {
            VideoSortingCriteria::Id => "id"@,
            VideoSortingCriteria::Title => "title"@,
            VideoSortingCriteria::Type => "type"@,
            VideoSortingCriteria::Topics => "topic_id"@,
            VideoSortingCriteria::PublishedAt => "published_at"@,
            VideoSortingCriteria::AvailableAt => "available_at"@,
            VideoSortingCriteria::Duration => "duration"@,
            VideoSortingCriteria::Status => "status"@,
            VideoSortingCriteria::StartScheduled => "start_scheduled"@,
            VideoSortingCriteria::StartActual => "start_actual"@,
            VideoSortingCriteria::EndActual => "end_actual"@,
            VideoSortingCriteria::LiveViewers => "live_viewers"@,
            VideoSortingCriteria::Description => "description"@,
            VideoSortingCriteria::SongCount => "songcount"@,
            VideoSortingCriteria::ChannelId => "channel_id"@,
        }
    }

    /// The name under which the value travels to and from the API.
    pub fn as_str(&self) -> (r: &'static str)
        ensures
            r@ == self.spec_as_str(),
    {
        match self {
            VideoSortingCriteria::Id => "id",
            VideoSortingCriteria::Title => "title",
            VideoSortingCriteria::Type => "type",
            VideoSortingCriteria::Topics => "topic_id",
            VideoSortingCriteria::PublishedAt => "published_at",
            VideoSortingCriteria::AvailableAt => "available_at",
            VideoSortingCriteria::Duration => "duration",
            VideoSortingCriteria::Status => "status",
            VideoSortingCriteria::StartScheduled => "start_scheduled",
            VideoSortingCriteria::StartActual => "start_actual",
            VideoSortingCriteria::EndActual => "end_actual",
            VideoSortingCriteria::LiveViewers => "live_viewers",
            VideoSortingCriteria::Description => "description",
            VideoSortingCriteria::SongCount => "songcount",
            VideoSortingCriteria::ChannelId => "channel_id",
        }
    }

    /// The name under which the value is shown.
    pub open spec fn spec_to_string(self) -> Seq<char> {
        match self {
            VideoSortingCriteria::Id => "Id"@,
            VideoSortingCriteria::Title => "Title"@,
            VideoSortingCriteria::Type => "Type"@,
            VideoSortingCriteria::Topics => "Topics"@,
            VideoSortingCriteria::PublishedAt => "PublishedAt"@,
            VideoSortingCriteria::AvailableAt => "AvailableAt"@,
            VideoSortingCriteria::Duration => "Duration"@,
            VideoSortingCriteria::Status => "Status"@,
            VideoSortingCriteria::StartScheduled => "StartScheduled"@,
            VideoSortingCriteria::StartActual => "StartActual"@,
            VideoSortingCriteria::EndActual => "EndActual"@,
            VideoSortingCriteria::LiveViewers => "LiveViewers"@,
            VideoSortingCriteria::Description => "Description"@,
            VideoSortingCriteria::SongCount => "SongCount"@,
            VideoSortingCriteria::ChannelId => "ChannelId"@,
        }
    }

    /// The name under which the value is shown.
    pub fn to_string(&self) -> (r: String)
        ensures
            r@ == self.spec_to_string(),
    {
        let name: &str = match self {
            VideoSortingCriteria::Id => "Id",
            VideoSortingCriteria::Title => "Title",
            VideoSortingCriteria::Type => "Type",
            VideoSortingCriteria::Topics => "Topics",
            VideoSortingCriteria::PublishedAt => "PublishedAt",
            VideoSortingCriteria::AvailableAt => "AvailableAt",
            VideoSortingCriteria::Duration => "Duration",
            VideoSortingCriteria::Status => "Status",
            VideoSortingCriteria::StartScheduled => "StartScheduled",
            VideoSortingCriteria::StartActual => "StartActual",
            VideoSortingCriteria::EndActual => "EndActual",
            VideoSortingCriteria::LiveViewers => "LiveViewers",
            VideoSortingCriteria::Description => "Description",
            VideoSortingCriteria::SongCount => "SongCount",
            VideoSortingCriteria::ChannelId => "ChannelId",
        };
        name.to_owned()
    }

    /// The value that travels under the name `name`.
    pub open spec fn spec_from_name(name: Seq<char>) -> Option<VideoSortingCriteria> {
        if name == "id"@ {
            Some(VideoSortingCriteria::Id)
        } else if name == "title"@ {
            Some(VideoSortingCriteria::Title)
        } else if name == "type"@ {
            Some(VideoSortingCriteria::Type)
        } else if name == "topic_id"@ {
            Some(VideoSortingCriteria::Topics)
        } else if name == "published_at"@ {
            Some(VideoSortingCriteria::PublishedAt)
        } else if name == "available_at"@ {
            Some(VideoSortingCriteria::AvailableAt)
        } else if name == "duration"@ {
            Some(VideoSortingCriteria::Duration)
        } else if name == "status"@ {
            Some(VideoSortingCriteria::Status)
        } else if name == "start_scheduled"@ {
            Some(VideoSortingCriteria::StartScheduled)
        } else if name == "start_actual"@ {
            Some(VideoSortingCriteria::StartActual)
        } else if name == "end_actual"@ {
            Some(VideoSortingCriteria::EndActual)
        } else if name == "live_viewers"@ {
            Some(VideoSortingCriteria::LiveViewers)
        } else if name == "description"@ {
            Some(VideoSortingCriteria::Description)
        } else if name == "songcount"@ {
            Some(VideoSortingCriteria::SongCount)
        } else if name == "channel_id"@ {
            Some(VideoSortingCriteria::ChannelId)
        } else {
            None
        }
    }

    /// The value that travels under the name `name`.
    pub fn from_name(name: &str) -> (r: Option<VideoSortingCriteria>)
        ensures
            r == Self::spec_from_name(name@),
    {
        if name.eq("id") {
            Some(VideoSortingCriteria::Id)
        } else if name.eq("title") {
            Some(VideoSortingCriteria::Title)
        } else if name.eq("type") {
            Some(VideoSortingCriteria::Type)
        } else if name.eq("topic_id") {
            Some(VideoSortingCriteria::Topics)
        } else if name.eq("published_at") {
            Some(VideoSortingCriteria::PublishedAt)
        } else if name.eq("available_at") {
            Some(VideoSortingCriteria::AvailableAt)
        } else if name.eq("duration") {
            Some(VideoSortingCriteria::Duration)
        } else if name.eq("status") {
            Some(VideoSortingCriteria::Status)
        } else if name.eq("start_scheduled") {
            Some(VideoSortingCriteria::StartScheduled)
        } else if name.eq("start_actual") {
            Some(VideoSortingCriteria::StartActual)
        } else if name.eq("end_actual") {
            Some(VideoSortingCriteria::EndActual)
        } else if name.eq("live_viewers") {
            Some(VideoSortingCriteria::LiveViewers)
        } else if name.eq("description") {
            Some(VideoSortingCriteria::Description)
        } else if name.eq("songcount") {
            Some(VideoSortingCriteria::SongCount)
        } else if name.eq("channel_id") {
            Some(VideoSortingCriteria::ChannelId)
        } else {
            None
        }
    }

    /// Every value is read back from its own name.
    pub proof fn lemma_name_round_trip(self)
        ensures
            Self::spec_from_name(self.spec_as_str()) == Some(self),
    {
        reveal_strlit("id");
        assert("id"@ =~= seq!['i', 'd']);
        reveal_strlit("title");
        assert("title"@ =~= seq!['t', 'i', 't', 'l', 'e']);
        reveal_strlit("type");
        assert("type"@ =~= seq!['t', 'y', 'p', 'e']);
        reveal_strlit("topic_id");
        assert("topic_id"@ =~= seq!['t', 'o', 'p', 'i', 'c', '_', 'i', 'd']);
        reveal_strlit("published_at");
        assert("published_at"@ =~= seq!['p', 'u', 'b', 'l', 'i', 's', 'h', 'e', 'd', '_', 'a', 't']);
        reveal_strlit("available_at");
        assert("available_at"@ =~= seq!['a', 'v', 'a', 'i', 'l', 'a', 'b', 'l', 'e', '_', 'a', 't']);
        reveal_strlit("duration");
        assert("duration"@ =~= seq!['d', 'u', 'r', 'a', 't', 'i', 'o', 'n']);
        reveal_strlit("status");
        assert("status"@ =~= seq!['s', 't', 'a', 't', 'u', 's']);
        reveal_strlit("start_scheduled");
        assert("start_scheduled"@ =~= seq!['s', 't', 'a', 'r', 't', '_', 's', 'c', 'h', 'e', 'd', 'u', 'l', 'e', 'd']);
        reveal_strlit("start_actual");
        assert("start_actual"@ =~= seq!['s', 't', 'a', 'r', 't', '_', 'a', 'c', 't', 'u', 'a', 'l']);
        reveal_strlit("end_actual");
        assert("end_actual"@ =~= seq!['e', 'n', 'd', '_', 'a', 'c', 't', 'u', 'a', 'l']);
        reveal_strlit("live_viewers");
        assert("live_viewers"@ =~= seq!['l', 'i', 'v', 'e', '_', 'v', 'i', 'e', 'w', 'e', 'r', 's']);
        reveal_strlit("description");
        assert("description"@ =~= seq!['d', 'e', 's', 'c', 'r', 'i', 'p', 't', 'i', 'o', 'n']);
        reveal_strlit("songcount");
        assert("songcount"@ =~= seq!['s', 'o', 'n', 'g', 'c', 'o', 'u', 'n', 't']);
        reveal_strlit("channel_id");
        assert("channel_id"@ =~= seq!['c', 'h', 'a', 'n', 'n', 'e', 'l', '_', 'i', 'd']);
    }
}

impl FromJson for VideoSortingCriteria {
    /// A string that is the name of a value.
    open spec fn accepts(doc: Json) -> bool {
        doc matches Json::Text(name) && Self::spec_from_name(name) is Some
    }

    open spec fn decodes_to(doc: Json, value: Self) -> bool {
        doc matches Json::Text(name) && Self::spec_from_name(name) == Some(value)
    }

    open spec fn spec_expected() -> Seq<char> {
        "VideoSortingCriteria"@
    }

    fn expected() -> (name: &'static str) {
        "VideoSortingCriteria"
    }

    fn from_json(doc: &JsonValue) -> (r: Option<Self>) {
        match doc.as_str() {
            Some(name) => Self::from_name(name),
            None => None,
        }
    }
}

/// Different criteria for sorting channels.
#[non_exhaustive]
#[derive(Debug, Clone, Copy, PartialEq, Eq, Structural, PartialOrd, Ord, Hash)]
pub enum ChannelSortingCriteria {
    /// Sort by [`Channel::id`].
    Id,
    /// Sort alphabetically by the channel's name.
    Name,
    /// Sort alphabetically by the channel's English name.
    EnglishName,
    /// Sort by the [`ChannelType`] of the channel.
    Type,
    /// Sort by the [`Organisation`] the channel belongs to.
    Organisation,
    /// Sort by the sub-organisation the channel belongs to.
    SubOrganisation,
    /// Sort by the URL of the channel's profile picture.
    Photo,
    /// Sort by the URL of the channel's banner image.
    Banner,
    /// Sort by the channel's Twitter handle.
    Twitter,
    /// Sort by the number of videos the channel has uploaded.
    VideoCount,
    /// Sort by the number of subscribers the channel has.
    SubscriberCount,
    /// Sort by the number of views the channel has.
    ViewCount,
    /// Sort by the number of clips made that involves the channel.
    ClipCount,
    /// Sort by the primary [`Language`] of the channel.
    Language,
    /// Sort by when the channel was first published.
    PublishedAt,
    /// Sort by if the channel is marked as [`Channel::inactive`] or not.
    Inactive,
    /// Sort alphabetically by channel description.
    Description,
}

impl ChannelSortingCriteria {
    /// The name under which the value travels to and from the API.
    pub open spec fn spec_as_str(self) -> Seq<char> {
        match self {
            ChannelSortingCriteria::Id => "id"@,
            ChannelSortingCriteria::Name => "name"@,
            ChannelSortingCriteria::EnglishName => "english_name"@,
            ChannelSortingCriteria::Type => "type"@,
            ChannelSortingCriteria::Organisation => "org"@,
            ChannelSortingCriteria::SubOrganisation => "suborg"@,
            ChannelSortingCriteria::Photo => "photo"@,
            ChannelSortingCriteria::Banner => "banner"@,
            ChannelSortingCriteria::Twitter => "twitter"@,
            ChannelSortingCriteria::VideoCount => "video_count"@,
            ChannelSortingCriteria::SubscriberCount => "subscriber_count"@,
            ChannelSortingCriteria::ViewCount => "view_count"@,
            ChannelSortingCriteria::ClipCount => "clip_count"@,
            ChannelSortingCriteria::Language => "lang"@,
            ChannelSortingCriteria::PublishedAt => "published_at"@,
            ChannelSortingCriteria::Inactive => "inactive"@,
            ChannelSortingCriteria::Description => "description"@,
        }
    }

    /// The name under which the value travels to and from the API.
    pub fn as_str(&self) -> (r: &'static str)
        ensures
            r@ == self.spec_as_str(),
    {
        match self {
            ChannelSortingCriteria::Id => "id",
            ChannelSortingCriteria::Name => "name",
            ChannelSortingCriteria::EnglishName => "english_name",
            ChannelSortingCriteria::Type => "type",
            ChannelSortingCriteria::Organisation => "org",
            ChannelSortingCriteria::SubOrganisation => "suborg",
            ChannelSortingCriteria::Photo => "photo",
            ChannelSortingCriteria::Banner => "banner",
            ChannelSortingCriteria::Twitter => "twitter",
            ChannelSortingCriteria::VideoCount => "video_count",
            ChannelSortingCriteria::SubscriberCount => "subscriber_count",
            ChannelSortingCriteria::ViewCount => "view_count",
            ChannelSortingCriteria::ClipCount => "clip_count",
            ChannelSortingCriteria::Language => "lang",
            ChannelSortingCriteria::PublishedAt => "published_at",
            ChannelSortingCriteria::Inactive => "inactive",
            ChannelSortingCriteria::Description => "description",
        }
    }

    /// The name under which the value is shown.
    pub open spec fn spec_to_string(self) -> Seq<char> {
        match self {
            ChannelSortingCriteria::Id => "Id"@,
            ChannelSortingCriteria::Name => "Name"@,
            ChannelSortingCriteria::EnglishName => "EnglishName"@,
            ChannelSortingCriteria::Type => "Type"@,
            ChannelSortingCriteria::Organisation => "Organisation"@,
            ChannelSortingCriteria::SubOrganisation => "SubOrganisation"@,
            ChannelSortingCriteria::Photo => "Photo"@,
            ChannelSortingCriteria::Banner => "Banner"@,
            ChannelSortingCriteria::Twitter => "Twitter"@,
            ChannelSortingCriteria::VideoCount => "VideoCount"@,
            ChannelSortingCriteria::SubscriberCount => "SubscriberCount"@,
            ChannelSortingCriteria::ViewCount => "ViewCount"@,
            ChannelSortingCriteria::ClipCount => "ClipCount"@,
            ChannelSortingCriteria::Language => "Language"@,
            ChannelSortingCriteria::PublishedAt => "PublishedAt"@,
            ChannelSortingCriteria::Inactive => "Inactive"@,
            ChannelSortingCriteria::Description => "Description"@,
        }
    }

    /// The name under which the value is shown.
    pub fn to_string(&self) -> (r: String)
        ensures
            r@ == self.spec_to_string(),
    {
        let name: &str = match self {
            ChannelSortingCriteria::Id => "Id",
            ChannelSortingCriteria::Name => "Name",
            ChannelSortingCriteria::EnglishName => "EnglishName",
            ChannelSortingCriteria::Type => "Type",
            ChannelSortingCriteria::Organisation => "Organisation",
            ChannelSortingCriteria::SubOrganisation => "SubOrganisation",
            ChannelSortingCriteria::Photo => "Photo",
            ChannelSortingCriteria::Banner => "Banner",
            ChannelSortingCriteria::Twitter => "Twitter",
            ChannelSortingCriteria::VideoCount => "VideoCount",
            ChannelSortingCriteria::SubscriberCount => "SubscriberCount",
            ChannelSortingCriteria::ViewCount => "ViewCount",
            ChannelSortingCriteria::ClipCount => "ClipCount",
            ChannelSortingCriteria::Language => "Language",
            ChannelSortingCriteria::PublishedAt => "PublishedAt",
            ChannelSortingCriteria::Inactive => "Inactive",
            ChannelSortingCriteria::Description => "Description",
        };
        name.to_owned()
    }

    /// The value that travels under the name `name`.
    pub open spec fn spec_from_name(name: Seq<char>) -> Option<ChannelSortingCriteria> {
        if name == "id"@ {
            Some(ChannelSortingCriteria::Id)
        } else if name == "name"@ {
            Some(ChannelSortingCriteria::Name)
        } else if name == "english_name"@ {
            Some(ChannelSortingCriteria::EnglishName)
        } else if name == "type"@ {
            Some(ChannelSortingCriteria::Type)
        } else if name == "org"@ {
            Some(ChannelSortingCriteria::Organisation)
        } else if name == "suborg"@ {
            Some(ChannelSortingCriteria::SubOrganisation)
        } else if name == "photo"@ {
            Some(ChannelSortingCriteria::Photo)
        } else if name == "banner"@ {
            Some(ChannelSortingCriteria::Banner)
        } else if name == "twitter"@ {
            Some(ChannelSortingCriteria::Twitter)
        } else if name == "video_count"@ {
            Some(ChannelSortingCriteria::VideoCount)
        } else if name == "subscriber_count"@ {
            Some(ChannelSortingCriteria::SubscriberCount)
        } else if name == "view_count"@ {
            Some(ChannelSortingCriteria::ViewCount)
        } else if name == "clip_count"@ {
            Some(ChannelSortingCriteria::ClipCount)
        } else if name == "lang"@ {
            Some(ChannelSortingCriteria::Language)
        } else if name == "published_at"@ {
            Some(ChannelSortingCriteria::PublishedAt)
        } else if name == "inactive"@ {
            Some(ChannelSortingCriteria::Inactive)
        } else if name == "description"@ {
            Some(ChannelSortingCriteria::Description)
        } else {
            None
        }
    }

    /// The value that travels under the name `name`.
    pub fn from_name(name: &str) -> (r: Option<ChannelSortingCriteria>)
        ensures
            r == Self::spec_from_name(name@),
    {
        if name.eq("id") {
            Some(ChannelSortingCriteria::Id)
        } else if name.eq("name") {
            Some(ChannelSortingCriteria::Name)
        } else if name.eq("english_name") {
            Some(ChannelSortingCriteria::EnglishName)
        } else if name.eq("type") {
            Some(ChannelSortingCriteria::Type)
        } else if name.eq("org") {
            Some(ChannelSortingCriteria::Organisation)
        } else if name.eq("suborg") {
            Some(ChannelSortingCriteria::SubOrganisation)
        } else if name.eq("photo") {
            Some(ChannelSortingCriteria::Photo)
        } else if name.eq("banner") {
            Some(ChannelSortingCriteria::Banner)
        } else if name.eq("twitter") {
            Some(ChannelSortingCriteria::Twitter)
        } else if name.eq("video_count") {
            Some(ChannelSortingCriteria::VideoCount)
        } else if name.eq("subscriber_count") {
            Some(ChannelSortingCriteria::SubscriberCount)
        } else if name.eq("view_count") {
            Some(ChannelSortingCriteria::ViewCount)
        } else if name.eq("clip_count") {
            Some(ChannelSortingCriteria::ClipCount)
        } else if name.eq("lang") {
            Some(ChannelSortingCriteria::Language)
        } else if name.eq("published_at") {
            Some(ChannelSortingCriteria::PublishedAt)
        } else if name.eq("inactive") {
            Some(ChannelSortingCriteria::Inactive)
        } else if name.eq("description") {
            Some(ChannelSortingCriteria::Description)
        } else {
            None
        }
    }

    /// Every value is read back from its own name.
    pub proof fn lemma_name_round_trip(self)
        ensures
            Self::spec_from_name(self.spec_as_str()) == Some(self),
    {
        reveal_strlit("id");
        assert("id"@ =~= seq!['i', 'd']);
        reveal_strlit("name");
        assert("name"@ =~= seq!['n', 'a', 'm', 'e']);
        reveal_strlit("english_name");
        assert("english_name"@ =~= seq!['e', 'n', 'g', 'l', 'i', 's', 'h', '_', 'n', 'a', 'm', 'e']);
        reveal_strlit("type");
        assert("type"@ =~= seq!['t', 'y', 'p', 'e']);
        reveal_strlit("org");
        assert("org"@ =~= seq!['o', 'r', 'g']);
        reveal_strlit("suborg");
        assert("suborg"@ =~= seq!['s', 'u', 'b', 'o', 'r', 'g']);
        reveal_strlit("photo");
        assert("photo"@ =~= seq!['p', 'h', 'o', 't', 'o']);
        reveal_strlit("banner");
        assert("banner"@ =~= seq!['b', 'a', 'n', 'n', 'e', 'r']);
        reveal_strlit("twitter");
        assert("twitter"@ =~= seq!['t', 'w', 'i', 't', 't', 'e', 'r']);
        reveal_strlit("video_count");
        assert("video_count"@ =~= seq!['v', 'i', 'd', 'e', 'o', '_', 'c', 'o', 'u', 'n', 't']);
        reveal_strlit("subscriber_count");
        assert("subscriber_count"@ =~= seq!['s', 'u', 'b', 's', 'c', 'r', 'i', 'b', 'e', 'r', '_', 'c', 'o', 'u', 'n', 't']);
        reveal_strlit("view_count");
        assert("view_count"@ =~= seq!['v', 'i', 'e', 'w', '_', 'c', 'o', 'u', 'n', 't']);
        reveal_strlit("clip_count");
        assert("clip_count"@ =~= seq!['c', 'l', 'i', 'p', '_', 'c', 'o', 'u', 'n', 't']);
        reveal_strlit("lang");
        assert("lang"@ =~= seq!['l', 'a', 'n', 'g']);
        reveal_strlit("published_at");
        assert("published_at"@ =~= seq!['p', 'u', 'b', 'l', 'i', 's', 'h', 'e', 'd', '_', 'a', 't']);
        reveal_strlit("inactive");
        assert("inactive"@ =~= seq!['i', 'n', 'a', 'c', 't', 'i', 'v', 'e']);
        reveal_strlit("description");
        assert("description"@ =~= seq!['d', 'e', 's', 'c', 'r', 'i', 'p', 't', 'i', 'o', 'n']);
    }
}

impl FromJson for ChannelSortingCriteria {
    /// A string that is the name of a value.
    open spec fn accepts(doc: Json) -> bool {
        doc matches Json::Text(name) && Self::spec_from_name(name) is Some
    }

    open spec fn decodes_to(doc: Json, value: Self) -> bool {
        doc matches Json::Text(name) && Self::spec_from_name(name) == Some(value)
    }

    open spec fn spec_expected() -> Seq<char> {
        "ChannelSortingCriteria"@
    }

    fn expected() -> (name: &'static str) {
        "ChannelSortingCriteria"
    }

    fn from_json(doc: &JsonValue) -> (r: Option<Self>) {
        match doc.as_str() {
            Some(name) => Self::from_name(name),
            None => None,
        }
    }
}

/// The type of the video.
#[non_exhaustive]
#[derive(Debug, Clone, Copy, PartialEq, Eq, Structural, PartialOrd, Ord, Hash)]
pub enum VideoType {
    /// The video is a livestream.
    Stream,
    /// The video is a clip.
    Clip,
}

impl VideoType {
    /// The name under which the value travels to and from the API.
    pub open spec fn spec_as_str(self) -> Seq<char> {
        match self {
            VideoType::Stream => "stream"@,
            VideoType::Clip => "clip"@,
        }
    }

    /// The name under which the value travels to and from the API.
    pub fn as_str(&self) -> (r: &'static str)
        ensures
            r@ == self.spec_as_str(),
    {
        match self {
            VideoType::Stream => "stream",
            VideoType::Clip => "clip",
        }
    }

    /// The name under which the value is shown.
    pub open spec fn spec_to_string(self) -> Seq<char> {
        match self {
            VideoType::Stream => "Stream"@,
            VideoType::Clip => "Clip"@,
        }
    }

    /// The name under which the value is shown.
    pub fn to_string(&self) -> (r: String)
        ensures
            r@ == self.spec_to_string(),
    {
        let name: &str = match self {
            VideoType::Stream => "Stream",
            VideoType::Clip => "Clip",
        };
        name.to_owned()
    }

    /// The value that travels under the name `name`.
    pub open spec fn spec_from_name(name: Seq<char>) -> Option<VideoType> {
        if name == "stream"@ {
            Some(VideoType::Stream)
        } else if name == "clip"@ {
            Some(VideoType::Clip)
        } else {
            None
        }
    }

    /// The value that travels under the name `name`.
    pub fn from_name(name: &str) -> (r: Option<VideoType>)
        ensures
            r == Self::spec_from_name(name@),
    {
        if name.eq("stream") {
            Some(VideoType::Stream)
        } else if name.eq("clip") {
            Some(VideoType::Clip)
        } else {
            None
        }
    }

    /// Every value is read back from its own name.
    pub proof fn lemma_name_round_trip(self)
        ensures
            Self::spec_from_name(self.spec_as_str()) == Some(self),
    {
        reveal_strlit("stream");
        assert("stream"@ =~= seq!['s', 't', 'r', 'e', 'a', 'm']);
        reveal_strlit("clip");
        assert("clip"@ =~= seq!['c', 'l', 'i', 'p']);
    }
}

impl FromJson for VideoType {
    /// A string that is the name of a value.
    open spec fn accepts(doc: Json) -> bool {
        doc matches Json::Text(name) && Self::spec_from_name(name) is Some
    }

    open spec fn decodes_to(doc: Json, value: Self) -> bool {
        doc matches Json::Text(name) && Self::spec_from_name(name) == Some(value)
    }

    open spec fn spec_expected() -> Seq<char> {
        "VideoType"@
    }

    fn expected() -> (name: &'static str) {
        "VideoType"
    }

    fn from_json(doc: &JsonValue) -> (r: Option<Self>) {
        match doc.as_str() {
            Some(name) => Self::from_name(name),
            None => None,
        }
    }
}

/// The type of videos to fetch from a channel.
#[non_exhaustive]
#[derive(Debug, Clone, Copy, PartialEq, Eq, Structural, PartialOrd, Ord, Hash)]
pub enum ChannelVideoType {
    /// Clip videos of a `VTuber` channel.
    Clips,
    /// Uploaded videos from this channel.
    Videos,
    /// Videos uploaded by other channels that mention this channel.
    Collabs,
}

impl ChannelVideoType {
    /// The name under which the value travels to and from the API.
    pub open spec fn spec_as_str(self) -> Seq<char> {
        match self {
            ChannelVideoType::Clips => "clips"@,
            ChannelVideoType::Videos => "videos"@,
            ChannelVideoType::Collabs => "collabs"@,
        }
    }

    /// The name under which the value travels to and from the API.
    pub fn as_str(&self) -> (r: &'static str)
        ensures
            r@ == self.spec_as_str(),
    {
        match self {
            ChannelVideoType::Clips => "clips",
            ChannelVideoType::Videos => "videos",
            ChannelVideoType::Collabs => "collabs",
        }
    }

    /// The name under which the value is shown.
    pub open spec fn spec_to_string(self) -> Seq<char> {
        match self {
            ChannelVideoType::Clips => "Clips"@,
            ChannelVideoType::Videos => "Videos"@,
            ChannelVideoType::Collabs => "Collabs"@,
        }
    }

    /// The name under which the value is shown.
    pub fn to_string(&self) -> (r: String)
        ensures
            r@ == self.spec_to_string(),
    {
        let name: &str = match self {
            ChannelVideoType::Clips => "Clips",
            ChannelVideoType::Videos => "Videos",
            ChannelVideoType::Collabs => "Collabs",
        };
        name.to_owned()
    }

    /// The value that travels under the name `name`.
    pub open spec fn spec_from_name(name: Seq<char>) -> Option<ChannelVideoType> {
        if name == "clips"@ {
            Some(ChannelVideoType::Clips)
        } else if name == "videos"@ {
            Some(ChannelVideoType::Videos)
        } else if name == "collabs"@ {
            Some(ChannelVideoType::Collabs)
        } else {
            None
        }
    }

    /// The value that travels under the name `name`.
    pub fn from_name(name: &str) -> (r: Option<ChannelVideoType>)
        ensures
            r == Self::spec_from_name(name@),
    {
        if name.eq("clips") {
            Some(ChannelVideoType::Clips)
        } else if name.eq("videos") {
            Some(ChannelVideoType::Videos)
        } else if name.eq("collabs") {
            Some(ChannelVideoType::Collabs)
        } else {
            None
        }
    }

    /// Every value is read back from its own name.
    pub proof fn lemma_name_round_trip(self)
        ensures
            Self::spec_from_name(self.spec_as_str()) == Some(self),
    {
        reveal_strlit("clips");
        assert("clips"@ =~= seq!['c', 'l', 'i', 'p', 's']);
        reveal_strlit("videos");
        assert("videos"@ =~= seq!['v', 'i', 'd', 'e', 'o', 's']);
        reveal_strlit("collabs");
        assert("collabs"@ =~= seq!['c', 'o', 'l', 'l', 'a', 'b', 's']);
    }
}

impl FromJson for ChannelVideoType {
    /// A string that is the name of a value.
    open spec fn accepts(doc: Json) -> bool {
        doc matches Json::Text(name) && Self::spec_from_name(name) is Some
    }

    open spec fn decodes_to(doc: Json, value: Self) -> bool {
        doc matches Json::Text(name) && Self::spec_from_name(name) == Some(value)
    }

    open spec fn spec_expected() -> Seq<char> {
        "ChannelVideoType"@
    }

    fn expected() -> (name: &'static str) {
        "ChannelVideoType"
    }

    fn from_json(doc: &JsonValue) -> (r: Option<Self>) {
        match doc.as_str() {
            Some(name) => Self::from_name(name),
            None => None,
        }
    }
}

/// The status of the [`Video`].
#[non_exhaustive]
#[derive(Debug, Clone, Copy, PartialEq, Eq, Structural, PartialOrd, Ord, Hash)]
pub enum VideoStatus {
    /// The video hasn't been properly indexed yet.
    New,
    /// The video is scheduled to be available at a later time.
    Upcoming,
    /// The video is a stream that is currently live or a video that is premiering.
    Live,
    /// The video is a stream that has ended or a video that has premiered.
    Past,
    /// The video used to exist, but is no longer available.
    Missing,
}

impl VideoStatus {
    /// The name under which the value travels to and from the API.
    pub open spec fn spec_as_str(self) -> Seq<char> {
        match self {
            VideoStatus::New => "new"@,
            VideoStatus::Upcoming => "upcoming"@,
            VideoStatus::Live => "live"@,
            VideoStatus::Past => "past"@,
            VideoStatus::Missing => "missing"@,
        }
    }

    /// The name under which the value travels to and from the API.
    pub fn as_str(&self) -> (r: &'static str)
        ensures
            r@ == self.spec_as_str(),
    {
        match self {
            VideoStatus::New => "new",
            VideoStatus::Upcoming => "upcoming",
            VideoStatus::Live => "live",
            VideoStatus::Past => "past",
            VideoStatus::Missing => "missing",
        }
    }

    /// The name under which the value is shown.
    pub open spec fn spec_to_string(self) -> Seq<char> {
        self.spec_as_str()
    }

    /// The name under which the value is shown.
    pub fn to_string(&self) -> (r: String)
        ensures
            r@ == self.spec_to_string(),
    {
        self.as_str().to_owned()
    }

    /// The value that travels under the name `name`.
    pub open spec fn spec_from_name(name: Seq<char>) -> Option<VideoStatus> {
        if name == "new"@ {
            Some(VideoStatus::New)
        } else if name == "upcoming"@ {
            Some(VideoStatus::Upcoming)
        } else if name == "live"@ {
            Some(VideoStatus::Live)
        } else if name == "past"@ {
            Some(VideoStatus::Past)
        } else if name == "missing"@ {
            Some(VideoStatus::Missing)
        } else {
            None
        }
    }

    /// The value that travels under the name `name`.
    pub fn from_name(name: &str) -> (r: Option<VideoStatus>)
        ensures
            r == Self::spec_from_name(name@),
    {
        if name.eq("new") {
            Some(VideoStatus::New)
        } else if name.eq("upcoming") {
            Some(VideoStatus::Upcoming)
        } else if name.eq("live") {
            Some(VideoStatus::Live)
        } else if name.eq("past") {
            Some(VideoStatus::Past)
        } else if name.eq("missing") {
            Some(VideoStatus::Missing)
        } else {
            None
        }
    }

    /// Every value is read back from its own name.
    pub proof fn lemma_name_round_trip(self)
        ensures
            Self::spec_from_name(self.spec_as_str()) == Some(self),
    {
        reveal_strlit("new");
        assert("new"@ =~= seq!['n', 'e', 'w']);
        reveal_strlit("upcoming");
        assert("upcoming"@ =~= seq!['u', 'p', 'c', 'o', 'm', 'i', 'n', 'g']);
        reveal_strlit("live");
        assert("live"@ =~= seq!['l', 'i', 'v', 'e']);
        reveal_strlit("past");
        assert("past"@ =~= seq!['p', 'a', 's', 't']);
        reveal_strlit("missing");
        assert("missing"@ =~= seq!['m', 'i', 's', 's', 'i', 'n', 'g']);
    }
}

impl FromJson for VideoStatus {
    /// A string that is the name of a value.
    open spec fn accepts(doc: Json) -> bool {
        doc matches Json::Text(name) && Self::spec_from_name(name) is Some
    }

    open spec fn decodes_to(doc: Json, value: Self) -> bool {
        doc matches Json::Text(name) && Self::spec_from_name(name) == Some(value)
    }

    open spec fn spec_expected() -> Seq<char> {
        "VideoStatus"@
    }

    fn expected() -> (name: &'static str) {
        "VideoStatus"
    }

    fn from_json(doc: &JsonValue) -> (r: Option<Self>) {
        match doc.as_str() {
            Some(name) => Self::from_name(name),
            None => None,
        }
    }
}

/// Different types of channels.
#[non_exhaustive]
#[derive(Debug, Clone, Copy, PartialEq, Eq, Structural, PartialOrd, Ord, Hash)]
pub enum ChannelType {
    /// A VTuber that provides content, such as streams or videos.
    VTuber,
    /// A channel that takes content from a `VTuber` and edits it to make it more accessible.
    Subber,
}

impl ChannelType {
    /// The name under which the value travels to and from the API.
    pub open spec fn spec_as_str(self) -> Seq<char> {
        match self {
            ChannelType::VTuber => "vtuber"@,
            ChannelType::Subber => "subber"@,
        }
    }

    /// The name under which the value travels to and from the API.
    pub fn as_str(&self) -> (r: &'static str)
        ensures
            r@ == self.spec_as_str(),
    {
        match self {
            ChannelType::VTuber => "vtuber",
            ChannelType::Subber => "subber",
        }
    }

    /// The value that travels under the name `name`.
    pub open spec fn spec_from_name(name: Seq<char>) -> Option<ChannelType> {
        if name == "vtuber"@ {
            Some(ChannelType::VTuber)
        } else if name == "subber"@ {
            Some(ChannelType::Subber)
        } else {
            None
        }
    }

    /// The value that travels under the name `name`.
    pub fn from_name(name: &str) -> (r: Option<ChannelType>)
        ensures
            r == Self::spec_from_name(name@),
    {
        if name.eq("vtuber") {
            Some(ChannelType::VTuber)
        } else if name.eq("subber") {
            Some(ChannelType::Subber)
        } else {
            None
        }
    }

    /// Every value is read back from its own name.
    pub proof fn lemma_name_round_trip(self)
        ensures
            Self::spec_from_name(self.spec_as_str()) == Some(self),
    {
        reveal_strlit("vtuber");
        assert("vtuber"@ =~= seq!['v', 't', 'u', 'b', 'e', 'r']);
        reveal_strlit("subber");
        assert("subber"@ =~= seq!['s', 'u', 'b', 'b', 'e', 'r']);
    }
}

impl FromJson for ChannelType {
    /// A string that is the name of a value.
    open spec fn accepts(doc: Json) -> bool {
        doc matches Json::Text(name) && Self::spec_from_name(name) is Some
    }

    open spec fn decodes_to(doc: Json, value: Self) -> bool {
        doc matches Json::Text(name) && Self::spec_from_name(name) == Some(value)
    }

    open spec fn spec_expected() -> Seq<char> {
        "ChannelType"@
    }

    fn expected() -> (name: &'static str) {
        "ChannelType"
    }

    fn from_json(doc: &JsonValue) -> (r: Option<Self>) {
        match doc.as_str() {
            Some(name) => Self::from_name(name),
            None => None,
        }
    }
}

} // verus!
