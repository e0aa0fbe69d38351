//! Builders for ergonomically creating various large structs.

use crate::errors::Error;
use crate::model::filter::copy_items;
use crate::model::filter::ChannelFilter;
use crate::model::filter::CommentSearch;
use crate::model::filter::VideoFilter;
use crate::model::filter::VideoSearch;
use crate::model::filter::VideoSearchCondition;
use crate::model::id::ChannelId;
use crate::model::id::VideoId;
use crate::model::kinds::ChannelSortingCriteria;
use crate::model::kinds::ChannelType;
use crate::model::kinds::ExtraVideoInfo;
use crate::model::kinds::Order;
use crate::model::kinds::SearchOrder;
use crate::model::kinds::VideoSortingCriteria;
use crate::model::kinds::VideoStatus;
use crate::model::kinds::VideoType;
use crate::model::serializers::Language;
use crate::model::serializers::Organisation;
use crate::text::decimal_text;
use crate::text::u64_text;
use crate::time::Timestamp;
use vstd::prelude::*;
use vstd::std_specs::convert::FromSpecImpl;
use vstd::string::StringExecFns;

verus! {

/// Builder for creating a [`VideoFilter`].
#[derive(Debug, Clone, PartialEq, Eq, PartialOrd, Ord, Hash)]
pub struct VideoFilterBuilder {
    filter: VideoFilter,
}

impl VideoFilterBuilder {
    /// The filter as it has been built so far.
    pub closed spec fn spec_filter(self) -> VideoFilter {
        self.filter
    }

    /// Create a new `VideoFilterBuilder` with default values.
    #[must_use]
    pub fn new() -> (r: Self)
        ensures
            r.spec_filter().is_default(),
    {
        VideoFilterBuilder { filter: VideoFilter::default() }
    }

    /// Request extra information to be returned with each video.
    #[must_use]
    pub fn includes(self, includes: &[ExtraVideoInfo]) -> (r: Self)
        ensures
            r.spec_filter().includes@ == includes@,
            self.spec_filter().same_as(VideoFilter { includes: self.spec_filter().includes, ..r.spec_filter() }),
    {
        let mut built = self;
        let copied = copy_items(includes);
        assert(copied@ =~= includes@);
        built.filter.includes = copied;
        built
    }

    /// Enable pagination.
    #[must_use]
    pub fn paginated(self, paginated: bool) -> (r: Self)
        ensures
            r.spec_filter().paginated == paginated,
            self.spec_filter().same_as(VideoFilter { paginated: self.spec_filter().paginated, ..r.spec_filter() }),
    {
        let mut built = self;
        built.filter.paginated = paginated;
        built
    }

    /// Limit how many videos are returned. This will turn on pagination.
    #[must_use]
    pub fn limit(self, limit: u32) -> (r: Self)
        ensures
            r.spec_filter().limit == limit,
            r.spec_filter().paginated,
            self.spec_filter().same_as(VideoFilter { limit: self.spec_filter().limit, paginated: self.spec_filter().paginated, ..r.spec_filter() }),
    {
        let mut built = self;
        built.filter.limit = limit;
        built.filter.paginated = true;
        built
    }

    /// Offset the results by the given amount. This will turn on pagination.
    #[must_use]
    pub fn offset(self, offset: i32) -> (r: Self)
        ensures
            r.spec_filter().offset == offset,
            r.spec_filter().paginated,
            self.spec_filter().same_as(VideoFilter { offset: self.spec_filter().offset, paginated: self.spec_filter().paginated, ..r.spec_filter() }),
    {
        let mut built = self;
        built.filter.offset = offset;
        built.filter.paginated = true;
        built
    }

    /// Sort videos by the given criteria.
    #[must_use]
    pub fn sort_by(self, sort_by: VideoSortingCriteria) -> (r: Self)
        ensures
            r.spec_filter().sort_by == sort_by,
            self.spec_filter().same_as(VideoFilter { sort_by: self.spec_filter().sort_by, ..r.spec_filter() }),
    {
        let mut built = self;
        built.filter.sort_by = sort_by;
        built
    }

    /// Sort videos in the given order.
    #[must_use]
    pub fn order(self, order: Order) -> (r: Self)
        ensures
            r.spec_filter().order == order,
            self.spec_filter().same_as(VideoFilter { order: self.spec_filter().order, ..r.spec_filter() }),
    {
        let mut built = self;
        built.filter.order = order;
        built
    }

    /// Only return videos from the given channel.
    #[must_use]
    pub fn channel_id(self, channel_id: ChannelId) -> (r: Self)
        ensures
            r.spec_filter().channel_id == Some(channel_id),
            self.spec_filter().same_as(VideoFilter { channel_id: self.spec_filter().channel_id, ..r.spec_filter() }),
    {
        let mut built = self;
        built.filter.channel_id = Some(channel_id);
        built
    }

    /// Only return videos with any of the given IDs.
    #[must_use]
    pub fn id(self, ids: &[VideoId]) -> (r: Self)
        ensures
            r.spec_filter().id@ == ids@,
            self.spec_filter().same_as(VideoFilter { id: self.spec_filter().id, ..r.spec_filter() }),
    {
        let mut built = self;
        let copied = copy_items(ids);
        assert(copied@ =~= ids@);
        built.filter.id = copied;
        built
    }

    /// Only return videos from a channel part of the given organisation.
    #[must_use]
    pub fn organisation(self, organisation: Organisation) -> (r: Self)
        ensures
            r.spec_filter().org == Some(organisation),
            self.spec_filter().same_as(VideoFilter { org: self.spec_filter().org, ..r.spec_filter() }),
    {
        let mut built = self;
        built.filter.org = Some(organisation);
        built
    }

    /// Only return videos in any of the given languages.
    #[must_use]
    pub fn language(self, lang: &[Language]) -> (r: Self)
        ensures
            r.spec_filter().lang@ == lang@,
            self.spec_filter().same_as(VideoFilter { lang: self.spec_filter().lang, ..r.spec_filter() }),
    {
        let mut built = self;
        let copied = copy_items(lang);
        assert(copied@ =~= lang@);
        built.filter.lang = copied;
        built
    }

    /// Only return videos scheduled to go live within the given amount of hours.
    #[must_use]
    pub fn max_upcoming_hours(self, hours: u32) -> (r: Self)
        ensures
            r.spec_filter().max_upcoming_hours == hours,
            self.spec_filter().same_as(VideoFilter { max_upcoming_hours: self.spec_filter().max_upcoming_hours, ..r.spec_filter() }),
    {
        let mut built = self;
        built.filter.max_upcoming_hours = hours;
        built
    }

    /// Only return videos mentioning the given channel.
    #[must_use]
    pub fn mentioned_channel_id(self, channel_id: ChannelId) -> (r: Self)
        ensures
            r.spec_filter().mentioned_channel_id == Some(channel_id),
            self.spec_filter().same_as(VideoFilter { mentioned_channel_id: self.spec_filter().mentioned_channel_id, ..r.spec_filter() }),
    {
        let mut built = self;
        built.filter.mentioned_channel_id = Some(channel_id);
        built
    }

    /// Only return videos related to the given topic.
    #[must_use]
    pub fn topic(self, topic: &str) -> (r: Self)
        ensures
            r.spec_filter().topic matches Some(kept) && kept@ == topic@,
            self.spec_filter().same_as(VideoFilter { topic: self.spec_filter().topic, ..r.spec_filter() }),
    {
        let mut built = self;
        built.filter.topic = Some(topic.to_owned());
        built
    }

    /// Only return videos of the given type.
    #[must_use]
    pub fn video_type(self, video_type: VideoType) -> (r: Self)
        ensures
            r.spec_filter().video_type == video_type,
            self.spec_filter().same_as(VideoFilter { video_type: self.spec_filter().video_type, ..r.spec_filter() }),
    {
        let mut built = self;
        built.filter.video_type = video_type;
        built
    }

    /// Only return videos with any of the given statuses.
    #[must_use]
    pub fn status(self, status: &[VideoStatus]) -> (r: Self)
        ensures
            r.spec_filter().status@ == status@,
            self.spec_filter().same_as(VideoFilter { status: self.spec_filter().status, ..r.spec_filter() }),
    {
        let mut built = self;
        let copied = copy_items(status);
        assert(copied@ =~= status@);
        built.filter.status = copied;
        built
    }

    /// Only return videos made available after the given time.
    #[must_use]
    pub fn after(self, after: Timestamp) -> (r: Self)
        ensures
            r.spec_filter().from == Some(after),
            self.spec_filter().same_as(VideoFilter { from: self.spec_filter().from, ..r.spec_filter() }),
    {
        let mut built = self;
        built.filter.from = Some(after);
        built
    }

    /// Consume the builder, returning the constructed filter.
    #[must_use]
    pub fn build(self) -> (r: VideoFilter)
        ensures
            r == self.spec_filter(),
    {
        self.filter
    }

    /// How the builder is shown: its name and, in brackets, its filter.
    pub open spec fn spec_to_string(self) -> Seq<char> {
        "VideoFilterBuilder("@ + self.spec_filter().spec_to_string() + ")"@
    }

    /// How the builder is shown.
    pub fn to_string(&self) -> (r: String)
        ensures
            r@ == self.spec_to_string(),
    {
        let mut out = String::new();
        out.append("VideoFilterBuilder(");
        assert(out@ =~= "VideoFilterBuilder("@);
        out.append(self.filter.to_string().as_str());
        out.append(")");
        out
    }
}

impl Default for VideoFilterBuilder {
    fn default() -> (r: Self)
        ensures
            r.spec_filter().is_default(),
    {
        VideoFilterBuilder { filter: VideoFilter::default() }
    }
}

impl From<VideoFilterBuilder> for VideoFilter {
    fn from(builder: VideoFilterBuilder) -> (r: VideoFilter) {
        builder.filter
    }
}

impl FromSpecImpl<VideoFilterBuilder> for VideoFilter {
    open spec fn obeys_from_spec() -> bool {
        true
    }

    open spec fn from_spec(builder: VideoFilterBuilder) -> VideoFilter {
        builder.spec_filter()
    }
}

/// Builder for creating a [`ChannelFilter`].
#[derive(Debug, Clone, PartialEq, Eq, PartialOrd, Ord, Hash)]
pub struct ChannelFilterBuilder {
    filter: ChannelFilter,
}

impl ChannelFilterBuilder {
    /// The filter as it has been built so far.
    pub closed spec fn spec_filter(self) -> ChannelFilter {
        self.filter
    }

    /// Create a new `ChannelFilterBuilder` with default values.
    #[must_use]
    pub fn new() -> (r: Self)
        ensures
            r.spec_filter().is_default(),
    {
        ChannelFilterBuilder { filter: ChannelFilter::default() }
    }

    /// Sort channels by the given criteria.
    #[must_use]
    pub fn sort_by(self, sort_by: ChannelSortingCriteria) -> (r: Self)
        ensures
            r.spec_filter().sort_by == sort_by,
            self.spec_filter().same_as(ChannelFilter { sort_by: self.spec_filter().sort_by, ..r.spec_filter() }),
    {
        let mut built = self;
        built.filter.sort_by = sort_by;
        built
    }

    /// Sort channels in the given order.
    #[must_use]
    pub fn order(self, order: Order) -> (r: Self)
        ensures
            r.spec_filter().order == order,
            self.spec_filter().same_as(ChannelFilter { order: self.spec_filter().order, ..r.spec_filter() }),
    {
        let mut built = self;
        built.filter.order = order;
        built
    }

    /// Only return channels that uses any of the given languages as their main language.
    #[must_use]
    pub fn language(self, lang: &[Language]) -> (r: Self)
        ensures
            r.spec_filter().languages@ == lang@,
            self.spec_filter().same_as(ChannelFilter { languages: self.spec_filter().languages, ..r.spec_filter() }),
    {
        let mut built = self;
        let copied = copy_items(lang);
        assert(copied@ =~= lang@);
        built.filter.languages = copied;
        built
    }

    /// Only return channels of the given type.
    #[must_use]
    pub fn channel_type(self, channel_type: ChannelType) -> (r: Self)
        ensures
            r.spec_filter().channel_type == Some(channel_type),
            self.spec_filter().same_as(ChannelFilter { channel_type: self.spec_filter().channel_type, ..r.spec_filter() }),
    {
        let mut built = self;
        built.filter.channel_type = Some(channel_type);
        built
    }

    /// Only return channels part of the given organisation.
    #[must_use]
    pub fn organisation(self, organisation: Organisation) -> (r: Self)
        ensures
            r.spec_filter().organisation == Some(organisation),
            self.spec_filter().same_as(ChannelFilter { organisation: self.spec_filter().organisation, ..r.spec_filter() }),
    {
        let mut built = self;
        built.filter.organisation = Some(organisation);
        built
    }

    /// Limit the number of returned channels to the given value.
    ///
    /// Value must be between `0` and `50`, inclusive.
    #[must_use]
    pub fn limit(self, limit: u32) -> (r: Self)
        ensures
            r.spec_filter().limit == limit,
            self.spec_filter().same_as(ChannelFilter { limit: self.spec_filter().limit, ..r.spec_filter() }),
    {
        let mut built = self;
        built.filter.limit = limit;
        built
    }

    /// Offset the returned values by the given amount of places.
    #[must_use]
    pub fn offset(self, offset: i32) -> (r: Self)
        ensures
            r.spec_filter().offset == offset,
            self.spec_filter().same_as(ChannelFilter { offset: self.spec_filter().offset, ..r.spec_filter() }),
    {
        let mut built = self;
        built.filter.offset = offset;
        built
    }

    /// What is said of a limit that is out of range.
    pub open spec fn limit_message(limit: u32) -> Seq<char> {
        "Could not instantiate ChannelFilter with a limit of "@ + decimal_text(limit as nat)
            + ". Valid range is 0 to 50, inclusive."@
    }

    /// Consume the builder, returning the constructed filter.
    ///
    /// # Errors
    /// Will return [`Error::FilterCreationError`] if the filter was constructed with invalid arguments.
    pub fn build(self) -> (r: Result<ChannelFilter, Error>)
        ensures
            match r {
                Ok(filter) => self.spec_filter().limit <= 50 && filter == self.spec_filter(),
                Err(Error::FilterCreationError(reason)) => self.spec_filter().limit > 50 && reason@
                    == Self::limit_message(self.spec_filter().limit),
                Err(_) => false,
            },
    {
        if self.filter.limit > 50 {
            let mut reason = String::new();
            reason.append("Could not instantiate ChannelFilter with a limit of ");
            assert(reason@ =~= "Could not instantiate ChannelFilter with a limit of "@);
            reason.append(u64_text(self.filter.limit as u64).as_str());
            reason.append(". Valid range is 0 to 50, inclusive.");
            return Err(Error::FilterCreationError(reason));
        }
        Ok(self.filter)
    }
}

impl Default for ChannelFilterBuilder {
    fn default() -> (r: Self)
        ensures
            r.spec_filter().is_default(),
    {
        ChannelFilterBuilder { filter: ChannelFilter::default() }
    }
}

/// Builder for creating a [`VideoSearch`].
#[derive(Debug, Clone, PartialEq, Eq, PartialOrd, Ord, Hash)]
pub struct VideoSearchBuilder {
    search: VideoSearch,
}

impl VideoSearchBuilder {
    /// The search as it has been built so far.
    pub closed spec fn spec_search(self) -> VideoSearch {
        self.search
    }

    /// Create a new `VideoSearchBuilder` with default values.
    #[must_use]
    pub fn new() -> (r: Self)
        ensures
            r.spec_search().is_default(),
    {
        VideoSearchBuilder { search: VideoSearch::default() }
    }

    /// Only return videos that meet the given conditions.
    #[must_use]
    pub fn conditions(self, conditions: &[VideoSearchCondition]) -> (r: Self)
        ensures
            r.spec_search().conditions@ == conditions@,
            self.spec_search().same_as(VideoSearch { conditions: self.spec_search().conditions, ..r.spec_search() }),
    {
        let mut built = self;
        let copied = copy_items(conditions);
        assert(copied@ =~= conditions@);
        built.search.conditions = copied;
        built
    }

    /// Enable pagination.
    #[must_use]
    pub fn paginated(self, paginated: bool) -> (r: Self)
        ensures
            r.spec_search().paginated == paginated,
            self.spec_search().same_as(VideoSearch { paginated: self.spec_search().paginated, ..r.spec_search() }),
    {
        let mut built = self;
        built.search.paginated = paginated;
        built
    }

    /// Limit how many videos are returned. This will turn on pagination.
    #[must_use]
    pub fn limit(self, limit: u32) -> (r: Self)
        ensures
            r.spec_search().limit == limit,
            r.spec_search().paginated,
            self.spec_search().same_as(VideoSearch { limit: self.spec_search().limit, paginated: self.spec_search().paginated, ..r.spec_search() }),
    {
        let mut built = self;
        built.search.limit = limit;
        built.search.paginated = true;
        built
    }

    /// Offset the results by the given amount. This will turn on pagination.
    #[must_use]
    pub fn offset(self, offset: i32) -> (r: Self)
        ensures
            r.spec_search().offset == offset,
            r.spec_search().paginated,
            self.spec_search().same_as(VideoSearch { offset: self.spec_search().offset, paginated: self.spec_search().paginated, ..r.spec_search() }),
    {
        let mut built = self;
        built.search.offset = offset;
        built.search.paginated = true;
        built
    }

    /// In what order the videos should be returned.
    #[must_use]
    pub fn order(self, order: SearchOrder) -> (r: Self)
        ensures
            r.spec_search().sort_order == order,
            self.spec_search().same_as(VideoSearch { sort_order: self.spec_search().sort_order, ..r.spec_search() }),
    {
        let mut built = self;
        built.search.sort_order = order;
        built
    }

    /// Only return videos that involve all of the given channels.
    ///
    /// If two or more channel IDs are specified, only collabs with all of them will be returned,
    /// or if one channel is a clipper, it will only show clips of the other channels made by this clipper.
    #[must_use]
    pub fn channels(self, channels: &[ChannelId]) -> (r: Self)
        ensures
            r.spec_search().channels@ == channels@,
            self.spec_search().same_as(VideoSearch { channels: self.spec_search().channels, ..r.spec_search() }),
    {
        let mut built = self;
        let copied = copy_items(channels);
        assert(copied@ =~= channels@);
        built.search.channels = copied;
        built
    }

    /// Only return videos from channels in the given organisation, or are clips from a channel in the organisation.
    #[must_use]
    pub fn organisations(self, organisations: &[Organisation]) -> (r: Self)
        ensures
            r.spec_search().organisations@ == organisations@,
            self.spec_search().same_as(VideoSearch { organisations: self.spec_search().organisations, ..r.spec_search() }),
    {
        let mut built = self;
        let copied = copy_items(organisations);
        assert(copied@ =~= organisations@);
        built.search.organisations = copied;
        built
    }

    /// Only return videos in any of the given languages.
    #[must_use]
    pub fn languages(self, languages: &[Language]) -> (r: Self)
        ensures
            r.spec_search().languages@ == languages@,
            self.spec_search().same_as(VideoSearch { languages: self.spec_search().languages, ..r.spec_search() }),
    {
        let mut built = self;
        let copied = copy_items(languages);
        assert(copied@ =~= languages@);
        built.search.languages = copied;
        built
    }

    /// Only return videos that are related to any of the given topics.
    #[must_use]
    pub fn topics(self, topics: &[String]) -> (r: Self)
        ensures
            r.spec_search().topics@ == topics@,
            self.spec_search().same_as(VideoSearch { topics: self.spec_search().topics, ..r.spec_search() }),
    {
        let mut built = self;
        let copied = copy_items(topics);
        assert(copied@ =~= topics@);
        built.search.topics = copied;
        built
    }

    /// Only return videos that are any of the given types.
    #[must_use]
    pub fn types(self, types: &[VideoType]) -> (r: Self)
        ensures
            r.spec_search().types@ == types@,
            self.spec_search().same_as(VideoSearch { types: self.spec_search().types, ..r.spec_search() }),
    {
        let mut built = self;
        let copied = copy_items(types);
        assert(copied@ =~= types@);
        built.search.types = copied;
        built
    }

    /// Consume the builder, returning the constructed search.
    #[must_use]
    pub fn build(self) -> (r: VideoSearch)
        ensures
            r == self.spec_search(),
    {
        self.search
    }
}

impl Default for VideoSearchBuilder {
    fn default() -> (r: Self)
        ensures
            r.spec_search().is_default(),
    {
        VideoSearchBuilder { search: VideoSearch::default() }
    }
}

impl From<VideoSearchBuilder> for VideoSearch {
    fn from(builder: VideoSearchBuilder) -> (r: VideoSearch) {
        builder.search
    }
}

impl FromSpecImpl<VideoSearchBuilder> for VideoSearch {
    open spec fn obeys_from_spec() -> bool {
        true
    }

    open spec fn from_spec(builder: VideoSearchBuilder) -> VideoSearch {
        builder.spec_search()
    }
}

/// Builder for creating a [`CommentSearch`].
#[derive(Debug, Clone, PartialEq, Eq, PartialOrd, Ord, Hash)]
pub struct CommentSearchBuilder {
    search: CommentSearch,
}

impl CommentSearchBuilder {
    /// The search as it has been built so far.
    pub closed spec fn spec_search(self) -> CommentSearch {
        self.search
    }

    /// Create a new `CommentSearchBuilder` with default values and the given substring to search for.
    #[must_use]
    pub fn new(search: &str) -> (r: Self)
        ensures
            r.spec_search().search@ == search@,
            r.spec_search().sort_order == SearchOrder::Newest,
            r.spec_search().languages@.len() == 0,
            r.spec_search().types@.len() == 0,
            r.spec_search().topics@.len() == 0,
            r.spec_search().channels@.len() == 0,
            r.spec_search().organisations@.len() == 0,
            r.spec_search().paginated,
            r.spec_search().limit == 30,
            r.spec_search().offset == 0,
    {
        let mut built = CommentSearch::default();
        built.search = search.to_owned();
        CommentSearchBuilder { search: built }
    }

    /// Enable pagination.
    #[must_use]
    pub fn paginated(self, paginated: bool) -> (r: Self)
        ensures
            r.spec_search().paginated == paginated,
            self.spec_search().same_as(CommentSearch { paginated: self.spec_search().paginated, ..r.spec_search() }),
    {
        let mut built = self;
        built.search.paginated = paginated;
        built
    }

    /// Limit how many comments on videos are returned. This will turn on pagination.
    #[must_use]
    pub fn limit(self, limit: u32) -> (r: Self)
        ensures
            r.spec_search().limit == limit,
            r.spec_search().paginated,
            self.spec_search().same_as(CommentSearch { limit: self.spec_search().limit, paginated: self.spec_search().paginated, ..r.spec_search() }),
    {
        let mut built = self;
        built.search.limit = limit;
        built.search.paginated = true;
        built
    }

    /// Offset the results by the given amount. This will turn on pagination.
    #[must_use]
    pub fn offset(self, offset: i32) -> (r: Self)
        ensures
            r.spec_search().offset == offset,
            r.spec_search().paginated,
            self.spec_search().same_as(CommentSearch { offset: self.spec_search().offset, paginated: self.spec_search().paginated, ..r.spec_search() }),
    {
        let mut built = self;
        built.search.offset = offset;
        built.search.paginated = true;
        built
    }

    /// In what order the comments should be returned.
    #[must_use]
    pub fn order(self, order: SearchOrder) -> (r: Self)
        ensures
            r.spec_search().sort_order == order,
            self.spec_search().same_as(CommentSearch { sort_order: self.spec_search().sort_order, ..r.spec_search() }),
    {
        let mut built = self;
        built.search.sort_order = order;
        built
    }

    /// Only return comments on videos that involve all of the given channels.
    ///
    /// If two or more channel IDs are specified,
    /// only comments on collabs with all of them will be returned,
    /// or if one channel is a clipper,
    /// it will only return comments on clips of the other channels made by this clipper.
    #[must_use]
    pub fn channels(self, channels: &[ChannelId]) -> (r: Self)
        ensures
            r.spec_search().channels@ == channels@,
            self.spec_search().same_as(CommentSearch { channels: self.spec_search().channels, ..r.spec_search() }),
    {
        let mut built = self;
        let copied = copy_items(channels);
        assert(copied@ =~= channels@);
        built.search.channels = copied;
        built
    }

    /// Only return comments on videos from channels in the given organisation,
    /// or that are clips from a channel in the organisation.
    #[must_use]
    pub fn organisations(self, organisations: &[Organisation]) -> (r: Self)
        ensures
            r.spec_search().organisations@ == organisations@,
            self.spec_search().same_as(CommentSearch { organisations: self.spec_search().organisations, ..r.spec_search() }),
    {
        let mut built = self;
        let copied = copy_items(organisations);
        assert(copied@ =~= organisations@);
        built.search.organisations = copied;
        built
    }

    /// Filter away any comments on clips that are not in any of the given languages.
    ///
    /// Comment on streams will always be included no matter their language.
    #[must_use]
    pub fn languages(self, languages: &[Language]) -> (r: Self)
        ensures
            r.spec_search().languages@ == languages@,
            self.spec_search().same_as(CommentSearch { languages: self.spec_search().languages, ..r.spec_search() }),
    {
        let mut built = self;
        let copied = copy_items(languages);
        assert(copied@ =~= languages@);
        built.search.languages = copied;
        built
    }

    /// Only return comments on videos that are related to any of the given topics.
    #[must_use]
    pub fn topics(self, topics: &[String]) -> (r: Self)
        ensures
            r.spec_search().topics@ == topics@,
            self.spec_search().same_as(CommentSearch { topics: self.spec_search().topics, ..r.spec_search() }),
    {
        let mut built = self;
        let copied = copy_items(topics);
        assert(copied@ =~= topics@);
        built.search.topics = copied;
        built
    }

    /// Only return comments on videos that are any of the given types.
    #[must_use]
    pub fn types(self, types: &[VideoType]) -> (r: Self)
        ensures
            r.spec_search().types@ == types@,
            self.spec_search().same_as(CommentSearch { types: self.spec_search().types, ..r.spec_search() }),
    {
        let mut built = self;
        let copied = copy_items(types);
        assert(copied@ =~= types@);
        built.search.types = copied;
        built
    }

    /// Consume the builder, returning the constructed search.
    #[must_use]
    pub fn build(self) -> (r: CommentSearch)
        ensures
            r == self.spec_search(),
    {
        self.search
    }
}

impl Default for CommentSearchBuilder {
    fn default() -> (r: Self)
        ensures
            r.spec_search().is_default(),
    {
        CommentSearchBuilder { search: CommentSearch::default() }
    }
}

impl From<CommentSearchBuilder> for CommentSearch {
    fn from(builder: CommentSearchBuilder) -> (r: CommentSearch) {
        builder.search
    }
}

impl FromSpecImpl<CommentSearchBuilder> for CommentSearch {
    open spec fn obeys_from_spec() -> bool {
        true
    }

    open spec fn from_spec(builder: CommentSearchBuilder) -> CommentSearch {
        builder.spec_search()
    }
}

} // verus!
