//! Videos and what comes with them.

use crate::json::has;
use crate::json::holds;
use crate::json::listed;
use crate::json::lists;
use crate::json::may_have;
use crate::json::may_hold;
use crate::json::may_list;
use crate::json::optional;
use crate::json::required;
use crate::json::FromJson;
use crate::json::Json;
use crate::json::JsonValue;
use crate::model::channel::ChannelMin;
use crate::model::id::ChannelId;
use crate::model::id::VideoId;
use crate::model::kinds::VideoStatus;
use crate::model::kinds::VideoType;
use crate::text::hash_optional_text;
use crate::text::hash_optional_u32;
use crate::text::hash_optional_u64;
use crate::text::optional_number_key;
use crate::text::optional_text;
use crate::text::optional_text_key;
use crate::text::optional_u32;
use crate::text::optional_u64;
use crate::text::same_optional_text;
use crate::text::text_key;
use crate::text::text_key_of;
use crate::time::hash_optional_time;
use crate::time::optional_time_key;
use crate::time::same_optional_time;
use crate::time::Duration;
use crate::time::Timestamp;
use std::hash::Hash;
use vstd::prelude::*;
use vstd::std_specs::cmp::PartialEqSpec;
use vstd::std_specs::cmp::PartialEqSpecImpl;
use vstd::string::StringExecFns;

verus! {

/// The livestream metadata of a video.
#[derive(Debug, Clone, Copy, PartialEq, Eq, Structural, PartialOrd, Ord, Hash)]
pub struct VideoLiveInfo {
    /// When the stream is scheduled to start.
    pub start_scheduled: Option<Timestamp>,
    /// When the stream actually started.
    pub start_actual: Option<Timestamp>,
    /// When the stream ended.
    pub end_actual: Option<Timestamp>,
    /// The amount of viewers the stream has, if applicable.
    pub live_viewers: Option<u32>,
}

impl FromJson for VideoLiveInfo {
    /// Members that hold a time or a count each, where they are there.
    open spec fn accepts(doc: Json) -> bool {
        &&& may_have::<Timestamp>(doc, "start_scheduled"@)
        &&& may_have::<Timestamp>(doc, "start_actual"@)
        &&& may_have::<Timestamp>(doc, "end_actual"@)
        &&& may_have::<u32>(doc, "live_viewers"@)
    }

    open spec fn decodes_to(doc: Json, value: Self) -> bool {
        &&& may_hold::<Timestamp>(doc, "start_scheduled"@, value.start_scheduled)
        &&& may_hold::<Timestamp>(doc, "start_actual"@, value.start_actual)
        &&& may_hold::<Timestamp>(doc, "end_actual"@, value.end_actual)
        &&& may_hold::<u32>(doc, "live_viewers"@, value.live_viewers)
    }

    open spec fn spec_expected() -> Seq<char> {
        "VideoLiveInfo"@
    }

    fn expected() -> (name: &'static str) {
        "VideoLiveInfo"
    }

    fn from_json(doc: &JsonValue) -> (r: Option<Self>) {
        let start_scheduled: Option<Timestamp> = match optional::<Timestamp>(doc, "start_scheduled") {
            Some(held) => held,
            None => {
                return None;
            },
        };
        let start_actual: Option<Timestamp> = match optional::<Timestamp>(doc, "start_actual") {
            Some(held) => held,
            None => {
                return None;
            },
        };
        let end_actual: Option<Timestamp> = match optional::<Timestamp>(doc, "end_actual") {
            Some(held) => held,
            None => {
                return None;
            },
        };
        let live_viewers: Option<u32> = match optional::<u32>(doc, "live_viewers") {
            Some(held) => held,
            None => {
                return None;
            },
        };
        Some(VideoLiveInfo { start_scheduled, start_actual, end_actual, live_viewers })
    }
}

/// A comment that was left on a video.
#[derive(Debug, Clone, PartialEq, Eq, PartialOrd, Ord, Hash)]
pub struct Comment {
    /// The ID of the comment.
    pub comment_key: String,
    /// The ID of the video the comment was left on.
    pub video_id: Option<VideoId>,
    /// The message contents of the comment.
    pub message: String,
}

impl FromJson for Comment {
    /// An object with a key and a message, and maybe the ID of a video.
    open spec fn accepts(doc: Json) -> bool {
        &&& doc is Object
        &&& has::<String>(doc, "comment_key"@)
        &&& may_have::<VideoId>(doc, "video_id"@)
        &&& has::<String>(doc, "message"@)
    }

    open spec fn decodes_to(doc: Json, value: Self) -> bool {
        &&& holds::<String>(doc, "comment_key"@, value.comment_key)
        &&& may_hold::<VideoId>(doc, "video_id"@, value.video_id)
        &&& holds::<String>(doc, "message"@, value.message)
    }

    open spec fn spec_expected() -> Seq<char> {
        "Comment"@
    }

    fn expected() -> (name: &'static str) {
        "Comment"
    }

    fn from_json(doc: &JsonValue) -> (r: Option<Self>) {
        if !doc.is_object() {
            return None;
        }
        let comment_key: String = match required::<String>(doc, "comment_key") {
            Some(held) => held,
            None => {
                return None;
            },
        };
        let video_id: Option<VideoId> = match optional::<VideoId>(doc, "video_id") {
            Some(held) => held,
            None => {
                return None;
            },
        };
        let message: String = match required::<String>(doc, "message") {
            Some(held) => held,
            None => {
                return None;
            },
        };
        Some(Comment { comment_key, video_id, message })
    }
}

/// A song that was played in a video.
///
/// Two songs are equal where they agree in name, artist, artwork and ID,
/// whenever they were played.
#[derive(Debug, Clone, Eq, PartialOrd, Ord)]
pub struct Song {
    /// The name of the song.
    pub name: String,
    /// The artist of the song.
    pub artist: String,
    /// URL to song artwork, if available.
    pub artwork: Option<String>,
    /// The ID of the song on iTunes, if available.
    pub itunes_id: Option<u64>,
    /// When in the video the song started being played.
    pub start: Duration,
    /// When in the video the song finished being played.
    pub end: Duration,
}

impl FromJson for Song {
    /// An object with a name, an artist, a start and an end, and maybe artwork
    /// and an ID.
    open spec fn accepts(doc: Json) -> bool {
        &&& doc is Object
        &&& has::<String>(doc, "name"@)
        &&& has::<String>(doc, "original_artist"@)
        &&& may_have::<String>(doc, "art"@)
        &&& may_have::<u64>(doc, "itunesid"@)
        &&& has::<Duration>(doc, "start"@)
        &&& has::<Duration>(doc, "end"@)
    }

    open spec fn decodes_to(doc: Json, value: Self) -> bool {
        &&& holds::<String>(doc, "name"@, value.name)
        &&& holds::<String>(doc, "original_artist"@, value.artist)
        &&& may_hold::<String>(doc, "art"@, value.artwork)
        &&& may_hold::<u64>(doc, "itunesid"@, value.itunes_id)
        &&& holds::<Duration>(doc, "start"@, value.start)
        &&& holds::<Duration>(doc, "end"@, value.end)
    }

    open spec fn spec_expected() -> Seq<char> {
        "Song"@
    }

    fn expected() -> (name: &'static str) {
        "Song"
    }

    fn from_json(doc: &JsonValue) -> (r: Option<Self>) {
        if !doc.is_object() {
            return None;
        }
        let name: String = match required::<String>(doc, "name") {
            Some(held) => held,
            None => {
                return None;
            },
        };
        let artist: String = match required::<String>(doc, "original_artist") {
            Some(held) => held,
            None => {
                return None;
            },
        };
        let artwork: Option<String> = match optional::<String>(doc, "art") {
            Some(held) => held,
            None => {
                return None;
            },
        };
        let itunes_id: Option<u64> = match optional::<u64>(doc, "itunesid") {
            Some(held) => held,
            None => {
                return None;
            },
        };
        let start: Duration = match required::<Duration>(doc, "start") {
            Some(held) => held,
            None => {
                return None;
            },
        };
        let end: Duration = match required::<Duration>(doc, "end") {
            Some(held) => held,
            None => {
                return None;
            },
        };
        Some(Song { name, artist, artwork, itunes_id, start, end })
    }
}

impl Comment {
    /// How the comment is shown: by its message.
    pub fn to_string(&self) -> (r: String)
        ensures
            r@ == self.message@,
    {
        self.message.clone()
    }
}

impl PartialEq for Song {
    fn eq(&self, other: &Self) -> (r: bool) {
        self.name.as_str().eq(other.name.as_str()) && self.artist.as_str().eq(
            other.artist.as_str(),
        ) && same_optional_text(&self.artwork, &other.artwork) && match (
            self.itunes_id,
            other.itunes_id,
        ) {
            (Some(a), Some(b)) => a == b,
            (None, None) => true,
            _ => false,
        }
    }
}

impl PartialEqSpecImpl for Song {
    open spec fn obeys_eq_spec() -> bool {
        true
    }

    open spec fn eq_spec(&self, other: &Self) -> bool {
        &&& self.name@ == other.name@
        &&& self.artist@ == other.artist@
        &&& optional_text(self.artwork) == optional_text(other.artwork)
        &&& self.itunes_id == other.itunes_id
    }
}

impl Hash for Song {
    fn hash<H: std::hash::Hasher>(&self, state: &mut H) {
        self.key().as_str().hash(state);
    }
}

impl Song {
    /// The key by which a song is hashed: its name, artist, artwork and ID.
    pub open spec fn spec_key(self) -> Seq<char> {
        text_key(self.name@) + text_key(self.artist@) + optional_text_key(
            optional_text(self.artwork),
        ) + optional_number_key(optional_u64(self.itunes_id))
    }

    /// The key by which the song is hashed.
    pub fn key(&self) -> (r: String)
        ensures
            r@ == self.spec_key(),
    {
        let mut out = text_key_of(self.name.as_str());
        out.append(text_key_of(self.artist.as_str()).as_str());
        hash_optional_text(&self.artwork, &mut out);
        hash_optional_u64(&self.itunes_id, &mut out);
        out
    }

    /// Songs that are equal have one key, and so one hash.
    pub proof fn lemma_equal_have_one_key(self, other: Song)
        requires
            PartialEqSpec::eq_spec(&self, &other),
        ensures
            self.spec_key() == other.spec_key(),
    {
    }
}

impl Song {
    /// How the song is shown: its name, ` by ` and its artist.
    pub open spec fn spec_to_string(self) -> Seq<char> {
        self.name@ + " by "@ + self.artist@
    }

    /// How the song is shown.
    pub fn to_string(&self) -> (r: String)
        ensures
            r@ == self.spec_to_string(),
    {
        let mut out = self.name.clone();
        out.append(" by ");
        out.append(self.artist.as_str());
        out
    }
}

/// A channel reference.
#[derive(Debug, Clone, PartialEq, Eq, PartialOrd, Ord, Hash)]
pub enum VideoChannel {
    /// A channel ID.
    Id(ChannelId),
    /// An object containing some channel metadata.
    Min(ChannelMin),
}

impl VideoChannel {
    /// The ID of the channel.
    pub open spec fn spec_id(self) -> ChannelId {
        match self {
            VideoChannel::Id(id) => id,
            VideoChannel::Min(channel) => channel.id,
        }
    }

    /// Returns the channel ID.
    #[must_use]
    pub fn id(&self) -> (r: &ChannelId)
        ensures
            *r == self.spec_id(),
    {
        match self {
            VideoChannel::Id(id) => id,
            VideoChannel::Min(channel) => &channel.id,
        }
    }
}

impl VideoChannel {
    /// Whether the two name the same channel in the same way, and say the
    /// same of it.
    pub open spec fn spec_same(self, other: VideoChannel) -> bool {
        match (self, other) {
            (VideoChannel::Id(a), VideoChannel::Id(b)) => a@ == b@,
            (VideoChannel::Min(a), VideoChannel::Min(b)) => a.spec_same(b),
            _ => false,
        }
    }

    /// Whether the two name the same channel in the same way, and say the
    /// same of it.
    pub fn same_as(&self, other: &VideoChannel) -> (r: bool)
        ensures
            r == self.spec_same(*other),
    {
        match (self, other) {
            (VideoChannel::Id(a), VideoChannel::Id(b)) => a.as_str().eq(b.as_str()),
            (VideoChannel::Min(a), VideoChannel::Min(b)) => a.same_as(b),
            _ => false,
        }
    }

    /// How the reference is written into a key: `#` and the ID for an ID,
    /// `@` and the channel for a channel.
    pub open spec fn spec_key(self) -> Seq<char> {
        match self {
            VideoChannel::Id(id) => "#"@ + text_key(id@),
            VideoChannel::Min(channel) => "@"@ + channel.spec_key(),
        }
    }

    /// Writes the reference behind `key` as it stands in a key.
    pub fn feed(&self, key: &mut String)
        ensures
            final(key)@ == old(key)@ + self.spec_key(),
    {
        let mut part = String::new();
        match self {
            VideoChannel::Id(id) => {
                part.append("#");
                assert(part@ =~= "#"@);
                part.append(text_key_of(id.as_str()).as_str());
            },
            VideoChannel::Min(channel) => {
                part.append("@");
                assert(part@ =~= "@"@);
                channel.feed(&mut part);
            },
        }
        key.append(part.as_str());
    }

    /// References that are the same are written alike into a key.
    pub proof fn lemma_same_have_one_key(self, other: VideoChannel)
        requires
            self.spec_same(other),
        ensures
            self.spec_key() == other.spec_key(),
    {
        if self is Min {
            self->Min_0.lemma_same_have_one_key(other->Min_0);
        }
    }
}

impl PartialEq for Video {
    fn eq(&self, other: &Self) -> (r: bool) {
        self.id.as_str().eq(other.id.as_str()) && self.title.as_str().eq(other.title.as_str())
            && self.video_type == other.video_type && same_optional_text(
            &self.topic,
            &other.topic,
        ) && same_optional_time(&self.published_at, &other.published_at) && self.available_at
            == other.available_at && self.status == other.status && self.live_info
            == other.live_info && same_optional_text(&self.description, &other.description)
            && match (self.song_count, other.song_count) {
            (Some(a), Some(b)) => a == b,
            (None, None) => true,
            _ => false,
        } && self.channel.same_as(&other.channel)
    }
}

impl PartialEqSpecImpl for Video {
    open spec fn obeys_eq_spec() -> bool {
        true
    }

    open spec fn eq_spec(&self, other: &Self) -> bool {
        &&& self.id@ == other.id@
        &&& self.title@ == other.title@
        &&& self.video_type == other.video_type
        &&& optional_text(self.topic) == optional_text(other.topic)
        &&& self.published_at == other.published_at
        &&& self.available_at == other.available_at
        &&& self.status == other.status
        &&& self.live_info == other.live_info
        &&& optional_text(self.description) == optional_text(other.description)
        &&& self.song_count == other.song_count
        &&& self.channel.spec_same(other.channel)
    }
}

impl Hash for Video {
    fn hash<H: std::hash::Hasher>(&self, state: &mut H) {
        self.key().as_str().hash(state);
    }
}

impl VideoLiveInfo {
    /// How the information is written into a key: the three times and the
    /// count, in the order of the fields.
    pub open spec fn spec_key(self) -> Seq<char> {
        optional_time_key(self.start_scheduled) + optional_time_key(self.start_actual)
            + optional_time_key(self.end_actual) + optional_number_key(
            optional_u32(self.live_viewers),
        )
    }

    /// The information as it stands in a key.
    pub fn key(&self) -> (r: String)
        ensures
            r@ == self.spec_key(),
    {
        let mut out = String::new();
        hash_optional_time(&self.start_scheduled, &mut out);
        assert(out@ =~= optional_time_key(self.start_scheduled));
        hash_optional_time(&self.start_actual, &mut out);
        hash_optional_time(&self.end_actual, &mut out);
        hash_optional_u32(&self.live_viewers, &mut out);
        out
    }
}

impl Video {
    /// The key by which a video is hashed: every field but the duration, in
    /// the order of the fields.
    pub open spec fn spec_key(self) -> Seq<char> {
        text_key(self.id@) + text_key(self.title@) + text_key(self.video_type.spec_as_str())
            + optional_text_key(optional_text(self.topic)) + optional_time_key(self.published_at)
            + self.available_at.spec_key() + text_key(self.status.spec_as_str())
            + self.live_info.spec_key() + optional_text_key(optional_text(self.description))
            + optional_number_key(optional_u32(self.song_count)) + self.channel.spec_key()
    }

    /// The key by which the video is hashed.
    pub fn key(&self) -> (r: String)
        ensures
            r@ == self.spec_key(),
    {
        let mut out = text_key_of(self.id.as_str());
        out.append(text_key_of(self.title.as_str()).as_str());
        out.append(text_key_of(self.video_type.as_str()).as_str());
        hash_optional_text(&self.topic, &mut out);
        hash_optional_time(&self.published_at, &mut out);
        self.available_at.feed(&mut out);
        out.append(text_key_of(self.status.as_str()).as_str());
        out.append(self.live_info.key().as_str());
        hash_optional_text(&self.description, &mut out);
        hash_optional_u32(&self.song_count, &mut out);
        self.channel.feed(&mut out);
        out
    }

    /// Videos that are equal have one key, and so one hash.
    pub proof fn lemma_equal_have_one_key(self, other: Video)
        requires
            PartialEqSpec::eq_spec(&self, &other),
        ensures
            self.spec_key() == other.spec_key(),
    {
        self.channel.lemma_same_have_one_key(other.channel);
    }
}

impl FromJson for VideoChannel {
    /// The ID of a channel, or an object that describes one.
    open spec fn accepts(doc: Json) -> bool {
        ChannelId::accepts(doc) || ChannelMin::accepts(doc)
    }

    /// A string gives `Id`, an object gives `Min`.
    open spec fn decodes_to(doc: Json, value: Self) -> bool {
        if ChannelId::accepts(doc) {
            value matches VideoChannel::Id(id) && ChannelId::decodes_to(doc, id)
        } else {
            value matches VideoChannel::Min(channel) && ChannelMin::decodes_to(doc, channel)
        }
    }

    open spec fn spec_expected() -> Seq<char> {
        "VideoChannel"@
    }

    fn expected() -> (name: &'static str) {
        "VideoChannel"
    }

    fn from_json(doc: &JsonValue) -> (r: Option<Self>) {
        match ChannelId::from_json(doc) {
            Some(id) => Some(VideoChannel::Id(id)),
            None => match ChannelMin::from_json(doc) {
                Some(channel) => Some(VideoChannel::Min(channel)),
                None => None,
            },
        }
    }
}

/// A video, that can be either a stream, premiere, or clip.
///
/// Two videos are equal where they agree in every field but the duration.
#[derive(Debug, Clone, Eq, PartialOrd, Ord)]
pub struct Video {
    /// The ID of the video.
    pub id: VideoId,
    /// The title of the video.
    pub title: String,
    /// The type of the video.
    pub video_type: VideoType,
    /// The main topic the video is about.
    /// Videos of type `clip` cannot have a topic.
    pub topic: Option<String>,
    /// The date the video was first published.
    pub published_at: Option<Timestamp>,
    /// Takes on the first `Some` value of `live_info.end_actual`,
    /// `live_info.start_actual`, `live_info.start_scheduled`, or
    /// `published_at`.
    pub available_at: Timestamp,
    /// The length of the video in seconds.
    pub duration: Option<Duration>,
    /// The status of the video.
    pub status: VideoStatus,
    /// Live stream information regarding the video, if it is a stream.
    pub live_info: VideoLiveInfo,
    /// The description of the video.
    pub description: Option<String>,
    /// How many songs have been sung in the video, if any.
    pub song_count: Option<u32>,
    /// The channel the video was uploaded by.
    pub channel: VideoChannel,
}

impl Video {
    /// The member that says which channel uploaded the video: the one named
    /// `channel` or the one named `channel_id`, where the object `doc` has
    /// one of the two and not both.
    pub open spec fn channel_member(doc: Json) -> Option<Json> {
        match (doc.field("channel"@), doc.field("channel_id"@)) {
            (Some(held), None) => Some(held),
            (None, Some(held)) => Some(held),
            _ => None,
        }
    }

    /// Whether `doc` has the shape of a video. As a part of a fuller record
    /// the video has no song count of its own, and the member `songcount` is
    /// not looked at.
    pub open spec fn accepts_as(doc: Json, part: bool) -> bool {
        &&& doc is Object
        &&& has::<VideoId>(doc, "id"@)
        &&& has::<String>(doc, "title"@)
        &&& has::<VideoType>(doc, "type"@)
        &&& may_have::<String>(doc, "topic_id"@)
        &&& may_have::<Timestamp>(doc, "published_at"@)
        &&& has::<Timestamp>(doc, "available_at"@)
        &&& may_have::<Duration>(doc, "duration"@)
        &&& has::<VideoStatus>(doc, "status"@)
        &&& VideoLiveInfo::accepts(doc)
        &&& may_have::<String>(doc, "description"@)
        &&& part || may_have::<u32>(doc, "songcount"@)
        &&& Self::channel_member(doc) matches Some(held) && VideoChannel::accepts(held)
    }

    /// Whether `value` is the video that `doc` holds, standing alone or as a
    /// part of a fuller record.
    pub open spec fn decodes_as(doc: Json, part: bool, value: Video) -> bool {
        &&& holds::<VideoId>(doc, "id"@, value.id)
        &&& holds::<String>(doc, "title"@, value.title)
        &&& holds::<VideoType>(doc, "type"@, value.video_type)
        &&& may_hold::<String>(doc, "topic_id"@, value.topic)
        &&& may_hold::<Timestamp>(doc, "published_at"@, value.published_at)
        &&& holds::<Timestamp>(doc, "available_at"@, value.available_at)
        &&& may_hold::<Duration>(doc, "duration"@, value.duration)
        &&& holds::<VideoStatus>(doc, "status"@, value.status)
        &&& VideoLiveInfo::decodes_to(doc, value.live_info)
        &&& may_hold::<String>(doc, "description"@, value.description)
        &&& if part {
            value.song_count is None
        } else {
            may_hold::<u32>(doc, "songcount"@, value.song_count)
        }
        &&& Self::channel_member(doc) matches Some(held) && VideoChannel::decodes_to(
            held,
            value.channel,
        )
    }

    /// Reads a video out of `doc`, standing alone or as a part of a fuller
    /// record.
    pub fn read(doc: &JsonValue, part: bool) -> (r: Option<Video>)
        ensures
            r is Some <==> Self::accepts_as(doc@, part),
            r matches Some(value) ==> Self::decodes_as(doc@, part, value),
    {
        if !doc.is_object() {
            return None;
        }
        let id: VideoId = match required::<VideoId>(doc, "id") {
            Some(held) => held,
            None => {
                return None;
            },
        };
        let title: String = match required::<String>(doc, "title") {
            Some(held) => held,
            None => {
                return None;
            },
        };
        let video_type: VideoType = match required::<VideoType>(doc, "type") {
            Some(held) => held,
            None => {
                return None;
            },
        };
        let topic: Option<String> = match optional::<String>(doc, "topic_id") {
            Some(held) => held,
            None => {
                return None;
            },
        };
        let published_at: Option<Timestamp> = match optional::<Timestamp>(doc, "published_at") {
            Some(held) => held,
            None => {
                return None;
            },
        };
        let available_at: Timestamp = match required::<Timestamp>(doc, "available_at") {
            Some(held) => held,
            None => {
                return None;
            },
        };
        let duration: Option<Duration> = match optional::<Duration>(doc, "duration") {
            Some(held) => held,
            None => {
                return None;
            },
        };
        let status: VideoStatus = match required::<VideoStatus>(doc, "status") {
            Some(held) => held,
            None => {
                return None;
            },
        };
        let live_info: VideoLiveInfo = match VideoLiveInfo::from_json(doc) {
            Some(held) => held,
            None => {
                return None;
            },
        };
        let description: Option<String> = match optional::<String>(doc, "description") {
            Some(held) => held,
            None => {
                return None;
            },
        };
        let song_count: Option<u32> = if part {
            None
        } else {
            match optional::<u32>(doc, "songcount") {
                Some(held) => held,
                None => {
                    return None;
                },
            }
        };
        let held = match (doc.get("channel"), doc.get("channel_id")) {
            (Some(held), None) => held,
            (None, Some(held)) => held,
            _ => {
                return None;
            },
        };
        let channel: VideoChannel = match VideoChannel::from_json(held) {
            Some(channel) => channel,
            None => {
                return None;
            },
        };
        Some(
            Video {
                id,
                title,
                video_type,
                topic,
                published_at,
                available_at,
                duration,
                status,
                live_info,
                description,
                song_count,
                channel,
            },
        )
    }
}

impl FromJson for Video {
    /// An object with an ID, a title, a type, a status, the time from which
    /// it is available, and its channel; the other members may be missing.
    open spec fn accepts(doc: Json) -> bool {
        Self::accepts_as(doc, false)
    }

    open spec fn decodes_to(doc: Json, value: Self) -> bool {
        Self::decodes_as(doc, false, value)
    }

    open spec fn spec_expected() -> Seq<char> {
        "Video"@
    }

    fn expected() -> (name: &'static str) {
        "Video"
    }

    fn from_json(doc: &JsonValue) -> (r: Option<Self>) {
        Video::read(doc, false)
    }
}

/// A struct containing information about a video and any possible extra metadata that was requested.
#[derive(Debug, Clone, PartialEq, Eq, PartialOrd, Ord, Hash)]
pub struct VideoFull {
    /// A video.
    pub video: Video,
    /// Any clips that were made from this video.
    pub clips: Vec<Video>,
    /// Any sources this video was based on.
    pub sources: Vec<Video>,
    /// Any videos that were mentioned in this video's description.
    pub refers: Vec<Video>,
    /// Any videos that refer to this video and go live or are uploaded around the same time.
    pub simulcasts: Vec<Video>,
    /// Any channels that were mentioned in this video's description.
    pub mentions: Vec<ChannelMin>,
    /// How many songs were sung in this video.
    pub song_count: Option<u32>,
    /// Songs that were sung in this video.
    pub songs: Vec<Song>,
    /// Comments posted on this video.
    pub comments: Vec<Comment>,
    /// Related videos.
    pub related: Vec<Video>,
}

impl VideoFull {
    /// The key under which the object `doc` lists the related videos:
    /// `related`, or `recommendations` where that is the one it has; `None`
    /// where it has both.
    pub open spec fn related_key(doc: Json) -> Option<Seq<char>> {
        match (doc.field("related"@), doc.field("recommendations"@)) {
            (Some(_), Some(_)) => None,
            (None, Some(_)) => Some("recommendations"@),
            _ => Some("related"@),
        }
    }
}

impl VideoFull {
    /// The messages of the comments, in order.
    pub fn timestamps(self) -> (r: Vec<String>)
        ensures
            r@.len() == self.comments@.len(),
            forall|i: int| 0 <= i < r@.len() ==> #[trigger] r@[i] == self.comments@[i].message,
    {
        let ghost held = self.comments@;
        let mut out: Vec<String> = Vec::new();
        for comment in it: self.comments
            invariant
                it.seq() == held,
                out@.len() == it.index(),
                forall|i: int| 0 <= i < out@.len() ==> #[trigger] out@[i] == held[i].message,
        {
            out.push(comment.message);
        }
        out
    }

    /// The related videos, in order.
    pub fn into_related(self) -> (r: Vec<Video>)
        ensures
            r == self.related,
    {
        self.related
    }
}

impl FromJson for VideoFull {
    /// A video with, under names of their own, what else was asked for; each
    /// of these members may be missing.
    open spec fn accepts(doc: Json) -> bool {
        &&& Video::accepts_as(doc, true)
        &&& may_list::<Video>(doc, "clips"@)
        &&& may_list::<Video>(doc, "sources"@)
        &&& may_list::<Video>(doc, "refers"@)
        &&& may_list::<Video>(doc, "simulcasts"@)
        &&& may_list::<ChannelMin>(doc, "mentions"@)
        &&& may_have::<u32>(doc, "songcount"@)
        &&& may_list::<Song>(doc, "songs"@)
        &&& may_list::<Comment>(doc, "comments"@)
        &&& Self::related_key(doc) matches Some(key) && may_list::<Video>(doc, key)
    }

    open spec fn decodes_to(doc: Json, value: Self) -> bool {
        &&& Video::decodes_as(doc, true, value.video)
        &&& lists::<Video>(doc, "clips"@, value.clips)
        &&& lists::<Video>(doc, "sources"@, value.sources)
        &&& lists::<Video>(doc, "refers"@, value.refers)
        &&& lists::<Video>(doc, "simulcasts"@, value.simulcasts)
        &&& lists::<ChannelMin>(doc, "mentions"@, value.mentions)
        &&& may_hold::<u32>(doc, "songcount"@, value.song_count)
        &&& lists::<Song>(doc, "songs"@, value.songs)
        &&& lists::<Comment>(doc, "comments"@, value.comments)
        &&& Self::related_key(doc) matches Some(key) && lists::<Video>(doc, key, value.related)
    }

    open spec fn spec_expected() -> Seq<char> {
        "VideoFull"@
    }

    fn expected() -> (name: &'static str) {
        "VideoFull"
    }

    fn from_json(doc: &JsonValue) -> (r: Option<Self>) {
        let video: Video = match Video::read(doc, true) {
            Some(held) => held,
            None => {
                return None;
            },
        };
        let clips: Vec<Video> = match listed::<Video>(doc, "clips") {
            Some(held) => held,
            None => {
                return None;
            },
        };
        let sources: Vec<Video> = match listed::<Video>(doc, "sources") {
            Some(held) => held,
            None => {
                return None;
            },
        };
        let refers: Vec<Video> = match listed::<Video>(doc, "refers") {
            Some(held) => held,
            None => {
                return None;
            },
        };
        let simulcasts: Vec<Video> = match listed::<Video>(doc, "simulcasts") {
            Some(held) => held,
            None => {
                return None;
            },
        };
        let mentions: Vec<ChannelMin> = match listed::<ChannelMin>(doc, "mentions") {
            Some(held) => held,
            None => {
                return None;
            },
        };
        let song_count: Option<u32> = match optional::<u32>(doc, "songcount") {
            Some(held) => held,
            None => {
                return None;
            },
        };
        let songs: Vec<Song> = match listed::<Song>(doc, "songs") {
            Some(held) => held,
            None => {
                return None;
            },
        };
        let comments: Vec<Comment> = match listed::<Comment>(doc, "comments") {
            Some(held) => held,
            None => {
                return None;
            },
        };
        let key: &str = match (doc.get("related"), doc.get("recommendations")) {
            (Some(_), Some(_)) => {
                return None;
            },
            (None, Some(_)) => "recommendations",
            _ => "related",
        };
        let related: Vec<Video> = match listed::<Video>(doc, key) {
            Some(held) => held,
            None => {
                return None;
            },
        };
        Some(
            VideoFull {
                video,
                clips,
                sources,
                refers,
                simulcasts,
                mentions,
                song_count,
                songs,
                comments,
                related,
            },
        )
    }
}

} // verus!
