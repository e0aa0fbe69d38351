//! Channels and what is known of them.

use crate::json::flagged;
use crate::json::flags;
use crate::json::has;
use crate::json::holds;
use crate::json::listed;
use crate::json::lists;
use crate::json::may_flag;
use crate::json::may_have;
use crate::json::may_hold;
use crate::json::may_list;
use crate::json::optional;
use crate::json::required;
use crate::json::FromJson;
use crate::json::Json;
use crate::json::JsonValue;
use crate::model::id::ChannelId;
use crate::model::kinds::ChannelType;
use crate::model::serializers::Language;
use crate::model::serializers::Organisation;
use crate::text::hash_optional_text;
use crate::text::hash_optional_u32;
use crate::text::optional_number_key;
use crate::text::optional_text_key;
use crate::text::optional_text;
use crate::text::optional_u32;
use crate::text::same_optional_text;
use crate::text::text_key;
use crate::text::text_key_of;
use crate::time::Timestamp;
use vstd::prelude::*;
use vstd::string::StringExecFns;

verus! {

/// Various statistics about a channel.
#[derive(Debug, Clone, Copy, PartialEq, Eq, Structural, PartialOrd, Ord, Hash)]
pub struct ChannelStats {
    /// The amount of videos the channel has uploaded.
    pub video_count: Option<u32>,
    /// The amount of subscribers the channel has.
    pub subscriber_count: Option<u32>,
    /// The amount of views the channel has in total.
    pub view_count: Option<u32>,
    /// The amount of clips that have been made from videos uploaded by this channel.
    pub clip_count: Option<u32>,
}

impl FromJson for ChannelStats {
    /// Members that hold a count each, where they are there.
    open spec fn accepts(doc: Json) -> bool {
        &&& may_have::<u32>(doc, "video_count"@)
        &&& may_have::<u32>(doc, "subscriber_count"@)
        &&& may_have::<u32>(doc, "view_count"@)
        &&& may_have::<u32>(doc, "clip_count"@)
    }

    open spec fn decodes_to(doc: Json, value: Self) -> bool {
        &&& may_hold::<u32>(doc, "video_count"@, value.video_count)
        &&& may_hold::<u32>(doc, "subscriber_count"@, value.subscriber_count)
        &&& may_hold::<u32>(doc, "view_count"@, value.view_count)
        &&& may_hold::<u32>(doc, "clip_count"@, value.clip_count)
    }

    open spec fn spec_expected() -> Seq<char> {
        "ChannelStats"@
    }

    fn expected() -> (name: &'static str) {
        "ChannelStats"
    }

    fn from_json(doc: &JsonValue) -> (r: Option<Self>) {
        let video_count: Option<u32> = match optional::<u32>(doc, "video_count") {
            Some(held) => held,
            None => {
                return None;
            },
        };
        let subscriber_count: Option<u32> = match optional::<u32>(doc, "subscriber_count") {
            Some(held) => held,
            None => {
                return None;
            },
        };
        let view_count: Option<u32> = match optional::<u32>(doc, "view_count") {
            Some(held) => held,
            None => {
                return None;
            },
        };
        let clip_count: Option<u32> = match optional::<u32>(doc, "clip_count") {
            Some(held) => held,
            None => {
                return None;
            },
        };
        Some(ChannelStats { video_count, subscriber_count, view_count, clip_count })
    }
}

/// Smaller version of [`Channel`] with less metadata.
#[derive(Debug, Clone, PartialEq, Eq, PartialOrd, Ord, Hash)]
pub struct ChannelMin {
    /// The ID of the channel.
    pub id: ChannelId,
    /// The name of the channel.
    pub name: String,
    /// The English name of the channel, if any.
    pub english_name: Option<String>,
    /// The type of the channel.
    pub channel_type: Option<ChannelType>,
    /// The URL of the channel's profile picture.
    pub photo: String,
    /// The organization the channel belongs to, if any.
    pub org: Option<Organisation>,
    /// Channel statistics.
    pub stats: ChannelStats,
}

impl ChannelStats {
    /// How the statistics are written into a key: the four counts, in the
    /// order of the fields.
    pub open spec fn spec_key(self) -> Seq<char> {
        optional_number_key(optional_u32(self.video_count)) + optional_number_key(
            optional_u32(self.subscriber_count),
        ) + optional_number_key(optional_u32(self.view_count)) + optional_number_key(
            optional_u32(self.clip_count),
        )
    }

    /// Writes the statistics behind `key` as they stand in a key.
    pub fn feed(&self, key: &mut String)
        ensures
            final(key)@ == old(key)@ + self.spec_key(),
    {
        let mut part = String::new();
        hash_optional_u32(&self.video_count, &mut part);
        assert(part@ =~= optional_number_key(optional_u32(self.video_count)));
        hash_optional_u32(&self.subscriber_count, &mut part);
        hash_optional_u32(&self.view_count, &mut part);
        hash_optional_u32(&self.clip_count, &mut part);
        key.append(part.as_str());
    }
}

impl ChannelMin {
    /// Whether the two say the same of a channel, field by field.
    pub open spec fn spec_same(self, other: ChannelMin) -> bool {
        &&& self.id@ == other.id@
        &&& self.name@ == other.name@
        &&& optional_text(self.english_name) == optional_text(other.english_name)
        &&& self.channel_type == other.channel_type
        &&& self.photo@ == other.photo@
        &&& match (self.org, other.org) {
            (Some(a), Some(b)) => a.spec_same(b),
            (None, None) => true,
            _ => false,
        }
        &&& self.stats == other.stats
    }

    /// Whether the two say the same of a channel, field by field.
    pub fn same_as(&self, other: &ChannelMin) -> (r: bool)
        ensures
            r == self.spec_same(*other),
    {
        let same_type = match (self.channel_type, other.channel_type) {
            (Some(a), Some(b)) => a == b,
            (None, None) => true,
            _ => false,
        };
        let same_org = match (&self.org, &other.org) {
            (Some(a), Some(b)) => a.same_as(b),
            (None, None) => true,
            _ => false,
        };
        self.id.as_str().eq(other.id.as_str()) && self.name.as_str().eq(other.name.as_str())
            && same_optional_text(&self.english_name, &other.english_name) && same_type
            && self.photo.as_str().eq(other.photo.as_str()) && same_org && self.stats
            == other.stats
    }

    /// How an organisation that may be missing is written into a key: `-`
    /// for none, and `+` with the organisation behind for one.
    pub open spec fn organisation_key(org: Option<Organisation>) -> Seq<char> {
        match org {
            Some(org) => "+"@ + org.spec_key(),
            None => "-"@,
        }
    }

    /// The name of `channel_type`, where there is one.
    pub open spec fn name_of_type(channel_type: Option<ChannelType>) -> Option<Seq<char>> {
        match channel_type {
            Some(channel_type) => Some(channel_type.spec_as_str()),
            None => None,
        }
    }

    /// How the channel is written into a key: every field, in the order of
    /// the fields.
    pub open spec fn spec_key(self) -> Seq<char> {
        text_key(self.id@) + text_key(self.name@) + optional_text_key(
            optional_text(self.english_name),
        ) + optional_text_key(Self::name_of_type(self.channel_type)) + text_key(self.photo@)
            + Self::organisation_key(self.org) + self.stats.spec_key()
    }

    /// Writes the channel behind `key` as it stands in a key.
    pub fn feed(&self, key: &mut String)
        ensures
            final(key)@ == old(key)@ + self.spec_key(),
    {
        let mut part = text_key_of(self.id.as_str());
        part.append(text_key_of(self.name.as_str()).as_str());
        hash_optional_text(&self.english_name, &mut part);
        match self.channel_type {
            Some(channel_type) => {
                let mut named = String::new();
                named.append("+");
                assert(named@ =~= "+"@);
                named.append(text_key_of(channel_type.as_str()).as_str());
                part.append(named.as_str());
            },
            None => {
                part.append("-");
            },
        }
        part.append(text_key_of(self.photo.as_str()).as_str());
        match &self.org {
            Some(org) => {
                let mut named = String::new();
                named.append("+");
                assert(named@ =~= "+"@);
                org.feed(&mut named);
                part.append(named.as_str());
            },
            None => {
                part.append("-");
            },
        }
        self.stats.feed(&mut part);
        key.append(part.as_str());
    }

    /// Channels that say the same are written alike into a key.
    pub proof fn lemma_same_have_one_key(self, other: ChannelMin)
        requires
            self.spec_same(other),
        ensures
            self.spec_key() == other.spec_key(),
    {
        if self.org is Some {
            self.org->0.lemma_same_have_one_key(other.org->0);
        }
    }
}

impl FromJson for ChannelMin {
    /// An object with an ID, a name and a photo; the other members may be
    /// missing.
    open spec fn accepts(doc: Json) -> bool {
        &&& doc is Object
        &&& has::<ChannelId>(doc, "id"@)
        &&& has::<String>(doc, "name"@)
        &&& may_have::<String>(doc, "english_name"@)
        &&& may_have::<ChannelType>(doc, "type"@)
        &&& has::<String>(doc, "photo"@)
        &&& may_have::<Organisation>(doc, "org"@)
        &&& ChannelStats::accepts(doc)
    }

    open spec fn decodes_to(doc: Json, value: Self) -> bool {
        &&& holds::<ChannelId>(doc, "id"@, value.id)
        &&& holds::<String>(doc, "name"@, value.name)
        &&& may_hold::<String>(doc, "english_name"@, value.english_name)
        &&& may_hold::<ChannelType>(doc, "type"@, value.channel_type)
        &&& holds::<String>(doc, "photo"@, value.photo)
        &&& may_hold::<Organisation>(doc, "org"@, value.org)
        &&& ChannelStats::decodes_to(doc, value.stats)
    }

    open spec fn spec_expected() -> Seq<char> {
        "ChannelMin"@
    }

    fn expected() -> (name: &'static str) {
        "ChannelMin"
    }

    fn from_json(doc: &JsonValue) -> (r: Option<Self>) {
        if !doc.is_object() {
            return None;
        }
        let id: ChannelId = match required::<ChannelId>(doc, "id") {
            Some(held) => held,
            None => {
                return None;
            },
        };
        let name: String = match required::<String>(doc, "name") {
            Some(held) => held,
            None => {
                return None;
            },
        };
        let english_name: Option<String> = match optional::<String>(doc, "english_name") {
            Some(held) => held,
            None => {
                return None;
            },
        };
        let channel_type: Option<ChannelType> = match optional::<ChannelType>(doc, "type") {
            Some(held) => held,
            None => {
                return None;
            },
        };
        let photo: String = match required::<String>(doc, "photo") {
            Some(held) => held,
            None => {
                return None;
            },
        };
        let org: Option<Organisation> = match optional::<Organisation>(doc, "org") {
            Some(held) => held,
            None => {
                return None;
            },
        };
        let stats: ChannelStats = match ChannelStats::from_json(doc) {
            Some(held) => held,
            None => {
                return None;
            },
        };
        Some(ChannelMin { id, name, english_name, channel_type, photo, org, stats })
    }
}

/// A channel that uploads videos and/or streams.
#[derive(Debug, Clone, PartialEq, Eq, PartialOrd, Ord, Hash)]
pub struct Channel {
    /// The ID of the channel.
    pub id: ChannelId,
    /// The name of the channel.
    pub name: String,
    /// If the channel has been marked as inactive.
    pub inactive: bool,
    /// The type of the channel.
    pub channel_type: ChannelType,
    /// The description of the channel.
    pub description: Option<String>,
    /// The primary language of the channel, if any.
    pub lang: Option<Language>,
    /// The English name of the channel, if any.
    pub english_name: Option<String>,
    /// The organization the channel belongs to, if any.
    pub org: Option<Organisation>,
    /// The sub-organization the channel belongs to, if any.
    pub suborg: Option<String>,
    /// The URL of the channel's profile picture, if any.
    pub photo: Option<String>,
    /// The URL of the channel's banner picture, if any.
    pub banner: Option<String>,
    /// The Twitter handle of the channel, if any.
    pub twitter: Option<String>,
    /// Channel statistics.
    pub stats: ChannelStats,
    /// The top topics associated with the channel.
    pub top_topics: Vec<String>,
    /// The date the channel was created.
    pub published_at: Option<Timestamp>,
    /// The date this channel metadata was last indexed.
    pub crawled_at: Option<Timestamp>,
    /// The date the comments posted on videos uploaded by this channel were last indexed.
    pub comments_crawled_at: Option<Timestamp>,
}

impl FromJson for Channel {
    /// An object with an ID, a name and a type; the other members may be
    /// missing.
    open spec fn accepts(doc: Json) -> bool {
        &&& doc is Object
        &&& has::<ChannelId>(doc, "id"@)
        &&& has::<String>(doc, "name"@)
        &&& may_flag(doc, "inactive"@)
        &&& has::<ChannelType>(doc, "type"@)
        &&& may_have::<String>(doc, "description"@)
        &&& may_have::<Language>(doc, "lang"@)
        &&& may_have::<String>(doc, "english_name"@)
        &&& may_have::<Organisation>(doc, "org"@)
        &&& may_have::<String>(doc, "suborg"@)
        &&& may_have::<String>(doc, "photo"@)
        &&& may_have::<String>(doc, "banner"@)
        &&& may_have::<String>(doc, "twitter"@)
        &&& ChannelStats::accepts(doc)
        &&& may_list::<String>(doc, "top_topics"@)
        &&& may_have::<Timestamp>(doc, "published_at"@)
        &&& may_have::<Timestamp>(doc, "crawled_at"@)
        &&& may_have::<Timestamp>(doc, "comments_crawled_at"@)
    }

    open spec fn decodes_to(doc: Json, value: Self) -> bool {
        &&& holds::<ChannelId>(doc, "id"@, value.id)
        &&& holds::<String>(doc, "name"@, value.name)
        &&& flags(doc, "inactive"@, value.inactive)
        &&& holds::<ChannelType>(doc, "type"@, value.channel_type)
        &&& may_hold::<String>(doc, "description"@, value.description)
        &&& may_hold::<Language>(doc, "lang"@, value.lang)
        &&& may_hold::<String>(doc, "english_name"@, value.english_name)
        &&& may_hold::<Organisation>(doc, "org"@, value.org)
        &&& may_hold::<String>(doc, "suborg"@, value.suborg)
        &&& may_hold::<String>(doc, "photo"@, value.photo)
        &&& may_hold::<String>(doc, "banner"@, value.banner)
        &&& may_hold::<String>(doc, "twitter"@, value.twitter)
        &&& ChannelStats::decodes_to(doc, value.stats)
        &&& lists::<String>(doc, "top_topics"@, value.top_topics)
        &&& may_hold::<Timestamp>(doc, "published_at"@, value.published_at)
        &&& may_hold::<Timestamp>(doc, "crawled_at"@, value.crawled_at)
        &&& may_hold::<Timestamp>(doc, "comments_crawled_at"@, value.comments_crawled_at)
    }

    open spec fn spec_expected() -> Seq<char> {
        "Channel"@
    }

    fn expected() -> (name: &'static str) {
        "Channel"
    }

    fn from_json(doc: &JsonValue) -> (r: Option<Self>) {
        if !doc.is_object() {
            return None;
        }
        let id: ChannelId = match required::<ChannelId>(doc, "id") {
            Some(held) => held,
            None => {
                return None;
            },
        };
        let name: String = match required::<String>(doc, "name") {
            Some(held) => held,
            None => {
                return None;
            },
        };
        let inactive: bool = match flagged(doc, "inactive") {
            Some(held) => held,
            None => {
                return None;
            },
        };
        let channel_type: ChannelType = match required::<ChannelType>(doc, "type") {
            Some(held) => held,
            None => {
                return None;
            },
        };
        let description: Option<String> = match optional::<String>(doc, "description") {
            Some(held) => held,
            None => {
                return None;
            },
        };
        let lang: Option<Language> = match optional::<Language>(doc, "lang") {
            Some(held) => held,
            None => {
                return None;
            },
        };
        let english_name: Option<String> = match optional::<String>(doc, "english_name") {
            Some(held) => held,
            None => {
                return None;
            },
        };
        let org: Option<Organisation> = match optional::<Organisation>(doc, "org") {
            Some(held) => held,
            None => {
                return None;
            },
        };
        let suborg: Option<String> = match optional::<String>(doc, "suborg") {
            Some(held) => held,
            None => {
                return None;
            },
        };
        let photo: Option<String> = match optional::<String>(doc, "photo") {
            Some(held) => held,
            None => {
                return None;
            },
        };
        let banner: Option<String> = match optional::<String>(doc, "banner") {
            Some(held) => held,
            None => {
                return None;
            },
        };
        let twitter: Option<String> = match optional::<String>(doc, "twitter") {
            Some(held) => held,
            None => {
                return None;
            },
        };
        let stats: ChannelStats = match ChannelStats::from_json(doc) {
            Some(held) => held,
            None => {
                return None;
            },
        };
        let top_topics: Vec<String> = match listed::<String>(doc, "top_topics") {
            Some(held) => held,
            None => {
                return None;
            },
        };
        let published_at: Option<Timestamp> = match optional::<Timestamp>(doc, "published_at") {
            Some(held) => held,
            None => {
                return None;
            },
        };
        let crawled_at: Option<Timestamp> = match optional::<Timestamp>(doc, "crawled_at") {
            Some(held) => held,
            None => {
                return None;
            },
        };
        let comments_crawled_at: Option<Timestamp> = match optional::<Timestamp>(doc, "comments_crawled_at") {
            Some(held) => held,
            None => {
                return None;
            },
        };
        Some(Channel { id, name, inactive, channel_type, description, lang, english_name, org, suborg, photo, banner, twitter, stats, top_topics, published_at, crawled_at, comments_crawled_at })
    }
}

} // verus!
