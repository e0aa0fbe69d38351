//! Filtering criteria for the endpoints, and how each is sent.

use crate::errors::Error;
use crate::json::Json;
use crate::json::JsonValue;
use crate::json::Member;
use crate::model::id::ChannelId;
use crate::model::id::VideoId;
use crate::model::kinds::ChannelSortingCriteria;
use crate::model::kinds::ChannelType;
use crate::model::kinds::ExtraVideoInfo;
use crate::model::kinds::Order;
use crate::model::kinds::SearchOrder;
use crate::model::kinds::VideoSortingCriteria;
use crate::model::kinds::VideoStatus;
use crate::model::kinds::VideoType;
use crate::model::serializers::Language;
use crate::model::serializers::Organisation;
use crate::text::decimal_text;
use crate::text::i64_text;
use crate::text::optional_text;
use crate::text::signed_decimal_text;
use crate::text::u64_text;
use crate::time::timestamp_display;
use crate::time::timestamp_rfc3339;
use crate::time::Timestamp;
use vstd::prelude::*;
use vstd::string::StringExecFns;

verus! {

/// A value that is written into a query string or shown under a name.
pub trait Named {
    /// The name of the value.
    spec fn spec_name(&self) -> Seq<char>;

    /// The name of the value.
    fn name(&self) -> (r: String)
        ensures
            r@ == self.spec_name(),
    ;
}

/// A value that is written into a JSON body.
pub trait ToJson {
    /// The document that stands for the value.
    spec fn spec_to_json(&self) -> Json;

    /// The document that stands for the value.
    fn to_json(&self) -> (r: JsonValue)
        ensures
            r@ == self.spec_to_json(),
    ;
}

impl Named for ExtraVideoInfo {
    open spec fn spec_name(&self) -> Seq<char> {
        self.spec_to_string()
    }

    fn name(&self) -> (r: String) {
        self.to_string()
    }
}

impl Named for VideoStatus {
    open spec fn spec_name(&self) -> Seq<char> {
        self.spec_to_string()
    }

    fn name(&self) -> (r: String) {
        self.to_string()
    }
}

impl Named for Language {
    open spec fn spec_name(&self) -> Seq<char> {
        self.spec_as_str()
    }

    fn name(&self) -> (r: String) {
        self.to_string()
    }
}

impl Named for VideoId {
    open spec fn spec_name(&self) -> Seq<char> {
        self@
    }

    fn name(&self) -> (r: String) {
        self.to_string()
    }
}

impl Named for ChannelId {
    open spec fn spec_name(&self) -> Seq<char> {
        self@
    }

    fn name(&self) -> (r: String) {
        self.to_string()
    }
}

impl ToJson for Language {
    open spec fn spec_to_json(&self) -> Json {
        Json::Text(self.spec_as_str())
    }

    fn to_json(&self) -> (r: JsonValue) {
        JsonValue::String(self.to_string())
    }
}

impl ToJson for Organisation {
    open spec fn spec_to_json(&self) -> Json {
        Json::Text(self.spec_as_str())
    }

    fn to_json(&self) -> (r: JsonValue) {
        JsonValue::String(self.to_string())
    }
}

impl ToJson for VideoType {
    open spec fn spec_to_json(&self) -> Json {
        Json::Text(self.spec_as_str())
    }

    fn to_json(&self) -> (r: JsonValue) {
        JsonValue::String(self.as_str().to_owned())
    }
}

impl ToJson for ChannelId {
    open spec fn spec_to_json(&self) -> Json {
        Json::Text(self@)
    }

    fn to_json(&self) -> (r: JsonValue) {
        JsonValue::String(self.to_string())
    }
}

impl ToJson for String {
    open spec fn spec_to_json(&self) -> Json {
        Json::Text(self@)
    }

    fn to_json(&self) -> (r: JsonValue) {
        JsonValue::String(self.clone())
    }
}

/// A condition that a video must meet to be eligible.
#[derive(Debug, PartialEq, Eq, PartialOrd, Ord, Hash)]
pub enum VideoSearchCondition {
    /// The video must include this string in its title or description.
    Text(String),
}

impl Clone for VideoSearchCondition {
    fn clone(&self) -> (r: Self)
        ensures
            r == *self,
    {
        match self {
            VideoSearchCondition::Text(text) => VideoSearchCondition::Text(text.clone()),
        }
    }
}

impl ToJson for VideoSearchCondition {
    /// An object with the one member `text`.
    open spec fn spec_to_json(&self) -> Json {
        match self {
            VideoSearchCondition::Text(text) => Json::Object(seq![("text"@, Json::Text(text@))]),
        }
    }

    fn to_json(&self) -> (r: JsonValue) {
        match self {
            VideoSearchCondition::Text(text) => {
                let mut members: Vec<Member> = Vec::new();
                assert((JsonValue::Object(members))@->Object_0 =~= Seq::empty());
                put_member(&mut members, "text", JsonValue::String(text.clone()));
                JsonValue::Object(members)
            },
        }
    }
}

/// The names of `items`, in order.
pub open spec fn names<T: Named>(items: Seq<T>) -> Seq<Seq<char>> {
    items.map_values(|item: T| item.spec_name())
}

/// The documents that stand for `items`, in order.
pub open spec fn documents<T: ToJson>(items: Seq<T>) -> Seq<Json> {
    items.map_values(|item: T| item.spec_to_json())
}

/// `parts` in a row with `separator` between each two of them.
pub open spec fn joined(parts: Seq<Seq<char>>, separator: Seq<char>) -> Seq<char>
    decreases parts.len(),
{
    if parts.len() == 0 {
        Seq::empty()
    } else if parts.len() == 1 {
        parts[0]
    } else {
        joined(parts.drop_last(), separator) + separator + parts.last()
    }
}

/// The names of `items` in a row with `separator` between each two of them.
pub fn join_names<T: Named>(items: &[T], separator: &str) -> (r: String)
    ensures
        r@ == joined(names(items@), separator@),
{
    let mut out = String::new();
    let mut i: usize = 0;
    while i < items.len()
        invariant
            i <= items.len(),
            out@ == joined(names(items@).take(i as int), separator@),
        decreases items.len() - i,
    {
        let ghost before = names(items@).take(i as int);
        let ghost after = names(items@).take(i + 1);
        assert(after.drop_last() =~= before);
        assert(after.last() == items@[i as int].spec_name());
        if i > 0 {
            out.append(separator);
        }
        let name = items[i].name();
        out.append(name.as_str());
        proof {
            if i == 0 {
                assert(out@ =~= after[0]);
            } else {
                assert(out@ =~= joined(before, separator@) + separator@ + after.last());
            }
        }
        i += 1;
    }
    assert(names(items@).take(items.len() as int) =~= names(items@));
    out
}

/// The array of the documents that stand for `items`.
pub fn list_documents<T: ToJson>(items: &Vec<T>) -> (r: JsonValue)
    ensures
        r@ == Json::List(documents(items@)),
{
    let mut out: Vec<JsonValue> = Vec::new();
    let mut i: usize = 0;
    while i < items.len()
        invariant
            i <= items.len(),
            out@.len() == i,
            forall|k: int| 0 <= k < i ==> (#[trigger] out@[k])@ == items@[k].spec_to_json(),
        decreases items.len() - i,
    {
        out.push(items[i].to_json());
        i += 1;
    }
    let r = JsonValue::Array(out);
    assert(r@->List_0 =~= documents(items@));
    r
}

/// A copy of `items`, item by item.
pub fn copy_items<T: Clone>(items: &[T]) -> (r: Vec<T>)
    ensures
        r@.len() == items@.len(),
        forall|i: int| 0 <= i < items@.len() ==> cloned(#[trigger] items@[i], r@[i]),
{
    let mut out: Vec<T> = Vec::new();
    let mut i: usize = 0;
    while i < items.len()
        invariant
            i <= items.len(),
            out@.len() == i,
            forall|k: int| 0 <= k < i ==> cloned(#[trigger] items@[k], out@[k]),
        decreases items.len() - i,
    {
        out.push(items[i].clone());
        i += 1;
    }
    out
}

/// One pair of a query string.
pub type QueryPair = (Seq<char>, Seq<char>);

/// The pairs that `pairs` holds, as text.
pub open spec fn pairs_of(pairs: Seq<(String, String)>) -> Seq<QueryPair> {
    pairs.map_values(|pair: (String, String)| (pair.0@, pair.1@))
}

/// The pair of `key` and `value`, where there is a value.
pub open spec fn optional_pair(key: Seq<char>, value: Option<Seq<char>>) -> Seq<QueryPair> {
    match value {
        Some(text) => seq![(key, text)],
        None => Seq::empty(),
    }
}

/// The pair of `key` and the parts joined by commas, where there is a part.
pub open spec fn list_pair(key: Seq<char>, parts: Seq<Seq<char>>) -> Seq<QueryPair> {
    if parts.len() == 0 {
        Seq::empty()
    } else {
        seq![(key, joined(parts, ","@))]
    }
}

/// The pair that asks for pages, where pages are asked for.
pub open spec fn paginated_pair(paginated: bool) -> Seq<QueryPair> {
    if paginated {
        seq![("paginated"@, "true"@)]
    } else {
        Seq::empty()
    }
}

/// The member of `key` and the array of `docs`, where there is a document.
pub open spec fn list_member(key: Seq<char>, docs: Seq<Json>) -> Seq<(Seq<char>, Json)> {
    if docs.len() == 0 {
        Seq::empty()
    } else {
        seq![(key, Json::List(docs))]
    }
}

/// Adds the pair of `key` and `value` to `pairs`.
fn put(pairs: &mut Vec<(String, String)>, key: &str, value: String)
    ensures
        pairs_of(final(pairs)@) == pairs_of(old(pairs)@) + seq![(key@, value@)],
{
    pairs.push((key.to_owned(), value));
    assert(pairs_of(pairs@) =~= pairs_of(old(pairs)@) + seq![(key@, value@)]);
}

/// Adds the pair of `key` and the names of `items` joined by commas to
/// `pairs`, where there is an item.
fn put_list<T: Named>(pairs: &mut Vec<(String, String)>, key: &str, items: &Vec<T>)
    ensures
        pairs_of(final(pairs)@) == pairs_of(old(pairs)@) + list_pair(key@, names(items@)),
{
    if items.len() > 0 {
        put(pairs, key, join_names(items.as_slice(), ","));
    } else {
        assert(pairs_of(pairs@) =~= pairs_of(old(pairs)@) + list_pair(key@, names(items@)));
    }
}

/// Adds the pair of `key` and `value` to `pairs`, where there is a value.
fn put_optional(pairs: &mut Vec<(String, String)>, key: &str, value: Option<String>)
    ensures
        pairs_of(final(pairs)@) == pairs_of(old(pairs)@) + optional_pair(
            key@,
            optional_text(value),
        ),
{
    match value {
        Some(text) => {
            put(pairs, key, text);
        },
        None => {
            assert(pairs_of(pairs@) =~= pairs_of(old(pairs)@) + optional_pair(
                key@,
                optional_text(value),
            ));
        },
    }
}

/// Adds the pair that asks for pages to `pairs`, where pages are asked for.
fn put_paginated(pairs: &mut Vec<(String, String)>, paginated: bool)
    ensures
        pairs_of(final(pairs)@) == pairs_of(old(pairs)@) + paginated_pair(paginated),
{
    if paginated {
        put(pairs, "paginated", "true".to_owned());
    } else {
        assert(pairs_of(pairs@) =~= pairs_of(old(pairs)@) + paginated_pair(paginated));
    }
}

/// Adds the member of `key` and `value` to `members`.
fn put_member(members: &mut Vec<Member>, key: &str, value: JsonValue)
    ensures
        (JsonValue::Object(*final(members)))@->Object_0 == (JsonValue::Object(
            *old(members),
        ))@->Object_0 + seq![(key@, value@)],
{
    let ghost before = (JsonValue::Object(*members))@->Object_0;
    members.push(Member { key: key.to_owned(), value });
    assert((JsonValue::Object(*members))@->Object_0 =~= before + seq![(key@, value@)]);
}

/// Adds the member of `key` and the array that stands for `items` to
/// `members`, where there is an item.
fn put_list_member<T: ToJson>(members: &mut Vec<Member>, key: &str, items: &Vec<T>)
    ensures
        (JsonValue::Object(*final(members)))@->Object_0 == (JsonValue::Object(
            *old(members),
        ))@->Object_0 + list_member(key@, documents(items@)),
{
    let ghost before = (JsonValue::Object(*members))@->Object_0;
    if items.len() > 0 {
        put_member(members, key, list_documents(items));
    } else {
        assert((JsonValue::Object(*members))@->Object_0 =~= before + list_member(
            key@,
            documents(items@),
        ));
    }
}

/// `true` or `false`, as a boolean is shown.
pub open spec fn bool_text(b: bool) -> Seq<char> {
    if b {
        "true"@
    } else {
        "false"@
    }
}

/// `true` or `false`, as a boolean is shown.
fn show_bool(b: bool) -> (r: &'static str)
    ensures
        r@ == bool_text(b),
{
    if b {
        "true"
    } else {
        "false"
    }
}

/// The text of `id`, where there is an ID.
pub open spec fn channel_text(id: Option<ChannelId>) -> Option<Seq<char>> {
    match id {
        Some(id) => Some(id@),
        None => None,
    }
}

/// The name of `organisation`, where there is one.
pub open spec fn organisation_text(organisation: Option<Organisation>) -> Option<Seq<char>> {
    match organisation {
        Some(organisation) => Some(organisation.spec_as_str()),
        None => None,
    }
}

/// `text`, or `None` where there is none, as an optional value is shown.
pub open spec fn shown(text: Option<Seq<char>>) -> Seq<char> {
    match text {
        Some(text) => text,
        None => "None"@,
    }
}

/// Filtering criteria for the various video endpoints.
#[derive(Debug, PartialEq, Eq, PartialOrd, Ord, Hash)]
pub struct VideoFilter {
    /// Only return videos from that channel.
    pub channel_id: Option<ChannelId>,
    /// Only return videos with any of these IDs.
    pub id: Vec<VideoId>,
    /// Only return videos from a specific organization.
    pub org: Option<Organisation>,
    /// Extra information to return with each video.
    pub includes: Vec<ExtraVideoInfo>,
    /// If only videos of a specific [`Language`] should be returned.
    pub lang: Vec<Language>,
    /// Max amount of hours in the future to return videos from. Videos
    /// scheduled further in the future will not be returned.
    pub max_upcoming_hours: u32,
    /// If only videos mentioning a specific channel should be returned.
    pub mentioned_channel_id: Option<ChannelId>,
    /// Which statuses the videos should have.
    pub status: Vec<VideoStatus>,
    /// A topic that the videos should be related to.
    pub topic: Option<String>,
    /// The type of the videos.
    pub video_type: VideoType,
    /// Only include videos with `available_at` later than this time.
    pub from: Option<Timestamp>,
    /// If the results should be paginated.
    /// If so, the length of the results will limited to `limit`, with an offset of `offset`.
    pub paginated: bool,
    /// If `paginated` is true, only this many videos will be returned.
    pub limit: u32,
    /// If `paginated` is true, the results will be offset by this many videos.
    pub offset: i32,
    /// By what criteria the videos should be sorted.
    pub sort_by: VideoSortingCriteria,
    /// In what order the videos should be sorted, ascending or descending.
    pub order: Order,
}

impl VideoFilter {
    /// Whether the two filters ask for the same videos in the same order,
    /// whatever part of them each asks for.
    pub open spec fn same_criteria(self, other: VideoFilter) -> bool {
        &&& self.channel_id == other.channel_id
        &&& self.id@ == other.id@
        &&& self.org == other.org
        &&& self.includes@ == other.includes@
        &&& self.lang@ == other.lang@
        &&& self.max_upcoming_hours == other.max_upcoming_hours
        &&& self.mentioned_channel_id == other.mentioned_channel_id
        &&& self.status@ == other.status@
        &&& self.topic == other.topic
        &&& self.video_type == other.video_type
        &&& self.from == other.from
        &&& self.sort_by == other.sort_by
        &&& self.order == other.order
    }

    /// Whether the two filters are the same in every field.
    pub open spec fn same_as(self, other: VideoFilter) -> bool {
        &&& self.same_criteria(other)
        &&& self.paginated == other.paginated
        &&& self.limit == other.limit
        &&& self.offset == other.offset
    }

    /// Whether the filter holds the default values: live information of at
    /// most 100 streams of Hololive in any language, in pages, those that
    /// become available last coming first, and none that starts more than 48
    /// hours from now.
    pub open spec fn is_default(self) -> bool {
        &&& self.channel_id is None
        &&& self.id@.len() == 0
        &&& self.org == Some(Organisation::Hololive)
        &&& self.includes@ == seq![ExtraVideoInfo::LiveInfo]
        &&& self.lang@ == seq![Language::All]
        &&& self.max_upcoming_hours == 48
        &&& self.mentioned_channel_id is None
        &&& self.status@.len() == 0
        &&& self.topic is None
        &&& self.video_type == VideoType::Stream
        &&& self.from is None
        &&& self.paginated
        &&& self.limit == 100
        &&& self.offset == 0
        &&& self.sort_by == VideoSortingCriteria::AvailableAt
        &&& self.order == Order::Descending
    }

    /// The pairs of the query string that asks for what the filter says: a
    /// pair for each field in the order of the fields, but none for an
    /// optional field without a value, for a list without an item, or for
    /// `paginated` where it is not set.
    pub open spec fn spec_query(self) -> Seq<QueryPair> {
        optional_pair("channel_id"@, channel_text(self.channel_id)) + list_pair(
            "id"@,
            names(self.id@),
        ) + optional_pair("org"@, organisation_text(self.org)) + list_pair(
            "\u{69}nclude"@,
            names(self.includes@),
        ) + list_pair("lang"@, names(self.lang@)) + seq![
            ("max_upcoming_hours"@, decimal_text(self.max_upcoming_hours as nat)),
        ] + optional_pair("mentioned_channel_id"@, channel_text(self.mentioned_channel_id))
            + list_pair("status"@, names(self.status@)) + optional_pair(
            "topic"@,
            optional_text(self.topic),
        ) + seq![("type"@, self.video_type.spec_as_str())] + optional_pair(
            "from"@,
            match self.from {
                Some(at) => Some(timestamp_rfc3339(at.spec_secs(), at.spec_nanos())),
                None => None,
            },
        ) + paginated_pair(self.paginated) + seq![("limit"@, decimal_text(self.limit as nat))]
            + seq![("offset"@, signed_decimal_text(self.offset as int))] + seq![
            ("sort"@, self.sort_by.spec_as_str()),
        ] + seq![("order"@, self.order.spec_as_str())]
    }

    /// How the filter is shown: its name and, in braces, each field with its
    /// value on a line of its own.
    pub open spec fn spec_to_string(self) -> Seq<char> {
        "VideoFilter {\n                channel_id: "@ + shown(channel_text(self.channel_id))
            + ",\n                id: "@ + joined(names(self.id@), ", "@)
            + ",\n                org: "@ + shown(organisation_text(self.org))
            + ",\n                \u{69}nclude: "@ + joined(names(self.includes@), ", "@)
            + ",\n                lang: "@ + joined(names(self.lang@), ", "@)
            + ",\n                max_upcoming_hours: "@ + decimal_text(
            self.max_upcoming_hours as nat,
        ) + ",\n                mentioned_channel_id: "@ + shown(
            channel_text(self.mentioned_channel_id),
        ) + ",\n                paginated: "@ + bool_text(self.paginated)
            + ",\n                limit: "@ + decimal_text(self.limit as nat)
            + ",\n                offset: "@ + signed_decimal_text(self.offset as int)
            + ",\n                sort_by: "@ + self.sort_by.spec_to_string()
            + ",\n                order: "@ + self.order.spec_to_string()
            + ",\n                status: "@ + joined(names(self.status@), ", "@)
            + ",\n                topic: "@ + shown(optional_text(self.topic))
            + ",\n                video_type: "@ + self.video_type.spec_to_string()
            + ",\n                from: "@ + shown(
            match self.from {
                Some(at) => Some(timestamp_display(at.spec_secs(), at.spec_nanos())),
                None => None,
            },
        ) + ",\n             }"@
    }

    /// Create a new `VideoFilter` with default values.
    #[must_use]
    pub fn new() -> (r: Self)
        ensures
            r.is_default(),
    {
        let mut includes: Vec<ExtraVideoInfo> = Vec::new();
        includes.push(ExtraVideoInfo::LiveInfo);
        let mut lang: Vec<Language> = Vec::new();
        lang.push(Language::All);
        let r = VideoFilter {
            channel_id: None,
            id: Vec::new(),
            includes,
            lang,
            limit: 100,
            max_upcoming_hours: 48,
            mentioned_channel_id: None,
            offset: 0,
            order: Order::Descending,
            org: Some(Organisation::Hololive),
            paginated: true,
            sort_by: VideoSortingCriteria::AvailableAt,
            status: Vec::new(),
            topic: None,
            video_type: VideoType::Stream,
            from: None,
        };
        assert(r.includes@ =~= seq![ExtraVideoInfo::LiveInfo]);
        assert(r.lang@ =~= seq![Language::All]);
        r
    }

    /// The pairs of the query string that asks for what the filter says.
    pub fn query(&self) -> (r: Vec<(String, String)>)
        ensures
            pairs_of(r@) == self.spec_query(),
    {
        let mut pairs: Vec<(String, String)> = Vec::new();
        assert(pairs_of(pairs@) =~= Seq::empty());
        match &self.channel_id {
            Some(id) => {
                put(&mut pairs, "channel_id", id.to_string());
            },
            None => {},
        }
        assert(pairs_of(pairs@) =~= optional_pair("channel_id"@, channel_text(self.channel_id)));
        put_list(&mut pairs, "id", &self.id);
        put_optional(
            &mut pairs,
            "org",
            match &self.org {
                Some(org) => Some(org.to_string()),
                None => None,
            },
        );
        put_list(&mut pairs, "\u{69}nclude", &self.includes);
        put_list(&mut pairs, "lang", &self.lang);
        put(&mut pairs, "max_upcoming_hours", u64_text(self.max_upcoming_hours as u64));
        put_optional(
            &mut pairs,
            "mentioned_channel_id",
            match &self.mentioned_channel_id {
                Some(id) => Some(id.to_string()),
                None => None,
            },
        );
        put_list(&mut pairs, "status", &self.status);
        put_optional(
            &mut pairs,
            "topic",
            match &self.topic {
                Some(topic) => Some(topic.clone()),
                None => None,
            },
        );
        put(&mut pairs, "type", self.video_type.as_str().to_owned());
        put_optional(
            &mut pairs,
            "from",
            match &self.from {
                Some(at) => Some(at.to_rfc3339()),
                None => None,
            },
        );
        put_paginated(&mut pairs, self.paginated);
        put(&mut pairs, "limit", u64_text(self.limit as u64));
        put(&mut pairs, "offset", i64_text(self.offset as i64));
        put(&mut pairs, "sort", self.sort_by.as_str().to_owned());
        put(&mut pairs, "order", self.order.as_str().to_owned());
        pairs
    }

    /// How the filter is shown.
    pub fn to_string(&self) -> (r: String)
        ensures
            r@ == self.spec_to_string(),
    {
        let mut out = String::new();
        out.append("VideoFilter {\n                channel_id: ");
        assert(out@ =~= "VideoFilter {\n                channel_id: "@);
        match &self.channel_id {
            Some(id) => out.append(id.as_str()),
            None => out.append("None"),
        }
        out.append(",\n                id: ");
        out.append(join_names(self.id.as_slice(), ", ").as_str());
        out.append(",\n                org: ");
        match &self.org {
            Some(org) => out.append(org.as_str()),
            None => out.append("None"),
        }
        out.append(",\n                \u{69}nclude: ");
        out.append(join_names(self.includes.as_slice(), ", ").as_str());
        out.append(",\n                lang: ");
        out.append(join_names(self.lang.as_slice(), ", ").as_str());
        out.append(",\n                max_upcoming_hours: ");
        out.append(u64_text(self.max_upcoming_hours as u64).as_str());
        out.append(",\n                mentioned_channel_id: ");
        match &self.mentioned_channel_id {
            Some(id) => out.append(id.as_str()),
            None => out.append("None"),
        }
        out.append(",\n                paginated: ");
        out.append(show_bool(self.paginated));
        out.append(",\n                limit: ");
        out.append(u64_text(self.limit as u64).as_str());
        out.append(",\n                offset: ");
        out.append(i64_text(self.offset as i64).as_str());
        out.append(",\n                sort_by: ");
        out.append(self.sort_by.to_string().as_str());
        out.append(",\n                order: ");
        out.append(self.order.to_string().as_str());
        out.append(",\n                status: ");
        out.append(join_names(self.status.as_slice(), ", ").as_str());
        out.append(",\n                topic: ");
        match &self.topic {
            Some(topic) => out.append(topic.as_str()),
            None => out.append("None"),
        }
        out.append(",\n                video_type: ");
        out.append(self.video_type.to_string().as_str());
        out.append(",\n                from: ");
        match &self.from {
            Some(at) => out.append(at.to_string().as_str()),
            None => out.append("None"),
        }
        out.append(",\n             }");
        out
    }
}

impl Clone for VideoFilter {
    fn clone(&self) -> (r: Self)
        ensures
            r.same_as(*self),
    {
        let r = VideoFilter {
            channel_id: self.channel_id.clone(),
            id: self.id.clone(),
            org: self.org.clone(),
            includes: self.includes.clone(),
            lang: self.lang.clone(),
            max_upcoming_hours: self.max_upcoming_hours,
            mentioned_channel_id: self.mentioned_channel_id.clone(),
            status: self.status.clone(),
            topic: self.topic.clone(),
            video_type: self.video_type,
            from: self.from,
            paginated: self.paginated,
            limit: self.limit,
            offset: self.offset,
            sort_by: self.sort_by,
            order: self.order,
        };
        assert(r.id@ =~= self.id@);
        assert(r.includes@ =~= self.includes@);
        assert(r.lang@ =~= self.lang@);
        assert(r.status@ =~= self.status@);
        r
    }
}

impl Default for VideoFilter {
    fn default() -> (r: Self)
        ensures
            r.is_default(),
    {
        VideoFilter::new()
    }
}

/// Filtering criteria for videos related to a channel.
#[derive(Debug, PartialEq, Eq, PartialOrd, Ord, Hash)]
pub struct ChannelVideoFilter {
    /// Extra information to return with each video.
    pub includes: Vec<ExtraVideoInfo>,
    /// If only videos of a specific [`Language`] should be returned.
    pub languages: Vec<Language>,
    /// If the results should be paginated.
    /// If so, the length of the results will limited to `limit`, with an offset of `offset`.
    pub paginated: bool,
    /// If `paginated` is true, only this many videos will be returned.
    pub limit: u32,
    /// If `paginated` is true, the results will be offset by this many videos.
    pub offset: i32,
}

impl ChannelVideoFilter {
    /// Whether the two filters ask for the same videos, whatever part of
    /// them each asks for.
    pub open spec fn same_criteria(self, other: ChannelVideoFilter) -> bool {
        &&& self.includes@ == other.includes@
        &&& self.languages@ == other.languages@
    }

    /// Whether the two filters are the same in every field.
    pub open spec fn same_as(self, other: ChannelVideoFilter) -> bool {
        &&& self.same_criteria(other)
        &&& self.paginated == other.paginated
        &&& self.limit == other.limit
        &&& self.offset == other.offset
    }

    /// Whether the filter holds the default values: live information of at
    /// most 100 videos in any language, in pages.
    pub open spec fn is_default(self) -> bool {
        &&& self.includes@ == seq![ExtraVideoInfo::LiveInfo]
        &&& self.languages@ == seq![Language::All]
        &&& self.paginated
        &&& self.limit == 100
        &&& self.offset == 0
    }

    /// The pairs of the query string that asks for what the filter says: a
    /// pair for each field in the order of the fields, but none for a list
    /// without an item, or for `paginated` where it is not set.
    pub open spec fn spec_query(self) -> Seq<QueryPair> {
        Self::query_of(self.includes@, self.languages@, self.paginated, self.limit, self.offset)
    }

    /// The pairs of the query string of a filter with the given fields.
    pub open spec fn query_of(
        includes: Seq<ExtraVideoInfo>,
        languages: Seq<Language>,
        paginated: bool,
        limit: u32,
        offset: i32,
    ) -> Seq<QueryPair> {
        list_pair("\u{69}nclude"@, names(includes)) + list_pair("lang"@, names(languages))
            + paginated_pair(paginated) + seq![("limit"@, decimal_text(limit as nat))] + seq![
            ("offset"@, signed_decimal_text(offset as int)),
        ]
    }

    /// How the filter is shown: its name and, in braces, each field with its
    /// value.
    pub open spec fn spec_to_string(self) -> Seq<char> {
        "ChannelVideoFilter { \u{69}nclude: "@ + joined(names(self.includes@), ", "@) + ", lang: "@
            + joined(names(self.languages@), ", "@) + ", paginated: "@ + bool_text(self.paginated)
            + ", limit: "@ + decimal_text(self.limit as nat) + ", offset: "@ + signed_decimal_text(
            self.offset as int,
        ) + " }"@
    }

    /// Create a new `ChannelVideoFilter` with default values.
    #[must_use]
    pub fn new() -> (r: Self)
        ensures
            r.is_default(),
    {
        let mut includes: Vec<ExtraVideoInfo> = Vec::new();
        includes.push(ExtraVideoInfo::LiveInfo);
        let mut languages: Vec<Language> = Vec::new();
        languages.push(Language::All);
        let r = ChannelVideoFilter { includes, languages, limit: 100, offset: 0, paginated: true };
        assert(r.includes@ =~= seq![ExtraVideoInfo::LiveInfo]);
        assert(r.languages@ =~= seq![Language::All]);
        r
    }

    /// The pairs of the query string that asks for what the filter says.
    pub fn query(&self) -> (r: Vec<(String, String)>)
        ensures
            pairs_of(r@) == self.spec_query(),
    {
        let mut pairs: Vec<(String, String)> = Vec::new();
        assert(pairs_of(pairs@) =~= Seq::empty());
        if self.includes.len() > 0 {
            put(&mut pairs, "\u{69}nclude", join_names(self.includes.as_slice(), ","));
        }
        assert(pairs_of(pairs@) =~= list_pair("\u{69}nclude"@, names(self.includes@)));
        put_list(&mut pairs, "lang", &self.languages);
        put_paginated(&mut pairs, self.paginated);
        put(&mut pairs, "limit", u64_text(self.limit as u64));
        put(&mut pairs, "offset", i64_text(self.offset as i64));
        pairs
    }

    /// How the filter is shown.
    pub fn to_string(&self) -> (r: String)
        ensures
            r@ == self.spec_to_string(),
    {
        let mut out = String::new();
        out.append("ChannelVideoFilter { \u{69}nclude: ");
        assert(out@ =~= "ChannelVideoFilter { \u{69}nclude: "@);
        out.append(join_names(self.includes.as_slice(), ", ").as_str());
        out.append(", lang: ");
        out.append(join_names(self.languages.as_slice(), ", ").as_str());
        out.append(", paginated: ");
        out.append(show_bool(self.paginated));
        out.append(", limit: ");
        out.append(u64_text(self.limit as u64).as_str());
        out.append(", offset: ");
        out.append(i64_text(self.offset as i64).as_str());
        out.append(" }");
        out
    }
}

impl Clone for ChannelVideoFilter {
    fn clone(&self) -> (r: Self)
        ensures
            r.same_as(*self),
    {
        let r = ChannelVideoFilter {
            includes: self.includes.clone(),
            languages: self.languages.clone(),
            paginated: self.paginated,
            limit: self.limit,
            offset: self.offset,
        };
        assert(r.includes@ =~= self.includes@);
        assert(r.languages@ =~= self.languages@);
        r
    }
}

impl Default for ChannelVideoFilter {
    fn default() -> (r: Self)
        ensures
            r.is_default(),
    {
        ChannelVideoFilter::new()
    }
}

/// Filtering criteria for channels.
#[derive(Debug, PartialEq, Eq, PartialOrd, Ord, Hash)]
pub struct ChannelFilter {
    /// Only show channels that uses any of the given languages as their main language.
    pub languages: Vec<Language>,
    /// In what order the channels should be sorted, ascending or descending.
    pub order: Order,
    /// By what criteria the channels should be sorted.
    pub sort_by: ChannelSortingCriteria,
    /// Only return channels from a specific organization.
    pub organisation: Option<Organisation>,
    /// Only show channels of the given type.
    pub channel_type: Option<ChannelType>,
    /// Limit the number of returned channels to the given value.
    ///
    /// Value must be between `0` and `50`, inclusive.
    pub limit: u32,
    /// Offset the returned values by the given amount of places.
    pub offset: i32,
}

impl ChannelFilter {
    /// Whether the two filters are the same in every field.
    pub open spec fn same_as(self, other: ChannelFilter) -> bool {
        &&& self.languages@ == other.languages@
        &&& self.order == other.order
        &&& self.sort_by == other.sort_by
        &&& self.organisation == other.organisation
        &&& self.channel_type == other.channel_type
        &&& self.limit == other.limit
        &&& self.offset == other.offset
    }

    /// Whether the filter holds the default values: at most 25 channels of
    /// any language, organisation and type, by organisation in ascending
    /// order.
    pub open spec fn is_default(self) -> bool {
        &&& self.languages@.len() == 0
        &&& self.order == Order::Ascending
        &&& self.sort_by == ChannelSortingCriteria::Organisation
        &&& self.organisation is None
        &&& self.channel_type is None
        &&& self.limit == 25
        &&& self.offset == 0
    }

    /// The pairs of the query string that asks for what the filter says,
    /// where it names no language: a pair for each field in the order of the
    /// fields, but none for an optional field without a value.
    pub open spec fn spec_query(self) -> Seq<QueryPair> {
        seq![("order"@, self.order.spec_as_str())] + seq![("sort"@, self.sort_by.spec_as_str())]
            + optional_pair("org"@, organisation_text(self.organisation)) + optional_pair(
            "type"@,
            match self.channel_type {
                Some(channel_type) => Some(channel_type.spec_as_str()),
                None => None,
            },
        ) + seq![("limit"@, decimal_text(self.limit as nat))] + seq![
            ("offset"@, signed_decimal_text(self.offset as int)),
        ]
    }

    /// The pairs of the query string that asks for what the filter says.
    ///
    /// # Errors
    /// A query string has no form for a list of languages: a filter that
    /// names a language gives [`Error::FilterCreationError`].
    pub fn query(&self) -> (r: Result<Vec<(String, String)>, Error>)
        ensures
            match r {
                Ok(pairs) => self.languages@.len() == 0 && pairs_of(pairs@) == self.spec_query(),
                Err(Error::FilterCreationError(reason)) => self.languages@.len() > 0 && reason@
                    == "unsupported value"@,
                Err(_) => false,
            },
    {
        if self.languages.len() > 0 {
            return Err(Error::FilterCreationError("unsupported value".to_owned()));
        }
        let mut pairs: Vec<(String, String)> = Vec::new();
        assert(pairs_of(pairs@) =~= Seq::empty());
        pairs.push(("order".to_owned(), self.order.as_str().to_owned()));
        assert(pairs_of(pairs@) =~= seq![("order"@, self.order.spec_as_str())]);
        put(&mut pairs, "sort", self.sort_by.as_str().to_owned());
        put_optional(
            &mut pairs,
            "org",
            match &self.organisation {
                Some(organisation) => Some(organisation.to_string()),
                None => None,
            },
        );
        put_optional(
            &mut pairs,
            "type",
            match &self.channel_type {
                Some(channel_type) => Some(channel_type.as_str().to_owned()),
                None => None,
            },
        );
        put(&mut pairs, "limit", u64_text(self.limit as u64));
        put(&mut pairs, "offset", i64_text(self.offset as i64));
        Ok(pairs)
    }
}

impl Clone for ChannelFilter {
    fn clone(&self) -> (r: Self)
        ensures
            r.same_as(*self),
    {
        let r = ChannelFilter {
            languages: self.languages.clone(),
            order: self.order,
            sort_by: self.sort_by,
            organisation: self.organisation.clone(),
            channel_type: self.channel_type,
            limit: self.limit,
            offset: self.offset,
        };
        assert(r.languages@ =~= self.languages@);
        r
    }
}

impl Default for ChannelFilter {
    fn default() -> (r: Self)
        ensures
            r.is_default(),
    {
        ChannelFilter {
            languages: Vec::new(),
            order: Order::Ascending,
            sort_by: ChannelSortingCriteria::Organisation,
            organisation: None,
            channel_type: None,
            limit: 25,
            offset: 0,
        }
    }
}

/// The number `n` as a JSON document.
pub open spec fn integer_document(n: int) -> Json {
    if n < 0 {
        Json::NegInt(n as i64)
    } else {
        Json::PosInt(n as u64)
    }
}

/// The member that asks for pages, where pages are asked for.
pub open spec fn paginated_member(paginated: bool) -> Seq<(Seq<char>, Json)> {
    if paginated {
        seq![("paginated"@, Json::Text("true"@))]
    } else {
        Seq::empty()
    }
}

/// Adds the members that page a search to `members`.
fn put_paging(members: &mut Vec<Member>, paginated: bool, limit: u32, offset: i32)
    ensures
        (JsonValue::Object(*final(members)))@->Object_0 == (JsonValue::Object(
            *old(members),
        ))@->Object_0 + paginated_member(paginated) + seq![
            ("limit"@, integer_document(limit as int)),
        ] + seq![("offset"@, integer_document(offset as int))],
{
    let ghost before = (JsonValue::Object(*members))@->Object_0;
    if paginated {
        put_member(members, "paginated", JsonValue::String("true".to_owned()));
    } else {
        assert((JsonValue::Object(*members))@->Object_0 =~= before + paginated_member(paginated));
    }
    put_member(members, "limit", JsonValue::PosInt(limit as u64));
    if offset < 0 {
        put_member(members, "offset", JsonValue::NegInt(offset as i64));
    } else {
        put_member(members, "offset", JsonValue::PosInt(offset as u64));
    }
}

/// Filtering criteria for video searches.
#[derive(Debug, PartialEq, Eq, PartialOrd, Ord, Hash)]
pub struct VideoSearch {
    /// In what order the videos should be returned.
    pub sort_order: SearchOrder,
    /// Filter away any clips that are not in any of the given languages.
    ///
    /// Streams will always be included no matter their language.
    pub languages: Vec<Language>,
    /// Only return videos that are any of the given types.
    pub types: Vec<VideoType>,
    /// Only return videos that meet the given conditions.
    pub conditions: Vec<VideoSearchCondition>,
    /// Only return videos that are related to any of the given topics.
    pub topics: Vec<String>,
    /// Only return videos that involve all of the given channels.
    ///
    /// If two or more channel IDs are specified, only collabs with all of them will be returned,
    /// or if one channel is a clipper, it will only show clips of the other channels made by this clipper.
    pub channels: Vec<ChannelId>,
    /// Only return videos from channels in the given organisation,
    /// or are clips from a channel in the organisation.
    pub organisations: Vec<Organisation>,
    /// If the results should be paginated.
    /// If so, the length of the results will limited to `limit`, with an offset of `offset`.
    pub paginated: bool,
    /// If `paginated` is true, only this many videos will be returned.
    pub limit: u32,
    /// If `paginated` is true, the results will be offset by this many videos.
    pub offset: i32,
}

impl VideoSearch {
    /// Whether the two searches are the same in every field.
    pub open spec fn same_as(self, other: VideoSearch) -> bool {
        &&& self.sort_order == other.sort_order
        &&& self.languages@ == other.languages@
        &&& self.types@ == other.types@
        &&& self.conditions@ == other.conditions@
        &&& self.topics@ == other.topics@
        &&& self.channels@ == other.channels@
        &&& self.organisations@ == other.organisations@
        &&& self.paginated == other.paginated
        &&& self.limit == other.limit
        &&& self.offset == other.offset
    }

    /// Whether the search holds the default values: the newest 30 videos of
    /// any kind, in pages.
    pub open spec fn is_default(self) -> bool {
        &&& self.sort_order == SearchOrder::Newest
        &&& self.languages@.len() == 0
        &&& self.types@.len() == 0
        &&& self.conditions@.len() == 0
        &&& self.topics@.len() == 0
        &&& self.channels@.len() == 0
        &&& self.organisations@.len() == 0
        &&& self.paginated
        &&& self.limit == 30
        &&& self.offset == 0
    }

    /// The members of the JSON body that asks for what the search says: a
    /// member for each field in the order of the fields, but none for a list
    /// without an item, or for `paginated` where it is not set.
    pub open spec fn spec_members(self) -> Seq<(Seq<char>, Json)> {
        seq![("sort"@, Json::Text(self.sort_order.spec_as_str()))] + list_member(
            "lang"@,
            documents(self.languages@),
        ) + list_member("target"@, documents(self.types@)) + list_member(
            "conditions"@,
            documents(self.conditions@),
        ) + list_member("topic"@, documents(self.topics@)) + list_member(
            "vch"@,
            documents(self.channels@),
        ) + list_member("org"@, documents(self.organisations@)) + paginated_member(self.paginated)
            + seq![("limit"@, integer_document(self.limit as int))] + seq![
            ("offset"@, integer_document(self.offset as int)),
        ]
    }

    /// The JSON body that asks for what the search says.
    pub fn to_json(&self) -> (r: JsonValue)
        ensures
            r@ == Json::Object(self.spec_members()),
    {
        let mut members: Vec<Member> = Vec::new();
        assert((JsonValue::Object(members))@->Object_0 =~= Seq::empty());
        put_member(&mut members, "sort", JsonValue::String(self.sort_order.as_str().to_owned()));
        assert((JsonValue::Object(members))@->Object_0 =~= seq![
            ("sort"@, Json::Text(self.sort_order.spec_as_str())),
        ]);
        put_list_member(&mut members, "lang", &self.languages);
        put_list_member(&mut members, "target", &self.types);
        put_list_member(&mut members, "conditions", &self.conditions);
        put_list_member(&mut members, "topic", &self.topics);
        put_list_member(&mut members, "vch", &self.channels);
        put_list_member(&mut members, "org", &self.organisations);
        put_paging(&mut members, self.paginated, self.limit, self.offset);
        JsonValue::Object(members)
    }
}

impl Clone for VideoSearch {
    fn clone(&self) -> (r: Self)
        ensures
            r.same_as(*self),
    {
        let r = VideoSearch {
            sort_order: self.sort_order,
            languages: self.languages.clone(),
            types: self.types.clone(),
            conditions: self.conditions.clone(),
            topics: self.topics.clone(),
            channels: self.channels.clone(),
            organisations: self.organisations.clone(),
            paginated: self.paginated,
            limit: self.limit,
            offset: self.offset,
        };
        assert(r.languages@ =~= self.languages@);
        assert(r.types@ =~= self.types@);
        assert(r.conditions@ =~= self.conditions@);
        assert(r.topics@ =~= self.topics@);
        assert(r.channels@ =~= self.channels@);
        assert(r.organisations@ =~= self.organisations@);
        r
    }
}

impl Default for VideoSearch {
    fn default() -> (r: Self)
        ensures
            r.is_default(),
    {
        VideoSearch {
            sort_order: SearchOrder::Newest,
            languages: Vec::new(),
            types: Vec::new(),
            conditions: Vec::new(),
            topics: Vec::new(),
            channels: Vec::new(),
            organisations: Vec::new(),
            paginated: true,
            limit: 30,
            offset: 0,
        }
    }
}

/// Filtering criteria for comment searches.
#[derive(Debug, PartialEq, Eq, PartialOrd, Ord, Hash)]
pub struct CommentSearch {
    /// Only return comments that include the given substring.
    pub search: String,
    /// In what order the comments should be returned.
    pub sort_order: SearchOrder,
    /// Filter away any comments on clips that are not in any of the given languages.
    ///
    /// Comment on streams will always be included no matter their language.
    pub languages: Vec<Language>,
    /// Only return comments on videos that are any of the given types.
    pub types: Vec<VideoType>,
    /// Only return comments on videos that are related to any of the given topics.
    pub topics: Vec<String>,
    /// Only return comments on videos that involve all of the given channels.
    ///
    /// If two or more channel IDs are specified,
    /// only comments on collabs with all of them will be returned,
    /// or if one channel is a clipper,
    /// it will only return comments on clips of the other channels made by this clipper.
    pub channels: Vec<ChannelId>,
    /// Only return comments on videos from channels in the given organisation,
    /// or that are clips from a channel in the organisation.
    pub organisations: Vec<Organisation>,
    /// If the results should be paginated.
    /// If so, the length of the results will limited to `limit`, with an offset of `offset`.
    pub paginated: bool,
    /// If `paginated` is true, only this many comments will be returned.
    pub limit: u32,
    /// If `paginated` is true, the results will be offset by this many comments.
    pub offset: i32,
}

impl CommentSearch {
    /// Whether the two searches are the same in every field.
    pub open spec fn same_as(self, other: CommentSearch) -> bool {
        &&& self.search == other.search
        &&& self.sort_order == other.sort_order
        &&& self.languages@ == other.languages@
        &&& self.types@ == other.types@
        &&& self.topics@ == other.topics@
        &&& self.channels@ == other.channels@
        &&& self.organisations@ == other.organisations@
        &&& self.paginated == other.paginated
        &&& self.limit == other.limit
        &&& self.offset == other.offset
    }

    /// Whether the search holds the default values: the newest 30 comments
    /// that hold the empty string, on videos of any kind, in pages.
    pub open spec fn is_default(self) -> bool {
        &&& self.search@.len() == 0
        &&& self.sort_order == SearchOrder::Newest
        &&& self.languages@.len() == 0
        &&& self.types@.len() == 0
        &&& self.topics@.len() == 0
        &&& self.channels@.len() == 0
        &&& self.organisations@.len() == 0
        &&& self.paginated
        &&& self.limit == 30
        &&& self.offset == 0
    }

    /// The members of the JSON body that asks for what the search says: a
    /// member for each field in the order of the fields, but none for a list
    /// without an item, or for `paginated` where it is not set.
    pub open spec fn spec_members(self) -> Seq<(Seq<char>, Json)> {
        seq![("comment"@, Json::Text(self.search@))] + seq![
            ("sort"@, Json::Text(self.sort_order.spec_as_str())),
        ] + list_member("lang"@, documents(self.languages@)) + list_member(
            "target"@,
            documents(self.types@),
        ) + list_member("topic"@, documents(self.topics@)) + list_member(
            "vch"@,
            documents(self.channels@),
        ) + list_member("org"@, documents(self.organisations@)) + paginated_member(self.paginated)
            + seq![("limit"@, integer_document(self.limit as int))] + seq![
            ("offset"@, integer_document(self.offset as int)),
        ]
    }

    /// The JSON body that asks for what the search says.
    pub fn to_json(&self) -> (r: JsonValue)
        ensures
            r@ == Json::Object(self.spec_members()),
    {
        let mut members: Vec<Member> = Vec::new();
        assert((JsonValue::Object(members))@->Object_0 =~= Seq::empty());
        put_member(&mut members, "comment", JsonValue::String(self.search.clone()));
        assert((JsonValue::Object(members))@->Object_0 =~= seq![
            ("comment"@, Json::Text(self.search@)),
        ]);
        put_member(&mut members, "sort", JsonValue::String(self.sort_order.as_str().to_owned()));
        put_list_member(&mut members, "lang", &self.languages);
        put_list_member(&mut members, "target", &self.types);
        put_list_member(&mut members, "topic", &self.topics);
        put_list_member(&mut members, "vch", &self.channels);
        put_list_member(&mut members, "org", &self.organisations);
        put_paging(&mut members, self.paginated, self.limit, self.offset);
        JsonValue::Object(members)
    }
}

impl Clone for CommentSearch {
    fn clone(&self) -> (r: Self)
        ensures
            r.same_as(*self),
    {
        let r = CommentSearch {
            search: self.search.clone(),
            sort_order: self.sort_order,
            languages: self.languages.clone(),
            types: self.types.clone(),
            topics: self.topics.clone(),
            channels: self.channels.clone(),
            organisations: self.organisations.clone(),
            paginated: self.paginated,
            limit: self.limit,
            offset: self.offset,
        };
        assert(r.languages@ =~= self.languages@);
        assert(r.types@ =~= self.types@);
        assert(r.topics@ =~= self.topics@);
        assert(r.channels@ =~= self.channels@);
        assert(r.organisations@ =~= self.organisations@);
        r
    }
}

impl Default for CommentSearch {
    fn default() -> (r: Self)
        ensures
            r.is_default(),
    {
        CommentSearch {
            search: String::new(),
            sort_order: SearchOrder::Newest,
            languages: Vec::new(),
            types: Vec::new(),
            topics: Vec::new(),
            channels: Vec::new(),
            organisations: Vec::new(),
            paginated: true,
            limit: 30,
            offset: 0,
        }
    }
}

} // verus!
