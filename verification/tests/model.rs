use holodex::errors::ParseError;
use holodex::json::FromJson;
use holodex::json::JsonValue;
use holodex::json::Member;
use holodex::model::Channel;
use holodex::model::ChannelType;
use holodex::model::Language;
use holodex::model::Organisation;
use holodex::model::PaginatedResult;
use holodex::model::PaginatedTotal;
use holodex::model::Video;
use holodex::model::VideoChannel;
use holodex::model::VideoFull;
use holodex::model::VideoStatus;
use holodex::model::VideoType;
use holodex::time::Duration;
use holodex::util::validate_json_bytes;
use std::hash::Hasher;

fn read<T: FromJson>(text: &str) -> Option<T> {
    validate_json_bytes::<T>(text.as_bytes()).ok()
}

#[test]
fn total_is_read_from_a_number_and_from_a_string() {
    let from_number: PaginatedResult<u32> = read("{\"total\": 1234, \"items\": [1, 2]}").unwrap();
    let from_text: PaginatedResult<u32> = read("{\"total\": \"1234\", \"items\": [1, 2]}").unwrap();
    assert_eq!(from_number.total(), Some(1234));
    assert_eq!(from_text.total(), Some(1234));
    assert_eq!(from_number.items(), from_text.items());
    assert!(matches!(from_number, PaginatedResult::Page { total: PaginatedTotal::U32(1234), .. }));
    assert!(matches!(from_text, PaginatedResult::Page { total: PaginatedTotal::String(1234), .. }));
    assert_eq!(u32::from(PaginatedTotal::U32(1234)), 1234);
    assert_eq!(u32::from(PaginatedTotal::String(1234)), 1234);
    assert_eq!(PaginatedTotal::String(8).value(), 8);
}

#[test]
fn total_is_read_alike_for_many_numbers() {
    for n in [0u32, 1, 9, 10, 99, 100, 50_000, 4_294_967_295] {
        let number = format!("{{\"total\": {}, \"items\": []}}", n);
        let text = format!("{{\"total\": \"{}\", \"items\": []}}", n);
        let from_number: PaginatedResult<u32> = read(&number).unwrap();
        let from_text: PaginatedResult<u32> = read(&text).unwrap();
        assert_eq!(from_number.total(), Some(n));
        assert_eq!(from_text.total(), Some(n));
    }
}

#[test]
fn total_out_of_range_is_refused() {
    assert!(read::<PaginatedResult<u32>>("{\"total\": 4294967296, \"items\": []}").is_none());
    assert!(read::<PaginatedResult<u32>>("{\"total\": \"4294967296\", \"items\": []}").is_none());
    assert!(read::<PaginatedResult<u32>>("{\"total\": -1, \"items\": []}").is_none());
    assert!(read::<PaginatedResult<u32>>("{\"total\": \"-1\", \"items\": []}").is_none());
    assert!(read::<PaginatedResult<u32>>("{\"total\": 1.5, \"items\": []}").is_none());
    assert!(read::<PaginatedResult<u32>>("{\"total\": \"\", \"items\": []}").is_none());
    assert!(read::<PaginatedResult<u32>>("{\"total\": \"12 \", \"items\": []}").is_none());
    assert!(read::<PaginatedResult<u32>>("{\"total\": null, \"items\": []}").is_none());
    assert!(read::<PaginatedResult<u32>>("{\"items\": []}").is_none());
    assert!(read::<PaginatedResult<u32>>("{\"total\": true}").is_none());
}

#[test]
fn total_as_text_may_have_a_plus_and_leading_zeros() {
    let page: PaginatedResult<u32> = read("{\"total\": \"+0042\"}").unwrap();
    assert_eq!(page.total(), Some(42));
}

#[test]
fn bare_array_gives_items() {
    let result: PaginatedResult<u32> = read("[5, 6, 7]").unwrap();
    assert_eq!(result, PaginatedResult::Items(vec![5, 6, 7]));
    assert_eq!(result.total(), None);
    assert_eq!(result.items(), &[5, 6, 7]);
    let empty: PaginatedResult<u32> = read("[]").unwrap();
    assert_eq!(empty, PaginatedResult::Items(vec![]));
}

#[test]
fn page_without_items_is_empty() {
    let result: PaginatedResult<u32> = read("{\"total\": 9}").unwrap();
    assert_eq!(result, PaginatedResult::Page { total: PaginatedTotal::U32(9), items: vec![] });
}

#[test]
fn page_with_unfitting_items_is_refused() {
    assert!(read::<PaginatedResult<u32>>("{\"total\": 9, \"items\": [1, \"two\"]}").is_none());
    assert!(read::<PaginatedResult<u32>>("{\"total\": 9, \"items\": null}").is_none());
    assert!(read::<PaginatedResult<u32>>("{\"total\": 9, \"items\": 3}").is_none());
    assert!(read::<PaginatedResult<u32>>("[1, \"two\"]").is_none());
    assert!(read::<PaginatedResult<u32>>("\"text\"").is_none());
    assert!(read::<PaginatedResult<u32>>("7").is_none());
    assert!(read::<PaginatedResult<u32>>("null").is_none());
}

#[test]
fn page_may_hold_more_items_than_its_total() {
    let result: PaginatedResult<u32> = read("{\"total\": 1, \"items\": [1, 2, 3]}").unwrap();
    assert_eq!(result.total(), Some(1));
    assert_eq!(result.items().len(), 3);
}

#[test]
fn items_can_be_taken_in_every_way() {
    let page = PaginatedResult::Page { total: PaginatedTotal::U32(9), items: vec![3u32, 4] };
    assert_eq!(page.items(), &[3, 4]);
    assert_eq!(page.len(), 2);
    assert_eq!(page[1], 4);
    assert_eq!(page.clone().into_items(), vec![3, 4]);
    assert_eq!(Vec::from(page.clone()), vec![3, 4]);
    assert_eq!(page.into_iter().collect::<Vec<u32>>(), vec![3, 4]);
    let items = PaginatedResult::Items(vec![1u32]);
    assert_eq!(items.items(), &[1]);
    assert_eq!(items.into_items(), vec![1]);
}

#[test]
fn document_is_read_as_it_stands() {
    let doc: JsonValue = read("{\"b\": [1, -2, 2.5, \"x\", null, true], \"a\": {}}").unwrap();
    match &doc {
        JsonValue::Object(members) => {
            assert_eq!(members.len(), 2);
            assert_eq!(members[0].key, "a");
            assert_eq!(members[1].key, "b");
        }
        other => panic!("unexpected document: {:?}", other),
    }
    match doc.get("b") {
        Some(JsonValue::Array(items)) => {
            assert!(matches!(items[0], JsonValue::PosInt(1)));
            assert!(matches!(items[1], JsonValue::NegInt(-2)));
            assert!(matches!(&items[2], JsonValue::Float(numeral) if numeral == "2.5"));
            assert!(matches!(&items[3], JsonValue::String(text) if text == "x"));
            assert!(matches!(items[4], JsonValue::Null));
            assert!(matches!(items[5], JsonValue::Bool(true)));
        }
        other => panic!("unexpected member: {:?}", other),
    }
    assert!(doc.get("c").is_none());
    assert_eq!(doc.to_string(), "{\"a\":{},\"b\":[1,-2,2.5,\"x\",null,true]}");
    assert_eq!(doc.duplicate().to_string(), doc.to_string());
}

#[test]
fn document_parse_reports_where_it_fails() {
    let error = JsonValue::parse(b"[1,\n 2,\n x]").unwrap_err();
    assert_eq!(error.line, 3);
    assert_eq!(error.column, 2);
    assert_eq!(error.message, "expected value at line 3 column 2");
    assert!(JsonValue::parse(b"  {\"k\": 1}  ").is_ok());
    assert!(JsonValue::parse(b"{\"k\": 1} x").is_err());
}

#[test]
fn document_accessors_tell_the_kinds_apart() {
    let doc = JsonValue::Object(vec![
        Member { key: "n".to_owned(), value: JsonValue::PosInt(4_294_967_296) },
        Member { key: "n".to_owned(), value: JsonValue::PosInt(1) },
        Member { key: "s".to_owned(), value: JsonValue::String("12".to_owned()) },
        Member { key: "m".to_owned(), value: JsonValue::NegInt(-5) },
    ]);
    assert!(doc.is_object());
    assert!(!doc.is_null());
    let n = doc.get("n").unwrap();
    assert_eq!(n.as_u64(), Some(1));
    assert_eq!(doc.to_string(), "{\"m\":-5,\"n\":1,\"s\":\"12\"}");
    let large = JsonValue::PosInt(4_294_967_296);
    assert_eq!(large.as_u64(), Some(4_294_967_296));
    assert_eq!(large.as_u32(), None);
    assert_eq!(large.as_i64(), Some(4_294_967_296));
    let s = doc.get("s").unwrap();
    assert_eq!(s.as_str(), Some("12"));
    assert_eq!(s.as_u32_text(), Some(12));
    assert_eq!(s.as_u32(), None);
    let m = doc.get("m").unwrap();
    assert_eq!(m.as_i64(), Some(-5));
    assert_eq!(m.as_u64(), None);
    assert_eq!(JsonValue::PosInt(u64::MAX).as_i64(), None);
    assert_eq!(JsonValue::Bool(true).as_bool(), Some(true));
    assert_eq!(JsonValue::Null.as_bool(), None);
    assert!(JsonValue::Array(vec![]).as_array().unwrap().is_empty());
    assert!(JsonValue::Null.as_array().is_none());
    assert!(JsonValue::Null.get("n").is_none());
}

const VIDEO: &str = "{
    \"id\": \"IhiievWaZMI\",
    \"title\": \"Graduation\",
    \"type\": \"stream\",
    \"topic_id\": \"singing\",
    \"published_at\": \"2021-06-30T10:00:00.000Z\",
    \"available_at\": \"2021-07-01T11:00:00.000Z\",
    \"duration\": 9255,
    \"status\": \"past\",
    \"start_scheduled\": \"2021-07-01T11:00:00.000Z\",
    \"live_viewers\": 491000,
    \"songcount\": 12,
    \"channel\": {
        \"id\": \"UCS9uQI-jC3DE0L4IpXyvr6w\",
        \"name\": \"Coco Ch.\",
        \"english_name\": \"Kiryu Coco\",
        \"type\": \"vtuber\",
        \"photo\": \"https://example.com/coco.jpg\",
        \"org\": \"Hololive\",
        \"subscriber_count\": 1250000
    },
    \"unknown\": [1, 2, 3]
}";

#[test]
fn video_is_read_field_by_field() {
    let video: Video = read(VIDEO).unwrap();
    assert_eq!(video.id.as_str(), "IhiievWaZMI");
    assert_eq!(video.title, "Graduation");
    assert_eq!(video.video_type, VideoType::Stream);
    assert_eq!(video.topic.as_deref(), Some("singing"));
    assert_eq!(video.published_at.unwrap().secs(), 1_625_047_200);
    assert_eq!(video.available_at.secs(), 1_625_137_200);
    assert_eq!(video.available_at.nanos(), 0);
    assert_eq!(video.duration, Some(Duration { seconds: 9255 }));
    assert_eq!(video.status, VideoStatus::Past);
    assert_eq!(video.live_info.start_scheduled.unwrap().secs(), 1_625_137_200);
    assert_eq!(video.live_info.start_actual, None);
    assert_eq!(video.live_info.end_actual, None);
    assert_eq!(video.live_info.live_viewers, Some(491_000));
    assert_eq!(video.description, None);
    assert_eq!(video.song_count, Some(12));
    assert_eq!(video.channel.id().as_str(), "UCS9uQI-jC3DE0L4IpXyvr6w");
    match &video.channel {
        VideoChannel::Min(channel) => {
            assert_eq!(channel.name, "Coco Ch.");
            assert_eq!(channel.english_name.as_deref(), Some("Kiryu Coco"));
            assert_eq!(channel.channel_type, Some(ChannelType::VTuber));
            assert_eq!(channel.photo, "https://example.com/coco.jpg");
            assert_eq!(channel.org, Some(Organisation::Hololive));
            assert_eq!(channel.stats.subscriber_count, Some(1_250_000));
            assert_eq!(channel.stats.video_count, None);
        }
        other => panic!("unexpected channel: {:?}", other),
    }
}

#[test]
fn video_channel_may_be_an_id_under_either_name() {
    let text = VIDEO.replace("\"channel\": {", "\"channel_id\": \"UCS9uQI-jC3DE0L4IpXyvr6w\", \"x\": {");
    let video: Video = read(&text).unwrap();
    assert!(matches!(&video.channel, VideoChannel::Id(id) if id.as_str() == "UCS9uQI-jC3DE0L4IpXyvr6w"));
    let both = VIDEO.replace("\"channel\": {", "\"channel_id\": \"UCS9uQI-jC3DE0L4IpXyvr6w\", \"channel\": {");
    assert!(read::<Video>(&both).is_none());
}

#[test]
fn video_without_a_required_member_is_refused() {
    for key in ["\"id\"", "\"title\"", "\"type\"", "\"available_at\"", "\"status\"", "\"channel\""] {
        let text = VIDEO.replacen(key, "\"gone\"", 1);
        assert!(read::<Video>(&text).is_none(), "accepted without {}", key);
    }
    assert!(read::<Video>(&VIDEO.replace("\"stream\"", "\"movie\"")).is_none());
    assert!(read::<Video>(&VIDEO.replace("9255", "\"long\"")).is_none());
    assert!(read::<Video>(&VIDEO.replace("2021-07-01T11:00:00.000Z", "yesterday")).is_none());
    assert!(read::<Video>("[]").is_none());
}

#[test]
fn video_takes_null_for_a_missing_value() {
    let text = VIDEO.replace("\"singing\"", "null").replace("9255", "null").replace("491000", "null");
    let video: Video = read(&text).unwrap();
    assert_eq!(video.topic, None);
    assert_eq!(video.duration, None);
    assert_eq!(video.live_info.live_viewers, None);
}

#[test]
fn full_video_keeps_the_song_count_for_itself() {
    let text = VIDEO.replacen(
        "\"unknown\": [1, 2, 3]",
        "\"comments\": [
            {\"comment_key\": \"k1\", \"video_id\": \"IhiievWaZMI\", \"message\": \"1:02:03 start\"},
            {\"comment_key\": \"k2\", \"message\": \"2:00:00 song\"}
        ],
        \"songs\": [
            {\"name\": \"Weather Hackers\", \"original_artist\": \"Kiryu Coco\", \"art\": null,
             \"itunesid\": 1569220763, \"start\": 120, \"end\": 360}
        ],
        \"recommendations\": []",
        1,
    );
    let full: VideoFull = read(&text).unwrap();
    assert_eq!(full.song_count, Some(12));
    assert_eq!(full.video.song_count, None);
    assert_eq!(full.video.title, "Graduation");
    assert_eq!(full.comments.len(), 2);
    assert_eq!(full.comments[0].comment_key, "k1");
    assert_eq!(full.comments[0].video_id.as_ref().unwrap().as_str(), "IhiievWaZMI");
    assert_eq!(full.comments[1].video_id, None);
    assert_eq!(full.songs.len(), 1);
    assert_eq!(full.songs[0].name, "Weather Hackers");
    assert_eq!(full.songs[0].artist, "Kiryu Coco");
    assert_eq!(full.songs[0].artwork, None);
    assert_eq!(full.songs[0].itunes_id, Some(1_569_220_763));
    assert_eq!(full.songs[0].start, Duration { seconds: 120 });
    assert_eq!(full.songs[0].end, Duration { seconds: 360 });
    assert!(full.clips.is_empty());
    assert!(full.related.is_empty());
    assert_eq!(full.timestamps(), vec!["1:02:03 start".to_owned(), "2:00:00 song".to_owned()]);
}

#[test]
fn full_video_lists_related_videos_under_either_name() {
    let inner = VIDEO.replace("IhiievWaZMI", "v6o7LBrQs-I");
    let related = VIDEO.replacen("\"unknown\": [1, 2, 3]", &format!("\"related\": [{}]", inner), 1);
    let full: VideoFull = read(&related).unwrap();
    assert_eq!(full.related.len(), 1);
    assert_eq!(full.related[0].id.as_str(), "v6o7LBrQs-I");
    assert_eq!(full.related[0].song_count, Some(12));
    let recommended =
        VIDEO.replacen("\"unknown\": [1, 2, 3]", &format!("\"recommendations\": [{}]", inner), 1);
    let full: VideoFull = read(&recommended).unwrap();
    assert_eq!(full.into_related().len(), 1);
    let both = VIDEO.replacen("\"unknown\": [1, 2, 3]", "\"related\": [], \"recommendations\": []", 1);
    assert!(read::<VideoFull>(&both).is_none());
}

#[test]
fn channel_is_read_field_by_field() {
    let text = "{
        \"id\": \"UCNVEsYbiZjH5QLmGeSgTSzg\",
        \"name\": \"astel ch.\",
        \"type\": \"vtuber\",
        \"lang\": \"ja\",
        \"org\": \"Holostars\",
        \"suborg\": null,
        \"twitter\": \"astelleda\",
        \"video_count\": 1100,
        \"clip_count\": 2500,
        \"top_topics\": [\"singing\", \"apex\"],
        \"published_at\": \"2019-05-30T05:12:06.000Z\",
        \"crawled_at\": null
    }";
    let channel: Channel = read(text).unwrap();
    assert_eq!(channel.id.as_str(), "UCNVEsYbiZjH5QLmGeSgTSzg");
    assert_eq!(channel.name, "astel ch.");
    assert!(!channel.inactive);
    assert_eq!(channel.channel_type, ChannelType::VTuber);
    assert_eq!(channel.description, None);
    assert_eq!(channel.lang, Some(Language::Japanese));
    assert_eq!(channel.org, Some(Organisation::Other("Holostars".to_owned())));
    assert_eq!(channel.suborg, None);
    assert_eq!(channel.twitter.as_deref(), Some("astelleda"));
    assert_eq!(channel.stats.video_count, Some(1100));
    assert_eq!(channel.stats.subscriber_count, None);
    assert_eq!(channel.stats.clip_count, Some(2500));
    assert_eq!(channel.top_topics, vec!["singing".to_owned(), "apex".to_owned()]);
    assert_eq!(channel.published_at.unwrap().secs(), 1_559_193_126);
    assert_eq!(channel.crawled_at, None);
    assert_eq!(channel.comments_crawled_at, None);
    let inactive: Channel = read(&text.replace("\"suborg\": null", "\"inactive\": true")).unwrap();
    assert!(inactive.inactive);
    assert!(read::<Channel>(&text.replace("\"suborg\": null", "\"inactive\": null")).is_none());
    assert!(read::<Channel>(&text.replace("\"vtuber\"", "\"clipper\"")).is_none());
    assert!(read::<Channel>(&text.replace("[\"singing\", \"apex\"]", "null")).is_none());
}

#[test]
fn list_of_channels_is_read_in_order() {
    let text = "[
        {\"id\": \"UC1\", \"name\": \"one\", \"type\": \"subber\"},
        {\"id\": \"UC2\", \"name\": \"two\", \"type\": \"vtuber\", \"inactive\": false}
    ]";
    let channels: Vec<Channel> = read(text).unwrap();
    assert_eq!(channels.len(), 2);
    assert_eq!(channels[0].name, "one");
    assert_eq!(channels[0].channel_type, ChannelType::Subber);
    assert_eq!(channels[1].name, "two");
    let result = validate_json_bytes::<Vec<Channel>>(b"[{\"id\": \"UC1\"}]");
    assert!(matches!(result, Err(ParseError::ResponseParseError(shape, _)) if shape.expected == "a sequence"));
}

#[test]
fn comments_and_songs_are_shown() {
    let comment = holodex::model::Comment {
        comment_key: "k".to_owned(),
        video_id: None,
        message: "1:02:03 start".to_owned(),
    };
    assert_eq!(comment.to_string(), "1:02:03 start");
    let song = holodex::model::Song {
        name: "Weather Hackers".to_owned(),
        artist: "Kiryu Coco".to_owned(),
        artwork: None,
        itunes_id: None,
        start: Duration { seconds: 1 },
        end: Duration { seconds: 2 },
    };
    assert_eq!(song.to_string(), "Weather Hackers by Kiryu Coco");
}

#[test]
fn languages_and_organisations_convert_from_text() {
    assert_eq!(Language::try_from("ko").unwrap(), Language::Korean);
    assert_eq!(Language::try_from("tlh".to_owned()).unwrap(), Language::Other("tlh".to_owned()));
    assert_eq!(Organisation::try_from("Nijisanji").unwrap(), Organisation::Nijisanji);
    assert_eq!(
        Organisation::try_from("Phase Connect".to_owned()).unwrap(),
        Organisation::Other("Phase Connect".to_owned())
    );
    assert_eq!(read::<Language>("\"es\""), Some(Language::Spanish));
    assert_eq!(read::<Language>("5"), None);
    assert_eq!(read::<Organisation>("\"Independents\""), Some(Organisation::Independents));
    assert_eq!(read::<VideoStatus>("\"live\""), Some(VideoStatus::Live));
    assert_eq!(read::<VideoStatus>("\"Live\""), None);
}

fn hash_of<T: std::hash::Hash>(value: &T) -> u64 {
    let mut hasher = std::collections::hash_map::DefaultHasher::new();
    value.hash(&mut hasher);
    hasher.finish()
}

#[test]
fn videos_are_equal_whatever_their_duration() {
    let video: Video = read(VIDEO).unwrap();
    let longer: Video = read(&VIDEO.replace("9255", "9999")).unwrap();
    let unknown: Video = read(&VIDEO.replace("9255", "null")).unwrap();
    assert_ne!(video.duration, longer.duration);
    assert_eq!(video, longer);
    assert_eq!(video, unknown);
    assert_eq!(hash_of(&video), hash_of(&longer));
    assert_eq!(hash_of(&video), hash_of(&unknown));
    assert_eq!(video.clone(), video);
}

#[test]
fn videos_differ_in_every_other_field() {
    let video: Video = read(VIDEO).unwrap();
    let changes = [
        ("IhiievWaZMI", "v6o7LBrQs-I"),
        ("Graduation", "Welcome back"),
        ("\"stream\"", "\"clip\""),
        ("\"singing\"", "\"talk\""),
        ("\"singing\"", "null"),
        ("2021-06-30T10:00:00.000Z", "2021-06-30T10:00:01.000Z"),
        ("\"available_at\": \"2021-07-01T11:00:00.000Z\"", "\"available_at\": \"2021-07-01T11:00:00.001Z\""),
        ("\"past\"", "\"live\""),
        ("\"start_scheduled\": \"2021-07-01T11:00:00.000Z\"", "\"start_actual\": \"2021-07-01T11:00:00.000Z\""),
        ("491000", "491001"),
        ("\"songcount\": 12", "\"songcount\": 13"),
        ("\"songcount\": 12", "\"description\": \"bye\""),
        ("UCS9uQI-jC3DE0L4IpXyvr6w", "UC1DCedRgGHBdm81E1llLhOQ"),
        ("Coco Ch.", "Coco Channel"),
        ("\"Kiryu Coco\"", "null"),
        ("\"vtuber\"", "\"subber\""),
        ("coco.jpg", "coco.png"),
        ("\"Hololive\"", "\"hololive\""),
        ("\"Hololive\"", "null"),
        ("1250000", "1250001"),
        ("\"subscriber_count\"", "\"view_count\""),
    ];
    for (from, to) in changes {
        let changed: Video = read(&VIDEO.replacen(from, to, 1)).unwrap();
        assert_ne!(video, changed, "{} -> {}", from, to);
        assert_ne!(hash_of(&video), hash_of(&changed), "{} -> {}", from, to);
    }
    let by_id = VIDEO.replace("\"channel\": {", "\"channel_id\": \"UCS9uQI-jC3DE0L4IpXyvr6w\", \"x\": {");
    let by_id: Video = read(&by_id).unwrap();
    assert_ne!(video, by_id);
    assert_eq!(by_id, by_id.clone());
}

#[test]
fn songs_are_equal_whenever_they_were_played() {
    let song = |artwork: Option<&str>, id: Option<u64>, start: i64| holodex::model::Song {
        name: "Weather Hackers".to_owned(),
        artist: "Kiryu Coco".to_owned(),
        artwork: artwork.map(str::to_owned),
        itunes_id: id,
        start: Duration { seconds: start },
        end: Duration { seconds: start + 240 },
    };
    assert_eq!(song(None, Some(7), 0), song(None, Some(7), 1000));
    assert_eq!(hash_of(&song(None, Some(7), 0)), hash_of(&song(None, Some(7), 1000)));
    assert_ne!(song(None, Some(7), 0), song(None, Some(8), 0));
    assert_ne!(song(None, Some(7), 0), song(None, None, 0));
    assert_ne!(song(Some("a"), Some(7), 0), song(None, Some(7), 0));
    assert_ne!(song(Some("a"), Some(7), 0), song(Some("b"), Some(7), 0));
    let mut other = song(None, None, 0);
    other.name = "Another".to_owned();
    assert_ne!(song(None, None, 0), other);
    let mut other = song(None, None, 0);
    other.artist = "Another".to_owned();
    assert_ne!(song(None, None, 0), other);
}

#[test]
fn organisations_and_channels_are_compared_field_by_field() {
    assert!(Organisation::Hololive.same_as(&Organisation::Hololive));
    assert!(!Organisation::Hololive.same_as(&Organisation::Nijisanji));
    assert!(!Organisation::Hololive.same_as(&Organisation::Other("Hololive".to_owned())));
    assert!(!Organisation::Other("Hololive".to_owned()).same_as(&Organisation::Hololive));
    assert!(Organisation::Other("a".to_owned()).same_as(&Organisation::Other("a".to_owned())));
    assert!(!Organisation::Other("a".to_owned()).same_as(&Organisation::Other("b".to_owned())));
    let video: Video = read(VIDEO).unwrap();
    assert!(video.channel.same_as(&video.channel.clone()));
    match &video.channel {
        VideoChannel::Min(channel) => {
            assert!(channel.same_as(&channel.clone()));
            let mut other = channel.clone();
            other.stats.clip_count = Some(1);
            assert!(!channel.same_as(&other));
            assert!(!video.channel.same_as(&VideoChannel::Id(channel.id.clone())));
        }
        other => panic!("unexpected channel: {:?}", other),
    }
}

#[test]
fn channels_are_written_into_keys() {
    let stats = holodex::model::ChannelStats {
        video_count: Some(12),
        subscriber_count: None,
        view_count: Some(0),
        clip_count: None,
    };
    let mut key = "s".to_owned();
    stats.feed(&mut key);
    assert_eq!(key, "s+12;-+0;-");
    let channel = holodex::model::ChannelMin {
        id: "UC1DCedRgGHBdm81E1llLhOQ".parse().unwrap(),
        name: "Pekora Ch.".to_owned(),
        english_name: None,
        channel_type: Some(ChannelType::VTuber),
        photo: "p.jpg".to_owned(),
        org: Some(Organisation::Hololive),
        stats,
    };
    let expected = "24:UC1DCedRgGHBdm81E1llLhOQ10:Pekora Ch.-+6:vtuber5:p.jpg+!8:Hololive+12;-+0;-";
    let mut key = "c".to_owned();
    channel.feed(&mut key);
    assert_eq!(key, format!("c{}", expected));
    let mut key = "r".to_owned();
    VideoChannel::Min(channel.clone()).feed(&mut key);
    assert_eq!(key, format!("r@{}", expected));
    let mut key = "r".to_owned();
    VideoChannel::Id(channel.id.clone()).feed(&mut key);
    assert_eq!(key, "r#24:UC1DCedRgGHBdm81E1llLhOQ");
    let bare = holodex::model::ChannelMin {
        channel_type: None,
        org: None,
        english_name: Some("Pekora".to_owned()),
        ..channel
    };
    let mut key = String::new();
    bare.feed(&mut key);
    assert_eq!(key, "24:UC1DCedRgGHBdm81E1llLhOQ10:Pekora Ch.+6:Pekora-5:p.jpg-+12;-+0;-");
}

#[test]
fn videos_and_songs_have_keys() {
    let video: Video = read(VIDEO).unwrap();
    assert_eq!(
        video.key(),
        "11:IhiievWaZMI10:Graduation6:stream+7:singing+1625047200;0;1625137200;0;4:past\
         +1625137200;0;--+491000;-+12;\
         @24:UCS9uQI-jC3DE0L4IpXyvr6w8:Coco Ch.+10:Kiryu Coco+6:vtuber28:https://example.com/coco.jpg\
         +!8:Hololive-+1250000;--"
    );
    assert_eq!(video.live_info.key(), "+1625137200;0;--+491000;");
    let longer: Video = read(&VIDEO.replace("9255", "9999")).unwrap();
    assert_eq!(video.key(), longer.key());
    let song = holodex::model::Song {
        name: "Weather Hackers".to_owned(),
        artist: "Kiryu Coco".to_owned(),
        artwork: None,
        itunes_id: Some(1_569_220_763),
        start: Duration { seconds: 120 },
        end: Duration { seconds: 360 },
    };
    assert_eq!(song.key(), "15:Weather Hackers10:Kiryu Coco-+1569220763;");
}

#[test]
fn comment_search_builder_keeps_the_text_to_search_for() {
    let built = holodex::model::builders::CommentSearchBuilder::new("peko").build();
    assert_eq!(built.search, "peko");
    let built = holodex::model::builders::CommentSearchBuilder::new("").build();
    assert_eq!(built.search, "");
    assert_eq!(
        holodex::model::builders::VideoFilterBuilder::new().build(),
        holodex::model::VideoFilter::new()
    );
}
