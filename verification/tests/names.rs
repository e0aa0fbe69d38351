use holodex::errors::Error;
use holodex::model::id::ChannelId;
use holodex::model::id::VideoId;
use holodex::model::ChannelSortingCriteria;
use holodex::model::ChannelType;
use holodex::model::ChannelVideoType;
use holodex::model::ExtraVideoInfo;
use holodex::model::Language;
use holodex::model::Order;
use holodex::model::Organisation;
use holodex::model::SearchOrder;
use holodex::model::VideoSortingCriteria;
use holodex::model::VideoStatus;
use holodex::model::VideoType;
use holodex::text::chars_of;
use holodex::text::i64_text;
use holodex::text::parse_u32;
use holodex::text::parse_usize;
use holodex::text::text_of;
use holodex::text::u64_text;
use holodex::time::Timestamp;

#[test]
fn video_id_is_found_inside_a_text() {
    let id: VideoId = "IhiievWaZMI".parse().unwrap();
    assert_eq!(id.as_str(), "IhiievWaZMI");
    assert_eq!(id.to_string(), "IhiievWaZMI");
    let id = VideoId::parse("https://www.youtube.com/watch?v=v6o7LBrQs-I&t=10").unwrap();
    assert_eq!(id.as_str(), "v6o7LBrQs-I");
    let id = VideoId::try_from("2l3i7MulCgs-I".to_owned()).unwrap();
    assert_eq!(id.as_str(), "2l3i7MulCgs");
    assert_eq!(id.clone(), id);
}

#[test]
fn text_without_a_video_id_is_refused_whole() {
    for text in ["", "short", "IhiievWaZMJ", "!!!!!!!!!!!", "IhiievWaZM"] {
        match VideoId::parse(text) {
            Err(Error::InvalidVideoId(rejected)) => assert_eq!(rejected, text),
            other => panic!("unexpected result for {:?}: {:?}", text, other),
        }
    }
    assert!("IhiievWaZMJ".parse::<VideoId>().is_err());
}

#[test]
fn video_id_from_a_finished_search() {
    let found = VideoId::from_match("whole text", Some(Some("IhiievWaZMI".to_owned()))).unwrap();
    assert_eq!(found.as_str(), "IhiievWaZMI");
    assert!(matches!(
        VideoId::from_match("whole text", Some(None)),
        Err(Error::InvalidVideoId(text)) if text == "whole text"
    ));
    assert!(matches!(
        VideoId::from_match("whole text", None),
        Err(Error::InvalidVideoId(text)) if text == "whole text"
    ));
}

#[test]
fn channel_id_is_found_inside_a_text() {
    let id: ChannelId = "UC1DCedRgGHBdm81E1llLhOQ".parse().unwrap();
    assert_eq!(id.as_str(), "UC1DCedRgGHBdm81E1llLhOQ");
    assert_eq!(id.to_string(), "UC1DCedRgGHBdm81E1llLhOQ");
    let id = ChannelId::parse("https://www.youtube.com/channel/UCoSrY_IQQVpmIRZ9Xf-y93g/videos").unwrap();
    assert_eq!(id.as_str(), "UCoSrY_IQQVpmIRZ9Xf-y93g");
    let id = ChannelId::try_from("xxUCyl1z3jo3XHR1riLFKG5UAgyy".to_owned()).unwrap();
    assert_eq!(id.as_str(), "UCyl1z3jo3XHR1riLFKG5UAg");
    assert_eq!(id.clone(), id);
}

#[test]
fn text_without_a_channel_id_is_refused_whole() {
    for text in ["", "UC", "UC1DCedRgGHBdm81E1llLhOZ", "XX1DCedRgGHBdm81E1llLhOQ", "IhiievWaZMI"] {
        match ChannelId::parse(text) {
            Err(Error::InvalidChannelId(rejected)) => assert_eq!(rejected, text),
            other => panic!("unexpected result for {:?}: {:?}", text, other),
        }
    }
}

#[test]
fn channel_id_from_a_finished_search() {
    let found = ChannelId::from_match("t", Some(Some("UC1DCedRgGHBdm81E1llLhOQ".to_owned()))).unwrap();
    assert_eq!(found.as_str(), "UC1DCedRgGHBdm81E1llLhOQ");
    assert!(matches!(ChannelId::from_match("t", Some(None)), Err(Error::InvalidChannelId(t)) if t == "t"));
    assert!(matches!(ChannelId::from_match("t", None), Err(Error::InvalidChannelId(t)) if t == "t"));
}

#[test]
fn languages_have_codes() {
    let known = [
        (Language::All, "all"),
        (Language::English, "en"),
        (Language::Spanish, "es"),
        (Language::Indonesian, "id"),
        (Language::Japanese, "ja"),
        (Language::Korean, "ko"),
        (Language::Russian, "ru"),
        (Language::Chinese, "zh"),
    ];
    for (language, code) in known {
        assert_eq!(language.as_str(), code);
        assert_eq!(language.to_string(), code);
        assert_eq!(Language::from_name(code), language);
        assert_eq!(code.parse::<Language>().unwrap(), language);
        assert_eq!(language.clone(), language);
    }
    let other = Language::from_name("fr");
    assert_eq!(other, Language::Other("fr".to_owned()));
    assert_eq!(other.as_str(), "fr");
    assert_eq!(other.to_string(), "fr");
    assert_eq!(Language::from_name("EN"), Language::Other("EN".to_owned()));
    assert_eq!(Language::from_name(""), Language::Other(String::new()));
    assert_eq!(other.clone(), other);
}

#[test]
fn organisations_have_names() {
    let known = [
        (Organisation::Hololive, "Hololive"),
        (Organisation::Nijisanji, "Nijisanji"),
        (Organisation::Independents, "Independents"),
    ];
    for (organisation, name) in known {
        assert_eq!(organisation.as_str(), name);
        assert_eq!(organisation.to_string(), name);
        assert_eq!(Organisation::from_name(name), organisation);
        assert_eq!(name.parse::<Organisation>().unwrap(), organisation);
        assert_eq!(organisation.clone(), organisation);
    }
    let other = Organisation::from_name("VShojo");
    assert_eq!(other, Organisation::Other("VShojo".to_owned()));
    assert_eq!(other.to_string(), "VShojo");
    assert_eq!(Organisation::from_name("hololive"), Organisation::Other("hololive".to_owned()));
}

#[test]
fn orders_have_names() {
    assert_eq!(Order::Ascending.as_str(), "asc");
    assert_eq!(Order::Descending.as_str(), "desc");
    assert_eq!(Order::Ascending.to_string(), "Ascending");
    assert_eq!(Order::Descending.to_string(), "Descending");
    assert_eq!(Order::from_name("asc"), Some(Order::Ascending));
    assert_eq!(Order::from_name("desc"), Some(Order::Descending));
    assert_eq!(Order::from_name("Ascending"), None);
    assert_eq!(SearchOrder::Oldest.as_str(), "oldest");
    assert_eq!(SearchOrder::Newest.as_str(), "newest");
}

#[test]
fn extra_video_info_has_names() {
    let all = [
        (ExtraVideoInfo::Clips, "clips"),
        (ExtraVideoInfo::Refers, "refers"),
        (ExtraVideoInfo::Sources, "sources"),
        (ExtraVideoInfo::Simulcasts, "simulcasts"),
        (ExtraVideoInfo::Mentions, "mentions"),
        (ExtraVideoInfo::Description, "description"),
        (ExtraVideoInfo::LiveInfo, "live_info"),
        (ExtraVideoInfo::ChannelStats, "channel_stats"),
        (ExtraVideoInfo::Songs, "songs"),
    ];
    for (info, name) in all {
        assert_eq!(info.as_str(), name);
        assert_eq!(info.to_string(), name);
    }
}

#[test]
fn video_sorting_criteria_have_names() {
    let all = [
        (VideoSortingCriteria::Id, "id", "Id"),
        (VideoSortingCriteria::Title, "title", "Title"),
        (VideoSortingCriteria::Type, "type", "Type"),
        (VideoSortingCriteria::Topics, "topic_id", "Topics"),
        (VideoSortingCriteria::PublishedAt, "published_at", "PublishedAt"),
        (VideoSortingCriteria::AvailableAt, "available_at", "AvailableAt"),
        (VideoSortingCriteria::Duration, "duration", "Duration"),
        (VideoSortingCriteria::Status, "status", "Status"),
        (VideoSortingCriteria::StartScheduled, "start_scheduled", "StartScheduled"),
        (VideoSortingCriteria::StartActual, "start_actual", "StartActual"),
        (VideoSortingCriteria::EndActual, "end_actual", "EndActual"),
        (VideoSortingCriteria::LiveViewers, "live_viewers", "LiveViewers"),
        (VideoSortingCriteria::Description, "description", "Description"),
        (VideoSortingCriteria::SongCount, "songcount", "SongCount"),
        (VideoSortingCriteria::ChannelId, "channel_id", "ChannelId"),
    ];
    for (criteria, name, shown) in all {
        assert_eq!(criteria.as_str(), name);
        assert_eq!(criteria.to_string(), shown);
        assert_eq!(VideoSortingCriteria::from_name(name), Some(criteria));
    }
    assert_eq!(VideoSortingCriteria::from_name("Id"), None);
    assert_eq!(VideoSortingCriteria::from_name("topics"), None);
}

#[test]
fn channel_sorting_criteria_have_names() {
    let all = [
        (ChannelSortingCriteria::Id, "id", "Id"),
        (ChannelSortingCriteria::Name, "name", "Name"),
        (ChannelSortingCriteria::EnglishName, "english_name", "EnglishName"),
        (ChannelSortingCriteria::Type, "type", "Type"),
        (ChannelSortingCriteria::Organisation, "org", "Organisation"),
        (ChannelSortingCriteria::SubOrganisation, "suborg", "SubOrganisation"),
        (ChannelSortingCriteria::Photo, "photo", "Photo"),
        (ChannelSortingCriteria::Banner, "banner", "Banner"),
        (ChannelSortingCriteria::Twitter, "twitter", "Twitter"),
        (ChannelSortingCriteria::VideoCount, "video_count", "VideoCount"),
        (ChannelSortingCriteria::SubscriberCount, "subscriber_count", "SubscriberCount"),
        (ChannelSortingCriteria::ViewCount, "view_count", "ViewCount"),
        (ChannelSortingCriteria::ClipCount, "clip_count", "ClipCount"),
        (ChannelSortingCriteria::Language, "lang", "Language"),
        (ChannelSortingCriteria::PublishedAt, "published_at", "PublishedAt"),
        (ChannelSortingCriteria::Inactive, "inactive", "Inactive"),
        (ChannelSortingCriteria::Description, "description", "Description"),
    ];
    for (criteria, name, shown) in all {
        assert_eq!(criteria.as_str(), name);
        assert_eq!(criteria.to_string(), shown);
        assert_eq!(ChannelSortingCriteria::from_name(name), Some(criteria));
    }
    assert_eq!(ChannelSortingCriteria::from_name("organisation"), None);
}

#[test]
fn types_and_statuses_have_names() {
    assert_eq!(VideoType::Stream.as_str(), "stream");
    assert_eq!(VideoType::Clip.as_str(), "clip");
    assert_eq!(VideoType::Stream.to_string(), "Stream");
    assert_eq!(VideoType::Clip.to_string(), "Clip");
    assert_eq!(VideoType::from_name("clip"), Some(VideoType::Clip));
    assert_eq!(VideoType::from_name("Clip"), None);
    assert_eq!(ChannelVideoType::Clips.as_str(), "clips");
    assert_eq!(ChannelVideoType::Videos.as_str(), "videos");
    assert_eq!(ChannelVideoType::Collabs.as_str(), "collabs");
    assert_eq!(ChannelVideoType::Clips.to_string(), "Clips");
    assert_eq!(ChannelVideoType::Videos.to_string(), "Videos");
    assert_eq!(ChannelVideoType::Collabs.to_string(), "Collabs");
    assert_eq!(ChannelVideoType::from_name("collabs"), Some(ChannelVideoType::Collabs));
    let statuses = [
        (VideoStatus::New, "new"),
        (VideoStatus::Upcoming, "upcoming"),
        (VideoStatus::Live, "live"),
        (VideoStatus::Past, "past"),
        (VideoStatus::Missing, "missing"),
    ];
    for (status, name) in statuses {
        assert_eq!(status.as_str(), name);
        assert_eq!(status.to_string(), name);
        assert_eq!(VideoStatus::from_name(name), Some(status));
    }
    assert_eq!(VideoStatus::from_name("gone"), None);
    assert_eq!(ChannelType::VTuber.as_str(), "vtuber");
    assert_eq!(ChannelType::Subber.as_str(), "subber");
    assert_eq!(ChannelType::from_name("vtuber"), Some(ChannelType::VTuber));
    assert_eq!(ChannelType::from_name("subber"), Some(ChannelType::Subber));
    assert_eq!(ChannelType::from_name("VTuber"), None);
}

#[test]
fn numbers_are_written_in_decimal() {
    assert_eq!(u64_text(0), "0");
    assert_eq!(u64_text(7), "7");
    assert_eq!(u64_text(10), "10");
    assert_eq!(u64_text(1_234_567_890), "1234567890");
    assert_eq!(u64_text(u64::MAX), "18446744073709551615");
    assert_eq!(i64_text(0), "0");
    assert_eq!(i64_text(42), "42");
    assert_eq!(i64_text(-1), "-1");
    assert_eq!(i64_text(-2_147_483_648), "-2147483648");
    assert_eq!(i64_text(i64::MAX), "9223372036854775807");
    assert_eq!(i64_text(i64::MIN), "-9223372036854775808");
}

#[test]
fn numbers_are_read_from_decimal() {
    assert_eq!(parse_u32("0"), Some(0));
    assert_eq!(parse_u32("120"), Some(120));
    assert_eq!(parse_u32("+5"), Some(5));
    assert_eq!(parse_u32("007"), Some(7));
    assert_eq!(parse_u32("4294967295"), Some(u32::MAX));
    assert_eq!(parse_u32("4294967296"), None);
    assert_eq!(parse_u32("99999999999999999999999999999999"), None);
    assert_eq!(parse_u32(""), None);
    assert_eq!(parse_u32("+"), None);
    assert_eq!(parse_u32("++1"), None);
    assert_eq!(parse_u32("-0"), None);
    assert_eq!(parse_u32("1 "), None);
    assert_eq!(parse_u32("1_000"), None);
    assert_eq!(parse_u32("١٢"), None);
    assert_eq!(parse_usize("18446744073709551615"), "18446744073709551615".parse::<usize>().ok());
    assert_eq!(parse_usize("18446744073709551616"), None);
    for n in [0u32, 9, 10, 4096, u32::MAX] {
        assert_eq!(parse_u32(&u64_text(n as u64)), Some(n));
    }
}

#[test]
fn text_goes_to_characters_and_back() {
    assert_eq!(chars_of("héllo"), vec!['h', 'é', 'l', 'l', 'o']);
    assert_eq!(chars_of(""), Vec::<char>::new());
    assert_eq!(text_of(&vec!['a', 'ß', '字']), "aß字");
    assert_eq!(text_of(&chars_of("round trip")), "round trip");
}

#[test]
fn timestamps_are_read_written_and_shown() {
    let at = Timestamp::parse("2015-05-15T00:00:00Z").unwrap();
    assert_eq!(at.secs(), 1_431_648_000);
    assert_eq!(at.nanos(), 0);
    assert_eq!(at.to_string(), "2015-05-15 00:00:00 UTC");
    assert_eq!(at.to_rfc3339(), "2015-05-15T00:00:00Z");
    assert_eq!(Timestamp::new(1_431_648_000, 0), Some(at));
    let later = Timestamp::parse("2015-05-15 02:00:00.250+02:00").unwrap();
    assert_eq!(later.secs(), 1_431_648_000);
    assert_eq!(later.nanos(), 250_000_000);
    assert_eq!(later.to_rfc3339(), "2015-05-15T00:00:00.250Z");
    assert_eq!(later.to_string(), "2015-05-15 00:00:00.250 UTC");
    assert!(at < later);
    let before = Timestamp::new(-1, 0).unwrap();
    assert_eq!(before.to_rfc3339(), "1969-12-31T23:59:59Z");
    assert_eq!(Timestamp::parse("yesterday"), None);
    assert_eq!(Timestamp::parse("2015-05-15"), None);
    assert_eq!(Timestamp::parse(""), None);
    assert_eq!(Timestamp::new(i64::MAX, 0), None);
    assert_eq!(Timestamp::new(0, 2_000_000_000), None);
}

#[test]
fn values_are_written_into_keys() {
    assert_eq!(holodex::text::text_key_of(""), "0:");
    assert_eq!(holodex::text::text_key_of("abc"), "3:abc");
    assert_eq!(holodex::text::text_key_of("héllo wörld"), "11:héllo wörld");
    assert_eq!(holodex::text::number_key_of(0), "0;");
    assert_eq!(holodex::text::number_key_of(-5), "-5;");
    assert_eq!(holodex::text::number_key_of(i64::MIN), "-9223372036854775808;");
    assert_eq!(holodex::text::unsigned_key_of(u64::MAX), "18446744073709551615;");
    let mut key = "k".to_owned();
    holodex::text::hash_optional_text(&None, &mut key);
    assert_eq!(key, "k-");
    holodex::text::hash_optional_text(&Some("ab".to_owned()), &mut key);
    assert_eq!(key, "k-+2:ab");
    holodex::text::hash_optional_text(&Some(String::new()), &mut key);
    assert_eq!(key, "k-+2:ab+0:");
    holodex::text::hash_optional_u32(&Some(7), &mut key);
    assert_eq!(key, "k-+2:ab+0:+7;");
    holodex::text::hash_optional_u32(&None, &mut key);
    assert_eq!(key, "k-+2:ab+0:+7;-");
    holodex::text::hash_optional_u64(&Some(u64::MAX), &mut key);
    assert_eq!(key, "k-+2:ab+0:+7;-+18446744073709551615;");
    holodex::text::hash_optional_u64(&None, &mut key);
    assert_eq!(key, "k-+2:ab+0:+7;-+18446744073709551615;-");
}

#[test]
fn times_and_organisations_are_written_into_keys() {
    let at = Timestamp::new(1_431_648_000, 250).unwrap();
    let mut key = "t".to_owned();
    at.feed(&mut key);
    assert_eq!(key, "t1431648000;250;");
    let before = Timestamp::new(-1, 0).unwrap();
    let mut key = String::new();
    before.feed(&mut key);
    assert_eq!(key, "-1;0;");
    let mut key = "o".to_owned();
    holodex::time::hash_optional_time(&None, &mut key);
    assert_eq!(key, "o-");
    holodex::time::hash_optional_time(&Some(at), &mut key);
    assert_eq!(key, "o-+1431648000;250;");
    let mut key = "x".to_owned();
    Organisation::Hololive.feed(&mut key);
    assert_eq!(key, "x!8:Hololive");
    Organisation::Other("Hololive".to_owned()).feed(&mut key);
    assert_eq!(key, "x!8:Hololive?8:Hololive");
}
