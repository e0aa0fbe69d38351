use holodex::errors::Error;
use holodex::json::JsonValue;
use holodex::model::builders::ChannelFilterBuilder;
use holodex::model::builders::CommentSearchBuilder;
use holodex::model::builders::VideoFilterBuilder;
use holodex::model::builders::VideoSearchBuilder;
use holodex::model::filter::copy_items;
use holodex::model::filter::join_names;
use holodex::model::id::ChannelId;
use holodex::model::id::VideoId;
use holodex::model::ChannelFilter;
use holodex::model::ChannelSortingCriteria;
use holodex::model::ChannelType;
use holodex::model::ChannelVideoFilter;
use holodex::model::CommentSearch;
use holodex::model::ExtraVideoInfo;
use holodex::model::Language;
use holodex::model::Order;
use holodex::model::Organisation;
use holodex::model::SearchOrder;
use holodex::model::VideoFilter;
use holodex::model::VideoSearch;
use holodex::model::VideoSearchCondition;
use holodex::model::VideoSortingCriteria;
use holodex::model::VideoStatus;
use holodex::model::VideoType;
use holodex::time::Timestamp;

fn pairs(items: &[(&str, &str)]) -> Vec<(String, String)> {
    items.iter().map(|(k, v)| (k.to_string(), v.to_string())).collect()
}

fn full_filter() -> VideoFilter {
    VideoFilter {
        channel_id: Some("UC1DCedRgGHBdm81E1llLhOQ".parse().unwrap()),
        id: vec!["IhiievWaZMI".parse().unwrap(), "v6o7LBrQs-I".parse().unwrap()],
        org: Some(Organisation::Other("VShojo".to_owned())),
        includes: vec![ExtraVideoInfo::Description, ExtraVideoInfo::ChannelStats],
        lang: vec![Language::English, Language::Other("fr".to_owned())],
        max_upcoming_hours: 24,
        mentioned_channel_id: Some("UCoSrY_IQQVpmIRZ9Xf-y93g".parse().unwrap()),
        status: vec![VideoStatus::Live, VideoStatus::Upcoming],
        topic: Some("minecraft".to_owned()),
        video_type: VideoType::Clip,
        from: Timestamp::new(1_431_648_000, 0),
        paginated: false,
        limit: 5,
        offset: -3,
        sort_by: VideoSortingCriteria::StartScheduled,
        order: Order::Ascending,
    }
}

#[test]
fn video_filter_defaults() {
    let filter = VideoFilter::new();
    assert_eq!(filter.channel_id, None);
    assert!(filter.id.is_empty());
    assert_eq!(filter.includes, vec![ExtraVideoInfo::LiveInfo]);
    assert_eq!(filter.lang, vec![Language::All]);
    assert_eq!(filter.limit, 100);
    assert_eq!(filter.max_upcoming_hours, 48);
    assert_eq!(filter.mentioned_channel_id, None);
    assert_eq!(filter.offset, 0);
    assert_eq!(filter.order, Order::Descending);
    assert_eq!(filter.org, Some(Organisation::Hololive));
    assert!(filter.paginated);
    assert_eq!(filter.sort_by, VideoSortingCriteria::AvailableAt);
    assert!(filter.status.is_empty());
    assert_eq!(filter.topic, None);
    assert_eq!(filter.video_type, VideoType::Stream);
    assert_eq!(filter.from, None);
    assert_eq!(VideoFilter::default(), filter);
    assert_eq!(filter.clone(), filter);
}

#[test]
fn video_filter_default_query() {
    assert_eq!(
        VideoFilter::new().query(),
        pairs(&[
            ("org", "Hololive"),
            ("include", "live_info"),
            ("lang", "all"),
            ("max_upcoming_hours", "48"),
            ("type", "stream"),
            ("paginated", "true"),
            ("limit", "100"),
            ("offset", "0"),
            ("sort", "available_at"),
            ("order", "desc"),
        ])
    );
}

#[test]
fn video_filter_full_query() {
    assert_eq!(
        full_filter().query(),
        pairs(&[
            ("channel_id", "UC1DCedRgGHBdm81E1llLhOQ"),
            ("id", "IhiievWaZMI,v6o7LBrQs-I"),
            ("org", "VShojo"),
            ("include", "description,channel_stats"),
            ("lang", "en,fr"),
            ("max_upcoming_hours", "24"),
            ("mentioned_channel_id", "UCoSrY_IQQVpmIRZ9Xf-y93g"),
            ("status", "live,upcoming"),
            ("topic", "minecraft"),
            ("type", "clip"),
            ("from", "2015-05-15T00:00:00Z"),
            ("limit", "5"),
            ("offset", "-3"),
            ("sort", "start_scheduled"),
            ("order", "asc"),
        ])
    );
}

#[test]
fn video_filter_is_shown_field_by_field() {
    let expected = "VideoFilter {
                channel_id: None,
                id: ,
                org: Hololive,
                include: live_info,
                lang: all,
                max_upcoming_hours: 48,
                mentioned_channel_id: None,
                paginated: true,
                limit: 100,
                offset: 0,
                sort_by: AvailableAt,
                order: Descending,
                status: ,
                topic: None,
                video_type: Stream,
                from: None,
             }";
    assert_eq!(VideoFilter::new().to_string(), expected);
    let expected = "VideoFilter {
                channel_id: UC1DCedRgGHBdm81E1llLhOQ,
                id: IhiievWaZMI, v6o7LBrQs-I,
                org: VShojo,
                include: description, channel_stats,
                lang: en, fr,
                max_upcoming_hours: 24,
                mentioned_channel_id: UCoSrY_IQQVpmIRZ9Xf-y93g,
                paginated: false,
                limit: 5,
                offset: -3,
                sort_by: StartScheduled,
                order: Ascending,
                status: live, upcoming,
                topic: minecraft,
                video_type: Clip,
                from: 2015-05-15 00:00:00 UTC,
             }";
    assert_eq!(full_filter().to_string(), expected);
    assert_eq!(full_filter().clone(), full_filter());
}

#[test]
fn channel_video_filter_defaults_query_and_text() {
    let filter = ChannelVideoFilter::new();
    assert_eq!(filter.includes, vec![ExtraVideoInfo::LiveInfo]);
    assert_eq!(filter.languages, vec![Language::All]);
    assert_eq!(filter.limit, 100);
    assert_eq!(filter.offset, 0);
    assert!(filter.paginated);
    assert_eq!(ChannelVideoFilter::default(), filter);
    assert_eq!(
        filter.query(),
        pairs(&[
            ("include", "live_info"),
            ("lang", "all"),
            ("paginated", "true"),
            ("limit", "100"),
            ("offset", "0"),
        ])
    );
    assert_eq!(
        filter.to_string(),
        "ChannelVideoFilter { include: live_info, lang: all, paginated: true, limit: 100, offset: 0 }"
    );
    let bare = ChannelVideoFilter {
        includes: vec![],
        languages: vec![],
        paginated: false,
        limit: 0,
        offset: i32::MIN,
    };
    assert_eq!(bare.query(), pairs(&[("limit", "0"), ("offset", "-2147483648")]));
    assert_eq!(
        bare.to_string(),
        "ChannelVideoFilter { include: , lang: , paginated: false, limit: 0, offset: -2147483648 }"
    );
    assert_eq!(bare.clone(), bare);
}

#[test]
fn channel_filter_defaults_and_query() {
    let filter = ChannelFilter::default();
    assert!(filter.languages.is_empty());
    assert_eq!(filter.order, Order::Ascending);
    assert_eq!(filter.sort_by, ChannelSortingCriteria::Organisation);
    assert_eq!(filter.organisation, None);
    assert_eq!(filter.channel_type, None);
    assert_eq!(filter.limit, 25);
    assert_eq!(filter.offset, 0);
    assert_eq!(
        filter.query().unwrap(),
        pairs(&[("order", "asc"), ("sort", "org"), ("limit", "25"), ("offset", "0")])
    );
    let filter = ChannelFilter {
        languages: vec![],
        order: Order::Descending,
        sort_by: ChannelSortingCriteria::SubscriberCount,
        organisation: Some(Organisation::Nijisanji),
        channel_type: Some(ChannelType::Subber),
        limit: 10,
        offset: 20,
    };
    assert_eq!(
        filter.query().unwrap(),
        pairs(&[
            ("order", "desc"),
            ("sort", "subscriber_count"),
            ("org", "Nijisanji"),
            ("type", "subber"),
            ("limit", "10"),
            ("offset", "20"),
        ])
    );
    assert_eq!(filter.clone(), filter);
}

#[test]
fn channel_filter_with_languages_has_no_query() {
    let filter = ChannelFilter { languages: vec![Language::English], ..ChannelFilter::default() };
    match filter.query() {
        Err(Error::FilterCreationError(reason)) => assert_eq!(reason, "unsupported value"),
        other => panic!("unexpected result: {:?}", other),
    }
}

#[test]
fn video_search_defaults_and_body() {
    let search = VideoSearch::default();
    assert_eq!(search.sort_order, SearchOrder::Newest);
    assert!(search.paginated);
    assert_eq!(search.limit, 30);
    assert_eq!(search.offset, 0);
    assert_eq!(
        search.to_json().to_string(),
        "{\"limit\":30,\"offset\":0,\"paginated\":\"true\",\"sort\":\"newest\"}"
    );
    let search = VideoSearch {
        sort_order: SearchOrder::Oldest,
        languages: vec![Language::English, Language::Japanese],
        types: vec![VideoType::Stream, VideoType::Clip],
        conditions: vec![VideoSearchCondition::Text("karaoke".to_owned())],
        topics: vec!["singing".to_owned()],
        channels: vec!["UCvaTdHTWBGv3MKj3KVqJVCw".parse().unwrap()],
        organisations: vec![Organisation::Hololive, Organisation::Other("774inc".to_owned())],
        paginated: false,
        limit: 5,
        offset: -1,
    };
    let body = search.to_json();
    match &body {
        JsonValue::Object(members) => {
            let keys: Vec<&str> = members.iter().map(|m| m.key.as_str()).collect();
            assert_eq!(
                keys,
                vec!["sort", "lang", "target", "conditions", "topic", "vch", "org", "limit", "offset"]
            );
        }
        other => panic!("unexpected body: {:?}", other),
    }
    assert_eq!(
        body.to_string(),
        "{\"conditions\":[{\"text\":\"karaoke\"}],\"lang\":[\"en\",\"ja\"],\"limit\":5,\"offset\":-1,\
         \"org\":[\"Hololive\",\"774inc\"],\"sort\":\"oldest\",\"target\":[\"stream\",\"clip\"],\
         \"topic\":[\"singing\"],\"vch\":[\"UCvaTdHTWBGv3MKj3KVqJVCw\"]}"
    );
    assert_eq!(search.clone(), search);
}

#[test]
fn comment_search_defaults_and_body() {
    let search = CommentSearch::default();
    assert_eq!(search.search, "");
    assert_eq!(search.sort_order, SearchOrder::Newest);
    assert!(search.paginated);
    assert_eq!(search.limit, 30);
    assert_eq!(search.offset, 0);
    let search = CommentSearch {
        search: "peko".to_owned(),
        organisations: vec![Organisation::Nijisanji],
        ..CommentSearch::default()
    };
    assert_eq!(
        search.to_json().to_string(),
        "{\"comment\":\"peko\",\"limit\":30,\"offset\":0,\"org\":[\"Nijisanji\"],\
         \"paginated\":\"true\",\"sort\":\"newest\"}"
    );
    assert_eq!(search.clone(), search);
}

#[test]
fn video_filter_builder_sets_each_field() {
    let channel: ChannelId = "UC1DCedRgGHBdm81E1llLhOQ".parse().unwrap();
    let mentioned: ChannelId = "UCoSrY_IQQVpmIRZ9Xf-y93g".parse().unwrap();
    let ids: Vec<VideoId> = vec!["IhiievWaZMI".parse().unwrap(), "v6o7LBrQs-I".parse().unwrap()];
    let built = VideoFilterBuilder::new()
        .includes(&[ExtraVideoInfo::Description, ExtraVideoInfo::ChannelStats])
        .paginated(false)
        .sort_by(VideoSortingCriteria::StartScheduled)
        .order(Order::Ascending)
        .channel_id(channel)
        .id(&ids)
        .organisation(Organisation::Other("VShojo".to_owned()))
        .language(&[Language::English, Language::Other("fr".to_owned())])
        .max_upcoming_hours(24)
        .mentioned_channel_id(mentioned)
        .topic("minecraft")
        .video_type(VideoType::Clip)
        .status(&[VideoStatus::Live, VideoStatus::Upcoming])
        .after(Timestamp::new(1_431_648_000, 0).unwrap())
        .build();
    let mut expected = full_filter();
    expected.limit = 100;
    expected.offset = 0;
    assert_eq!(built, expected);
    assert_eq!(VideoFilterBuilder::new().build(), VideoFilter::new());
    assert_eq!(VideoFilterBuilder::default().build(), VideoFilter::new());
    assert_eq!(VideoFilter::from(VideoFilterBuilder::new().limit(3)).limit, 3);
}

#[test]
fn limit_and_offset_turn_pagination_on() {
    let built = VideoFilterBuilder::new().paginated(false).limit(5).build();
    assert!(built.paginated);
    assert_eq!(built.limit, 5);
    let built = VideoFilterBuilder::new().paginated(false).offset(-3).build();
    assert!(built.paginated);
    assert_eq!(built.offset, -3);
    let built = VideoFilterBuilder::new().limit(5).paginated(false).build();
    assert!(!built.paginated);
    let built = VideoSearchBuilder::new().paginated(false).limit(5).build();
    assert!(built.paginated);
    let built = VideoSearchBuilder::new().paginated(false).offset(5).build();
    assert!(built.paginated);
    let built = CommentSearchBuilder::new("x").paginated(false).limit(5).build();
    assert!(built.paginated);
    let built = CommentSearchBuilder::new("x").paginated(false).offset(5).build();
    assert!(built.paginated);
    let built = ChannelFilterBuilder::new().limit(5).offset(7).build().unwrap();
    assert_eq!(built.limit, 5);
    assert_eq!(built.offset, 7);
}

#[test]
fn video_filter_builder_is_shown_around_its_filter() {
    let shown = VideoFilterBuilder::new().to_string();
    assert_eq!(shown, format!("VideoFilterBuilder({})", VideoFilter::new().to_string()));
}

#[test]
fn channel_filter_builder_checks_the_limit() {
    let built = ChannelFilterBuilder::new()
        .sort_by(ChannelSortingCriteria::SubscriberCount)
        .order(Order::Descending)
        .channel_type(ChannelType::VTuber)
        .organisation(Organisation::Independents)
        .language(&[])
        .limit(50)
        .offset(10)
        .build()
        .unwrap();
    assert_eq!(
        built,
        ChannelFilter {
            languages: vec![],
            order: Order::Descending,
            sort_by: ChannelSortingCriteria::SubscriberCount,
            organisation: Some(Organisation::Independents),
            channel_type: Some(ChannelType::VTuber),
            limit: 50,
            offset: 10,
        }
    );
    assert_eq!(ChannelFilterBuilder::new().limit(0).build().unwrap().limit, 0);
    assert_eq!(ChannelFilterBuilder::new().build().unwrap(), ChannelFilter::default());
    match ChannelFilterBuilder::new().limit(51).build() {
        Err(Error::FilterCreationError(reason)) => assert_eq!(
            reason,
            "Could not instantiate ChannelFilter with a limit of 51. Valid range is 0 to 50, inclusive."
        ),
        other => panic!("unexpected result: {:?}", other),
    }
    assert!(ChannelFilterBuilder::new().limit(u32::MAX).build().is_err());
    let with_language = ChannelFilterBuilder::new().language(&[Language::Korean]).build().unwrap();
    assert_eq!(with_language.languages, vec![Language::Korean]);
}

#[test]
fn search_builders_set_each_field() {
    let channels: Vec<ChannelId> = vec!["UCvaTdHTWBGv3MKj3KVqJVCw".parse().unwrap()];
    let built = VideoSearchBuilder::new()
        .conditions(&[VideoSearchCondition::Text("karaoke".to_owned())])
        .order(SearchOrder::Oldest)
        .channels(&channels)
        .organisations(&[Organisation::Hololive])
        .languages(&[Language::English])
        .topics(&["singing".to_owned()])
        .types(&[VideoType::Stream])
        .limit(5)
        .build();
    assert_eq!(
        built,
        VideoSearch {
            sort_order: SearchOrder::Oldest,
            languages: vec![Language::English],
            types: vec![VideoType::Stream],
            conditions: vec![VideoSearchCondition::Text("karaoke".to_owned())],
            topics: vec!["singing".to_owned()],
            channels: channels.clone(),
            organisations: vec![Organisation::Hololive],
            paginated: true,
            limit: 5,
            offset: 0,
        }
    );
    assert_eq!(VideoSearchBuilder::new().build(), VideoSearch::default());
    assert_eq!(VideoSearch::from(VideoSearchBuilder::new()), VideoSearch::default());
    let built = CommentSearchBuilder::new("peko")
        .order(SearchOrder::Oldest)
        .channels(&channels)
        .organisations(&[Organisation::Nijisanji])
        .languages(&[Language::Japanese])
        .topics(&["asmr".to_owned()])
        .types(&[VideoType::Clip])
        .offset(50)
        .build();
    assert_eq!(
        built,
        CommentSearch {
            search: "peko".to_owned(),
            sort_order: SearchOrder::Oldest,
            languages: vec![Language::Japanese],
            types: vec![VideoType::Clip],
            topics: vec!["asmr".to_owned()],
            channels,
            organisations: vec![Organisation::Nijisanji],
            paginated: true,
            limit: 30,
            offset: 50,
        }
    );
    assert_eq!(
        CommentSearchBuilder::new("").build(),
        CommentSearch::default()
    );
    assert_eq!(CommentSearch::from(CommentSearchBuilder::new("a")).search, "a");
}

#[test]
fn names_are_joined_with_the_separator_between_them() {
    assert_eq!(join_names::<Language>(&[], ","), "");
    assert_eq!(join_names(&[Language::English], ","), "en");
    assert_eq!(join_names(&[Language::English, Language::Chinese, Language::All], ", "), "en, zh, all");
    assert_eq!(copy_items(&[1u8, 2, 3]), vec![1, 2, 3]);
    assert_eq!(copy_items::<u8>(&[]), Vec::<u8>::new());
}
