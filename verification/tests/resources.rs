use sayobot_api_wrap::beatmap_info_v2::{BuildInfo, ResponseData};
use sayobot_api_wrap::error::ApiError;
use sayobot_api_wrap::resource_type::ResourceType;
use sayobot_api_wrap::static_resources::{
    build_file_url, complete_url_with_info, file_name_from_disposition, RequestBuilder,
    UrlResolution,
};

fn resolved(builder: &RequestBuilder) -> String {
    match builder.resolve_url().unwrap() {
        UrlResolution::Ready(url) => url,
        UrlResolution::NeedsInfoLookup(_) => panic!("expected a finished URL"),
    }
}

#[test]
fn templated_kind_resolves_by_substitution() {
    let b = RequestBuilder::new()
        .set_sid(2045169)
        .set_resource_type(ResourceType::MiniMap);
    let url = resolved(&b);
    assert_eq!(url, "https://dl.sayobot.cn/beatmaps/download/mini/2045169");
    let template = ResourceType::MiniMap.get_type_url_format().unwrap();
    assert_eq!(url, template.replace("${sid}", "2045169"));
}

#[test]
fn every_templated_kind_matches_its_template() {
    let kinds = vec![
        ResourceType::PreviewImg,
        ResourceType::PreviewAudio,
        ResourceType::FullSizeMap,
        ResourceType::NoVideoMap,
        ResourceType::MiniMap,
    ];
    for kind in kinds {
        let b = RequestBuilder::new().set_sid(42).set_resource_type(kind);
        let url = resolved(&b);
        let template = kind.get_type_url_format().unwrap();
        assert_eq!(url, template.replace("${sid}", "42"));
    }
}

#[test]
fn video_kind_always_fails() {
    let b = RequestBuilder::new()
        .set_sid(2045169)
        .set_resource_type(ResourceType::Video);
    assert!(matches!(b.resolve_url(), Err(ApiError::VideoNotSupported)));
    let b = RequestBuilder::new().set_sid(-7).set_resource_type(ResourceType::Video);
    assert!(matches!(b.resolve_url(), Err(ApiError::VideoNotSupported)));
}

#[test]
fn unset_fields_are_reported_before_any_work() {
    let b = RequestBuilder::new();
    assert!(matches!(b.resolve_url(), Err(ApiError::SidNotSet)));
    let b = RequestBuilder::new().set_sid(1);
    assert!(matches!(b.resolve_url(), Err(ApiError::ResourceTypeNotSet)));
}

#[test]
fn filename_dependent_kind_asks_for_lookup() {
    let b = RequestBuilder::new()
        .set_sid(2045169)
        .set_resource_type(ResourceType::FullAudio);
    match b.resolve_url().unwrap() {
        UrlResolution::NeedsInfoLookup(sid) => assert_eq!(sid, 2045169),
        UrlResolution::Ready(_) => panic!("expected a lookup request"),
    }
}

#[test]
fn untemplated_kinds_have_no_url_format() {
    assert!(matches!(
        ResourceType::FullAudio.get_type_url_format(),
        Err(ApiError::NoUrlFormat)
    ));
    assert!(matches!(
        ResourceType::Video.get_type_url_format(),
        Err(ApiError::NoUrlFormat)
    ));
}

#[test]
fn missing_download_path_is_rejected() {
    let b = RequestBuilder::new();
    assert!(matches!(
        b.set_download_path("no/such/dir".to_string(), false),
        Err(ApiError::PathNotExist)
    ));
}

#[test]
fn present_download_path_is_kept() {
    let b = RequestBuilder::new();
    let b = b.set_download_path("./maps".to_string(), true).unwrap();
    assert_eq!(b.params.download_path.as_deref(), Some("./maps"));
}

#[test]
fn file_url_is_exact() {
    let url = build_file_url(2045169, "song.mp3".to_string()).unwrap();
    assert_eq!(url, "https://dl.sayobot.cn/beatmaps/files/2045169/song.mp3");
}

fn bid_entry(bid: i64, audio: &str, bg: &str) -> BuildInfo {
    BuildInfo {
        ar: "9".to_string(),
        cs: "4".to_string(),
        hp: "5".to_string(),
        od: "8".to_string(),
        aim: "2.5".to_string(),
        audio: audio.to_string(),
        bg: bg.to_string(),
        bid,
        circles: 300,
        hit300window: 40,
        img: "img.jpg".to_string(),
        length: 90,
        maxcombo: 500,
        mode: 0,
        passcount: 10,
        playcount: 100,
        pp: "200".to_string(),
        pp_acc: "60".to_string(),
        pp_aim: "90".to_string(),
        pp_speed: "50".to_string(),
        sliders: 150,
        speed: "1.5".to_string(),
        spinners: 2,
        star: "5.24".to_string(),
        strain_aim: "a".to_string(),
        strain_speed: "s".to_string(),
        version: "Insane".to_string(),
    }
}

fn lookup_answer(rows: Vec<BuildInfo>) -> ResponseData {
    let n = rows.len() as i64;
    ResponseData {
        approved: Some(1),
        approved_date: None,
        artist: Some("kano".to_string()),
        artist_u: None,
        bid_data: rows,
        bids_amount: n,
        bpm: "180".to_string(),
        creator: "c".to_string(),
        creator_id: 7,
        favourite_count: 3,
        genre: 2,
        language: 3,
        last_update: 5,
        local_update: 6,
        preview: 30,
        sid: 2035712,
        source: "".to_string(),
        storyboard: 0,
        tags: "".to_string(),
        title: "t".to_string(),
        title_u: "t".to_string(),
        video: 0,
    }
}

#[test]
fn lookup_completion_picks_matching_audio() {
    let data = lookup_answer(vec![
        bid_entry(1, "other.mp3", "other.jpg"),
        bid_entry(2045169, "song.mp3", "cover.jpg"),
    ]);
    let url = complete_url_with_info(2045169, ResourceType::FullAudio, &data).unwrap();
    assert_eq!(url, "https://dl.sayobot.cn/beatmaps/files/2045169/song.mp3");
    let url = complete_url_with_info(2045169, ResourceType::FullCoverImg, &data).unwrap();
    assert_eq!(url, "https://dl.sayobot.cn/beatmaps/files/2045169/cover.jpg");
}

#[test]
fn lookup_completion_takes_first_match() {
    let data = lookup_answer(vec![
        bid_entry(9, "first.mp3", "first.jpg"),
        bid_entry(9, "second.mp3", "second.jpg"),
    ]);
    let url = complete_url_with_info(9, ResourceType::FullAudio, &data).unwrap();
    assert_eq!(url, "https://dl.sayobot.cn/beatmaps/files/9/first.mp3");
}

#[test]
fn lookup_completion_without_match_fails() {
    let data = lookup_answer(vec![bid_entry(1, "a.mp3", "a.jpg")]);
    assert!(matches!(
        complete_url_with_info(2, ResourceType::FullAudio, &data),
        Err(ApiError::MapNotFound)
    ));
}

#[test]
fn disposition_filename_is_decoded() {
    let h = "attachment; filename*=utf-8''na%20me.osz";
    assert_eq!(file_name_from_disposition(h).unwrap(), "na me.osz");
}

#[test]
fn disposition_filename_plain_text_passes_through() {
    let h = "attachment; filename*=utf-8''map.osz";
    assert_eq!(file_name_from_disposition(h).unwrap(), "map.osz");
}

#[test]
fn disposition_without_marker_fails() {
    assert!(matches!(
        file_name_from_disposition("attachment; filename=map.osz"),
        Err(ApiError::FileNameMissing)
    ));
}

#[test]
fn disposition_with_undecodable_name_fails() {
    assert!(matches!(
        file_name_from_disposition("attachment; filename*=utf-8''%ff"),
        Err(ApiError::DecodeFailed)
    ));
}

#[test]
fn file_url_renders_negative_identifiers() {
    let url = build_file_url(-3, "a.mp3".to_string()).unwrap();
    assert_eq!(url, "https://dl.sayobot.cn/beatmaps/files/-3/a.mp3");
}

#[test]
fn disposition_reads_between_two_markers() {
    let h = "filename*=utf-8''first.osz filename*=utf-8''second.osz";
    assert_eq!(file_name_from_disposition(h).unwrap(), "first.osz ");
}
