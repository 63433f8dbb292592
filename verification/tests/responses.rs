use sayobot_api_wrap::beatmap_info_v2::{parse_response, Request, RequestBuilder};
use sayobot_api_wrap::beatmap_response::{
    parse_search_response, search_response_to_json, Data, SearchResponse,
};
use sayobot_api_wrap::error::{check_http_status, ApiError};

#[test]
fn info_query_url_is_exact() {
    let b = RequestBuilder::new().set_key("2035712".to_string()).set_match_mode(4);
    let url = b.query_url().unwrap();
    assert_eq!(url, "https://api.sayobot.cn/v2/beatmapinfo?0=2035712&1=4");
}

#[test]
fn info_empty_query_is_rejected() {
    let p = Request::default();
    assert_eq!(p.query_url(), Err(ApiError::EmptyParams));
}

#[test]
fn search_response_round_trip_keeps_empty_rows() {
    let r = SearchResponse {
        data: Some(vec![]),
        endid: None,
        match_artist_results: None,
        match_creator_results: None,
        match_tags_results: None,
        match_title_results: None,
        match_version_results: None,
        results: Some(0),
        status: 0,
        time_cost: None,
    };
    let text = search_response_to_json(&r).unwrap();
    let back = parse_search_response(&text).unwrap();
    assert_eq!(back.status, 0);
    assert_eq!(back.results, Some(0));
    assert!(back.data.is_some());
    assert_eq!(back.data.unwrap().len(), 0);
    assert_eq!(back.endid, None);
}

#[test]
fn search_response_round_trip_keeps_rows() {
    let row = Data {
        approved: 1,
        artist: "kano".to_string(),
        artist_u: "kano".to_string(),
        creator: "someone".to_string(),
        favourite_count: 3,
        lastupdate: 1600000000,
        modes: 1,
        order: "0.5".to_string(),
        play_count: 42,
        sid: 2045169,
        title: "a song".to_string(),
        title_u: "a song".to_string(),
    };
    let r = SearchResponse {
        data: Some(vec![row]),
        endid: Some(9),
        match_artist_results: Some(1),
        match_creator_results: Some(0),
        match_tags_results: Some(0),
        match_title_results: Some(0),
        match_version_results: Some(0),
        results: Some(1),
        status: 0,
        time_cost: Some(2),
    };
    let text = search_response_to_json(&r).unwrap();
    let back = parse_search_response(&text).unwrap();
    assert_eq!(back.status, 0);
    let rows = back.data.unwrap();
    assert_eq!(rows.len(), 1);
    assert_eq!(rows[0].sid, 2045169);
    assert_eq!(rows[0].artist, "kano");
    assert_eq!(rows[0].order, "0.5");
    assert_eq!(back.endid, Some(9));
}

#[test]
fn search_response_fixture_parses_exactly() {
    let fixture = r#"{
        "status": 0,
        "results": 2,
        "endid": 123,
        "data": [
            {"approved": 1, "artist": "a", "artistU": "a", "creator": "c",
             "favourite_count": 1, "lastupdate": 5, "modes": 1, "order": 1.25,
             "play_count": 10, "sid": 111, "title": "t", "titleU": "t"},
            {"approved": 4, "artist": "b", "artistU": "b", "creator": "d",
             "favourite_count": 2, "lastupdate": 6, "modes": 2, "order": 2,
             "play_count": 20, "sid": 222, "title": "u", "titleU": "u"}
        ]
    }"#;
    let resp = parse_search_response(fixture).unwrap();
    assert_eq!(resp.status, 0);
    assert_eq!(resp.results, Some(2));
    assert_eq!(resp.endid, Some(123));
    let rows = resp.data.unwrap();
    assert_eq!(rows.len(), 2);
    assert_eq!(rows[0].order, "1.25");
    assert_eq!(rows[1].sid, 222);
    assert_eq!(rows[1].modes, 2);
}

#[test]
fn search_response_without_rows_field_is_absent() {
    let resp = parse_search_response(r#"{"status": -1}"#).unwrap();
    assert_eq!(resp.status, -1);
    assert!(resp.data.is_none());
    assert_eq!(resp.results, None);
}

#[test]
fn malformed_search_response_is_a_parse_error() {
    assert!(matches!(parse_search_response("not json"), Err(ApiError::Parse)));
    assert!(matches!(
        parse_search_response(r#"{"results": 0}"#),
        Err(ApiError::Parse)
    ));
    assert!(matches!(
        parse_search_response(r#"{"status": 0, "data": 5}"#),
        Err(ApiError::Parse)
    ));
}

fn info_fixture(bids_amount: i64) -> String {
    let one_bid = r#"{"AR": 9, "CS": 4, "HP": 5, "OD": 8.5, "aim": 2.5,
        "audio": "song.mp3", "bg": "cover.jpg", "bid": 2045169, "circles": 300,
        "hit300window": 40, "img": "img.jpg", "length": 90, "maxcombo": 500,
        "mode": 0, "passcount": 10, "playcount": 100, "pp": 200.5,
        "pp_acc": 60.1, "pp_aim": 90.2, "pp_speed": 50.2, "sliders": 150,
        "speed": 1.5, "spinners": 2, "star": 5.24, "strain_aim": "a",
        "strain_speed": "s", "version": "Insane"}"#;
    format!(
        r#"{{"status": 0, "data": {{
            "approved": 1, "approved_date": 1000, "artist": "kano", "artistU": "kano",
            "bid_data": [{}], "bids_amount": {}, "bpm": 180.0, "creator": "c",
            "creator_id": 7, "favourite_count": 3, "genre": 2, "language": 3,
            "last_update": 5, "local_update": 6, "preview": 30, "sid": 2035712,
            "source": "", "storyboard": 0, "tags": "tag", "title": "t", "titleU": "t",
            "video": 0}}}}"#,
        one_bid, bids_amount
    )
}

#[test]
fn info_response_fixture_parses_exactly() {
    let resp = parse_response(&info_fixture(1)).unwrap();
    assert_eq!(resp.status, 0);
    assert_eq!(resp.data.sid, 2035712);
    assert_eq!(resp.data.bids_amount, 1);
    assert_eq!(resp.data.bid_data.len(), 1);
    assert_eq!(resp.data.bid_data[0].bid, 2045169);
    assert_eq!(resp.data.bid_data[0].audio, "song.mp3");
    assert_eq!(resp.data.bid_data[0].star, "5.24");
    assert_eq!(resp.data.bid_data[0].od, "8.5");
    assert_eq!(resp.data.artist.as_deref(), Some("kano"));
}

#[test]
fn info_response_count_mismatch_is_rejected() {
    assert!(matches!(parse_response(&info_fixture(2)), Err(ApiError::Parse)));
}

#[test]
fn error_messages_name_the_failure() {
    assert_eq!(ApiError::EmptyParams.message(), "url params is empty");
    assert_eq!(ApiError::HttpStatus(404).message(), "http status not success");
    assert_eq!(ApiError::Transport.message(), "request error");
}

#[test]
fn http_status_classification_is_exact() {
    assert_eq!(check_http_status(true, 200), Ok(()));
    assert_eq!(check_http_status(false, 404), Err(ApiError::HttpStatus(404)));
    assert_eq!(check_http_status(false, 500), Err(ApiError::HttpStatus(500)));
}

#[test]
fn serializing_a_bad_relevance_text_is_a_parse_error() {
    let mut row = Data {
        approved: 1,
        artist: "a".to_string(),
        artist_u: "a".to_string(),
        creator: "c".to_string(),
        favourite_count: 1,
        lastupdate: 5,
        modes: 1,
        order: "not a number".to_string(),
        play_count: 10,
        sid: 111,
        title: "t".to_string(),
        title_u: "t".to_string(),
    };
    let r = SearchResponse {
        data: Some(vec![row.clone()]),
        endid: None,
        match_artist_results: None,
        match_creator_results: None,
        match_tags_results: None,
        match_title_results: None,
        match_version_results: None,
        results: Some(1),
        status: 0,
        time_cost: None,
    };
    assert!(matches!(search_response_to_json(&r), Err(ApiError::Parse)));
    row.order = "1.25".to_string();
    let ok = SearchResponse { data: Some(vec![row]), ..r };
    assert!(search_response_to_json(&ok).is_ok());
}
