use sayobot_api_wrap::beatmap_params::{Range, SearchParams};
use sayobot_api_wrap::beatmap_request::RequestBuilder;
use sayobot_api_wrap::enums::{Class, GameMode, Genre, Language, RequestType, SubType};
use sayobot_api_wrap::error::ApiError;

#[test]
fn test_search_params_default() {
    let search_params = SearchParams::default();
    let url_params = search_params.query_url();
    assert!(url_params.is_err());
}

#[test]
fn test_all_mode() {
    let mut default_params = SearchParams::default();
    default_params.mode = Some(GameMode::all().bits());
    assert_eq!(default_params.mode, Some(1 + 2 + 4 + 8));
}

#[test]
fn range_rejects_start_above_end() {
    assert_eq!(Range::new(6, 5), Err(ApiError::StartGreaterThanEnd));
    assert_eq!(Range::new(5, -1), Err(ApiError::StartGreaterThanEnd));
}

#[test]
fn range_rejects_out_of_bounds() {
    assert_eq!(Range::new(-1, 5), Err(ApiError::RangeOutOfBounds));
    assert_eq!(Range::new(0, 10000), Err(ApiError::RangeOutOfBounds));
    assert_eq!(Range::new(-3, 10000), Err(ApiError::RangeOutOfBounds));
}

#[test]
fn range_keeps_valid_bounds_unchanged() {
    let r = Range::new(0, 9999).unwrap();
    assert_eq!(r.start, 0);
    assert_eq!(r.end, 9999);
    let r = Range::new(7, 7).unwrap();
    assert_eq!(r.start, 7);
    assert_eq!(r.end, 7);
}

#[test]
fn empty_query_is_rejected() {
    assert_eq!(SearchParams::default().query_url(), Err(ApiError::EmptyParams));
}

#[test]
fn query_has_one_pair_per_set_field() {
    let mut p = SearchParams::default();
    p.limit = Some(20);
    p.keyword = Some("kano".to_string());
    p.mode = Some(1);
    let url = p.query_url().unwrap();
    assert_eq!(url, "https://api.sayobot.cn/beatmaplist?L=20&K=kano&M=1");
    let pairs: Vec<&str> = url.split('?').nth(1).unwrap().split('&').collect();
    assert_eq!(pairs.len(), 3);
}

#[test]
fn query_percent_encodes_keyword() {
    let mut p = SearchParams::default();
    p.keyword = Some("two words".to_string());
    let url = p.query_url().unwrap();
    assert_eq!(url, "https://api.sayobot.cn/beatmaplist?K=two%20words");
}

#[test]
fn all_flags_are_union_of_constants() {
    assert_eq!(GameMode::all().bits(), GameMode::STD | GameMode::TAIKO | GameMode::CTB | GameMode::MANIA);
    assert_eq!(GameMode::all().bits(), 15);
    assert_eq!(Class::all().bits(), 0b11111);
    assert_eq!(Genre::all().bits(), 0b1111111111);
    assert_eq!(Language::all().bits(), 0b111111111111);
    assert_eq!(SubType::all().bits(), 0b111111);
}

#[test]
fn flag_union_is_bitwise_or() {
    let c = Class { bits: Class::LOVED }.union(Class { bits: Class::RANKED_APPROVED });
    assert_eq!(c.bits(), 0b0101);
}

#[test]
fn star_range_compiles_to_filter_clause() {
    let mut b = RequestBuilder::new().set_starts_range(Range::new(0, 5).unwrap());
    b.build_other_string();
    assert_eq!(b.params.other.as_deref(), Some("star:0~5,end"));
}

#[test]
fn od_range_clause_is_emitted_twice() {
    let mut b = RequestBuilder::new().set_od_range(Range::new(1, 2).unwrap());
    b.build_other_string();
    assert_eq!(b.params.other.as_deref(), Some("od:1~2,od:1~2,end"));
}

#[test]
fn no_range_leaves_filter_absent() {
    let mut b = RequestBuilder::new().set_limit(20);
    b.build_other_string();
    assert_eq!(b.params.other, None);
    let url = b.params.query_url().unwrap();
    assert!(!url.contains("R="));
}

#[test]
fn ar_range_never_reaches_the_filter() {
    let mut b = RequestBuilder::new().set_ar_range(Range::new(8, 9).unwrap());
    b.build_other_string();
    assert_eq!(b.params.other, None);
}

#[test]
fn filter_clauses_follow_fixed_order() {
    let mut b = RequestBuilder::new()
        .set_length_range(Range::new(30, 90).unwrap())
        .set_bpm_range(Range::new(120, 180).unwrap())
        .set_hp_range(Range::new(3, 6).unwrap())
        .set_cs_range(Range::new(2, 4).unwrap())
        .set_od_range(Range::new(5, 7).unwrap())
        .set_starts_range(Range::new(0, 5).unwrap());
    b.build_other_string();
    assert_eq!(
        b.params.other.as_deref(),
        Some("star:0~5,od:5~7,od:5~7,cs:2~4,hp:3~6,bpm:120~180,length:30~90,end")
    );
}

#[test]
fn builder_compiles_full_search_url() {
    let b = RequestBuilder::new()
        .set_request_type(RequestType::Search)
        .set_keyword("kano".to_string())
        .set_limit(20)
        .set_class(
            Class { bits: Class::LOVED }
                .union(Class { bits: Class::RANKED_APPROVED })
                .union(Class { bits: Class::QUALIFIED }),
        );
    let url = b.build_query_url().unwrap();
    assert_eq!(url, "https://api.sayobot.cn/beatmaplist?L=20&T=4&K=kano&C=7");
}

#[test]
fn builder_with_range_sends_compiled_filter() {
    let b = RequestBuilder::new()
        .set_keyword("kano".to_string())
        .set_starts_range(Range::new(0, 5).unwrap());
    let url = b.build_query_url().unwrap();
    assert_eq!(
        url,
        "https://api.sayobot.cn/beatmaplist?K=kano&R=star%3A0~5%2Cend"
    );
}

#[test]
fn empty_builder_is_rejected() {
    let b = RequestBuilder::new();
    assert_eq!(b.build_query_url(), Err(ApiError::EmptyParams));
}

#[test]
fn request_type_codes() {
    assert_eq!(RequestType::Hot.code(), "1");
    assert_eq!(RequestType::New.code(), "2");
    assert_eq!(RequestType::Packs.code(), "3");
    assert_eq!(RequestType::Search.code(), "4");
}

#[test]
fn query_orders_all_fields_as_the_wire_expects() {
    let mut p = SearchParams::default();
    p.limit = Some(25);
    p.offset = Some(50);
    p.request_type = Some(RequestType::Hot);
    p.keyword = Some("kano".to_string());
    p.sub_type = Some(SubType::all().bits());
    p.mode = Some(2);
    p.class = Some(5);
    p.genre = Some(8);
    p.language = Some(16);
    p.other = Some("star:1~2,end".to_string());
    let url = p.query_url().unwrap();
    assert_eq!(
        url,
        "https://api.sayobot.cn/beatmaplist?L=25&O=50&T=1&K=kano&S=63&M=2&C=5&G=8&E=16&R=star%3A1~2%2Cend"
    );
}
