//! The metadata lookup: a single-key query against the beatmap-info
//! endpoint, and the record shapes its JSON answer is read into.

use vstd::prelude::*;
use vstd::string::StringExecFns;

use crate::beatmap_params::push_pair;
use crate::encoding::{encode_component, url_encoded};
use crate::error::ApiError;
use crate::json::{
    doc_get, get_i32, get_i64, get_number_text, get_opt_i64, get_opt_string, get_string, json_of,
    parse_json_text, spec_get, spec_num_text_of, spec_opt_i64_of, spec_opt_str_of,
    spec_req_i64_of, spec_req_str_of, JsonValue,
};
use crate::strutil::{i32_to_dec, spec_dec_int, spec_join_amp};

verus! {

/// The two fields a metadata lookup accepts: the lookup key (a set
/// identifier or a name fragment) and an optional match mode.
#[derive(Debug, Clone)]
pub struct Request {
    pub key: Option<String>,
    pub match_mode: Option<i32>,
}

impl Default for Request {
    /// A lookup with nothing set.
    fn default() -> (r: Self)
        ensures
            r == Request::spec_default(),
    {
        Request { key: None, match_mode: None }
    }
}

impl Request {
    /// The lookup with both fields unset.
    pub open spec fn spec_default() -> Request {
        Request { key: None, match_mode: None }
    }

    /// Whether any field is set.
    pub open spec fn spec_has_field(self) -> bool {
        self.key is Some || self.match_mode is Some
    }

    /// The `key=value` pairs of the present fields; the wire keys are the
    /// digits `0` (lookup key) and `1` (match mode).
    pub open spec fn spec_pairs(self) -> Seq<Seq<char>> {
        let s = Seq::<Seq<char>>::empty();
        let s = if self.key is Some {
            s.push("0="@ + url_encoded((self.key->0)@))
        } else {
            s
        };
        let s = if self.match_mode is Some {
            s.push("1="@ + spec_dec_int(self.match_mode->0 as int))
        } else {
            s
        };
        s
    }

    /// Law: the serialized lookup carries exactly one pair for each set
    /// field.
    pub proof fn lemma_one_pair_per_field(self)
        ensures
            self.spec_pairs().len() == (if self.key is Some { 1int } else { 0int }) + (
            if self.match_mode is Some { 1int } else { 0int }),
    {
    }

    /// The full request URL: base endpoint, `?`, then the joined pairs.
    pub open spec fn spec_query_url(self) -> Seq<char> {
        "https://api.sayobot.cn/v2/beatmapinfo"@ + "?"@ + spec_join_amp(self.spec_pairs())
    }

    /// Serializes the present fields into the endpoint URL; a lookup with
    /// nothing set is rejected rather than sent.
    pub fn query_url(&self) -> (r: Result<String, ApiError>)
        ensures
            !self.spec_has_field() ==> r == Err::<String, ApiError>(ApiError::EmptyParams),
            self.spec_has_field() ==> r is Ok && (r->Ok_0)@ == self.spec_query_url(),
    {
        let mut acc = String::new();
        let mut has_any = false;
        let ghost mut ps: Seq<Seq<char>> = Seq::empty();
        if let Some(k) = &self.key {
            let mut pair = "0=".to_owned();
            let enc = encode_component(k.as_str());
            pair.append(enc.as_str());
            let g = push_pair(&mut acc, &mut has_any, pair.as_str(), Ghost(ps));
            proof {
                ps = g@;
            }
        }
        if let Some(v) = self.match_mode {
            let mut pair = "1=".to_owned();
            let d = i32_to_dec(v);
            pair.append(d.as_str());
            let g = push_pair(&mut acc, &mut has_any, pair.as_str(), Ghost(ps));
            proof {
                ps = g@;
            }
        }
        assert(ps == self.spec_pairs());
        if !has_any {
            return Err(ApiError::EmptyParams);
        }
        let mut url = "https://api.sayobot.cn/v2/beatmapinfo".to_owned();
        url.append("?");
        url.append(acc.as_str());
        Ok(url)
    }
}

/// Accumulates a metadata lookup through chained setters; the terminal
/// request operation itself lives with the transport.
pub struct RequestBuilder {
    pub params: Request,
    pub request_timeout: core::time::Duration,
}

impl Default for RequestBuilder {
    /// An empty lookup with the shorter, five-second default timeout.
    fn default() -> (r: Self)
        ensures
            r.params == Request::spec_default(),
            r.request_timeout == crate::duration_secs(5),
    {
        RequestBuilder {
            params: Request { key: None, match_mode: None },
            request_timeout: core::time::Duration::from_secs(5),
        }
    }
}

impl RequestBuilder {
    /// An empty lookup with the longer, ten-second default timeout
    /// (unlike `default`, which uses five).
    pub fn new() -> (r: Self)
        ensures
            r.params == Request::spec_default(),
            r.request_timeout == crate::duration_secs(10),
    {
        RequestBuilder {
            params: Request { key: None, match_mode: None },
            request_timeout: core::time::Duration::from_secs(10),
        }
    }

    /// Sets the lookup key.
    pub fn set_key(self, key: String) -> (r: Self)
        ensures
            r.params.key == Some(key),
            r.params.match_mode == self.params.match_mode,
            r.request_timeout == self.request_timeout,
    {
        let mut s = self;
        s.params.key = Some(key);
        s
    }

    /// Sets the whole-request timeout.
    pub fn set_timeout(self, timeout: core::time::Duration) -> (r: Self)
        ensures
            r.params == self.params,
            r.request_timeout == timeout,
    {
        let mut s = self;
        s.request_timeout = timeout;
        s
    }

    /// Sets the match mode.
    pub fn set_match_mode(self, match_mode: i32) -> (r: Self)
        ensures
            r.params.key == self.params.key,
            r.params.match_mode == Some(match_mode),
            r.request_timeout == self.request_timeout,
    {
        let mut s = self;
        s.params.match_mode = Some(match_mode);
        s
    }

    /// The URL the terminal request operation will fetch.
    pub fn query_url(&self) -> (r: Result<String, ApiError>)
        ensures
            !self.params.spec_has_field() ==> r == Err::<String, ApiError>(ApiError::EmptyParams),
            self.params.spec_has_field() ==> r is Ok && (r->Ok_0)@ == self.params.spec_query_url(),
    {
        self.params.query_url()
    }
}

/// One playable difficulty within a beatmap set.
///
/// Gameplay attributes that the service reports as decimal fractions are
/// carried as their decimal text; the library never computes with them.
#[derive(Debug, Clone)]
pub struct BuildInfo {
    pub ar: String,
    pub cs: String,
    pub hp: String,
    pub od: String,
    pub aim: String,
    pub audio: String,
    pub bg: String,
    pub bid: i64,
    pub circles: i64,
    pub hit300window: i64,
    pub img: String,
    pub length: i64,
    pub maxcombo: i64,
    pub mode: i64,
    pub passcount: i64,
    pub playcount: i64,
    pub pp: String,
    pub pp_acc: String,
    pub pp_aim: String,
    pub pp_speed: String,
    pub sliders: i64,
    pub speed: String,
    pub spinners: i64,
    pub star: String,
    pub strain_aim: String,
    pub strain_speed: String,
    pub version: String,
}

/// One beatmap set: shared metadata and the ordered collection of its
/// difficulty sub-records.
#[derive(Debug, Clone)]
pub struct ResponseData {
    pub approved: Option<i64>,
    pub approved_date: Option<i64>,
    pub artist: Option<String>,
    pub artist_u: Option<String>,
    pub bid_data: Vec<BuildInfo>,
    pub bids_amount: i64,
    pub bpm: String,
    pub creator: String,
    pub creator_id: i64,
    pub favourite_count: i64,
    pub genre: i32,
    pub language: i32,
    pub last_update: i64,
    pub local_update: i64,
    pub preview: i64,
    pub sid: i64,
    pub source: String,
    pub storyboard: i64,
    pub tags: String,
    pub title: String,
    pub title_u: String,
    pub video: i64,
}

impl ResponseData {
    /// The declared sub-record count agrees with the collection it
    /// owns.
    pub open spec fn spec_wf(self) -> bool {
        self.bids_amount == self.bid_data@.len()
    }
}

/// A whole metadata lookup answer: the record and the service's status
/// code.
#[derive(Debug, Clone)]
pub struct Response {
    pub data: ResponseData,
    pub status: i64,
}

impl Response {
    /// The record inside satisfies its own invariant.
    pub open spec fn spec_wf(self) -> bool {
        self.data.spec_wf()
    }
}

/// Whether a document node carries every gameplay field a difficulty
/// sub-record requires, each with the type the wire promises.
pub open spec fn spec_build_ok(d: JsonValue) -> bool {
    &&& spec_num_text_of(d, "AR"@) is Some
    &&& spec_num_text_of(d, "CS"@) is Some
    &&& spec_num_text_of(d, "HP"@) is Some
    &&& spec_num_text_of(d, "OD"@) is Some
    &&& spec_num_text_of(d, "aim"@) is Some
    &&& spec_req_str_of(d, "audio"@) is Some
    &&& spec_req_str_of(d, "bg"@) is Some
    &&& spec_req_i64_of(d, "bid"@) is Some
    &&& spec_req_i64_of(d, "circles"@) is Some
    &&& spec_req_i64_of(d, "hit300window"@) is Some
    &&& spec_req_str_of(d, "img"@) is Some
    &&& spec_req_i64_of(d, "length"@) is Some
    &&& spec_req_i64_of(d, "maxcombo"@) is Some
    &&& spec_req_i64_of(d, "mode"@) is Some
    &&& spec_req_i64_of(d, "passcount"@) is Some
    &&& spec_req_i64_of(d, "playcount"@) is Some
    &&& spec_num_text_of(d, "pp"@) is Some
    &&& spec_num_text_of(d, "pp_acc"@) is Some
    &&& spec_num_text_of(d, "pp_aim"@) is Some
    &&& spec_num_text_of(d, "pp_speed"@) is Some
    &&& spec_req_i64_of(d, "sliders"@) is Some
    &&& spec_num_text_of(d, "speed"@) is Some
    &&& spec_req_i64_of(d, "spinners"@) is Some
    &&& spec_num_text_of(d, "star"@) is Some
    &&& spec_req_str_of(d, "strain_aim"@) is Some
    &&& spec_req_str_of(d, "strain_speed"@) is Some
    &&& spec_req_str_of(d, "version"@) is Some
}

/// The sub-record a document node reads to, field by field.
pub open spec fn build_matches(b: BuildInfo, d: JsonValue) -> bool {
    &&& spec_num_text_of(d, "AR"@) is Some && b.ar@ == spec_num_text_of(d, "AR"@)->0
    &&& spec_num_text_of(d, "CS"@) is Some && b.cs@ == spec_num_text_of(d, "CS"@)->0
    &&& spec_num_text_of(d, "HP"@) is Some && b.hp@ == spec_num_text_of(d, "HP"@)->0
    &&& spec_num_text_of(d, "OD"@) is Some && b.od@ == spec_num_text_of(d, "OD"@)->0
    &&& spec_num_text_of(d, "aim"@) is Some && b.aim@ == spec_num_text_of(d, "aim"@)->0
    &&& Some(b.audio) == spec_req_str_of(d, "audio"@)
    &&& Some(b.bg) == spec_req_str_of(d, "bg"@)
    &&& Some(b.bid) == spec_req_i64_of(d, "bid"@)
    &&& Some(b.circles) == spec_req_i64_of(d, "circles"@)
    &&& Some(b.hit300window) == spec_req_i64_of(d, "hit300window"@)
    &&& Some(b.img) == spec_req_str_of(d, "img"@)
    &&& Some(b.length) == spec_req_i64_of(d, "length"@)
    &&& Some(b.maxcombo) == spec_req_i64_of(d, "maxcombo"@)
    &&& Some(b.mode) == spec_req_i64_of(d, "mode"@)
    &&& Some(b.passcount) == spec_req_i64_of(d, "passcount"@)
    &&& Some(b.playcount) == spec_req_i64_of(d, "playcount"@)
    &&& spec_num_text_of(d, "pp"@) is Some && b.pp@ == spec_num_text_of(d, "pp"@)->0
    &&& spec_num_text_of(d, "pp_acc"@) is Some && b.pp_acc@ == spec_num_text_of(d, "pp_acc"@)->0
    &&& spec_num_text_of(d, "pp_aim"@) is Some && b.pp_aim@ == spec_num_text_of(d, "pp_aim"@)->0
    &&& spec_num_text_of(d, "pp_speed"@) is Some && b.pp_speed@ == spec_num_text_of(d, "pp_speed"@)->0
    &&& Some(b.sliders) == spec_req_i64_of(d, "sliders"@)
    &&& spec_num_text_of(d, "speed"@) is Some && b.speed@ == spec_num_text_of(d, "speed"@)->0
    &&& Some(b.spinners) == spec_req_i64_of(d, "spinners"@)
    &&& spec_num_text_of(d, "star"@) is Some && b.star@ == spec_num_text_of(d, "star"@)->0
    &&& Some(b.strain_aim) == spec_req_str_of(d, "strain_aim"@)
    &&& Some(b.strain_speed) == spec_req_str_of(d, "strain_speed"@)
    &&& Some(b.version) == spec_req_str_of(d, "version"@)
}

/// Reads one difficulty sub-record out of a parsed document node:
/// exactly the fields the node carries, or the typed parse error when
/// any is missing or wrongly typed.
#[verifier::rlimit(100)]
pub fn parse_build_info(d: &JsonValue) -> (r: Result<BuildInfo, ApiError>)
    ensures
        !spec_build_ok(*d) ==> r == Err::<BuildInfo, ApiError>(ApiError::Parse),
        spec_build_ok(*d) ==> r is Ok && build_matches(r->Ok_0, *d),
{
    Ok(
        BuildInfo {
            ar: get_number_text(d, "AR")?,
            cs: get_number_text(d, "CS")?,
            hp: get_number_text(d, "HP")?,
            od: get_number_text(d, "OD")?,
            aim: get_number_text(d, "aim")?,
            audio: get_string(d, "audio")?,
            bg: get_string(d, "bg")?,
            bid: get_i64(d, "bid")?,
            circles: get_i64(d, "circles")?,
            hit300window: get_i64(d, "hit300window")?,
            img: get_string(d, "img")?,
            length: get_i64(d, "length")?,
            maxcombo: get_i64(d, "maxcombo")?,
            mode: get_i64(d, "mode")?,
            passcount: get_i64(d, "passcount")?,
            playcount: get_i64(d, "playcount")?,
            pp: get_number_text(d, "pp")?,
            pp_acc: get_number_text(d, "pp_acc")?,
            pp_aim: get_number_text(d, "pp_aim")?,
            pp_speed: get_number_text(d, "pp_speed")?,
            sliders: get_i64(d, "sliders")?,
            speed: get_number_text(d, "speed")?,
            spinners: get_i64(d, "spinners")?,
            star: get_number_text(d, "star")?,
            strain_aim: get_string(d, "strain_aim")?,
            strain_speed: get_string(d, "strain_speed")?,
            version: get_string(d, "version")?,
        },
    )
}

/// The sub-record array of a beatmap set record, when it has one.
pub open spec fn spec_bid_rows_of(d: JsonValue) -> Option<Seq<JsonValue>> {
    match spec_get(d, "bid_data"@) {
        Some(JsonValue::Arr(items)) => Some(items@),
        _ => None,
    }
}

/// Whether a document node carries a whole beatmap set record: every
/// field typed as the wire promises, every sub-record readable, and the
/// declared sub-record count agreeing with the collection.
pub open spec fn spec_response_data_ok(d: JsonValue) -> bool {
    &&& match spec_bid_rows_of(d) {
        Some(items) => forall|i: int| 0 <= i < items.len() ==> spec_build_ok(#[trigger] items[i]),
        None => false,
    }
    &&& match spec_req_i64_of(d, "bids_amount"@) {
        Some(n) => spec_bid_rows_of(d) is Some && n == spec_bid_rows_of(d)->0.len(),
        None => false,
    }
    &&& spec_opt_i64_of(d, "approved"@) is Some
    &&& spec_opt_i64_of(d, "approved_date"@) is Some
    &&& spec_opt_str_of(d, "artist"@) is Some
    &&& spec_opt_str_of(d, "artistU"@) is Some
    &&& spec_num_text_of(d, "bpm"@) is Some
    &&& spec_req_str_of(d, "creator"@) is Some
    &&& spec_req_i64_of(d, "creator_id"@) is Some
    &&& spec_req_i64_of(d, "favourite_count"@) is Some
    &&& match spec_req_i64_of(d, "genre"@) {
        Some(n) => i32::MIN <= n <= i32::MAX,
        None => false,
    }
    &&& match spec_req_i64_of(d, "language"@) {
        Some(n) => i32::MIN <= n <= i32::MAX,
        None => false,
    }
    &&& spec_req_i64_of(d, "last_update"@) is Some
    &&& spec_req_i64_of(d, "local_update"@) is Some
    &&& spec_req_i64_of(d, "preview"@) is Some
    &&& spec_req_i64_of(d, "sid"@) is Some
    &&& spec_req_str_of(d, "source"@) is Some
    &&& spec_req_i64_of(d, "storyboard"@) is Some
    &&& spec_req_str_of(d, "tags"@) is Some
    &&& spec_req_str_of(d, "title"@) is Some
    &&& spec_req_str_of(d, "titleU"@) is Some
    &&& spec_req_i64_of(d, "video"@) is Some
}

/// The beatmap set record a document node reads to, field by field.
pub open spec fn response_data_matches(rd: ResponseData, d: JsonValue) -> bool {
    &&& match spec_bid_rows_of(d) {
        Some(items) => rd.bid_data@.len() == items.len() && forall|i: int|
            0 <= i < items.len() ==> build_matches(#[trigger] rd.bid_data@[i], items[i]),
        None => false,
    }
    &&& Some(rd.bids_amount) == spec_req_i64_of(d, "bids_amount"@)
    &&& Some(rd.approved) == spec_opt_i64_of(d, "approved"@)
    &&& Some(rd.approved_date) == spec_opt_i64_of(d, "approved_date"@)
    &&& Some(rd.artist) == spec_opt_str_of(d, "artist"@)
    &&& Some(rd.artist_u) == spec_opt_str_of(d, "artistU"@)
    &&& spec_num_text_of(d, "bpm"@) is Some && rd.bpm@ == spec_num_text_of(d, "bpm"@)->0
    &&& Some(rd.creator) == spec_req_str_of(d, "creator"@)
    &&& Some(rd.creator_id) == spec_req_i64_of(d, "creator_id"@)
    &&& Some(rd.favourite_count) == spec_req_i64_of(d, "favourite_count"@)
    &&& Some(rd.genre as i64) == spec_req_i64_of(d, "genre"@)
    &&& Some(rd.language as i64) == spec_req_i64_of(d, "language"@)
    &&& Some(rd.last_update) == spec_req_i64_of(d, "last_update"@)
    &&& Some(rd.local_update) == spec_req_i64_of(d, "local_update"@)
    &&& Some(rd.preview) == spec_req_i64_of(d, "preview"@)
    &&& Some(rd.sid) == spec_req_i64_of(d, "sid"@)
    &&& Some(rd.source) == spec_req_str_of(d, "source"@)
    &&& Some(rd.storyboard) == spec_req_i64_of(d, "storyboard"@)
    &&& Some(rd.tags) == spec_req_str_of(d, "tags"@)
    &&& Some(rd.title) == spec_req_str_of(d, "title"@)
    &&& Some(rd.title_u) == spec_req_str_of(d, "titleU"@)
    &&& Some(rd.video) == spec_req_i64_of(d, "video"@)
}

/// Reads a whole beatmap set record out of a parsed document node:
/// exactly what the node carries, rejecting a missing or wrongly typed
/// field and a declared sub-record count that disagrees with the
/// collection.
#[verifier::rlimit(100)]
pub fn parse_response_data(d: &JsonValue) -> (r: Result<ResponseData, ApiError>)
    ensures
        !spec_response_data_ok(*d) ==> r == Err::<ResponseData, ApiError>(ApiError::Parse),
        spec_response_data_ok(*d) ==> r is Ok && response_data_matches(r->Ok_0, *d),
        r is Ok ==> r->Ok_0.spec_wf(),
{
    let rows_v = match doc_get(d, "bid_data") {
        Some(JsonValue::Arr(items)) => items,
        _ => {
            return Err(ApiError::Parse);
        },
    };
    let mut bid_data: Vec<BuildInfo> = Vec::new();
    let mut i: usize = 0;
    while i < rows_v.len()
        invariant
            i <= rows_v@.len(),
            bid_data@.len() == i,
            spec_bid_rows_of(*d) == Some(rows_v@),
            forall|j: int|
                0 <= j < i ==> spec_build_ok(#[trigger] rows_v@[j]) && build_matches(
                    bid_data@[j],
                    rows_v@[j],
                ),
        decreases rows_v@.len() - i,
    {
        let row = match parse_build_info(&rows_v[i]) {
            Ok(row) => row,
            Err(e) => {
                return Err(e);
            },
        };
        bid_data.push(row);
        i += 1;
    }
    let bids_amount = get_i64(d, "bids_amount")?;
    if !(bids_amount >= 0 && bids_amount as u64 == bid_data.len() as u64) {
        return Err(ApiError::Parse);
    }
    Ok(
        ResponseData {
            approved: get_opt_i64(d, "approved")?,
            approved_date: get_opt_i64(d, "approved_date")?,
            artist: get_opt_string(d, "artist")?,
            artist_u: get_opt_string(d, "artistU")?,
            bpm: get_number_text(d, "bpm")?,
            creator: get_string(d, "creator")?,
            creator_id: get_i64(d, "creator_id")?,
            favourite_count: get_i64(d, "favourite_count")?,
            genre: get_i32(d, "genre")?,
            language: get_i32(d, "language")?,
            last_update: get_i64(d, "last_update")?,
            local_update: get_i64(d, "local_update")?,
            preview: get_i64(d, "preview")?,
            sid: get_i64(d, "sid")?,
            source: get_string(d, "source")?,
            storyboard: get_i64(d, "storyboard")?,
            tags: get_string(d, "tags")?,
            title: get_string(d, "title")?,
            title_u: get_string(d, "titleU")?,
            video: get_i64(d, "video")?,
            bid_data,
            bids_amount,
        },
    )
}

/// Whether a document carries a whole metadata lookup answer.
pub open spec fn spec_response_ok(d: JsonValue) -> bool {
    &&& match spec_get(d, "data"@) {
        Some(dd) => spec_response_data_ok(dd),
        None => false,
    }
    &&& spec_req_i64_of(d, "status"@) is Some
}

/// The lookup answer a document reads to.
pub open spec fn response_matches(r: Response, d: JsonValue) -> bool {
    &&& match spec_get(d, "data"@) {
        Some(dd) => response_data_matches(r.data, dd),
        None => false,
    }
    &&& Some(r.status) == spec_req_i64_of(d, "status"@)
}

/// Reads a whole metadata lookup answer out of JSON text: succeeds
/// exactly when the text parses and the document has the answer's
/// shape, the record is then fixed by the document, and it always
/// satisfies the sub-record count invariant.
pub fn parse_response(text: &str) -> (r: Result<Response, ApiError>)
    ensures
        json_of(text@) is None ==> r == Err::<Response, ApiError>(ApiError::Parse),
        json_of(text@) is Some && !spec_response_ok(json_of(text@)->0) ==> r == Err::<
            Response,
            ApiError,
        >(ApiError::Parse),
        json_of(text@) is Some && spec_response_ok(json_of(text@)->0) ==> r is Ok
            && response_matches(r->Ok_0, json_of(text@)->0),
        r is Ok ==> r->Ok_0.spec_wf(),
{
    let doc = match parse_json_text(text) {
        Some(doc) => doc,
        None => {
            return Err(ApiError::Parse);
        },
    };
    let data = match doc_get(&doc, "data") {
        Some(dd) => parse_response_data(dd)?,
        None => {
            return Err(ApiError::Parse);
        },
    };
    let status = get_i64(&doc, "status")?;
    Ok(Response { data, status })
}

} // verus!
