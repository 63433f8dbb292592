//! The search/list answer: one summary row per matching beatmap set,
//! match-count breakdowns and the pagination cursor, with a reader and
//! a writer verified against the parsed document: what comes out is
//! fixed, field by field, by what the text parses to.

use vstd::prelude::*;

use crate::error::ApiError;
use crate::json::{
    check_json_num, doc_get, get_i64, get_number_text, get_opt_i64, get_string, is_json_num,
    json_of, json_text_of, parse_json_text, render_json_text, doc_nums_ok, spec_get,
    spec_num_text_of, spec_opt_i64_of, spec_req_i64_of, spec_req_str_of, JsonValue,
};

verus! {

/// One summary row of a search answer.
///
/// The relevance score (`order`) is reported by the service as a decimal
/// fraction and carried as its decimal text; the library never computes
/// with it.
#[derive(Debug, Clone)]
pub struct Data {
    pub approved: i64,
    pub artist: String,
    pub artist_u: String,
    pub creator: String,
    pub favourite_count: i64,
    pub lastupdate: i64,
    pub modes: i64,
    pub order: String,
    pub play_count: i64,
    pub sid: i64,
    pub title: String,
    pub title_u: String,
}

/// A whole search answer: the rows, optional match-count breakdowns, the
/// continuation cursor and the service's status code.
#[derive(Debug, Clone)]
pub struct SearchResponse {
    pub data: Option<Vec<Data>>,
    pub endid: Option<i64>,
    pub match_artist_results: Option<i64>,
    pub match_creator_results: Option<i64>,
    pub match_tags_results: Option<i64>,
    pub match_title_results: Option<i64>,
    pub match_version_results: Option<i64>,
    pub results: Option<i64>,
    pub status: i64,
    pub time_cost: Option<i64>,
}

/// Whether a document node carries every field a summary row requires,
/// each with the type the wire promises.
pub open spec fn spec_data_ok(d: JsonValue) -> bool {
    &&& spec_req_i64_of(d, "approved"@) is Some
    &&& spec_req_str_of(d, "artist"@) is Some
    &&& spec_req_str_of(d, "artistU"@) is Some
    &&& spec_req_str_of(d, "creator"@) is Some
    &&& spec_req_i64_of(d, "favourite_count"@) is Some
    &&& spec_req_i64_of(d, "lastupdate"@) is Some
    &&& spec_req_i64_of(d, "modes"@) is Some
    &&& spec_num_text_of(d, "order"@) is Some
    &&& spec_req_i64_of(d, "play_count"@) is Some
    &&& spec_req_i64_of(d, "sid"@) is Some
    &&& spec_req_str_of(d, "title"@) is Some
    &&& spec_req_str_of(d, "titleU"@) is Some
}

/// The row a document node reads to, field by field.
pub open spec fn data_row_matches(row: Data, d: JsonValue) -> bool {
    &&& Some(row.approved) == spec_req_i64_of(d, "approved"@)
    &&& Some(row.artist) == spec_req_str_of(d, "artist"@)
    &&& Some(row.artist_u) == spec_req_str_of(d, "artistU"@)
    &&& Some(row.creator) == spec_req_str_of(d, "creator"@)
    &&& Some(row.favourite_count) == spec_req_i64_of(d, "favourite_count"@)
    &&& Some(row.lastupdate) == spec_req_i64_of(d, "lastupdate"@)
    &&& Some(row.modes) == spec_req_i64_of(d, "modes"@)
    &&& spec_num_text_of(d, "order"@) is Some && row.order@ == spec_num_text_of(d, "order"@)->0
    &&& Some(row.play_count) == spec_req_i64_of(d, "play_count"@)
    &&& Some(row.sid) == spec_req_i64_of(d, "sid"@)
    &&& Some(row.title) == spec_req_str_of(d, "title"@)
    &&& Some(row.title_u) == spec_req_str_of(d, "titleU"@)
}

/// Reads one summary row out of a parsed document node: exactly the
/// fields the node carries, or the typed parse error when any is
/// missing or wrongly typed.
pub fn parse_data(d: &JsonValue) -> (r: Result<Data, ApiError>)
    ensures
        !spec_data_ok(*d) ==> r == Err::<Data, ApiError>(ApiError::Parse),
        spec_data_ok(*d) ==> r is Ok && data_row_matches(r->Ok_0, *d),
{
    Ok(
        Data {
            approved: get_i64(d, "approved")?,
            artist: get_string(d, "artist")?,
            artist_u: get_string(d, "artistU")?,
            creator: get_string(d, "creator")?,
            favourite_count: get_i64(d, "favourite_count")?,
            lastupdate: get_i64(d, "lastupdate")?,
            modes: get_i64(d, "modes")?,
            order: get_number_text(d, "order")?,
            play_count: get_i64(d, "play_count")?,
            sid: get_i64(d, "sid")?,
            title: get_string(d, "title")?,
            title_u: get_string(d, "titleU")?,
        },
    )
}

/// The rows member of a search answer: `None` for a shape error,
/// `Some(None)` for absent or null, else the array's nodes.
pub open spec fn spec_rows_of(d: JsonValue) -> Option<Option<Seq<JsonValue>>> {
    match spec_get(d, "data"@) {
        None => Some(None),
        Some(m) => match m {
            JsonValue::Null => Some(None),
            JsonValue::Arr(items) => Some(Some(items@)),
            _ => None,
        },
    }
}

/// Whether a document carries a whole search answer: a required status,
/// optional counts, and rows that each read as a summary row.
pub open spec fn spec_search_ok(d: JsonValue) -> bool {
    &&& match spec_rows_of(d) {
        None => false,
        Some(None) => true,
        Some(Some(items)) => forall|i: int|
            0 <= i < items.len() ==> spec_data_ok(#[trigger] items[i]),
    }
    &&& spec_opt_i64_of(d, "endid"@) is Some
    &&& spec_opt_i64_of(d, "match_artist_results"@) is Some
    &&& spec_opt_i64_of(d, "match_creator_results"@) is Some
    &&& spec_opt_i64_of(d, "match_tags_results"@) is Some
    &&& spec_opt_i64_of(d, "match_title_results"@) is Some
    &&& spec_opt_i64_of(d, "match_version_results"@) is Some
    &&& spec_opt_i64_of(d, "results"@) is Some
    &&& spec_req_i64_of(d, "status"@) is Some
    &&& spec_opt_i64_of(d, "time_cost"@) is Some
}

/// The answer a document reads to, field by field; an empty rows array
/// stays an empty collection, distinct from an absent one.
pub open spec fn search_matches(r: SearchResponse, d: JsonValue) -> bool {
    &&& match spec_rows_of(d) {
        None => false,
        Some(None) => r.data is None,
        Some(Some(items)) => r.data is Some && (r.data->0)@.len() == items.len() && forall|
            i: int,
        |
            0 <= i < items.len() ==> data_row_matches(#[trigger] (r.data->0)@[i], items[i]),
    }
    &&& Some(r.endid) == spec_opt_i64_of(d, "endid"@)
    &&& Some(r.match_artist_results) == spec_opt_i64_of(d, "match_artist_results"@)
    &&& Some(r.match_creator_results) == spec_opt_i64_of(d, "match_creator_results"@)
    &&& Some(r.match_tags_results) == spec_opt_i64_of(d, "match_tags_results"@)
    &&& Some(r.match_title_results) == spec_opt_i64_of(d, "match_title_results"@)
    &&& Some(r.match_version_results) == spec_opt_i64_of(d, "match_version_results"@)
    &&& Some(r.results) == spec_opt_i64_of(d, "results"@)
    &&& Some(r.status) == spec_req_i64_of(d, "status"@)
    &&& Some(r.time_cost) == spec_opt_i64_of(d, "time_cost"@)
}

/// Reads a whole search answer out of JSON text: succeeds exactly when
/// the text parses and the document has the answer's shape, and the
/// record is then fixed by the document, field by field.
pub fn parse_search_response(text: &str) -> (r: Result<SearchResponse, ApiError>)
    ensures
        json_of(text@) is None ==> r == Err::<SearchResponse, ApiError>(ApiError::Parse),
        json_of(text@) is Some && !spec_search_ok(json_of(text@)->0) ==> r == Err::<
            SearchResponse,
            ApiError,
        >(ApiError::Parse),
        json_of(text@) is Some && spec_search_ok(json_of(text@)->0) ==> r is Ok
            && search_matches(r->Ok_0, json_of(text@)->0),
{
    let doc = match parse_json_text(text) {
        Some(doc) => doc,
        None => {
            return Err(ApiError::Parse);
        },
    };
    let data = match doc_get(&doc, "data") {
        None => None,
        Some(JsonValue::Null) => None,
        Some(JsonValue::Arr(items)) => {
            let mut rows: Vec<Data> = Vec::new();
            let mut i: usize = 0;
            while i < items.len()
                invariant
                    i <= items@.len(),
                    rows@.len() == i,
                    json_of(text@) == Some(doc),
                    spec_rows_of(doc) == Some(Some(items@)),
                    forall|j: int|
                        0 <= j < i ==> spec_data_ok(#[trigger] items@[j]) && data_row_matches(
                            rows@[j],
                            items@[j],
                        ),
                decreases items@.len() - i,
            {
                let row = match parse_data(&items[i]) {
                    Ok(row) => row,
                    Err(e) => {
                        proof {
                            assert(!spec_search_ok(doc)) by {
                                let items_s = (spec_rows_of(doc)->0)->0;
                                assert(items_s == items@);
                                assert(0 <= (i as int) && (i as int) < items_s.len());
                                assert(!spec_data_ok(items_s[i as int]));
                            }
                        }
                        return Err(e);
                    },
                };
                rows.push(row);
                i += 1;
            }
            Some(rows)
        },
        Some(_) => {
            return Err(ApiError::Parse);
        },
    };
    Ok(
        SearchResponse {
            data,
            endid: get_opt_i64(&doc, "endid")?,
            match_artist_results: get_opt_i64(&doc, "match_artist_results")?,
            match_creator_results: get_opt_i64(&doc, "match_creator_results")?,
            match_tags_results: get_opt_i64(&doc, "match_tags_results")?,
            match_title_results: get_opt_i64(&doc, "match_title_results")?,
            match_version_results: get_opt_i64(&doc, "match_version_results")?,
            results: get_opt_i64(&doc, "results")?,
            status: get_i64(&doc, "status")?,
            time_cost: get_opt_i64(&doc, "time_cost")?,
        },
    )
}

/// Whether every relevance text carried by the answer's rows is a plain
/// JSON number, so the whole answer can be written back out.
pub open spec fn search_nums_ok(r: SearchResponse) -> bool {
    match r.data {
        None => true,
        Some(rows) => forall|i: int|
            0 <= i < rows@.len() ==> is_json_num((#[trigger] rows@[i]).order@),
    }
}

/// The document node one summary row writes to: its twelve members, in
/// a fixed order.
pub open spec fn data_doc_matches(d: JsonValue, row: Data) -> bool {
    &&& d is Obj
    &&& {
        let es = d->Obj_0@;
        &&& es.len() == 12
        &&& es[0].0@ == "approved"@ && es[0].1 == JsonValue::Int(row.approved)
        &&& es[1].0@ == "artist"@ && es[1].1 == JsonValue::Str(row.artist)
        &&& es[2].0@ == "artistU"@ && es[2].1 == JsonValue::Str(row.artist_u)
        &&& es[3].0@ == "creator"@ && es[3].1 == JsonValue::Str(row.creator)
        &&& es[4].0@ == "favourite_count"@ && es[4].1 == JsonValue::Int(row.favourite_count)
        &&& es[5].0@ == "lastupdate"@ && es[5].1 == JsonValue::Int(row.lastupdate)
        &&& es[6].0@ == "modes"@ && es[6].1 == JsonValue::Int(row.modes)
        &&& es[7].0@ == "order"@ && es[7].1 == JsonValue::Num(row.order)
        &&& es[8].0@ == "play_count"@ && es[8].1 == JsonValue::Int(row.play_count)
        &&& es[9].0@ == "sid"@ && es[9].1 == JsonValue::Int(row.sid)
        &&& es[10].0@ == "title"@ && es[10].1 == JsonValue::Str(row.title)
        &&& es[11].0@ == "titleU"@ && es[11].1 == JsonValue::Str(row.title_u)
    }
}

/// Writes one summary row as a document node; fails exactly when the
/// carried relevance text is not a plain JSON number.
pub fn data_to_doc(row: &Data) -> (r: Result<JsonValue, ApiError>)
    ensures
        !is_json_num(row.order@) ==> r == Err::<JsonValue, ApiError>(ApiError::Parse),
        is_json_num(row.order@) ==> r is Ok && data_doc_matches(r->Ok_0, *row) && doc_nums_ok(
            r->Ok_0,
        ),
{
    if !check_json_num(row.order.as_str()) {
        return Err(ApiError::Parse);
    }
    let mut es: Vec<(String, JsonValue)> = Vec::new();
    es.push(("approved".to_owned(), JsonValue::Int(row.approved)));
    es.push(("artist".to_owned(), JsonValue::Str(row.artist.clone())));
    es.push(("artistU".to_owned(), JsonValue::Str(row.artist_u.clone())));
    es.push(("creator".to_owned(), JsonValue::Str(row.creator.clone())));
    es.push(("favourite_count".to_owned(), JsonValue::Int(row.favourite_count)));
    es.push(("lastupdate".to_owned(), JsonValue::Int(row.lastupdate)));
    es.push(("modes".to_owned(), JsonValue::Int(row.modes)));
    es.push(("order".to_owned(), JsonValue::Num(row.order.clone())));
    es.push(("play_count".to_owned(), JsonValue::Int(row.play_count)));
    es.push(("sid".to_owned(), JsonValue::Int(row.sid)));
    es.push(("title".to_owned(), JsonValue::Str(row.title.clone())));
    es.push(("titleU".to_owned(), JsonValue::Str(row.title_u.clone())));
    proof {
        let esv = es@;
        assert forall|i: int| 0 <= i < esv.len() implies doc_nums_ok(
            #[trigger] esv[i].1,
        ) by {
            assert(doc_nums_ok(esv[0].1));
            assert(doc_nums_ok(esv[1].1));
            assert(doc_nums_ok(esv[2].1));
            assert(doc_nums_ok(esv[3].1));
            assert(doc_nums_ok(esv[4].1));
            assert(doc_nums_ok(esv[5].1));
            assert(doc_nums_ok(esv[6].1));
            assert(doc_nums_ok(esv[7].1));
            assert(doc_nums_ok(esv[8].1));
            assert(doc_nums_ok(esv[9].1));
            assert(doc_nums_ok(esv[10].1));
            assert(doc_nums_ok(esv[11].1));
        }
    }
    Ok(JsonValue::Obj(es))
}

/// One optional count, written as the number or as JSON null.
fn opt_i64_doc(v: &Option<i64>) -> (r: JsonValue)
    ensures
        r == match *v {
            Some(n) => JsonValue::Int(n),
            None => JsonValue::Null,
        },
{
    match v {
        Some(n) => JsonValue::Int(*n),
        None => JsonValue::Null,
    }
}

/// The document a whole search answer writes to: its ten members in a
/// fixed order, an absent rows collection as null, an empty one as an
/// empty array.
pub open spec fn search_doc_matches(d: JsonValue, r: SearchResponse) -> bool {
    &&& d is Obj
    &&& {
        let es = d->Obj_0@;
        &&& es.len() == 10
        &&& es[0].0@ == "data"@ && match r.data {
            None => es[0].1 == JsonValue::Null,
            Some(rows) => es[0].1 is Arr && (es[0].1->Arr_0)@.len() == rows@.len() && forall|
                i: int,
            |
                0 <= i < rows@.len() ==> data_doc_matches(#[trigger] (es[0].1->Arr_0)@[i], rows@[i]),
        }
        &&& es[1].0@ == "endid"@ && es[1].1 == opt_i64_doc_spec(r.endid)
        &&& es[2].0@ == "match_artist_results"@ && es[2].1 == opt_i64_doc_spec(
            r.match_artist_results,
        )
        &&& es[3].0@ == "match_creator_results"@ && es[3].1 == opt_i64_doc_spec(
            r.match_creator_results,
        )
        &&& es[4].0@ == "match_tags_results"@ && es[4].1 == opt_i64_doc_spec(r.match_tags_results)
        &&& es[5].0@ == "match_title_results"@ && es[5].1 == opt_i64_doc_spec(
            r.match_title_results,
        )
        &&& es[6].0@ == "match_version_results"@ && es[6].1 == opt_i64_doc_spec(
            r.match_version_results,
        )
        &&& es[7].0@ == "results"@ && es[7].1 == opt_i64_doc_spec(r.results)
        &&& es[8].0@ == "status"@ && es[8].1 == JsonValue::Int(r.status)
        &&& es[9].0@ == "time_cost"@ && es[9].1 == opt_i64_doc_spec(r.time_cost)
    }
}

/// One optional count as a document node.
pub open spec fn opt_i64_doc_spec(v: Option<i64>) -> JsonValue {
    match v {
        Some(n) => JsonValue::Int(n),
        None => JsonValue::Null,
    }
}

/// Writes a whole search answer as a document; fails exactly when some
/// carried relevance text is not a plain JSON number.
pub fn search_response_to_doc(r: &SearchResponse) -> (res: Result<JsonValue, ApiError>)
    ensures
        !search_nums_ok(*r) ==> res == Err::<JsonValue, ApiError>(ApiError::Parse),
        search_nums_ok(*r) ==> res is Ok && search_doc_matches(res->Ok_0, *r) && doc_nums_ok(
            res->Ok_0,
        ),
{
    let data = match &r.data {
        None => JsonValue::Null,
        Some(rows) => {
            let mut items: Vec<JsonValue> = Vec::new();
            let mut i: usize = 0;
            while i < rows.len()
                invariant
                    i <= rows@.len(),
                    items@.len() == i,
                    r.data is Some && r.data->0 == *rows,
                    forall|j: int|
                        0 <= j < i ==> is_json_num((#[trigger] rows@[j]).order@)
                            && data_doc_matches(items@[j], rows@[j]) && doc_nums_ok(items@[j]),
                decreases rows@.len() - i,
            {
                let item = match data_to_doc(&rows[i]) {
                    Ok(item) => item,
                    Err(e) => {
                        proof {
                            assert(!is_json_num(rows@[i as int].order@));
                            assert(!search_nums_ok(*r));
                        }
                        return Err(e);
                    },
                };
                items.push(item);
                i += 1;
            }
            proof {
                assert forall|k: int| 0 <= k < items@.len() implies doc_nums_ok(
                    #[trigger] items@[k],
                ) by {
                    assert(data_doc_matches(items@[k], rows@[k]) && doc_nums_ok(items@[k]));
                }
                assert forall|k: int| 0 <= k < items@.len() implies data_doc_matches(
                    #[trigger] items@[k],
                    rows@[k],
                ) by {
                    assert(data_doc_matches(items@[k], rows@[k]) && doc_nums_ok(items@[k]));
                }
            }
            JsonValue::Arr(items)
        },
    };
    let mut es: Vec<(String, JsonValue)> = Vec::new();
    es.push(("data".to_owned(), data));
    es.push(("endid".to_owned(), opt_i64_doc(&r.endid)));
    es.push(("match_artist_results".to_owned(), opt_i64_doc(&r.match_artist_results)));
    es.push(("match_creator_results".to_owned(), opt_i64_doc(&r.match_creator_results)));
    es.push(("match_tags_results".to_owned(), opt_i64_doc(&r.match_tags_results)));
    es.push(("match_title_results".to_owned(), opt_i64_doc(&r.match_title_results)));
    es.push(("match_version_results".to_owned(), opt_i64_doc(&r.match_version_results)));
    es.push(("results".to_owned(), opt_i64_doc(&r.results)));
    es.push(("status".to_owned(), JsonValue::Int(r.status)));
    es.push(("time_cost".to_owned(), opt_i64_doc(&r.time_cost)));
    proof {
        let esv = es@;
        assert forall|i: int| 0 <= i < esv.len() implies doc_nums_ok(
            #[trigger] esv[i].1,
        ) by {
            assert(doc_nums_ok(esv[0].1));
            assert(doc_nums_ok(esv[1].1));
            assert(doc_nums_ok(esv[2].1));
            assert(doc_nums_ok(esv[3].1));
            assert(doc_nums_ok(esv[4].1));
            assert(doc_nums_ok(esv[5].1));
            assert(doc_nums_ok(esv[6].1));
            assert(doc_nums_ok(esv[7].1));
            assert(doc_nums_ok(esv[8].1));
            assert(doc_nums_ok(esv[9].1));
        }
    }
    Ok(JsonValue::Obj(es))
}

/// Writes a whole search answer as JSON text: the rendering of the
/// document the answer writes to; fails exactly when some carried
/// relevance text is not a plain JSON number.
pub fn search_response_to_json(r: &SearchResponse) -> (res: Result<String, ApiError>)
    ensures
        !search_nums_ok(*r) ==> res == Err::<String, ApiError>(ApiError::Parse),
        search_nums_ok(*r) ==> res is Ok && exists|d: JsonValue|
            #[trigger] search_doc_matches(d, *r) && (res->Ok_0)@ == json_text_of(d),
{
    let doc = match search_response_to_doc(r) {
        Ok(doc) => doc,
        Err(e) => {
            return Err(e);
        },
    };
    let text = render_json_text(&doc);
    proof {
        assert(search_doc_matches(doc, *r) && text@ == json_text_of(doc));
    }
    Ok(text)
}

} // verus!
