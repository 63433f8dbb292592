//! The search/list query: numeric ranges over beatmap attributes and the
//! multi-field parameter record, serialized into the endpoint's query
//! string.

use vstd::prelude::*;
use vstd::string::StringExecFns;

use crate::encoding::{encode_component, url_encoded};
use crate::enums::RequestType;
use crate::error::ApiError;
use crate::strutil::{
    i32_to_dec, lemma_join_amp_push, spec_dec_int, spec_dec_nat, spec_join_amp, u32_to_dec,
};

verus! {

/// An inclusive pair of bounds over one numeric beatmap attribute.
///
/// A constructed range always satisfies `0 <= start <= end <= 9999`.
#[derive(Debug, Clone, Copy, PartialEq, Eq, Structural)]
pub struct Range {
    pub start: i32,
    pub end: i32,
}

impl Range {
    /// Builds a range, rejecting a start above the end and any bound
    /// outside `0..=9999`; a valid pair is stored unchanged.
    pub fn new(start: i32, end: i32) -> (r: Result<Self, ApiError>)
        ensures
            start > end ==> r == Err::<Range, ApiError>(ApiError::StartGreaterThanEnd),
            start <= end && (start < 0 || end > 9999) ==> r == Err::<Range, ApiError>(
                ApiError::RangeOutOfBounds,
            ),
            0 <= start && start <= end && end <= 9999 ==> r == Ok::<Range, ApiError>(
                (Range { start, end }),
            ),
    {
        if start > end {
            return Err(ApiError::StartGreaterThanEnd);
        }
        if start < 0 || end > 9999 {
            return Err(ApiError::RangeOutOfBounds);
        }
        Ok(Range { start, end })
    }
}

/// Every field the search/list endpoint accepts; a field left `None` is
/// absent from the serialized query.
///
/// The trailing ranges are never serialized directly: the filter compiler
/// folds them into `other` first.
#[derive(Debug, Clone)]
pub struct SearchParams {
    pub limit: Option<i32>,
    pub offset: Option<i32>,
    pub request_type: Option<RequestType>,
    pub keyword: Option<String>,
    pub sub_type: Option<u32>,
    pub mode: Option<u32>,
    pub class: Option<u32>,
    pub genre: Option<u32>,
    pub language: Option<u32>,
    pub other: Option<String>,
    pub stars: Option<Range>,
    pub ar: Option<Range>,
    pub od: Option<Range>,
    pub cs: Option<Range>,
    pub hp: Option<Range>,
    pub length: Option<Range>,
    pub bpm: Option<Range>,
}

impl Default for SearchParams {
    /// A parameter record with nothing set.
    fn default() -> (r: Self)
        ensures
            r == SearchParams::spec_default(),
    {
        SearchParams {
            limit: None,
            offset: None,
            request_type: None,
            keyword: None,
            sub_type: None,
            mode: None,
            class: None,
            genre: None,
            language: None,
            other: None,
            stars: None,
            ar: None,
            od: None,
            cs: None,
            hp: None,
            length: None,
            bpm: None,
        }
    }
}

/// Appends one serialized pair behind a separator, unless it is the
/// first.
pub(crate) fn push_pair(
    acc: &mut String,
    has_any: &mut bool,
    pair: &str,
    Ghost(ps): Ghost<Seq<Seq<char>>>,
) -> (r: Ghost<Seq<Seq<char>>>)
    requires
        old(acc)@ == spec_join_amp(ps),
        *old(has_any) <==> ps.len() > 0,
    ensures
        r@ == ps.push(pair@),
        final(acc)@ == spec_join_amp(r@),
        *final(has_any) <==> r@.len() > 0,
{
    proof {
        lemma_join_amp_push(ps, pair@);
    }
    if *has_any {
        acc.append("&");
    }
    acc.append(pair);
    *has_any = true;
    Ghost(ps.push(pair@))
}

impl SearchParams {
    /// The record with every field unset.
    pub open spec fn spec_default() -> SearchParams {
        SearchParams {
            limit: None,
            offset: None,
            request_type: None,
            keyword: None,
            sub_type: None,
            mode: None,
            class: None,
            genre: None,
            language: None,
            other: None,
            stars: None,
            ar: None,
            od: None,
            cs: None,
            hp: None,
            length: None,
            bpm: None,
        }
    }

    /// Whether any serializable field is set.
    pub open spec fn spec_has_field(self) -> bool {
        self.limit is Some || self.offset is Some || self.request_type is Some
            || self.keyword is Some || self.sub_type is Some || self.mode is Some
            || self.class is Some || self.genre is Some || self.language is Some
            || self.other is Some
    }

    /// The present `other` value, as a character sequence.
    pub open spec fn spec_other_view(self) -> Option<Seq<char>> {
        match self.other {
            Some(o) => Some(o@),
            None => None,
        }
    }

    /// The `key=value` pairs of the present fields, in the fixed wire
    /// order, with the free-text filter taken from `other`.
    pub open spec fn spec_pairs(self) -> Seq<Seq<char>> {
        self.spec_pairs_with(self.spec_other_view())
    }

    /// The `key=value` pairs of the present fields, in the fixed wire
    /// order, with the free-text filter supplied separately.
    pub open spec fn spec_pairs_with(self, other: Option<Seq<char>>) -> Seq<Seq<char>> {
        let s = Seq::<Seq<char>>::empty();
        let s = if self.limit is Some { s.push("L="@ + spec_dec_int(self.limit->0 as int)) } else { s };
        let s = if self.offset is Some { s.push("O="@ + spec_dec_int(self.offset->0 as int)) } else { s };
        let s = if self.request_type is Some { s.push("T="@ + (self.request_type->0).spec_code()) } else { s };
        let s = if self.keyword is Some { s.push("K="@ + url_encoded((self.keyword->0)@)) } else { s };
        let s = if self.sub_type is Some { s.push("S="@ + spec_dec_nat(self.sub_type->0 as nat)) } else { s };
        let s = if self.mode is Some { s.push("M="@ + spec_dec_nat(self.mode->0 as nat)) } else { s };
        let s = if self.class is Some { s.push("C="@ + spec_dec_nat(self.class->0 as nat)) } else { s };
        let s = if self.genre is Some { s.push("G="@ + spec_dec_nat(self.genre->0 as nat)) } else { s };
        let s = if self.language is Some { s.push("E="@ + spec_dec_nat(self.language->0 as nat)) } else { s };
        let s = if other is Some { s.push("R="@ + url_encoded(other->0)) } else { s };
        s
    }

    /// Law: the serialized query carries exactly one pair for each set
    /// field, whatever combination of fields is set.
    pub proof fn lemma_one_pair_per_field(self)
        ensures
            self.spec_pairs().len() == (if self.limit is Some { 1int } else { 0int }) + (
            if self.offset is Some { 1int } else { 0int }) + (if self.request_type is Some {
                1int
            } else {
                0int
            }) + (if self.keyword is Some { 1int } else { 0int }) + (if self.sub_type is Some {
                1int
            } else {
                0int
            }) + (if self.mode is Some { 1int } else { 0int }) + (if self.class is Some {
                1int
            } else {
                0int
            }) + (if self.genre is Some { 1int } else { 0int }) + (if self.language is Some {
                1int
            } else {
                0int
            }) + (if self.other is Some { 1int } else { 0int }),
    {
    }

    /// The full request URL: base endpoint, `?`, then the joined pairs.
    pub open spec fn spec_query_url(self) -> Seq<char> {
        "https://api.sayobot.cn/beatmaplist"@ + "?"@ + spec_join_amp(self.spec_pairs())
    }

    /// Serializes the present fields into the endpoint URL, percent
    /// encoding the free-text values; a record with nothing set is
    /// rejected rather than sent.
    #[verifier::rlimit(100)]
    pub fn query_url(&self) -> (r: Result<String, ApiError>)
        ensures
            !self.spec_has_field() ==> r == Err::<String, ApiError>(ApiError::EmptyParams),
            self.spec_has_field() ==> r is Ok && (r->Ok_0)@ == self.spec_query_url(),
    {
        let mut acc = String::new();
        let mut has_any = false;
        let ghost mut ps: Seq<Seq<char>> = Seq::empty();
        if let Some(v) = self.limit {
            let mut pair = "L=".to_owned();
            let d = i32_to_dec(v);
            pair.append(d.as_str());
            let g = push_pair(&mut acc, &mut has_any, pair.as_str(), Ghost(ps));
            proof {
                ps = g@;
            }
        }
        if let Some(v) = self.offset {
            let mut pair = "O=".to_owned();
            let d = i32_to_dec(v);
            pair.append(d.as_str());
            let g = push_pair(&mut acc, &mut has_any, pair.as_str(), Ghost(ps));
            proof {
                ps = g@;
            }
        }
        if let Some(v) = self.request_type {
            let mut pair = "T=".to_owned();
            pair.append(v.code());
            let g = push_pair(&mut acc, &mut has_any, pair.as_str(), Ghost(ps));
            proof {
                ps = g@;
            }
        }
        if let Some(k) = &self.keyword {
            let mut pair = "K=".to_owned();
            let enc = encode_component(k.as_str());
            pair.append(enc.as_str());
            let g = push_pair(&mut acc, &mut has_any, pair.as_str(), Ghost(ps));
            proof {
                ps = g@;
            }
        }
        if let Some(v) = self.sub_type {
            let mut pair = "S=".to_owned();
            let d = u32_to_dec(v);
            pair.append(d.as_str());
            let g = push_pair(&mut acc, &mut has_any, pair.as_str(), Ghost(ps));
            proof {
                ps = g@;
            }
        }
        if let Some(v) = self.mode {
            let mut pair = "M=".to_owned();
            let d = u32_to_dec(v);
            pair.append(d.as_str());
            let g = push_pair(&mut acc, &mut has_any, pair.as_str(), Ghost(ps));
            proof {
                ps = g@;
            }
        }
        if let Some(v) = self.class {
            let mut pair = "C=".to_owned();
            let d = u32_to_dec(v);
            pair.append(d.as_str());
            let g = push_pair(&mut acc, &mut has_any, pair.as_str(), Ghost(ps));
            proof {
                ps = g@;
            }
        }
        if let Some(v) = self.genre {
            let mut pair = "G=".to_owned();
            let d = u32_to_dec(v);
            pair.append(d.as_str());
            let g = push_pair(&mut acc, &mut has_any, pair.as_str(), Ghost(ps));
            proof {
                ps = g@;
            }
        }
        if let Some(v) = self.language {
            let mut pair = "E=".to_owned();
            let d = u32_to_dec(v);
            pair.append(d.as_str());
            let g = push_pair(&mut acc, &mut has_any, pair.as_str(), Ghost(ps));
            proof {
                ps = g@;
            }
        }
        if let Some(k) = &self.other {
            let mut pair = "R=".to_owned();
            let enc = encode_component(k.as_str());
            pair.append(enc.as_str());
            let g = push_pair(&mut acc, &mut has_any, pair.as_str(), Ghost(ps));
            proof {
                ps = g@;
            }
        }
        assert(ps == self.spec_pairs());
        if !has_any {
            return Err(ApiError::EmptyParams);
        }
        let mut url = "https://api.sayobot.cn/beatmaplist".to_owned();
        url.append("?");
        url.append(acc.as_str());
        Ok(url)
    }
}

} // verus!
