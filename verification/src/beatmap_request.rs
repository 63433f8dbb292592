//! The search/list builder: chained setters over the multi-field query
//! and the compiler that folds the numeric ranges into the free-text
//! filter string.

use vstd::prelude::*;
use vstd::string::StringExecFns;

use crate::beatmap_params::{Range, SearchParams};
use crate::enums::{Class, GameMode, Genre, Language, RequestType, SubType};
use crate::error::ApiError;
use crate::strutil::{i32_to_dec, spec_dec_int, spec_join_amp};

verus! {

/// One compiled `name:start~end,` clause of the free-text filter.
pub open spec fn spec_frag(prefix: Seq<char>, r: Range) -> Seq<char> {
    prefix + spec_dec_int(r.start as int) + "~"@ + spec_dec_int(r.end as int) + ","@
}

/// The concatenated filter clauses, in the fixed emission order; the
/// `od` clause is emitted twice, which reproduces the query format the
/// service is known to accept.
pub open spec fn spec_frags(p: SearchParams) -> Seq<char> {
    let f = Seq::<char>::empty();
    let f = if p.stars is Some {
        f + spec_frag("star:"@, p.stars->0)
    } else {
        f
    };
    let f = if p.od is Some {
        f + spec_frag("od:"@, p.od->0)
    } else {
        f
    };
    let f = if p.od is Some {
        f + spec_frag("od:"@, p.od->0)
    } else {
        f
    };
    let f = if p.cs is Some {
        f + spec_frag("cs:"@, p.cs->0)
    } else {
        f
    };
    let f = if p.hp is Some {
        f + spec_frag("hp:"@, p.hp->0)
    } else {
        f
    };
    let f = if p.bpm is Some {
        f + spec_frag("bpm:"@, p.bpm->0)
    } else {
        f
    };
    let f = if p.length is Some {
        f + spec_frag("length:"@, p.length->0)
    } else {
        f
    };
    f
}

/// The compiled filter: `None` when no range is set, so the query key is
/// omitted entirely; otherwise every clause followed by the literal
/// `end` marker.
pub open spec fn spec_other(p: SearchParams) -> Option<Seq<char>> {
    if p.stars is None && p.od is None && p.cs is None && p.hp is None && p.bpm is None
        && p.length is None {
        None
    } else {
        Some(spec_frags(p) + "end"@)
    }
}

/// Whether two parameter records agree on everything but the compiled
/// filter field.
pub open spec fn same_but_other(a: SearchParams, b: SearchParams) -> bool {
    a.limit == b.limit && a.offset == b.offset && a.request_type == b.request_type
        && a.keyword == b.keyword && a.sub_type == b.sub_type && a.mode == b.mode
        && a.class == b.class && a.genre == b.genre && a.language == b.language
        && a.stars == b.stars && a.ar == b.ar && a.od == b.od && a.cs == b.cs && a.hp == b.hp
        && a.length == b.length && a.bpm == b.bpm
}

/// Appends one compiled filter clause.
fn append_frag(s: &mut String, prefix: &str, r: Range)
    ensures
        final(s)@ == old(s)@ + spec_frag(prefix@, r),
{
    s.append(prefix);
    let d = i32_to_dec(r.start);
    s.append(d.as_str());
    s.append("~");
    let d2 = i32_to_dec(r.end);
    s.append(d2.as_str());
    s.append(",");
}

/// Accumulates a search through chained setters; the terminal request
/// operation itself lives with the transport.
pub struct RequestBuilder {
    pub params: SearchParams,
    pub request_timeout: core::time::Duration,
}

impl Default for RequestBuilder {
    /// An empty search with the five-second default timeout.
    fn default() -> (r: Self)
        ensures
            r.params == SearchParams::spec_default(),
            r.request_timeout == crate::duration_secs(5),
    {
        RequestBuilder {
            params: SearchParams::default(),
            request_timeout: core::time::Duration::from_secs(5),
        }
    }
}

impl RequestBuilder {
    /// An empty search with the five-second default timeout, as
    /// `default` gives.
    pub fn new() -> (r: Self)
        ensures
            r.params == SearchParams::spec_default(),
            r.request_timeout == crate::duration_secs(5),
    {
        RequestBuilder {
            params: SearchParams::default(),
            request_timeout: core::time::Duration::from_secs(5),
        }
    }

    /// Chooses the list endpoint behaviour.
    pub fn set_request_type(self, request_type: RequestType) -> (r: Self)
        ensures
            r.params == (SearchParams { request_type: Some(request_type), ..self.params }),
            r.request_timeout == self.request_timeout,
    {
        let mut s = self;
        s.params.request_type = Some(request_type);
        s
    }

    /// Caps how many rows the response may carry.
    pub fn set_limit(self, limit: i32) -> (r: Self)
        ensures
            r.params == (SearchParams { limit: Some(limit), ..self.params }),
            r.request_timeout == self.request_timeout,
    {
        let mut s = self;
        s.params.limit = Some(limit);
        s
    }

    /// Sets the pagination offset.
    pub fn set_offset(self, offset: i32) -> (r: Self)
        ensures
            r.params == (SearchParams { offset: Some(offset), ..self.params }),
            r.request_timeout == self.request_timeout,
    {
        let mut s = self;
        s.params.offset = Some(offset);
        s
    }

    /// Sets the free-text keyword.
    pub fn set_keyword(self, keyword: String) -> (r: Self)
        ensures
            r.params == (SearchParams { keyword: Some(keyword), ..self.params }),
            r.request_timeout == self.request_timeout,
    {
        let mut s = self;
        s.params.keyword = Some(keyword);
        s
    }

    /// Restricts which metadata fields the keyword is matched against.
    pub fn set_sub_type(self, sub_type: SubType) -> (r: Self)
        ensures
            r.params == (SearchParams { sub_type: Some(sub_type.bits), ..self.params }),
            r.request_timeout == self.request_timeout,
    {
        let mut s = self;
        s.params.sub_type = Some(sub_type.bits());
        s
    }

    /// Restricts the game modes searched.
    pub fn set_mode(self, mode: GameMode) -> (r: Self)
        ensures
            r.params == (SearchParams { mode: Some(mode.bits), ..self.params }),
            r.request_timeout == self.request_timeout,
    {
        let mut s = self;
        s.params.mode = Some(mode.bits());
        s
    }

    /// Restricts the approval classes searched.
    pub fn set_class(self, class: Class) -> (r: Self)
        ensures
            r.params == (SearchParams { class: Some(class.bits), ..self.params }),
            r.request_timeout == self.request_timeout,
    {
        let mut s = self;
        s.params.class = Some(class.bits());
        s
    }

    /// Restricts the genres searched.
    pub fn set_genre(self, genre: Genre) -> (r: Self)
        ensures
            r.params == (SearchParams { genre: Some(genre.bits), ..self.params }),
            r.request_timeout == self.request_timeout,
    {
        let mut s = self;
        s.params.genre = Some(genre.bits());
        s
    }

    /// Restricts the languages searched.
    pub fn set_language(self, language: Language) -> (r: Self)
        ensures
            r.params == (SearchParams { language: Some(language.bits), ..self.params }),
            r.request_timeout == self.request_timeout,
    {
        let mut s = self;
        s.params.language = Some(language.bits());
        s
    }

    /// Bounds the star rating.
    pub fn set_starts_range(self, range: Range) -> (r: Self)
        ensures
            r.params == (SearchParams { stars: Some(range), ..self.params }),
            r.request_timeout == self.request_timeout,
    {
        let mut s = self;
        s.params.stars = Some(range);
        s
    }

    /// Bounds the approach rate.
    pub fn set_ar_range(self, range: Range) -> (r: Self)
        ensures
            r.params == (SearchParams { ar: Some(range), ..self.params }),
            r.request_timeout == self.request_timeout,
    {
        let mut s = self;
        s.params.ar = Some(range);
        s
    }

    /// Bounds the overall difficulty.
    pub fn set_od_range(self, range: Range) -> (r: Self)
        ensures
            r.params == (SearchParams { od: Some(range), ..self.params }),
            r.request_timeout == self.request_timeout,
    {
        let mut s = self;
        s.params.od = Some(range);
        s
    }

    /// Bounds the circle size.
    pub fn set_cs_range(self, range: Range) -> (r: Self)
        ensures
            r.params == (SearchParams { cs: Some(range), ..self.params }),
            r.request_timeout == self.request_timeout,
    {
        let mut s = self;
        s.params.cs = Some(range);
        s
    }

    /// Bounds the health drain.
    pub fn set_hp_range(self, range: Range) -> (r: Self)
        ensures
            r.params == (SearchParams { hp: Some(range), ..self.params }),
            r.request_timeout == self.request_timeout,
    {
        let mut s = self;
        s.params.hp = Some(range);
        s
    }

    /// Bounds the tempo.
    pub fn set_bpm_range(self, range: Range) -> (r: Self)
        ensures
            r.params == (SearchParams { bpm: Some(range), ..self.params }),
            r.request_timeout == self.request_timeout,
    {
        let mut s = self;
        s.params.bpm = Some(range);
        s
    }

    /// Bounds the play length.
    pub fn set_length_range(self, range: Range) -> (r: Self)
        ensures
            r.params == (SearchParams { length: Some(range), ..self.params }),
            r.request_timeout == self.request_timeout,
    {
        let mut s = self;
        s.params.length = Some(range);
        s
    }

    /// Sets the whole-request timeout.
    pub fn set_time_out(self, timeout: core::time::Duration) -> (r: Self)
        ensures
            r.params == self.params,
            r.request_timeout == timeout,
    {
        let mut s = self;
        s.request_timeout = timeout;
        s
    }

    /// Folds every set numeric range into the free-text filter field,
    /// replacing whatever that field held; with no range set the field is
    /// cleared so the query key is omitted.
    pub fn build_other_string(&mut self)
        ensures
            same_but_other(final(self).params, old(self).params),
            final(self).request_timeout == old(self).request_timeout,
            spec_other(old(self).params) is None ==> final(self).params.other is None,
            spec_other(old(self).params) is Some ==> final(self).params.other is Some
                && (final(self).params.other->0)@ == spec_other(old(self).params)->0,
    {
        proof {
            reveal_strlit("~");
        }
        let mut other_value = String::new();
        if let Some(r) = self.params.stars {
            append_frag(&mut other_value, "star:", r);
        }
        if let Some(r) = self.params.od {
            append_frag(&mut other_value, "od:", r);
        }
        if let Some(r) = self.params.od {
            append_frag(&mut other_value, "od:", r);
        }
        if let Some(r) = self.params.cs {
            append_frag(&mut other_value, "cs:", r);
        }
        if let Some(r) = self.params.hp {
            append_frag(&mut other_value, "hp:", r);
        }
        if let Some(r) = self.params.bpm {
            append_frag(&mut other_value, "bpm:", r);
        }
        if let Some(r) = self.params.length {
            append_frag(&mut other_value, "length:", r);
        }
        assert(other_value@ == spec_frags(self.params));
        if other_value.as_str().is_empty() {
            self.params.other = None;
        } else {
            other_value.append("end");
            self.params.other = Some(other_value);
        }
    }

    /// Compiles the filter string, then serializes every present field
    /// into the endpoint URL; a search with nothing set and no range is
    /// rejected rather than sent.
    pub fn build_query_url(self) -> (r: Result<String, ApiError>)
        ensures
            !spec_compiled_has_field(self.params) ==> r == Err::<String, ApiError>(
                ApiError::EmptyParams,
            ),
            spec_compiled_has_field(self.params) ==> r is Ok && (r->Ok_0)@
                == "https://api.sayobot.cn/beatmaplist"@ + "?"@ + spec_join_amp(
                self.params.spec_pairs_with(spec_other(self.params)),
            ),
    {
        let mut b = self;
        b.build_other_string();
        b.params.query_url()
    }
}

/// Whether the compiled query carries any field: a set range counts,
/// through the filter it compiles to, while a stale filter value does
/// not.
pub open spec fn spec_compiled_has_field(p: SearchParams) -> bool {
    p.limit is Some || p.offset is Some || p.request_type is Some || p.keyword is Some
        || p.sub_type is Some || p.mode is Some || p.class is Some || p.genre is Some
        || p.language is Some || spec_other(p) is Some
}

} // verus!
