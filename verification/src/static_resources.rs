//! Resource URL resolution and the pure part of the downloader: the
//! builder over set identifier, resource kind and destination directory;
//! substitution of the identifier into the fixed URL templates; the
//! sub-record search behind the two filename-dependent kinds; and the
//! extraction of the suggested filename from a download response's
//! `Content-Disposition` header.

use vstd::prelude::*;
use vstd::string::{StrSliceExecFns, StringExecFns};

use crate::beatmap_info_v2::{BuildInfo, ResponseData};
use crate::encoding::{decode_component, url_decoded};
use crate::error::ApiError;
use crate::resource_type::ResourceType;
use crate::strutil::{i64_to_dec, spec_dec_int};

verus! {

/// What a download request knows before resolution.
#[derive(Debug, Clone)]
pub struct QueryParams {
    pub sid: Option<i64>,
    pub resource_type: Option<ResourceType>,
    pub download_path: Option<String>,
}

/// How far a resolution request could be taken without the network: a
/// finished URL, or the set identifier whose metadata must be looked up
/// first.
#[derive(Debug, Clone)]
pub enum UrlResolution {
    Ready(String),
    NeedsInfoLookup(i64),
}

/// The URL a templated kind resolves to: its template with the
/// identifier substituted for the placeholder.
pub open spec fn spec_direct_url(t: ResourceType, sid: int) -> Seq<char>
    recommends
        t.spec_is_templated(),
{
    match t {
        ResourceType::PreviewImg => "https://a.sayobot.cn/beatmaps/"@ + spec_dec_int(sid)
            + "/covers/cover.webp"@,
        ResourceType::PreviewAudio => "https://a.sayobot.cn/preview/"@ + spec_dec_int(sid)
            + ".mp3"@,
        ResourceType::FullSizeMap => "https://dl.sayobot.cn/beatmaps/download/full/"@
            + spec_dec_int(sid),
        ResourceType::NoVideoMap => "https://dl.sayobot.cn/beatmaps/download/novideo/"@
            + spec_dec_int(sid),
        ResourceType::MiniMap => "https://dl.sayobot.cn/beatmaps/download/mini/"@ + spec_dec_int(
            sid,
        ),
        _ => Seq::empty(),
    }
}

/// The per-file download URL built from a set identifier and a filename
/// discovered by a metadata lookup.
pub open spec fn spec_file_url(sid: int, file_name: Seq<char>) -> Seq<char> {
    "https://dl.sayobot.cn/beatmaps/files/"@ + spec_dec_int(sid) + "/"@ + file_name
}

/// The first sub-record whose own identifier equals the requested one.
pub open spec fn spec_first_match(s: Seq<BuildInfo>, sid: i64) -> Option<BuildInfo>
    decreases s.len(),
{
    if s.len() == 0 {
        None
    } else if s[0].bid == sid {
        Some(s[0])
    } else {
        spec_first_match(s.subrange(1, s.len() as int), sid)
    }
}

/// A prefix free of matches can be skipped without changing the first
/// match.
proof fn lemma_first_match_skip(s: Seq<BuildInfo>, sid: i64, i: int)
    requires
        0 <= i <= s.len(),
        forall|j: int| 0 <= j < i ==> s[j].bid != sid,
    ensures
        spec_first_match(s, sid) == spec_first_match(s.subrange(i, s.len() as int), sid),
    decreases i,
{
    if i > 0 {
        let rest = s.subrange(1, s.len() as int);
        lemma_first_match_skip(rest, sid, i - 1);
        assert(rest.subrange(i - 1, rest.len() as int) =~= s.subrange(i, s.len() as int));
    } else {
        assert(s.subrange(0, s.len() as int) =~= s);
    }
}

/// Finds the position of the first sub-record matching the identifier.
fn find_bid_index(data: &Vec<BuildInfo>, sid: i64) -> (r: Option<usize>)
    ensures
        spec_first_match(data@, sid) is None ==> r is None,
        spec_first_match(data@, sid) is Some ==> r is Some && r->0 < data@.len() && data@[
            r->0 as int
        ] == spec_first_match(data@, sid)->0,
{
    let mut i: usize = 0;
    while i < data.len()
        invariant
            i <= data@.len(),
            forall|j: int| 0 <= j < i ==> data@[j].bid != sid,
        decreases data@.len() - i,
    {
        if data[i].bid == sid {
            proof {
                lemma_first_match_skip(data@, sid, i as int);
                let tail = data@.subrange(i as int, data@.len() as int);
                assert(tail[0] == data@[i as int]);
            }
            return Some(i);
        }
        i += 1;
    }
    proof {
        lemma_first_match_skip(data@, sid, data@.len() as int);
        assert(data@.subrange(data@.len() as int, data@.len() as int).len() == 0);
    }
    None
}

/// Builds the per-file download URL for a discovered filename.
pub fn build_file_url(sid: i64, file_name: String) -> (r: Result<String, ApiError>)
    ensures
        r is Ok && (r->Ok_0)@ == spec_file_url(sid as int, file_name@),
{
    let mut url = "https://dl.sayobot.cn/beatmaps/files/".to_owned();
    let d = i64_to_dec(sid);
    url.append(d.as_str());
    url.append("/");
    url.append(file_name.as_str());
    Ok(url)
}

/// Finishes resolution of a filename-dependent kind once the metadata
/// lookup has answered: the sub-record matching the identifier names the
/// audio or cover file the URL points at; with no such sub-record the
/// identifier is unknown.
pub fn complete_url_with_info(sid: i64, res_type: ResourceType, data: &ResponseData) -> (r: Result<
    String,
    ApiError,
>)
    requires
        res_type == ResourceType::FullAudio || res_type == ResourceType::FullCoverImg,
    ensures
        spec_first_match(data.bid_data@, sid) is None ==> r == Err::<String, ApiError>(
            ApiError::MapNotFound,
        ),
        spec_first_match(data.bid_data@, sid) is Some ==> r is Ok && (r->Ok_0)@ == spec_file_url(
            sid as int,
            if res_type == ResourceType::FullAudio {
                (spec_first_match(data.bid_data@, sid)->0.audio)@
            } else {
                (spec_first_match(data.bid_data@, sid)->0.bg)@
            },
        ),
{
    match find_bid_index(&data.bid_data, sid) {
        None => Err(ApiError::MapNotFound),
        Some(i) => {
            let file_name = if matches!(res_type, ResourceType::FullAudio) {
                data.bid_data[i].audio.clone()
            } else {
                data.bid_data[i].bg.clone()
            };
            build_file_url(sid, file_name)
        },
    }
}

/// Accumulates a download request through chained setters; the GET and
/// the streaming to disk live with the transport.
pub struct RequestBuilder {
    pub params: QueryParams,
    pub request_timeout: core::time::Duration,
}

impl Default for RequestBuilder {
    /// No identifier or kind yet; the destination defaults to the
    /// current directory, the timeout to thirty seconds.
    fn default() -> (r: Self)
        ensures
            r.params.sid is None,
            r.params.resource_type is None,
            r.params.download_path is Some && (r.params.download_path->0)@ == "."@,
            r.request_timeout == crate::duration_secs(30),
    {
        RequestBuilder {
            params: QueryParams {
                sid: None,
                resource_type: None,
                download_path: Some(".".to_owned()),
            },
            request_timeout: core::time::Duration::from_secs(30),
        }
    }
}

impl RequestBuilder {
    /// A fresh download request with the defaults, as `default` gives.
    pub fn new() -> (r: Self)
        ensures
            r.params.sid is None,
            r.params.resource_type is None,
            r.params.download_path is Some && (r.params.download_path->0)@ == "."@,
            r.request_timeout == crate::duration_secs(30),
    {
        RequestBuilder::default()
    }

    /// Sets the beatmap set identifier.
    pub fn set_sid(self, sid: i64) -> (r: Self)
        ensures
            r.params.sid == Some(sid),
            r.params.resource_type == self.params.resource_type,
            r.params.download_path == self.params.download_path,
            r.request_timeout == self.request_timeout,
    {
        let mut s = self;
        s.params.sid = Some(sid);
        s
    }

    /// Sets the resource kind to download.
    pub fn set_resource_type(self, resource_type: ResourceType) -> (r: Self)
        ensures
            r.params.sid == self.params.sid,
            r.params.resource_type == Some(resource_type),
            r.params.download_path == self.params.download_path,
            r.request_timeout == self.request_timeout,
    {
        let mut s = self;
        s.params.resource_type = Some(resource_type);
        s
    }

    /// Sets the whole-request timeout.
    pub fn set_timeout(self, timeout: core::time::Duration) -> (r: Self)
        ensures
            r.params == self.params,
            r.request_timeout == timeout,
    {
        let mut s = self;
        s.request_timeout = timeout;
        s
    }

    /// Records the destination directory, which the caller at the edge
    /// has checked for existence; a directory reported missing is
    /// rejected here, before any network work.
    pub fn set_download_path(self, path: String, path_exists: bool) -> (r: Result<Self, ApiError>)
        ensures
            !path_exists ==> r == Err::<RequestBuilder, ApiError>(ApiError::PathNotExist),
            path_exists ==> r is Ok && r->Ok_0.params.sid == self.params.sid
                && r->Ok_0.params.resource_type == self.params.resource_type
                && r->Ok_0.params.download_path == Some(path) && r->Ok_0.request_timeout
                == self.request_timeout,
    {
        if path_exists {
            let mut s = self;
            s.params.download_path = Some(path);
            Ok(s)
        } else {
            Err(ApiError::PathNotExist)
        }
    }

    /// Resolves as far as possible without the network: a templated kind
    /// yields its finished URL at once; the video kind is never served;
    /// the two filename-dependent kinds ask for a metadata lookup, to be
    /// finished by `complete_url_with_info`.
    pub fn resolve_url(&self) -> (r: Result<UrlResolution, ApiError>)
        ensures
            self.params.sid is None ==> r == Err::<UrlResolution, ApiError>(ApiError::SidNotSet),
            self.params.sid is Some && self.params.resource_type is None ==> r == Err::<
                UrlResolution,
                ApiError,
            >(ApiError::ResourceTypeNotSet),
            self.params.sid is Some && self.params.resource_type is Some
                && self.params.resource_type->0.spec_is_templated() ==> r is Ok
                && r->Ok_0 is Ready && (r->Ok_0->Ready_0)@ == spec_direct_url(
                self.params.resource_type->0,
                self.params.sid->0 as int,
            ),
            self.params.sid is Some && self.params.resource_type == Some(ResourceType::Video)
                ==> r == Err::<UrlResolution, ApiError>(ApiError::VideoNotSupported),
            self.params.sid is Some && (self.params.resource_type == Some(ResourceType::FullAudio)
                || self.params.resource_type == Some(ResourceType::FullCoverImg)) ==> r == Ok::<
                UrlResolution,
                ApiError,
            >(UrlResolution::NeedsInfoLookup(self.params.sid->0)),
    {
        let sid = match self.params.sid {
            Some(s) => s,
            None => {
                return Err(ApiError::SidNotSet);
            },
        };
        let res_type = match self.params.resource_type {
            Some(t) => t,
            None => {
                return Err(ApiError::ResourceTypeNotSet);
            },
        };
        match res_type {
            ResourceType::PreviewImg => {
                let mut url = "https://a.sayobot.cn/beatmaps/".to_owned();
                let d = i64_to_dec(sid);
                url.append(d.as_str());
                url.append("/covers/cover.webp");
                Ok(UrlResolution::Ready(url))
            },
            ResourceType::PreviewAudio => {
                let mut url = "https://a.sayobot.cn/preview/".to_owned();
                let d = i64_to_dec(sid);
                url.append(d.as_str());
                url.append(".mp3");
                Ok(UrlResolution::Ready(url))
            },
            ResourceType::FullSizeMap => {
                let mut url = "https://dl.sayobot.cn/beatmaps/download/full/".to_owned();
                let d = i64_to_dec(sid);
                url.append(d.as_str());
                Ok(UrlResolution::Ready(url))
            },
            ResourceType::NoVideoMap => {
                let mut url = "https://dl.sayobot.cn/beatmaps/download/novideo/".to_owned();
                let d = i64_to_dec(sid);
                url.append(d.as_str());
                Ok(UrlResolution::Ready(url))
            },
            ResourceType::MiniMap => {
                let mut url = "https://dl.sayobot.cn/beatmaps/download/mini/".to_owned();
                let d = i64_to_dec(sid);
                url.append(d.as_str());
                Ok(UrlResolution::Ready(url))
            },
            ResourceType::Video => Err(ApiError::VideoNotSupported),
            _ => Ok(UrlResolution::NeedsInfoLookup(sid)),
        }
    }
}

/// The filename parameter marker inside a `Content-Disposition` header.
pub open spec fn spec_marker() -> Seq<char> {
    "filename*=utf-8''"@
}

/// Whether the marker starts at the given position.
pub open spec fn spec_marker_at(s: Seq<char>, i: int) -> bool {
    0 <= i && i + spec_marker().len() <= s.len() && s.subrange(
        i,
        i + spec_marker().len() as int,
    ) == spec_marker()
}

/// The first position at or behind `from` where the marker starts.
pub open spec fn spec_first_marker_from(s: Seq<char>, from: int) -> Option<int>
    decreases s.len() - from,
{
    if from < 0 || from >= s.len() || from + spec_marker().len() > s.len() {
        None
    } else if spec_marker_at(s, from) {
        Some(from)
    } else {
        spec_first_marker_from(s, from + 1)
    }
}

/// The still-encoded filename text: what stands between the end of the
/// first marker and the next marker, or the end of the header.
pub open spec fn spec_file_name_source(h: Seq<char>) -> Option<Seq<char>> {
    match spec_first_marker_from(h, 0) {
        None => None,
        Some(i) => {
            let start = i + spec_marker().len() as int;
            let end = match spec_first_marker_from(h, start) {
                Some(j) => j,
                None => h.len() as int,
            };
            Some(h.subrange(start, end))
        },
    }
}

/// What the scan promises of its answer.
proof fn lemma_first_marker_props(s: Seq<char>, from: int)
    requires
        from >= 0,
    ensures
        spec_first_marker_from(s, from) is Some ==> {
            let j = spec_first_marker_from(s, from)->0;
            from <= j && spec_marker_at(s, j)
        },
        spec_first_marker_from(s, from) is None ==> forall|k: int|
            k >= from ==> !spec_marker_at(s, k),
    decreases s.len() - from,
{
    reveal_strlit("filename*=utf-8''");
    if from >= s.len() || from + spec_marker().len() > s.len() {
    } else if spec_marker_at(s, from) {
    } else {
        lemma_first_marker_props(s, from + 1);
    }
}

/// Whether the marker's characters stand at the given position.
fn marker_matches_at(h: &str, i: usize, n: usize) -> (b: bool)
    requires
        n == h@.len(),
        i + spec_marker().len() <= n,
    ensures
        b == spec_marker_at(h@, i as int),
{
    let m = "filename*=utf-8''";
    proof {
        reveal_strlit("filename*=utf-8''");
    }
    let mut k: usize = 0;
    while k < 17
        invariant
            0 <= k <= 17,
            n == h@.len(),
            i + 17 <= n,
            m@ == spec_marker(),
            m@.len() == 17,
            forall|t: int| 0 <= t < k ==> h@[i + t] == spec_marker()[t],
        decreases 17 - k,
    {
        if h.get_char(i + k) != m.get_char(k) {
            proof {
                let sub = h@.subrange(i as int, i as int + 17);
                assert(sub[k as int] == h@[i + k]);
            }
            return false;
        }
        k += 1;
    }
    proof {
        assert(h@.subrange(i as int, i as int + 17) =~= spec_marker());
    }
    true
}

/// Scans forward for the first marker position at or behind `from`.
fn find_marker_from(h: &str, from: usize, n: usize) -> (r: Option<usize>)
    requires
        n == h@.len(),
        from <= n,
    ensures
        spec_first_marker_from(h@, from as int) is None ==> r is None,
        spec_first_marker_from(h@, from as int) is Some ==> r is Some && r->0
            == spec_first_marker_from(h@, from as int)->0,
{
    proof {
        reveal_strlit("filename*=utf-8''");
    }
    let mut i: usize = from;
    loop
        invariant
            from <= i <= n,
            n == h@.len(),
            spec_marker().len() == 17,
            spec_first_marker_from(h@, from as int) == spec_first_marker_from(h@, i as int),
        decreases n - i,
    {
        if n - i < 17 {
            return None;
        }
        if marker_matches_at(h, i, n) {
            return Some(i);
        }
        i += 1;
    }
}

/// Extracts the UTF-8-encoded filename parameter out of a
/// `Content-Disposition` header value and percent-decodes it; a header
/// without the parameter is a fatal error, never replaced by a name
/// derived from the URL.
pub fn file_name_from_disposition(h: &str) -> (r: Result<String, ApiError>)
    ensures
        spec_file_name_source(h@) is None ==> r == Err::<String, ApiError>(ApiError::FileNameMissing),
        spec_file_name_source(h@) is Some && url_decoded(spec_file_name_source(h@)->0) is Some
            ==> r is Ok && (r->Ok_0)@ == url_decoded(spec_file_name_source(h@)->0)->0,
        spec_file_name_source(h@) is Some && url_decoded(spec_file_name_source(h@)->0) is None
            ==> r == Err::<String, ApiError>(ApiError::DecodeFailed),
{
    proof {
        reveal_strlit("filename*=utf-8''");
    }
    let n = h.unicode_len();
    match find_marker_from(h, 0, n) {
        None => Err(ApiError::FileNameMissing),
        Some(i) => {
            proof {
                lemma_first_marker_props(h@, 0);
            }
            let start = i + 17;
            let end = match find_marker_from(h, start, n) {
                Some(j) => {
                    proof {
                        lemma_first_marker_props(h@, start as int);
                    }
                    j
                },
                None => n,
            };
            let sub = h.substring_char(start, end);
            match decode_component(sub) {
                Some(name) => Ok(name),
                None => Err(ApiError::DecodeFailed),
            }
        },
    }
}

} // verus!
