//! Client-side request construction and response handling for a beatmap
//! hosting web API: typed query builders, bit-flag category sets, numeric
//! range filters, resource URL resolution, and JSON response records.

pub mod beatmap_info_v2;
pub mod beatmap_params;
pub mod beatmap_request;
pub mod beatmap_response;
pub mod encoding;
pub mod static_resources;
pub mod enums;
pub mod error;
pub mod json;
pub mod resource_type;
pub mod strutil;

use vstd::prelude::*;

verus! {

/// The value `core::time::Duration::from_secs` returns for a whole
/// number of seconds.
pub uninterp spec fn duration_secs(secs: u64) -> core::time::Duration;

/// Relies on `core::time::Duration::from_secs`: a duration of the given
/// whole seconds, a function of its argument alone.
pub assume_specification[ core::time::Duration::from_secs ](secs: u64) -> (r: core::time::Duration)
    ensures
        r == duration_secs(secs),
;

} // verus!
