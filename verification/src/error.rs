//! The library's error type: every failure a builder, resolver or parser
//! can report is one of these variants.

use vstd::prelude::*;

verus! {

/// A typed failure: which precondition, transport stage or response check
/// went wrong.
#[derive(Debug, Clone, Copy, PartialEq, Eq, Structural)]
pub enum ApiError {
    /// Serialization was asked for with no query field set.
    EmptyParams,
    /// A range was constructed with start above end.
    StartGreaterThanEnd,
    /// A range was constructed with a bound outside 0..=9999.
    RangeOutOfBounds,
    /// Resolution was asked for before the set identifier was given.
    SidNotSet,
    /// Resolution was asked for before the resource kind was given.
    ResourceTypeNotSet,
    /// The chosen download directory does not exist.
    PathNotExist,
    /// The video resource kind is not served by the upstream service.
    VideoNotSupported,
    /// No resource URL template exists for the requested kind.
    NoUrlFormat,
    /// No sub-record of a metadata lookup matched the requested identifier.
    MapNotFound,
    /// The download response carried no usable filename parameter.
    FileNameMissing,
    /// A percent-encoded component could not be decoded.
    DecodeFailed,
    /// A response body was not the JSON shape the endpoint promises.
    Parse,
    /// The transport reported a non-success HTTP status.
    HttpStatus(u16),
    /// The transport failed before a status was available.
    Transport,
}

impl ApiError {
    /// A human-readable description of the failure.
    pub fn message(&self) -> (r: String)
        ensures
            *self == ApiError::EmptyParams ==> r@ == "url params is empty"@,
            *self == ApiError::StartGreaterThanEnd ==> r@ == "start must be less than end"@,
            *self == ApiError::RangeOutOfBounds ==> r@
                == "start and end must be between 0 and 9999"@,
            *self == ApiError::SidNotSet ==> r@ == "sid not set"@,
            *self == ApiError::ResourceTypeNotSet ==> r@ == "res_type not set"@,
            *self == ApiError::PathNotExist ==> r@ == "path not exist"@,
            *self == ApiError::VideoNotSupported ==> r@ == "video not supported"@,
            *self == ApiError::NoUrlFormat ==> r@ == "not supported url format"@,
            *self == ApiError::MapNotFound ==> r@ == "map not found"@,
            *self == ApiError::FileNameMissing ==> r@
                == "can't get file name from response header"@,
            *self == ApiError::DecodeFailed ==> r@ == "file name decode failed"@,
            *self == ApiError::Parse ==> r@ == "parse error"@,
            *self is HttpStatus ==> r@ == "http status not success"@,
            *self == ApiError::Transport ==> r@ == "request error"@,
    {
        match self {
            ApiError::EmptyParams => "url params is empty".to_owned(),
            ApiError::StartGreaterThanEnd => "start must be less than end".to_owned(),
            ApiError::RangeOutOfBounds => "start and end must be between 0 and 9999".to_owned(),
            ApiError::SidNotSet => "sid not set".to_owned(),
            ApiError::ResourceTypeNotSet => "res_type not set".to_owned(),
            ApiError::PathNotExist => "path not exist".to_owned(),
            ApiError::VideoNotSupported => "video not supported".to_owned(),
            ApiError::NoUrlFormat => "not supported url format".to_owned(),
            ApiError::MapNotFound => "map not found".to_owned(),
            ApiError::FileNameMissing => "can't get file name from response header".to_owned(),
            ApiError::DecodeFailed => "file name decode failed".to_owned(),
            ApiError::Parse => "parse error".to_owned(),
            ApiError::HttpStatus(_) => "http status not success".to_owned(),
            ApiError::Transport => "request error".to_owned(),
        }
    }
}

/// Classifies the transport's reported status: success passes, anything
/// else is the typed status failure, carrying the code.
pub fn check_http_status(is_success: bool, code: u16) -> (r: Result<(), ApiError>)
    ensures
        is_success ==> r == Ok::<(), ApiError>(()),
        !is_success ==> r == Err::<(), ApiError>(ApiError::HttpStatus(code)),
{
    if is_success {
        Ok(())
    } else {
        Err(ApiError::HttpStatus(code))
    }
}

} // verus!
