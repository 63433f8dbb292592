//! Percent-coding of query values and of the filename parameter a download
//! response carries, done by the `urlencoding` crate behind trusted
//! wrappers.

use vstd::prelude::*;

verus! {

/// What `urlencoding::encode` returns for a given character sequence.
pub uninterp spec fn url_encoded(s: Seq<char>) -> Seq<char>;

/// What `urlencoding::decode` returns for a given character sequence:
/// `None` when the decoded bytes are not valid UTF-8.
pub uninterp spec fn url_decoded(s: Seq<char>) -> Option<Seq<char>>;

/// Relies on `urlencoding::encode`: percent-encodes every byte of the
/// UTF-8 form of the input except ASCII alphanumerics and `-`, `_`, `.`,
/// `~`; the result is a function of the input alone.
#[verifier::external_body]
pub fn encode_component(s: &str) -> (r: String)
    ensures
        r@ == url_encoded(s@),
{
    urlencoding::encode(s).into_owned()
}

/// Relies on `urlencoding::decode`: replaces each `%`-and-two-hex-digits
/// group by the byte it names and reads the bytes back as UTF-8, failing
/// exactly when they are not valid UTF-8; the result is a function of the
/// input alone.
#[verifier::external_body]
pub fn decode_component(s: &str) -> (r: Option<String>)
    ensures
        r is Some <==> url_decoded(s@) is Some,
        r is Some ==> r->0@ == url_decoded(s@)->0,
{
    urlencoding::decode(s).ok().map(|c| c.into_owned())
}

} // verus!
