//! Histograms as base64 text, the form they take inside saved reports.
//!
//! A histogram is serialized with `hdrhistogram`'s V2-deflate format and the
//! bytes are base64-encoded with the standard, padded alphabet.  Decoding
//! reverses both steps; [`recode_histogram`] states the round-trip law.

use crate::hist::{
    deserialize_histogram, hist_blob, hist_entries, new_histogram, serialize_histogram,
    v2_counts_screened, v2_parse, TimeHistogram,
};
use base64::engine::general_purpose::STANDARD;
use base64::Engine;
use vstd::prelude::*;

verus! {

/// What base64's standard, padded engine emits for a byte string.
pub uninterp spec fn b64_of(bytes: Seq<u8>) -> Seq<char>;

/// What base64's standard, padded engine reads from a text: the bytes on
/// success, `None` when the text is not valid base64.
pub uninterp spec fn b64_parse(text: Seq<char>) -> Option<Seq<u8>>;

/// Relies on the base64 crate's `STANDARD` engine `encode`: emits the
/// standard-alphabet, padded encoding, which `decode` reads back to exactly
/// the input bytes.
#[verifier::external_body]
fn b64_encode_raw(bytes: &Vec<u8>) -> (r: String)
    ensures
        r@ == b64_of(bytes@),
        b64_parse(r@) == Some(bytes@),
{
    STANDARD.encode(bytes)
}

/// Relies on the base64 crate's `STANDARD` engine `decode`: reads a
/// standard-alphabet, padded encoding back to its bytes, or fails on text
/// that is not valid base64.
#[verifier::external_body]
fn b64_decode_raw(text: &str) -> (r: Option<Vec<u8>>)
    ensures
        match r {
            Some(v) => b64_parse(text@) == Some(v@),
            None => b64_parse(text@) is None,
        },
{
    STANDARD.decode(text).ok()
}

/// Why a histogram could not be read back from report text.
#[derive(Clone, Copy, Debug, PartialEq, Eq, Structural)]
pub enum CodecError {
    /// The text is not valid base64.
    InvalidBase64,
    /// The bytes behind the base64 are not a serialized histogram.
    MalformedHistogram,
}

/// Serializes a histogram and base64-encodes the result.
pub fn encode_histogram(h: &TimeHistogram) -> (r: String)
    requires
        crate::hist::sum_counts(hist_entries(*h)) <= i64::MAX,
    ensures
        r@ == b64_of(hist_blob(*h)),
        b64_parse(r@) == Some(hist_blob(*h)),
        v2_parse(hist_blob(*h)) == Some(hist_entries(*h)),
        v2_counts_screened(hist_blob(*h)),
{
    let bytes = serialize_histogram(h);
    b64_encode_raw(&bytes)
}

/// Reads a base64-encoded serialized histogram back.  Fails with
/// `InvalidBase64` exactly when the text is not base64, and with
/// `MalformedHistogram` when the decoded bytes do not parse as a
/// histogram -- including the one crafted payload the underlying
/// deserializer mishandles, which the screen refuses without handing over.
pub fn decode_histogram(text: &str) -> (r: Result<TimeHistogram, CodecError>)
    ensures
        match r {
            Ok(h) => b64_parse(text@) matches Some(bytes) && v2_parse(bytes) == Some(
                hist_entries(h),
            ),
            Err(CodecError::InvalidBase64) => b64_parse(text@) is None,
            Err(CodecError::MalformedHistogram) => b64_parse(text@) matches Some(bytes) && (
            v2_parse(bytes) is None || !v2_counts_screened(bytes)),
        },
        b64_parse(text@) is None ==> r == Err::<TimeHistogram, CodecError>(CodecError::InvalidBase64),
        b64_parse(text@) matches Some(bytes) ==> (v2_counts_screened(bytes) ==> (r is Ok
            <==> v2_parse(bytes) is Some)),
{
    match b64_decode_raw(text) {
        Some(bytes) => match deserialize_histogram(&bytes) {
            Some(h) => Ok(h),
            None => Err(CodecError::MalformedHistogram),
        },
        None => Err(CodecError::InvalidBase64),
    }
}

/// Round-trip law: encoding a histogram to base64 text and decoding that
/// text yields a histogram with identical counts at every bucket.
pub fn recode_histogram(h: &TimeHistogram) -> (r: TimeHistogram)
    requires
        crate::hist::sum_counts(hist_entries(*h)) <= i64::MAX,
    ensures
        hist_entries(r) == hist_entries(*h),
{
    let text = encode_histogram(h);
    let decoded = decode_histogram(text.as_str());
    match decoded {
        Ok(h2) => h2,
        Err(_) => {
            proof {
                assert(false);
            }
            new_histogram()
        },
    }
}

} // verus!
