//! The compression layer of the archive pipeline: every packed artifact is
//! gzip-encoded before it leaves, and decoded before it is unpacked.

use flate2::write::GzDecoder;
use flate2::write::GzEncoder;
use flate2::Compression;
use std::io::Write;
use vstd::prelude::*;

verus! {

/// A stage of the archive pipeline failed.
#[derive(Debug, Clone, PartialEq, Eq)]
pub struct ArchiveError {
    pub reason: String,
}

/// The gzip stream that `flate2` writes for `data` at the default level, or
/// `None` where it reports an error.
pub uninterp spec fn gzip_encoded(data: Seq<u8>) -> Option<Seq<u8>>;

/// The bytes that `flate2` reads out of the gzip stream `data`, or `None`
/// where the stream is malformed.
pub uninterp spec fn gzip_decoded(data: Seq<u8>) -> Option<Seq<u8>>;

/// The error type of std's input and output.
#[verifier::external_type_specification]
#[verifier::external_body]
pub struct ExIoError(std::io::Error);

/// `GzEncoder::new` with `Compression::default()`, `write_all` and `finish`
/// of `flate2`, into an empty vector. The stream written is believed to be
/// the named function of `data`, and to decode to `data` again: gzip is
/// lossless.
#[verifier::external_body]
fn gzip_compress(data: &[u8]) -> (r: Result<Vec<u8>, std::io::Error>)
    ensures
        match r {
            Ok(blob) => gzip_encoded(data@) == Some(blob@) && gzip_decoded(blob@) == Some(data@),
            Err(_) => gzip_encoded(data@) is None,
        },
{
    let mut encoder = GzEncoder::new(Vec::new(), Compression::default());
    encoder.write_all(data)?;
    encoder.finish()
}

/// `GzDecoder::new`, `write_all` and `finish` of `flate2`, into an empty
/// vector. What comes out is believed to be the named function of `data`;
/// a malformed stream is an error.
#[verifier::external_body]
fn gzip_decompress(data: &[u8]) -> (r: Result<Vec<u8>, std::io::Error>)
    ensures
        match r {
            Ok(bytes) => gzip_decoded(data@) == Some(bytes@),
            Err(_) => gzip_decoded(data@) is None,
        },
{
    let mut decoder = GzDecoder::new(Vec::new());
    decoder.write_all(data)?;
    decoder.finish()
}

/// `to_string` of std on an input-output error: its message. Nothing is
/// claimed of the text.
#[verifier::external_body]
fn error_text(e: &std::io::Error) -> (text: String) {
    e.to_string()
}

/// Compresses `data`. What it returns decodes to `data` again, byte for
/// byte.
pub fn encode(data: &[u8]) -> (r: Result<Vec<u8>, ArchiveError>)
    ensures
        match r {
            Ok(blob) => gzip_encoded(data@) == Some(blob@) && gzip_decoded(blob@) == Some(data@),
            Err(_) => gzip_encoded(data@) is None,
        },
{
    match gzip_compress(data) {
        Ok(blob) => Ok(blob),
        Err(e) => Err(ArchiveError { reason: error_text(&e) }),
    }
}

/// Decompresses `data`, or fails where it is no gzip stream.
pub fn decode(data: &[u8]) -> (r: Result<Vec<u8>, ArchiveError>)
    ensures
        match r {
            Ok(bytes) => gzip_decoded(data@) == Some(bytes@),
            Err(_) => gzip_decoded(data@) is None,
        },
{
    match gzip_decompress(data) {
        Ok(bytes) => Ok(bytes),
        Err(e) => Err(ArchiveError { reason: error_text(&e) }),
    }
}

} // verus!
