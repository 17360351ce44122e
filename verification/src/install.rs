//! The install stage's decompression step.
//!
//! The downloaded artifact is a bare, single-member gzip stream, not an
//! archive. Decompressing it yields the installed binary's bytes. Reading
//! the artifact from disk and writing the result to the install path are
//! the caller's file operations; this module turns compressed bytes into
//! decompressed bytes.

use vstd::prelude::*;
use crate::errors::UpdaterError;

verus! {

/// What decompressing `b` as a single-member gzip stream yields: the
/// decompressed bytes, or `None` when `b` is not a valid gzip stream.
pub uninterp spec fn gunzip_of(b: Seq<u8>) -> Option<Seq<u8>>;

/// Relies on flate2's `bufread::GzDecoder`: it decompresses the single gzip
/// member at the start of its input, so its outcome — the decompressed
/// bytes, or an error on an invalid stream — depends on the input bytes
/// alone.
#[verifier::external_body]
fn gunzip_bytes(b: &Vec<u8>) -> (r: Result<Vec<u8>, String>)
    ensures
        match r {
            Ok(out) => gunzip_of(b@) == Some(out@),
            Err(_) => gunzip_of(b@) is None,
        },
{
    let mut decoder = flate2::bufread::GzDecoder::new(&b[..]);
    let mut out: Vec<u8> = Vec::new();
    match std::io::Read::read_to_end(&mut decoder, &mut out) {
        Ok(_) => Ok(out),
        Err(e) => Err(format!("{}", e)),
    }
}

/// Decompresses the downloaded artifact. Succeeds exactly on valid gzip
/// streams, returning the bytes to write to the install path; an invalid
/// stream is an `Io` error, as a truncated or corrupt download would be.
pub fn decompress_artifact(artifact: &Vec<u8>) -> (r: Result<Vec<u8>, UpdaterError>)
    ensures
        match r {
            Ok(out) => gunzip_of(artifact@) == Some(out@),
            Err(e) => e is Io && gunzip_of(artifact@) is None,
        },
        (r is Ok) <==> gunzip_of(artifact@) is Some,
{
    match gunzip_bytes(artifact) {
        Ok(out) => Ok(out),
        Err(detail) => Err(UpdaterError::Io(detail)),
    }
}

} // verus!
