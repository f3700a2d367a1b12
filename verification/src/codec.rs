//! Decompression: the fetched object body is a gzip stream whose inflated
//! bytes must be UTF-8 text. Inflation and deflation are done by the `flate2`
//! crate behind trusted wrappers; the UTF-8 judgment is `core::str`'s,
//! stated over vstd's UTF-8 model.

use vstd::prelude::*;
use vstd::utf8::valid_utf8;

use crate::types::PipelineError;

verus! {

/// What gzip inflation returns on the given bytes: the fully decompressed
/// payload, or nothing when the bytes are not a well-formed gzip stream.
pub uninterp spec fn inflate_of(z: Seq<u8>) -> Option<Seq<u8>>;

/// Relies on `flate2::read::GzDecoder`: reading it to the end yields the
/// whole decompressed payload, and fails exactly on input that is not a
/// well-formed gzip stream. The result depends on the input bytes alone.
#[verifier::external_body]
fn gunzip(z: &Vec<u8>) -> (r: Option<Vec<u8>>)
    ensures
        r is Some <==> inflate_of(z@) is Some,
        r matches Some(b) ==> inflate_of(z@) == Some(b@),
{
    let mut decoder = flate2::read::GzDecoder::new(&z[..]);
    let mut out: Vec<u8> = Vec::new();
    match std::io::Read::read_to_end(&mut decoder, &mut out) {
        Ok(_) => Some(out),
        Err(_) => None,
    }
}

/// Relies on `flate2::write::GzEncoder`: it emits a well-formed gzip stream
/// that inflates back to exactly the bytes written (gzip is lossless).
/// Writing into a `Vec` sink cannot fail.
#[verifier::external_body]
fn gzip_bytes(b: &Vec<u8>) -> (r: Vec<u8>)
    ensures
        inflate_of(r@) == Some(b@),
{
    let mut encoder = flate2::write::GzEncoder::new(Vec::new(), flate2::Compression::default());
    std::io::Write::write_all(&mut encoder, &b[..]).unwrap();
    encoder.finish().unwrap()
}

/// Relies on `core::str::from_utf8`: it accepts exactly the byte sequences
/// that are valid UTF-8.
#[verifier::external_body]
fn utf8_ok(b: &Vec<u8>) -> (r: bool)
    ensures
        r == valid_utf8(b@),
{
    core::str::from_utf8(&b[..]).is_ok()
}

/// The text an object body decodes to: the gzip-inflated bytes, provided
/// they exist and are valid UTF-8.
pub open spec fn decompressed_text(z: Seq<u8>) -> Option<Seq<u8>> {
    match inflate_of(z) {
        Some(b) => if valid_utf8(b) {
            Some(b)
        } else {
            None
        },
        None => None,
    }
}

/// Inflates a fetched object body into UTF-8 text. Fails exactly when the
/// bytes are not well-formed gzip or the inflated payload is not valid
/// UTF-8; no partial decoding is returned.
pub fn decompress_utf8(z: &Vec<u8>) -> (r: Result<Vec<u8>, PipelineError>)
    ensures
        r is Ok <==> decompressed_text(z@) is Some,
        r matches Ok(t) ==> decompressed_text(z@) == Some(t@),
        r matches Err(e) ==> e is Decode,
{
    match gunzip(z) {
        None => Err(PipelineError::Decode),
        Some(b) => {
            if utf8_ok(&b) {
                Ok(b)
            } else {
                Err(PipelineError::Decode)
            }
        },
    }
}

/// Deflates UTF-8 text into a gzip stream. Succeeds exactly on valid UTF-8,
/// and the result decompresses back to the original text: together with
/// [`decompress_utf8`] this is the round trip
/// `decompress(compress(text)) == text`.
pub fn compress_utf8(b: &Vec<u8>) -> (r: Option<Vec<u8>>)
    ensures
        r is Some <==> valid_utf8(b@),
        r matches Some(z) ==> decompressed_text(z@) == Some(b@),
{
    if utf8_ok(b) {
        Some(gzip_bytes(b))
    } else {
        None
    }
}

} // verus!
