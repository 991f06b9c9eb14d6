use vstd::prelude::*;
use vstd::utf8::{decode_utf8, valid_utf8};

use crate::error::StandaloneError;
use crate::trailer::{
    encode_trailer, lemma_decode_trailer_of, read_trailer, slice_range, spec_read_trailer, tail,
    trailer_of, magic, spec_decode,
};

verus! {

/// A self-contained image: the host image, then the payload, then the
/// trailer that records where the payload starts.
pub open spec fn spec_compose(host: Seq<u8>, payload: Seq<u8>) -> Seq<u8> {
    host + payload + trailer_of(host.len() as u64)
}

/// The payload that an image carries: `None` for an ordinary image, an error
/// for one too short to hold a trailer or whose trailer points past itself.
pub open spec fn spec_extract(image: Seq<u8>) -> Result<Option<Seq<u8>>, StandaloneError> {
    match spec_read_trailer(image) {
        Err(e) => Err(e),
        Ok(None) => Ok(None),
        Ok(Some(offset)) => if offset > image.len() - 16 {
            Err(StandaloneError::OffsetOutOfRange)
        } else {
            Ok(Some(image.subrange(offset as int, image.len() - 16)))
        },
    }
}

/// The script text that an image carries: the payload read as UTF-8.
pub open spec fn spec_extract_script(image: Seq<u8>) -> Result<Option<Seq<char>>, StandaloneError> {
    match spec_extract(image) {
        Err(e) => Err(e),
        Ok(None) => Ok(None),
        Ok(Some(p)) => if valid_utf8(p) {
            Ok(Some(decode_utf8(p)))
        } else {
            Err(StandaloneError::InvalidUtf8)
        },
    }
}

/// What stands at the output path before an image is written there.
pub enum ExistingOutput {
    /// Nothing.
    Missing,
    /// A directory.
    Directory,
    /// A file with these contents.
    File(Vec<u8>),
}

/// The image to write at the output path, or why nothing may be written
/// there: a directory is never replaced, nor a file that is not itself a
/// self-contained image.
pub open spec fn spec_plan(
    host: Seq<u8>,
    payload: Seq<u8>,
    existing: ExistingOutput,
) -> Result<Seq<u8>, StandaloneError> {
    match existing {
        ExistingOutput::Missing => Ok(spec_compose(host, payload)),
        ExistingOutput::Directory => Err(StandaloneError::OutputIsDirectory),
        ExistingOutput::File(contents) => match spec_read_trailer(contents@) {
            Err(e) => Err(e),
            Ok(None) => Err(StandaloneError::RefuseOverwrite),
            Ok(Some(_)) => Ok(spec_compose(host, payload)),
        },
    }
}

/// Appends `payload` and a trailer to `host`.
pub fn compose_image(host: &[u8], payload: &[u8]) -> (r: Vec<u8>)
    requires
        host@.len() + payload@.len() + 16 <= usize::MAX,
    ensures
        r@ == spec_compose(host@, payload@),
{
    let total = host.len() + payload.len() + 16;
    let mut r: Vec<u8> = Vec::with_capacity(total);
    let mut i: usize = 0;
    while i < host.len()
        invariant
            i <= host@.len(),
            r@ == host@.subrange(0, i as int),
        decreases host@.len() - i,
    {
        r.push(host[i]);
        i = i + 1;
        assert(r@ =~= host@.subrange(0, i as int));
    }
    assert(host@.subrange(0, host@.len() as int) =~= host@);
    let mut j: usize = 0;
    while j < payload.len()
        invariant
            j <= payload@.len(),
            r@ == host@ + payload@.subrange(0, j as int),
        decreases payload@.len() - j,
    {
        r.push(payload[j]);
        j = j + 1;
        assert(r@ =~= host@ + payload@.subrange(0, j as int));
    }
    assert(payload@.subrange(0, payload@.len() as int) =~= payload@);
    let mut trailer = encode_trailer(host.len() as u64);
    r.append(&mut trailer);
    r
}

/// Finds the payload of an image: `Ok(None)` when the image is an ordinary
/// one.
pub fn extract_payload(image: &[u8]) -> (r: Result<Option<Vec<u8>>, StandaloneError>)
    ensures
        match (r, spec_extract(image@)) {
            (Ok(Some(p)), Ok(Some(q))) => p@ == q,
            (Ok(None), Ok(None)) => true,
            (Err(e), Err(f)) => e == f,
            _ => false,
        },
{
    match read_trailer(image) {
        Err(e) => Err(e),
        Ok(None) => Ok(None),
        Ok(Some(offset)) => {
            let end = image.len() - 16;
            if offset > end as u64 {
                Err(StandaloneError::OffsetOutOfRange)
            } else {
                Ok(Some(slice_range(image, offset as usize, end)))
            }
        },
    }
}

/// Relies on `String::from_utf8`: it succeeds exactly on valid UTF-8, and
/// the string then holds the characters that the bytes encode.
#[verifier::external_body]
pub(crate) fn utf8_to_string(bytes: Vec<u8>) -> (r: Option<String>)
    ensures
        r is Some <==> valid_utf8(bytes@),
        r matches Some(s) ==> s@ == decode_utf8(bytes@),
{
    String::from_utf8(bytes).ok()
}

/// Finds the script that an image carries: `Ok(None)` when the image is an
/// ordinary one.
pub fn extract_script(image: &[u8]) -> (r: Result<Option<String>, StandaloneError>)
    ensures
        match (r, spec_extract_script(image@)) {
            (Ok(Some(s)), Ok(Some(t))) => s@ == t,
            (Ok(None), Ok(None)) => true,
            (Err(e), Err(f)) => e == f,
            _ => false,
        },
{
    match extract_payload(image) {
        Err(e) => Err(e),
        Ok(None) => Ok(None),
        Ok(Some(p)) => match utf8_to_string(p) {
            Some(s) => Ok(Some(s)),
            None => Err(StandaloneError::InvalidUtf8),
        },
    }
}

/// Decides what to write at the output path, given what stands there now.
pub fn create_standalone_binary(host: &[u8], payload: &[u8], existing: &ExistingOutput) -> (r: Result<
    Vec<u8>,
    StandaloneError,
>)
    requires
        host@.len() + payload@.len() + 16 <= usize::MAX,
    ensures
        match (r, spec_plan(host@, payload@, *existing)) {
            (Ok(v), Ok(w)) => v@ == w,
            (Err(e), Err(f)) => e == f,
            _ => false,
        },
{
    match existing {
        ExistingOutput::Missing => Ok(compose_image(host, payload)),
        ExistingOutput::Directory => Err(StandaloneError::OutputIsDirectory),
        ExistingOutput::File(contents) => match read_trailer(contents.as_slice()) {
            Err(e) => Err(e),
            Ok(None) => Err(StandaloneError::RefuseOverwrite),
            Ok(Some(_)) => Ok(compose_image(host, payload)),
        },
    }
}

/// Extracting from a composed image gives back exactly the payload that was
/// put in.
pub proof fn lemma_round_trip(host: Seq<u8>, payload: Seq<u8>)
    requires
        host.len() + payload.len() + 16 <= u64::MAX,
    ensures
        spec_extract(spec_compose(host, payload)) == Ok::<Option<Seq<u8>>, StandaloneError>(Some(payload)),
{
    let o = host.len() as u64;
    let image = spec_compose(host, payload);
    lemma_decode_trailer_of(o);
    assert(tail(image) =~= trailer_of(o));
    assert(image.subrange(o as int, image.len() - 16) =~= payload);
}

/// An image of at least sixteen bytes whose trailer does not open with the
/// magic is an ordinary image: detection says so and reports no error.
pub proof fn lemma_non_artifact_detection(image: Seq<u8>)
    requires
        image.len() >= 16,
        tail(image).subrange(0, 8) != magic(),
    ensures
        spec_read_trailer(image) == Ok::<Option<u64>, StandaloneError>(None),
        spec_extract(image) == Ok::<Option<Seq<u8>>, StandaloneError>(None),
        spec_extract_script(image) == Ok::<Option<Seq<char>>, StandaloneError>(None),
{
}

/// An existing file that is not a self-contained image is never replaced:
/// composing into it is refused.
pub proof fn lemma_overwrite_refused(host: Seq<u8>, payload: Seq<u8>, contents: Vec<u8>)
    requires
        contents@.len() >= 16,
        tail(contents@).subrange(0, 8) != magic(),
    ensures
        spec_plan(host, payload, ExistingOutput::File(contents)) == Err::<Seq<u8>, StandaloneError>(
            StandaloneError::RefuseOverwrite,
        ),
{
}

/// An existing self-contained image is replaced whole by the new image.
pub proof fn lemma_overwrite_replaces(host: Seq<u8>, payload: Seq<u8>, contents: Vec<u8>)
    requires
        contents@.len() >= 16,
        spec_decode(tail(contents@)) is Some,
    ensures
        spec_plan(host, payload, ExistingOutput::File(contents)) == Ok::<Seq<u8>, StandaloneError>(
            spec_compose(host, payload),
        ),
{
}

/// A directory at the output path is never written to.
pub proof fn lemma_directory_refused(host: Seq<u8>, payload: Seq<u8>)
    ensures
        spec_plan(host, payload, ExistingOutput::Directory) == Err::<Seq<u8>, StandaloneError>(
            StandaloneError::OutputIsDirectory,
        ),
{
}

} // verus!
