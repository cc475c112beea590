//! The upload wire format: a 4-byte little-endian manifest length, that many
//! bytes of UTF-8 manifest text, a 4-byte little-endian archive length, then
//! that many raw archive bytes. Decoding slices the buffer without copying
//! the archive; any declared length that runs past the buffer, or a manifest
//! segment that is not valid UTF-8, is a decode failure.

use vstd::prelude::*;
use vstd::bytes::{u32_from_le_bytes, spec_u32_from_le_bytes, spec_u32_to_le_bytes,
    u32_to_le_bytes, lemma_auto_spec_u32_to_from_le_bytes};
use vstd::slice::{slice_subrange, slice_to_vec};
use vstd::string::StringSliceAdditionalSpecFns;
use vstd::utf8::{decode_utf8, encode_utf8_decode_utf8, valid_utf8};
use crate::errors::PublishError;

verus! {

/// The declared manifest length of a buffer with at least 4 bytes.
pub open spec fn spec_manifest_len(u: Seq<u8>) -> int {
    spec_u32_from_le_bytes(u.subrange(0, 4)) as int
}

/// The declared archive length, read after the manifest segment.
pub open spec fn spec_archive_len(u: Seq<u8>) -> int {
    spec_u32_from_le_bytes(u.subrange(4 + spec_manifest_len(u), 8 + spec_manifest_len(u))) as int
}

/// The manifest segment of a well-framed buffer.
pub open spec fn spec_manifest_bytes(u: Seq<u8>) -> Seq<u8> {
    u.subrange(4, 4 + spec_manifest_len(u))
}

/// The archive segment of a well-framed buffer.
pub open spec fn spec_archive_bytes(u: Seq<u8>) -> Seq<u8> {
    u.subrange(8 + spec_manifest_len(u), 8 + spec_manifest_len(u) + spec_archive_len(u))
}

/// A buffer decodes successfully exactly when both declared lengths lie
/// within it and the manifest segment is valid UTF-8. Trailing bytes after
/// the archive segment are ignored.
pub open spec fn spec_well_framed(u: Seq<u8>) -> bool {
    &&& u.len() >= 4
    &&& u.len() >= 4 + spec_manifest_len(u) + 4
    &&& u.len() >= 8 + spec_manifest_len(u) + spec_archive_len(u)
    &&& valid_utf8(spec_manifest_bytes(u))
}

/// The wire form of a manifest segment and an archive segment.
pub open spec fn spec_upload_wire(manifest: Seq<u8>, archive: Seq<u8>) -> Seq<u8> {
    spec_u32_to_le_bytes(manifest.len() as u32) + manifest
        + spec_u32_to_le_bytes(archive.len() as u32) + archive
}

/// Relies on core::str::from_utf8: succeeds exactly on valid UTF-8 input
/// and returns a string whose bytes are the input.
#[verifier::external_body]
fn utf8_str(bytes: &[u8]) -> (r: Option<&str>)
    ensures
        r is Some <==> valid_utf8(bytes@),
        r matches Some(s) ==> s.spec_bytes() == bytes@,
{
    core::str::from_utf8(bytes).ok()
}

/// Splits an upload body into its manifest text and its archive bytes, both
/// borrowed from the buffer, or fails on malformed framing.
pub fn parse_crate_upload<'a>(upload: &'a [u8]) -> (r: Result<(&'a str, &'a [u8]), PublishError>)
    ensures
        r is Ok <==> spec_well_framed(upload@),
        r matches Ok((m, t)) ==> {
            &&& m.spec_bytes() == spec_manifest_bytes(upload@)
            &&& m@ == decode_utf8(spec_manifest_bytes(upload@))
            &&& t@ == spec_archive_bytes(upload@)
        },
        r is Err ==> r == Err::<(&'a str, &'a [u8]), PublishError>(PublishError::MalformedUpload),
{
    if upload.len() < 4 {
        return Err(PublishError::MalformedUpload);
    }
    let mlen = u32_from_le_bytes(slice_subrange(upload, 0, 4)) as usize;
    if upload.len() - 4 < mlen {
        return Err(PublishError::MalformedUpload);
    }
    let off1 = 4 + mlen;
    if upload.len() - off1 < 4 {
        return Err(PublishError::MalformedUpload);
    }
    let alen = u32_from_le_bytes(slice_subrange(upload, off1, off1 + 4)) as usize;
    let off2 = off1 + 4;
    if upload.len() - off2 < alen {
        return Err(PublishError::MalformedUpload);
    }
    let manifest_bytes = slice_subrange(upload, 4, off1);
    let archive = slice_subrange(upload, off2, off2 + alen);
    match utf8_str(manifest_bytes) {
        Some(m) => {
            proof {
                encode_utf8_decode_utf8(m@);
            }
            Ok((m, archive))
        },
        None => Err(PublishError::MalformedUpload),
    }
}

/// Packs a manifest text and an archive into the wire form. The two length
/// fields are 32 bits, so both segments must fit in one.
pub fn encode_crate_upload(manifest: &str, archive: &[u8]) -> (r: Vec<u8>)
    requires
        manifest.spec_bytes().len() <= u32::MAX,
        archive@.len() <= u32::MAX,
    ensures
        r@ == spec_upload_wire(manifest.spec_bytes(), archive@),
{
    let mbytes = manifest.as_bytes();
    let mut r = u32_to_le_bytes(mbytes.len() as u32);
    let mut m = slice_to_vec(mbytes);
    r.append(&mut m);
    let mut tail = u32_to_le_bytes(archive.len() as u32);
    r.append(&mut tail);
    let mut a = slice_to_vec(archive);
    r.append(&mut a);
    proof {
        assert(r@ =~= spec_upload_wire(manifest.spec_bytes(), archive@));
    }
    r
}

/// Decoding inverts packing: any pair in which the manifest is UTF-8 text
/// and each segment fits a 32-bit length frames into a buffer that is
/// well-formed and yields back exactly that manifest and that archive.
pub proof fn lemma_upload_roundtrip(manifest: Seq<u8>, archive: Seq<u8>)
    requires
        valid_utf8(manifest),
        manifest.len() <= u32::MAX,
        archive.len() <= u32::MAX,
    ensures
        spec_well_framed(spec_upload_wire(manifest, archive)),
        spec_manifest_bytes(spec_upload_wire(manifest, archive)) == manifest,
        spec_archive_bytes(spec_upload_wire(manifest, archive)) == archive,
{
    lemma_auto_spec_u32_to_from_le_bytes();
    let u = spec_upload_wire(manifest, archive);
    assert(u.subrange(0, 4) =~= spec_u32_to_le_bytes(manifest.len() as u32));
    assert(spec_manifest_len(u) == manifest.len());
    assert(u.subrange(4 + spec_manifest_len(u), 8 + spec_manifest_len(u)) =~= spec_u32_to_le_bytes(
        archive.len() as u32,
    ));
    assert(spec_archive_len(u) == archive.len());
    assert(spec_manifest_bytes(u) =~= manifest);
    assert(spec_archive_bytes(u) =~= archive);
}

} // verus!
