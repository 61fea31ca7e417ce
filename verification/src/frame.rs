//! Framing of encoded payloads: the stored and transmitted form of summoner data,
//! game maps and asset bundles is an LZ4 block with the payload's length
//! prepended, as `lz4_flex` writes it.
use vstd::prelude::*;

verus! {

/// The bytes that `lz4_flex::compress_prepend_size` gives for `payload`.
pub uninterp spec fn lz4_framed(payload: Seq<u8>) -> Seq<u8>;

/// What `lz4_flex::decompress_size_prepended` gives back for `bytes`: the payload,
/// or the kind of error it reports (`Truncated` for a missing byte, `Corrupt` for
/// any other error).
pub uninterp spec fn lz4_unframed(bytes: Seq<u8>) -> Result<Seq<u8>, FrameError>;

/// The little-endian bytes of a 32-bit length.
pub open spec fn le_u32(n: nat) -> Seq<u8> {
    seq![(n % 256) as u8, ((n / 256) % 256) as u8, ((n / 65536) % 256) as u8, ((n / 16777216) % 256) as u8]
}

/// Why framed bytes could not be read back.
#[derive(Debug, Clone, Copy, PartialEq, Eq, Structural)]
pub enum FrameError {
    /// The bytes end before the length or the block does.
    Truncated,
    /// The block is not a valid LZ4 block for the prepended length.
    Corrupt,
}

/// Calls `lz4_flex::compress_prepend_size`. Claimed, as its documentation and source
/// show: the result begins with the payload's length as a little-endian `u32`, and
/// `decompress_size_prepended` gives the payload back from it. Nothing is stated of
/// the compressed block itself beyond its name.
#[verifier::external_body]
fn lz4_compress_prepend_size(payload: &[u8]) -> (r: Vec<u8>)
    requires
        payload@.len() <= u32::MAX,
    ensures
        r@ == lz4_framed(payload@),
        r@.len() >= 4,
        r@.subrange(0, 4) == le_u32(payload@.len()),
        lz4_unframed(r@) is Ok,
        lz4_unframed(r@)->Ok_0 == payload@,
{
    lz4_flex::compress_prepend_size(payload)
}

/// Calls `lz4_flex::decompress_size_prepended`, reading its `ExpectedAnotherByte`
/// error as `Truncated` and any other error as `Corrupt`. Claimed: the result is a
/// function of the bytes alone, and input shorter than the 4-byte length prefix is refused with
/// `ExpectedAnotherByte`, as the source's `uncompressed_size` shows. The call first
/// allocates the prepended length (up to 4 GiB); a failed allocation aborts the
/// process, which no clause covers.
#[verifier::external_body]
fn lz4_decompress_size_prepended(bytes: &[u8]) -> (r: Result<Vec<u8>, FrameError>)
    ensures
        r matches Ok(v) ==> (lz4_unframed(bytes@) matches Ok(p) && p == v@),
        r matches Err(e) ==> (lz4_unframed(bytes@) matches Err(f) && f == e),
        bytes@.len() < 4 ==> r matches Err(FrameError::Truncated),
{
    match lz4_flex::decompress_size_prepended(bytes) {
        Ok(v) => Ok(v),
        Err(lz4_flex::block::DecompressError::ExpectedAnotherByte) => Err(FrameError::Truncated),
        Err(_) => Err(FrameError::Corrupt),
    }
}

/// Frames an encoded payload for storage or transfer.
pub fn encode_frame(payload: &[u8]) -> (r: Vec<u8>)
    requires
        payload@.len() <= u32::MAX,
    ensures
        r@ == lz4_framed(payload@),
        r@.len() >= 4,
        r@.subrange(0, 4) == le_u32(payload@.len()),
        lz4_unframed(r@) is Ok,
        lz4_unframed(r@)->Ok_0 == payload@,
{
    lz4_compress_prepend_size(payload)
}

/// Reads a payload back from its frame.
pub fn decode_frame(bytes: &[u8]) -> (r: Result<Vec<u8>, FrameError>)
    ensures
        r matches Ok(v) ==> (lz4_unframed(bytes@) matches Ok(p) && p == v@),
        r matches Err(e) ==> (lz4_unframed(bytes@) matches Err(f) && f == e),
        bytes@.len() < 4 ==> r matches Err(FrameError::Truncated),
{
    lz4_decompress_size_prepended(bytes)
}

} // verus!
