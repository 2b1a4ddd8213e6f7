//! The four primitive operations of the snappy block codec, each with the
//! status code that it reports.
use vstd::prelude::*;

verus! {

/// Outcome of one primitive codec call.
#[derive(Clone, Copy, Debug, PartialEq, Eq, Structural)]
pub enum SnappyStatus {
    Success,
    InvalidInput,
    BufferTooSmall,
    Unrecognized,
}

/// Largest size, in bytes, that the codec accepts or produces.
pub const MAX_INPUT_SIZE: u64 = 0xFFFF_FFFF;

/// Worst-case compressed size of an input of `n` bytes, or 0 where such an
/// input is too large to be compressed at all.
pub open spec fn max_compressed_len(n: nat) -> nat {
    if 32 + n + n / 6 > MAX_INPUT_SIZE {
        0
    } else {
        32 + n + n / 6
    }
}

/// Relies on snap::raw::max_compress_len: `32 + n + n / 6`, or 0 once that
/// exceeds `2^32 - 1`.
#[verifier::external_body]
pub(crate) fn max_compressed_length(n: usize) -> (r: usize)
    ensures
        r == max_compressed_len(n as nat),
{
    snap::raw::max_compress_len(n)
}

/// Number of bytes in the base-128 length prefix of `c`, looking at no more
/// than `limit` bytes: the prefix ends with the first byte below 128.
pub open spec fn varint_len(c: Seq<u8>, limit: nat) -> Option<nat>
    decreases limit,
{
    if limit == 0 || c.len() == 0 {
        None
    } else if c[0] < 128 {
        Some(1)
    } else {
        match varint_len(c.drop_first(), (limit - 1) as nat) {
            Some(k) => Some(k + 1),
            None => None,
        }
    }
}

/// Value of the first `k` bytes of `c` read as a little-endian base-128
/// number, seven bits per byte.
pub open spec fn varint_value(c: Seq<u8>, k: nat) -> nat
    decreases k,
{
    if k == 0 || c.len() == 0 {
        0
    } else {
        (c[0] % 128) as nat + 128 * varint_value(c.drop_first(), (k - 1) as nat)
    }
}

/// Uncompressed length that the frame `c` declares in its header: a varint
/// of at most five bytes whose value fits in 32 bits. An empty frame
/// declares nothing to decompress.
pub open spec fn declared_len(c: Seq<u8>) -> Option<nat> {
    if c.len() == 0 {
        Some(0)
    } else {
        match varint_len(c, 5) {
            Some(k) => if varint_value(c, k) <= MAX_INPUT_SIZE {
                Some(varint_value(c, k))
            } else {
                None
            },
            None => None,
        }
    }
}

/// The frame that the snappy encoder writes for the bytes `b`.
pub uninterp spec fn encoded(b: Seq<u8>) -> Seq<u8>;

/// The bytes that the snappy decoder recovers from the frame `c` when it is
/// given room for the declared length, or `None` where it rejects `c`.
pub uninterp spec fn decoded(c: Seq<u8>) -> Option<Seq<u8>>;

/// Relies on snap::raw::Encoder::compress: it refuses an input whose
/// worst-case size is 0 (too big) or an output shorter than that size, and
/// otherwise writes, at the front of `out`, a frame whose header declares the
/// input's length and which the decoder turns back into the input; for an
/// empty input that frame is the single byte 0. `len` carries the capacity in
/// and the number of bytes written out.
#[verifier::external_body]
pub(crate) fn raw_compress(input: &[u8], out: &mut Vec<u8>, len: &mut usize) -> (st: SnappyStatus)
    requires
        *old(len) == old(out).len(),
    ensures
        final(out).len() == old(out).len(),
        max_compressed_len(input@.len()) == 0 ==> st == SnappyStatus::InvalidInput,
        max_compressed_len(input@.len()) != 0 && old(out).len() < max_compressed_len(input@.len())
            ==> st == SnappyStatus::BufferTooSmall,
        max_compressed_len(input@.len()) != 0 && old(out).len() >= max_compressed_len(input@.len())
            ==> st == SnappyStatus::Success,
        st == SnappyStatus::Success ==> *final(len) <= old(out).len() && final(out)@.take(
            *final(len) as int,
        ) == encoded(input@),
        st == SnappyStatus::Success ==> declared_len(encoded(input@)) == Some(input@.len())
            && decoded(encoded(input@)) == Some(input@),
        st == SnappyStatus::Success && input@.len() == 0 ==> encoded(input@) == seq![0u8],
        st != SnappyStatus::Success ==> *final(len) == *old(len),
{
    match snap::raw::Encoder::new().compress(input, out.as_mut_slice()) {
        Ok(n) => {
            *len = n;
            SnappyStatus::Success
        },
        Err(snap::Error::BufferTooSmall { .. }) => SnappyStatus::BufferTooSmall,
        Err(_) => SnappyStatus::InvalidInput,
    }
}

/// Relies on snap::raw::decompress_len: 0 for an empty input, else the
/// header's varint, refused (`Header`, `TooBig`) where it is longer than five
/// bytes, unterminated or above `2^32 - 1`.
#[verifier::external_body]
pub(crate) fn raw_uncompressed_length(input: &[u8], len: &mut usize) -> (st: SnappyStatus)
    ensures
        st == SnappyStatus::Success <==> declared_len(input@) is Some,
        st == SnappyStatus::Success ==> *final(len) == declared_len(input@)->0,
        st != SnappyStatus::Success ==> st == SnappyStatus::InvalidInput && *final(len) == *old(len),
{
    match snap::raw::decompress_len(input) {
        Ok(n) => {
            *len = n;
            SnappyStatus::Success
        },
        Err(_) => SnappyStatus::InvalidInput,
    }
}

/// Relies on snap::raw::Decoder::decompress: it refuses an empty input or a
/// bad header, reports an output shorter than the declared length, and
/// otherwise decodes into the first declared-length bytes of `out`, returning
/// that length, or refuses corrupt data. `len` carries the capacity in and the
/// number of bytes written out.
#[verifier::external_body]
pub(crate) fn raw_uncompress(input: &[u8], out: &mut Vec<u8>, len: &mut usize) -> (st: SnappyStatus)
    requires
        *old(len) == old(out).len(),
    ensures
        final(out).len() == old(out).len(),
        input@.len() == 0 || declared_len(input@) is None ==> st == SnappyStatus::InvalidInput,
        input@.len() > 0 && declared_len(input@) is Some && declared_len(input@)->0 > old(out).len()
            ==> st == SnappyStatus::BufferTooSmall,
        input@.len() > 0 && declared_len(input@) is Some && declared_len(input@)->0 <= old(out).len()
            ==> (st == SnappyStatus::Success <==> decoded(input@) is Some) && (st
            == SnappyStatus::Success || st == SnappyStatus::InvalidInput),
        st == SnappyStatus::Success ==> *final(len) == declared_len(input@)->0 && final(out)@.take(
            *final(len) as int,
        ) == decoded(input@)->0,
        st != SnappyStatus::Success ==> *final(len) == *old(len),
{
    match snap::raw::Decoder::new().decompress(input, out.as_mut_slice()) {
        Ok(n) => {
            *len = n;
            SnappyStatus::Success
        },
        Err(snap::Error::BufferTooSmall { .. }) => SnappyStatus::BufferTooSmall,
        Err(_) => SnappyStatus::InvalidInput,
    }
}

} // verus!
