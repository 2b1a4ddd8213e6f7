//! Safe compression and decompression of whole buffers with snappy.
use crate::native::{
    declared_len,
    decoded,
    encoded,
    max_compressed_len,
    max_compressed_length,
    raw_compress,
    raw_uncompress,
    raw_uncompressed_length,
    SnappyStatus,
};
use vstd::prelude::*;

verus! {

/// Errors that can occur when compressing or uncompressing data with
/// snappy.
#[derive(Clone, Copy, Debug, PartialEq, Eq, Structural)]
pub enum Error {
    InvalidInput,
    BufferTooSmall,
    UnexpectedLength,
    Unknown,
}

/// Short text naming each error.
pub open spec fn description_of(e: Error) -> Seq<char> {
    match e {
        Error::InvalidInput => "invalid input"@,
        Error::BufferTooSmall => "buffer too small"@,
        Error::UnexpectedLength => "unexpected length"@,
        Error::Unknown => "unknown"@,
    }
}

impl Error {
    /// A short description of the error.
    pub fn description(&self) -> (r: &'static str)
        ensures
            r@ == description_of(*self),
    {
        match *self {
            Error::InvalidInput => "invalid input",
            Error::BufferTooSmall => "buffer too small",
            Error::UnexpectedLength => "unexpected length",
            Error::Unknown => "unknown",
        }
    }
}

/// What a status code means to a caller: success, or the error it stands for.
pub open spec fn status_result(s: SnappyStatus) -> Result<(), Error> {
    match s {
        SnappyStatus::Success => Ok(()),
        SnappyStatus::InvalidInput => Err(Error::InvalidInput),
        SnappyStatus::BufferTooSmall => Err(Error::BufferTooSmall),
        SnappyStatus::Unrecognized => Err(Error::Unknown),
    }
}

/// Translates a status code into success or a typed error.
pub fn check_status(s: SnappyStatus) -> (r: Result<(), Error>)
    ensures
        r == status_result(s),
{
    match s {
        SnappyStatus::Success => Ok(()),
        SnappyStatus::InvalidInput => Err(Error::InvalidInput),
        SnappyStatus::BufferTooSmall => Err(Error::BufferTooSmall),
        SnappyStatus::Unrecognized => Err(Error::Unknown),
    }
}

/// The bytes of a buffer-or-error result.
pub open spec fn bytes_result(r: Result<Vec<u8>, Error>) -> Result<Seq<u8>, Error> {
    match r {
        Ok(v) => Ok(v@),
        Err(e) => Err(e),
    }
}

/// `c` is a frame of `b`: it is not empty, its header declares the length of
/// `b`, and the decoder recovers `b` from it.
pub open spec fn is_frame_of(c: Seq<u8>, b: Seq<u8>) -> bool {
    &&& c.len() > 0
    &&& declared_len(c) == Some(b.len())
    &&& decoded(c) == Some(b)
}

/// Outcome of compressing `b`: its frame, which must be shorter than the
/// worst-case size; an input too large to have a worst-case size is invalid.
pub open spec fn compress_outcome(b: Seq<u8>) -> Result<Seq<u8>, Error> {
    if max_compressed_len(b.len()) == 0 {
        Err(Error::InvalidInput)
    } else if encoded(b).len() < max_compressed_len(b.len()) {
        Ok(encoded(b))
    } else {
        Err(Error::UnexpectedLength)
    }
}

/// Outcome of decompressing `c`: the bytes that the decoder recovers, or
/// `InvalidInput` where `c` is empty, has a bad header or is rejected.
pub open spec fn decompress_outcome(c: Seq<u8>) -> Result<Seq<u8>, Error> {
    if c.len() == 0 || declared_len(c) is None {
        Err(Error::InvalidInput)
    } else {
        match decoded(c) {
            Some(b) => Ok(b),
            None => Err(Error::InvalidInput),
        }
    }
}

/// Compress the given input and return the compressed output.
pub fn compress(input: &[u8]) -> (r: Result<Vec<u8>, Error>)
    ensures
        bytes_result(r) == compress_outcome(input@),
        r is Ok ==> is_frame_of(r->Ok_0@, input@),
        r is Ok ==> r->Ok_0@.len() < max_compressed_len(input@.len()),
        input@.len() == 0 ==> bytes_result(r) == Ok::<Seq<u8>, Error>(seq![0u8]),
{
    let mut compressed_len = max_compressed_length(input.len());
    let mut compressed = vec![0u8; compressed_len];
    let st = raw_compress(input, &mut compressed, &mut compressed_len);
    if let Err(e) = check_status(st) {
        return Err(e);
    }
    if compressed_len >= compressed.len() {
        Err(Error::UnexpectedLength)
    } else {
        compressed.truncate(compressed_len);
        Ok(compressed)
    }
}

/// Decompress the given compressed input and return the uncompressed
/// output.
pub fn decompress(compressed: &[u8]) -> (r: Result<Vec<u8>, Error>)
    ensures
        bytes_result(r) == decompress_outcome(compressed@),
        r is Ok ==> declared_len(compressed@) == Some(r->Ok_0@.len()),
        decoded(compressed@) is None ==> r == Err::<Vec<u8>, Error>(Error::InvalidInput),
{
    let mut uncompressed_len: usize = 0;
    let st = raw_uncompressed_length(compressed, &mut uncompressed_len);
    if let Err(e) = check_status(st) {
        return Err(e);
    }
    let mut uncompressed = vec![0u8; uncompressed_len];
    let st = raw_uncompress(compressed, &mut uncompressed, &mut uncompressed_len);
    if let Err(e) = check_status(st) {
        return Err(e);
    }
    if uncompressed.len() != uncompressed_len {
        Err(Error::UnexpectedLength)
    } else {
        assert(uncompressed@ == uncompressed@.take(uncompressed_len as int));
        Ok(uncompressed)
    }
}

/// Round trip: when `compress` returns `c` for `b`, decompressing `c` gives
/// back `b`. What `compress` returns is `compress_outcome(b)`, and its
/// contract adds that the buffer is a frame of `b`.
pub proof fn lemma_round_trip(b: Seq<u8>, c: Seq<u8>)
    requires
        compress_outcome(b) == Ok::<Seq<u8>, Error>(c),
        is_frame_of(c, b),
    ensures
        decompress_outcome(c) == Ok::<Seq<u8>, Error>(b),
{
}

} // verus!
