//! Wire-format detection and decompression.
//!
//! A payload is inspected for a fixed magic-byte prefix; detectors are tried
//! in a fixed priority order (gzip, then zlib) and the first match wins. A
//! payload that no detector claims is passed through unchanged, so at most
//! one stage of decompression is ever applied.

use vstd::prelude::*;

verus! {

/// What the gzip stream decoder yields on a byte sequence: the inflated
/// bytes, or `None` when the stream is corrupt or truncated. The result
/// depends on the input bytes alone.
pub uninterp spec fn gzip_inflate(data: Seq<u8>) -> Option<Seq<u8>>;

/// What the zlib stream decoder yields on a byte sequence: the inflated
/// bytes, or `None` when the stream is corrupt or truncated. The result
/// depends on the input bytes alone.
pub uninterp spec fn zlib_inflate(data: Seq<u8>) -> Option<Seq<u8>>;

/// A matching decompressor failed mid-stream; the variant names the codec
/// whose decoder rejected the payload.
#[derive(Debug, Clone, Copy, PartialEq, Eq)]
pub enum DecompressError {
    Gzip,
    Zlib,
}

impl DecompressError {
    /// A short description for diagnostics.
    pub fn message(&self) -> (r: &'static str)
        ensures
            self is Gzip ==> r@ == "corrupt gzip payload"@,
            self is Zlib ==> r@ == "corrupt zlib payload"@,
    {
        match self {
            DecompressError::Gzip => "corrupt gzip payload",
            DecompressError::Zlib => "corrupt zlib payload",
        }
    }
}

/// The gzip magic prefix: the two bytes `0x1f 0x8b`. Anything shorter than
/// two bytes matches no detector.
pub open spec fn gzip_magic(data: Seq<u8>) -> bool {
    data.len() >= 2 && data[0] == 0x1f && data[1] == 0x8b
}

/// The zlib magic prefix: `0x78` followed by one of `0x9c`, `0xda`, `0x01`.
/// Anything shorter than two bytes matches no detector.
pub open spec fn zlib_magic(data: Seq<u8>) -> bool {
    data.len() >= 2 && data[0] == 0x78 && (data[1] == 0x9c || data[1] == 0xda || data[1] == 0x01)
}

/// One decompression algorithm: a magic-byte detector plus a stream decoder.
pub trait Decompressor {
    /// Whether this algorithm claims the payload, as a predicate on the bytes.
    spec fn spec_can_handle(data: Seq<u8>) -> bool;

    /// What decoding the payload yields, or `None` on a corrupt stream.
    spec fn spec_decompress(data: Seq<u8>) -> Option<Seq<u8>>;

    /// The failure this algorithm reports on a corrupt stream.
    spec fn spec_error() -> DecompressError;

    fn can_handle(&self, data: &[u8]) -> (r: bool)
        ensures
            r == Self::spec_can_handle(data@),
    ;

    fn decompress(&self, data: &[u8]) -> (r: Result<Vec<u8>, DecompressError>)
        ensures
            match r {
                Ok(out) => Self::spec_decompress(data@) == Some(out@),
                Err(e) => Self::spec_decompress(data@) is None && e == Self::spec_error(),
            },
    ;
}

/// Relies on `flate2::read::GzDecoder` with `std::io::Read::read_to_end`:
/// inflating a byte sequence is a function of the bytes alone, named
/// `gzip_inflate`; a corrupt stream reports an error and never partial
/// output.
#[verifier::external_body]
fn inflate_gzip(data: &[u8]) -> (r: Option<Vec<u8>>)
    ensures
        match r {
            Some(out) => gzip_inflate(data@) == Some(out@),
            None => gzip_inflate(data@) is None,
        },
{
    let mut decoder = flate2::read::GzDecoder::new(data);
    let mut out: Vec<u8> = Vec::new();
    match std::io::Read::read_to_end(&mut decoder, &mut out) {
        Ok(_) => Some(out),
        Err(_) => None,
    }
}

/// Relies on `flate2::read::ZlibDecoder` with `std::io::Read::read_to_end`:
/// inflating a byte sequence is a function of the bytes alone, named
/// `zlib_inflate`; a corrupt stream reports an error and never partial
/// output.
#[verifier::external_body]
fn inflate_zlib(data: &[u8]) -> (r: Option<Vec<u8>>)
    ensures
        match r {
            Some(out) => zlib_inflate(data@) == Some(out@),
            None => zlib_inflate(data@) is None,
        },
{
    let mut decoder = flate2::read::ZlibDecoder::new(data);
    let mut out: Vec<u8> = Vec::new();
    match std::io::Read::read_to_end(&mut decoder, &mut out) {
        Ok(_) => Some(out),
        Err(_) => None,
    }
}

/// The gzip algorithm.
pub struct GzipDecompressor;

impl Decompressor for GzipDecompressor {
    open spec fn spec_can_handle(data: Seq<u8>) -> bool {
        gzip_magic(data)
    }

    open spec fn spec_decompress(data: Seq<u8>) -> Option<Seq<u8>> {
        gzip_inflate(data)
    }

    open spec fn spec_error() -> DecompressError {
        DecompressError::Gzip
    }

    fn can_handle(&self, data: &[u8]) -> (r: bool) {
        data.len() >= 2 && data[0] == 0x1f && data[1] == 0x8b
    }

    fn decompress(&self, data: &[u8]) -> (r: Result<Vec<u8>, DecompressError>) {
        match inflate_gzip(data) {
            Some(out) => Ok(out),
            None => Err(DecompressError::Gzip),
        }
    }
}

/// The zlib algorithm.
pub struct ZlibDecompressor;

impl Decompressor for ZlibDecompressor {
    open spec fn spec_can_handle(data: Seq<u8>) -> bool {
        zlib_magic(data)
    }

    open spec fn spec_decompress(data: Seq<u8>) -> Option<Seq<u8>> {
        zlib_inflate(data)
    }

    open spec fn spec_error() -> DecompressError {
        DecompressError::Zlib
    }

    fn can_handle(&self, data: &[u8]) -> (r: bool) {
        data.len() >= 2 && data[0] == 0x78 && (data[1] == 0x9c || data[1] == 0xda || data[1]
            == 0x01)
    }

    fn decompress(&self, data: &[u8]) -> (r: Result<Vec<u8>, DecompressError>) {
        match inflate_zlib(data) {
            Some(out) => Ok(out),
            None => Err(DecompressError::Zlib),
        }
    }
}

/// What the whole detection stage yields on a payload: the first matching
/// algorithm's output (or its error), or the payload itself when none
/// matches.
pub open spec fn sniff_decompress(data: Seq<u8>) -> Result<Seq<u8>, DecompressError> {
    if gzip_magic(data) {
        match gzip_inflate(data) {
            Some(out) => Ok(out),
            None => Err(DecompressError::Gzip),
        }
    } else if zlib_magic(data) {
        match zlib_inflate(data) {
            Some(out) => Ok(out),
            None => Err(DecompressError::Zlib),
        }
    } else {
        Ok(data)
    }
}

/// Tries the known decompression algorithms in a fixed priority order:
/// gzip first, then zlib. The order is part of the contract, because two
/// schemes could in principle claim overlapping prefixes.
pub struct CompressionManager {
    gzip: GzipDecompressor,
    zlib: ZlibDecompressor,
}

impl CompressionManager {
    pub fn new() -> (r: Self) {
        CompressionManager { gzip: GzipDecompressor, zlib: ZlibDecompressor }
    }

    /// Decodes one payload: the first algorithm whose magic prefix matches
    /// runs, and its error (if any) is reported; a payload that no algorithm
    /// claims is returned unchanged, never partially decoded.
    pub fn decompress(&self, data: &[u8]) -> (r: Result<Vec<u8>, DecompressError>)
        ensures
            match r {
                Ok(out) => sniff_decompress(data@) == Ok::<Seq<u8>, DecompressError>(out@),
                Err(e) => sniff_decompress(data@) == Err::<Seq<u8>, DecompressError>(e),
            },
    {
        if self.gzip.can_handle(data) {
            self.gzip.decompress(data)
        } else if self.zlib.can_handle(data) {
            self.zlib.decompress(data)
        } else {
            let mut out: Vec<u8> = Vec::new();
            let mut i: usize = 0;
            while i < data.len()
                invariant
                    i <= data@.len(),
                    out@ == data@.subrange(0, i as int),
                decreases data@.len() - i,
            {
                out.push(data[i]);
                i = i + 1;
            }
            assert(out@ == data@);
            Ok(out)
        }
    }
}

impl Default for CompressionManager {
    fn default() -> (r: Self) {
        CompressionManager::new()
    }
}

/// Law: a payload that matches no known magic prefix passes through the
/// detection stage unchanged.
pub proof fn lemma_unrecognized_payload_unchanged(data: Seq<u8>)
    requires
        !gzip_magic(data),
        !zlib_magic(data),
    ensures
        sniff_decompress(data) == Ok::<Seq<u8>, DecompressError>(data),
{
}

} // verus!
