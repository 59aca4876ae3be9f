//! Compressor stage: compresses the pre-compression frame with a fixed
//! parameter set through a single-stream LZMA-alone encoder and discards
//! the fixed 13-byte format preamble, keeping only the compressed payload
//! bytes that follow it.

use std::io::Write;
use vstd::prelude::*;

use crate::errors::EncodeError;

verus! {

/// What liblzma's LZMA-alone encoder emits for the given input under the
/// fixed parameter set (compression preset 6, dictionary size 131072,
/// literal-context-bits 3, literal-position-bits 0, position-bits 2): the
/// whole stream, beginning with its 13-byte preamble (one properties
/// byte, 4-byte little-endian dictionary size, 8-byte little-endian
/// uncompressed-size field). The encoder is deterministic for a fixed
/// input and parameter set, so the stream is a function of the input
/// bytes alone.
pub uninterp spec fn lzma_alone_of(data: Seq<u8>) -> Seq<u8>;

/// Relies on liblzma's `LzmaOptions::new_preset`, `Stream::new_lzma_encoder`
/// and `XzEncoder` (write + finish): a single-stream LZMA-alone encode of
/// the whole input under the fixed parameter set, whose output always
/// starts with the 13-byte LZMA-alone preamble.
#[verifier::external_body]
fn lzma_compress_alone(data: &Vec<u8>) -> (r: Option<Vec<u8>>)
    ensures
        r matches Some(out) ==> out@ == lzma_alone_of(data@) && out@.len() >= 13,
{
    let mut options = liblzma::stream::LzmaOptions::new_preset(6).ok()?;
    options.literal_context_bits(3);
    options.literal_position_bits(0);
    options.position_bits(2);
    options.dict_size(131072);
    let stream = liblzma::stream::Stream::new_lzma_encoder(&options).ok()?;
    let mut encoder = liblzma::write::XzEncoder::new_stream(Vec::new(), stream);
    encoder.write_all(data.as_slice()).ok()?;
    encoder.finish().ok()
}

/// The bytes kept for the downstream stages: the raw stream with exactly
/// its 13 preamble bytes discarded.
pub open spec fn compressed_body(data: Seq<u8>) -> Seq<u8> {
    lzma_alone_of(data).skip(13)
}

/// Compresses the frame and strips the format preamble. Fails only when
/// the compression stream cannot be constructed or finalized; that
/// failure is fatal, not user-correctable.
pub fn compress_frame(frame: &Vec<u8>) -> (r: Result<Vec<u8>, EncodeError>)
    ensures
        r matches Ok(c) ==> c@ == compressed_body(frame@),
        r matches Err(e) ==> e == EncodeError::Compression,
{
    match lzma_compress_alone(frame) {
        Option::None => Err(EncodeError::Compression),
        Option::Some(full) => {
            let n = full.len();
            let mut out: Vec<u8> = Vec::new();
            for i in 13..n
                invariant
                    13 <= n == full@.len(),
                    out@ == full@.subrange(13, i as int),
            {
                out.push(full[i]);
                proof {
                    assert(out@ =~= full@.subrange(13, i + 1));
                }
            }
            proof {
                assert(out@ =~= compressed_body(frame@));
            }
            Ok(out)
        },
    }
}

} // verus!
