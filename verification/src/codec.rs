//! The payload codec: an encoded value travels as it is, or as one compressed
//! block that starts with the length of what it holds.

use vstd::prelude::*;
use crate::error::{PersiaRpcError, RpcErrorView};

verus! {

/// The longest payload, in bytes, that fits in one compressed block.
pub const MAX_BLOCK_INPUT: usize = 0x7E00_0000;

/// What `lz4::block::decompress` makes of `block` when it reads the length
/// from the block's first four bytes: the bytes that the block holds, or the
/// text of the error it reports.
pub uninterp spec fn lz4_block_decompressed(block: Seq<u8>) -> Result<Seq<u8>, Seq<char>>;

/// The plain values behind the outcome of a codec step.
pub open spec fn bytes_outcome(r: Result<Vec<u8>, String>) -> Result<Seq<u8>, Seq<char>> {
    match r {
        Ok(bytes) => Ok(bytes@),
        Err(cause) => Err(cause@),
    }
}

/// The plain values behind the outcome of a codec step of this library.
pub open spec fn payload_outcome(r: Result<Vec<u8>, PersiaRpcError>) -> Result<
    Seq<u8>,
    RpcErrorView,
> {
    match r {
        Ok(bytes) => Ok(bytes@),
        Err(error) => Err(error@),
    }
}

/// The four bytes that a block starts with: `len` in little-endian order.
pub open spec fn length_prefix(len: nat) -> Seq<u8> {
    seq![
        (len % 256) as u8,
        (len / 256 % 256) as u8,
        (len / 65536 % 256) as u8,
        (len / 16777216 % 256) as u8,
    ]
}

/// Whether `body` may travel for `payload`: the payload itself, or with
/// `compress` a block that starts with the payload's length and that
/// decompresses to the payload.
pub open spec fn carries(payload: Seq<u8>, compress: bool, body: Seq<u8>) -> bool {
    if compress {
        &&& body.len() > 4
        &&& body.subrange(0, 4) == length_prefix(payload.len())
        &&& lz4_block_decompressed(body) == Ok::<Seq<u8>, Seq<char>>(payload)
    } else {
        body == payload
    }
}

/// What a received `body` holds: the body itself, or with `compress` what the
/// block decompresses to.
pub open spec fn carried(body: Seq<u8>, compress: bool) -> Result<Seq<u8>, RpcErrorView> {
    if compress {
        match lz4_block_decompressed(body) {
            Ok(payload) => Ok(payload),
            Err(cause) => Err(RpcErrorView::IOFailure { source: cause }),
        }
    } else {
        Ok(body)
    }
}

/// Calls `lz4::block::compress` in its default mode, with the length of
/// `data` written before the block.
///
/// Taken on trust from that crate and the C library under it: the call
/// fails when `data` is longer than the block format admits and, since the
/// output buffer has the size that the library asks for, on no other input;
/// a block starts with the length of `data` in four little-endian bytes,
/// followed by at least one byte; and `lz4::block::decompress` gives `data`
/// back from it, as the crate documents for blocks written this way.
#[verifier::external_body]
fn lz4_compress(data: &Vec<u8>) -> (res: Result<Vec<u8>, String>)
    ensures
        res is Ok <==> data@.len() <= MAX_BLOCK_INPUT,
        res matches Ok(block) ==> {
            &&& block@.len() > 4
            &&& block@.subrange(0, 4) == length_prefix(data@.len())
            &&& lz4_block_decompressed(block@) == Ok::<Seq<u8>, Seq<char>>(data@)
        },
{
    match lz4::block::compress(data.as_slice(), None, true) {
        Ok(block) => Ok(block),
        Err(e) => Err(e.to_string()),
    }
}

/// Calls `lz4::block::decompress` on a block that starts with its length.
///
/// Hands back the decompressed bytes, or the text that the error displays.
///
/// Taken on trust from that crate: the outcome depends on the bytes of
/// `block` alone. Nothing is claimed here of which blocks are valid.
#[verifier::external_body]
fn lz4_decompress(block: &Vec<u8>) -> (res: Result<Vec<u8>, String>)
    ensures
        bytes_outcome(res) == lz4_block_decompressed(block@),
{
    match lz4::block::decompress(block.as_slice(), None) {
        Ok(data) => Ok(data),
        Err(e) => Err(e.to_string()),
    }
}

/// Turns the outcome of a compression or decompression into the outcome of
/// the codec step: the bytes, or an I/O failure with the cause.
pub fn block_outcome(outcome: Result<Vec<u8>, String>) -> (res: Result<Vec<u8>, PersiaRpcError>)
    ensures
        payload_outcome(res) == match outcome {
            Ok(bytes) => Ok::<Seq<u8>, RpcErrorView>(bytes@),
            Err(cause) => Err(RpcErrorView::IOFailure { source: cause@ }),
        },
{
    match outcome {
        Ok(bytes) => Ok(bytes),
        Err(cause) => Err(PersiaRpcError::IOFailure { source: cause }),
    }
}

/// Prepares an encoded request for the wire.
///
/// Without `compress` the payload travels as it is. With it, the payload is
/// compressed into one block; that fails, with an I/O failure, exactly when
/// the payload is longer than [`MAX_BLOCK_INPUT`].
pub fn encode_payload(payload: Vec<u8>, compress: bool) -> (res: Result<Vec<u8>, PersiaRpcError>)
    ensures
        res is Ok <==> (compress ==> payload@.len() <= MAX_BLOCK_INPUT),
        res matches Ok(body) ==> carries(payload@, compress, body@),
        res matches Err(error) ==> error@ is IOFailure,
{
    if compress {
        block_outcome(lz4_compress(&payload))
    } else {
        Ok(payload)
    }
}

/// Recovers the encoded response from a received body.
///
/// Without `compress` the body is the payload. With it, the body is read as
/// one block; a body that is no valid block gives an I/O failure.
pub fn decode_payload(body: Vec<u8>, compress: bool) -> (res: Result<Vec<u8>, PersiaRpcError>)
    ensures
        payload_outcome(res) == carried(body@, compress),
{
    if compress {
        block_outcome(lz4_decompress(&body))
    } else {
        Ok(body)
    }
}

/// A body prepared for a payload decodes to that payload, with compression
/// and without it: the choice never changes what the receiver reads.
pub proof fn lemma_decode_inverts_encode(payload: Seq<u8>, compress: bool, body: Seq<u8>)
    requires
        carries(payload, compress, body),
    ensures
        carried(body, compress) == Ok::<Seq<u8>, RpcErrorView>(payload),
{
}

/// What one side prepares with compression and the other without it decode
/// to the same payload.
pub proof fn lemma_compression_is_transparent(payload: Seq<u8>, plain: Seq<u8>, packed: Seq<u8>)
    requires
        carries(payload, false, plain),
        carries(payload, true, packed),
    ensures
        carried(plain, false) == carried(packed, true),
{
}

/// Encodes and decodes again: the payload comes back whenever encoding
/// succeeds, and encoding succeeds on every payload a block can hold.
pub fn round_trip(payload: Vec<u8>, compress: bool) -> (res: Result<Vec<u8>, PersiaRpcError>)
    ensures
        res is Ok <==> (compress ==> payload@.len() <= MAX_BLOCK_INPUT),
        res matches Ok(back) ==> back@ == payload@,
        res matches Err(error) ==> error@ is IOFailure,
{
    let ghost sent = payload@;
    match encode_payload(payload, compress) {
        Ok(body) => {
            proof {
                lemma_decode_inverts_encode(sent, compress, body@);
            }
            decode_payload(body, compress)
        },
        Err(error) => Err(error),
    }
}

} // verus!
