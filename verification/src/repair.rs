//! The repair orchestrator: converts an indexed-color PNG byte stream to a
//! direct-color one, hands it to the recompression engine, and then proves
//! at run time that the optimized stream still decodes to the very pixel
//! buffer the original decoded to. Losslessness is never taken on trust
//! from the optimizer: it is established by the comparison here.

use vstd::prelude::*;
use crate::codec;
use crate::codec::decoded_pixels;
use crate::codec::reencoded;
use crate::optimizer;

verus! {

/// The fatal ways a repair can end. Every one of them aborts the whole
/// run; none is a recoverable per-file condition. The two variants that
/// arise after the optimizer has run carry the optimizer's output, since
/// by then that output has replaced the original bytes on disk.
#[derive(Debug, PartialEq, Eq)]
pub enum RepairError {
    DecodeFailed,
    EncodeFailed,
    OptimizeFailed,
    RedecodeFailed(Vec<u8>),
    PixelMismatch(Vec<u8>),
}

/// A successful, pixel-verified repair: the optimized byte stream to be
/// written back, and the byte sizes before and after. That the result
/// exists at all is the verification status: a repair that could not be
/// proven pixel-identical never produces one.
#[derive(Debug, PartialEq, Eq)]
pub struct RepairResult {
    pub size_before: usize,
    pub size_after: usize,
    pub optimized: Vec<u8>,
}

/// Byte-for-byte equality of two buffers.
pub fn bytes_equal(a: &Vec<u8>, b: &Vec<u8>) -> (r: bool)
    ensures
        r == (a@ == b@),
{
    if a.len() != b.len() {
        return false;
    }
    let mut i: usize = 0;
    while i < a.len()
        invariant
            i <= a.len(),
            a.len() == b.len(),
            forall|k: int| 0 <= k < i ==> a@[k] == b@[k],
        decreases a.len() - i,
    {
        if a[i] != b[i] {
            return false;
        }
        i += 1;
    }
    proof {
        assert(a@ =~= b@);
    }
    true
}

/// The verification step: re-decodes the optimizer's output and compares
/// its raw pixel buffer, byte for byte and in full, against the buffer the
/// original decoded to. Only an exactly identical buffer lets the output
/// through; any difference, or a stream that no longer decodes, is fatal.
pub fn verify_optimized(pixels_before: &Vec<u8>, optimized: Vec<u8>) -> (r: Result<
    Vec<u8>,
    RepairError,
>)
    ensures
        decoded_pixels(optimized@) matches Some(p) && p == pixels_before@ ==> (r matches Ok(b)
            && b@ == optimized@),
        decoded_pixels(optimized@) matches Some(p) && p != pixels_before@ ==> (r matches Err(
            RepairError::PixelMismatch(b),
        ) && b@ == optimized@),
        decoded_pixels(optimized@) is None ==> (r matches Err(RepairError::RedecodeFailed(b))
            && b@ == optimized@),
{
    match codec::decode_raw_pixels(&optimized) {
        Some(after) => {
            if bytes_equal(pixels_before, &after) {
                Ok(optimized)
            } else {
                Err(RepairError::PixelMismatch(optimized))
            }
        },
        None => Err(RepairError::RedecodeFailed(optimized)),
    }
}

/// The whole repair of one file, in memory: record the original size,
/// decode (capturing the pixel buffer), re-encode in direct color,
/// recompress, then verify pixel identity. Invoked only for files
/// classified as indexed color; the caller writes the returned bytes back
/// to the file on success and aborts the run on any error.
pub fn repair_bytes(original: &Vec<u8>) -> (r: Result<RepairResult, RepairError>)
    ensures
        decoded_pixels(original@) is None <==> r == Err::<RepairResult, RepairError>(
            RepairError::DecodeFailed,
        ),
        (decoded_pixels(original@) is Some && reencoded(original@) is None) <==> r == Err::<
            RepairResult,
            RepairError,
        >(RepairError::EncodeFailed),
        r == Err::<RepairResult, RepairError>(RepairError::OptimizeFailed) ==> decoded_pixels(
            original@,
        ) is Some && reencoded(original@) is Some,
        r matches Err(RepairError::RedecodeFailed(b)) ==> (decoded_pixels(b@) is None
            && decoded_pixels(original@) is Some && reencoded(original@) is Some),
        r matches Err(RepairError::PixelMismatch(b)) ==> (decoded_pixels(b@) matches Some(p)
            && decoded_pixels(original@) matches Some(q) && p != q),
        r matches Ok(res) ==> (decoded_pixels(original@) matches Some(p) && decoded_pixels(
            res.optimized@,
        ) matches Some(q) && q == p && res.size_before == original@.len() && res.size_after
            == res.optimized@.len()),
{
    let size_before = original.len();
    let pixels = match codec::decode_raw_pixels(original) {
        Some(p) => p,
        None => return Err(RepairError::DecodeFailed),
    };
    let converted = match codec::reencode_png(original) {
        Some(c) => c,
        None => return Err(RepairError::EncodeFailed),
    };
    let optimized = match optimizer::optimize_png(&converted) {
        Ok(o) => o,
        Err(()) => return Err(RepairError::OptimizeFailed),
    };
    match verify_optimized(&pixels, optimized) {
        Ok(verified) => {
            let size_after = verified.len();
            Ok(RepairResult { size_before, size_after, optimized: verified })
        },
        Err(e) => Err(e),
    }
}

} // verus!
