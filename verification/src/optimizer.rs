//! Trusted boundary to the lossless recompression engine. Nothing is
//! assumed about its output: whether the optimized stream still decodes to
//! the same pixels is checked at run time by the repair pipeline, which is
//! the whole point of the verification step there.

use vstd::prelude::*;

verus! {

/// Relies on `oxipng::optimize_from_memory`, configured with alpha-channel
/// optimization disabled and color-type reduction disabled (so the engine
/// may not alter alpha values nor reintroduce a reduced or indexed
/// layout); everything else is the engine's default. No contract is stated
/// about the returned bytes: callers must verify them.
#[verifier::external_body]
pub(crate) fn optimize_png(data: &Vec<u8>) -> (r: Result<Vec<u8>, ()>) {
    let mut opts = oxipng::Options::default();
    opts.optimize_alpha = false;
    opts.color_type_reduction = false;
    match oxipng::optimize_from_memory(data.as_slice(), &opts) {
        Ok(v) => Ok(v),
        Err(_) => Err(()),
    }
}

} // verus!
