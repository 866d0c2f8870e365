//! Trusted boundary to the image codec: decoding a PNG byte stream to its
//! raw pixel buffer, and re-encoding the decoded image as a direct-color
//! PNG. Both are pure functions of the input bytes, so their results are
//! named by uninterpreted spec functions that the contracts share.

use vstd::prelude::*;

verus! {

/// The raw pixel buffer that the image codec produces for a byte stream,
/// or `None` where the codec rejects the stream. The codec expands an
/// indexed-color image to direct color while decoding, so for such a file
/// this is already the direct-color buffer.
pub uninterp spec fn decoded_pixels(data: Seq<u8>) -> Option<Seq<u8>>;

/// The PNG byte stream that the codec writes when asked to re-encode the
/// image decoded from `data`, or `None` where decoding or encoding fails.
/// The codec keeps the decoded image's direct-color layout, so the result
/// is never indexed.
pub uninterp spec fn reencoded(data: Seq<u8>) -> Option<Seq<u8>>;

/// Relies on `image::load_from_memory` and `DynamicImage::into_bytes`:
/// which byte streams decode, and to which raw pixel buffer, depends on
/// the bytes alone.
#[verifier::external_body]
pub(crate) fn decode_raw_pixels(data: &Vec<u8>) -> (r: Option<Vec<u8>>)
    ensures
        r is Some <==> decoded_pixels(data@) is Some,
        r matches Some(p) ==> decoded_pixels(data@) matches Some(q) && p@ == q,
{
    match image::load_from_memory(data.as_slice()) {
        Ok(img) => Some(img.into_bytes()),
        Err(_) => None,
    }
}

/// Relies on `image::load_from_memory` and `DynamicImage::write_to` with
/// the PNG format: the re-encoded stream depends on the bytes alone, and
/// the encoder writes the decoded image's own (direct-color) layout.
#[verifier::external_body]
pub(crate) fn reencode_png(data: &Vec<u8>) -> (r: Option<Vec<u8>>)
    ensures
        r is Some <==> reencoded(data@) is Some,
        r matches Some(c) ==> reencoded(data@) matches Some(d) && c@ == d,
{
    let img = match image::load_from_memory(data.as_slice()) {
        Ok(img) => img,
        Err(_) => return None,
    };
    let mut out: std::io::Cursor<Vec<u8>> = std::io::Cursor::new(Vec::new());
    match img.write_to(&mut out, image::ImageFormat::Png) {
        Ok(()) => Some(out.into_inner()),
        Err(_) => None,
    }
}

} // verus!
