//! The header classifier: a bit-exact parser of the fixed-layout PNG
//! signature and IHDR prefix, deciding the pixel format of a file from the
//! first 26 bytes alone.

use vstd::prelude::*;

verus! {

/// The five pixel formats a PNG color-type byte can name.
#[derive(Clone, Copy, Debug, PartialEq, Eq, Structural)]
pub enum PixelFormat {
    Greyscale,
    TrueColor,
    IndexedColor,
    GreyscaleWithAlpha,
    TrueColorWithAlpha,
}

/// The outcome of classifying one file's leading bytes.
///
/// `OpenFailure` is produced by a caller that could not open the file at
/// all; the classifier itself never returns it, since it only sees bytes.
#[derive(Clone, Copy, Debug, PartialEq, Eq, Structural)]
pub enum ClassificationOutcome {
    OpenFailure,
    ReadFailure,
    InvalidSignature,
    InvalidIhdrTag,
    UnrecognizedPixelFormat,
    Classified(PixelFormat),
}

/// The fixed 8-byte PNG magic sequence.
pub open spec fn png_signature() -> Seq<u8> {
    seq![137u8, 80u8, 78u8, 71u8, 13u8, 10u8, 26u8, 10u8]
}

/// The ASCII chunk-type bytes "IHDR".
pub open spec fn ihdr_tag() -> Seq<u8> {
    seq![73u8, 72u8, 68u8, 82u8]
}

/// Whether bytes 0..8 of `d` are the PNG magic sequence.
pub open spec fn signature_ok(d: Seq<u8>) -> bool {
    d[0] == 137u8 && d[1] == 80u8 && d[2] == 78u8 && d[3] == 71u8 && d[4] == 13u8
        && d[5] == 10u8 && d[6] == 26u8 && d[7] == 10u8
}

/// Whether bytes 12..16 of `d` are the chunk-type "IHDR".
pub open spec fn ihdr_tag_ok(d: Seq<u8>) -> bool {
    d[12] == 73u8 && d[13] == 72u8 && d[14] == 68u8 && d[15] == 82u8
}

/// The color-type table: {0, 2, 3, 4, 6} name a format, all else is
/// unrecognized.
pub open spec fn spec_classify_color_type(b: u8) -> ClassificationOutcome {
    if b == 0 {
        ClassificationOutcome::Classified(PixelFormat::Greyscale)
    } else if b == 2 {
        ClassificationOutcome::Classified(PixelFormat::TrueColor)
    } else if b == 3 {
        ClassificationOutcome::Classified(PixelFormat::IndexedColor)
    } else if b == 4 {
        ClassificationOutcome::Classified(PixelFormat::GreyscaleWithAlpha)
    } else if b == 6 {
        ClassificationOutcome::Classified(PixelFormat::TrueColorWithAlpha)
    } else {
        ClassificationOutcome::UnrecognizedPixelFormat
    }
}

/// What classifying a file whose readable prefix is `d` yields.
///
/// The layout is: signature (bytes 0..8), IHDR length (8..12, read but not
/// validated), IHDR chunk type (12..16), width (16..20), height (20..24),
/// bit depth (24), color type (25). Parsing is sequential and
/// short-circuits on the first failure; a prefix that ends before a field
/// that still had to be read is a read failure.
pub open spec fn spec_classify(d: Seq<u8>) -> ClassificationOutcome {
    if d.len() < 8 {
        ClassificationOutcome::ReadFailure
    } else if !signature_ok(d) {
        ClassificationOutcome::InvalidSignature
    } else if d.len() < 16 {
        ClassificationOutcome::ReadFailure
    } else if !ihdr_tag_ok(d) {
        ClassificationOutcome::InvalidIhdrTag
    } else if d.len() < 26 {
        ClassificationOutcome::ReadFailure
    } else {
        spec_classify_color_type(d[25])
    }
}

/// Maps a color-type byte to its classification.
pub fn classify_color_type(b: u8) -> (r: ClassificationOutcome)
    ensures
        r == spec_classify_color_type(b),
{
    match b {
        0u8 => ClassificationOutcome::Classified(PixelFormat::Greyscale),
        2u8 => ClassificationOutcome::Classified(PixelFormat::TrueColor),
        3u8 => ClassificationOutcome::Classified(PixelFormat::IndexedColor),
        4u8 => ClassificationOutcome::Classified(PixelFormat::GreyscaleWithAlpha),
        6u8 => ClassificationOutcome::Classified(PixelFormat::TrueColorWithAlpha),
        _ => ClassificationOutcome::UnrecognizedPixelFormat,
    }
}

/// Classifies a file from the prefix of it that could be read.
///
/// `d` holds the file's bytes from offset 0, cut short only where the file
/// itself ends (or the read failed): a prefix shorter than a field that
/// still had to be read therefore means the file was truncated there.
pub fn classify_prefix(d: &Vec<u8>) -> (r: ClassificationOutcome)
    ensures
        r == spec_classify(d@),
{
    if d.len() < 8 {
        return ClassificationOutcome::ReadFailure;
    }
    if d[0] != 137 || d[1] != 80 || d[2] != 78 || d[3] != 71 || d[4] != 13 || d[5] != 10
        || d[6] != 26 || d[7] != 10 {
        return ClassificationOutcome::InvalidSignature;
    }
    if d.len() < 16 {
        return ClassificationOutcome::ReadFailure;
    }
    if d[12] != 73 || d[13] != 72 || d[14] != 68 || d[15] != 82 {
        return ClassificationOutcome::InvalidIhdrTag;
    }
    if d.len() < 26 {
        return ClassificationOutcome::ReadFailure;
    }
    classify_color_type(d[25])
}

/// Law: any prefix of at least 8 bytes whose first 8 bytes are not the PNG
/// magic sequence classifies as `InvalidSignature`, whatever follows them.
pub proof fn lemma_bad_signature(d: Seq<u8>)
    requires
        d.len() >= 8,
        d.subrange(0, 8) != png_signature(),
    ensures
        spec_classify(d) == ClassificationOutcome::InvalidSignature,
{
    if signature_ok(d) {
        assert(d.subrange(0, 8) =~= png_signature());
    }
}

/// Law: after a well-formed signature and a 4-byte length, a chunk-type
/// that is not "IHDR" classifies as `InvalidIhdrTag`, whatever follows.
pub proof fn lemma_bad_ihdr_tag(d: Seq<u8>)
    requires
        d.len() >= 16,
        d.subrange(0, 8) == png_signature(),
        d.subrange(12, 16) != ihdr_tag(),
    ensures
        spec_classify(d) == ClassificationOutcome::InvalidIhdrTag,
{
    assert(signature_ok(d)) by {
        assert(d[0] == d.subrange(0, 8)[0]);
        assert(d[1] == d.subrange(0, 8)[1]);
        assert(d[2] == d.subrange(0, 8)[2]);
        assert(d[3] == d.subrange(0, 8)[3]);
        assert(d[4] == d.subrange(0, 8)[4]);
        assert(d[5] == d.subrange(0, 8)[5]);
        assert(d[6] == d.subrange(0, 8)[6]);
        assert(d[7] == d.subrange(0, 8)[7]);
    }
    if ihdr_tag_ok(d) {
        assert(d.subrange(12, 16) =~= ihdr_tag());
    }
}

/// Law: with a well-formed signature and IHDR tag and all 26 header bytes
/// present, the color-type byte alone decides the outcome: 0, 2, 3, 4 and 6
/// map to their pixel formats, every other value is unrecognized.
pub proof fn lemma_color_type_table(d: Seq<u8>)
    requires
        d.len() >= 26,
        d.subrange(0, 8) == png_signature(),
        d.subrange(12, 16) == ihdr_tag(),
    ensures
        d[25] == 0 ==> spec_classify(d) == ClassificationOutcome::Classified(
            PixelFormat::Greyscale,
        ),
        d[25] == 2 ==> spec_classify(d) == ClassificationOutcome::Classified(
            PixelFormat::TrueColor,
        ),
        d[25] == 3 ==> spec_classify(d) == ClassificationOutcome::Classified(
            PixelFormat::IndexedColor,
        ),
        d[25] == 4 ==> spec_classify(d) == ClassificationOutcome::Classified(
            PixelFormat::GreyscaleWithAlpha,
        ),
        d[25] == 6 ==> spec_classify(d) == ClassificationOutcome::Classified(
            PixelFormat::TrueColorWithAlpha,
        ),
        !(d[25] == 0 || d[25] == 2 || d[25] == 3 || d[25] == 4 || d[25] == 6)
            ==> spec_classify(d) == ClassificationOutcome::UnrecognizedPixelFormat,
{
    assert(signature_ok(d)) by {
        assert(d[0] == d.subrange(0, 8)[0]);
        assert(d[1] == d.subrange(0, 8)[1]);
        assert(d[2] == d.subrange(0, 8)[2]);
        assert(d[3] == d.subrange(0, 8)[3]);
        assert(d[4] == d.subrange(0, 8)[4]);
        assert(d[5] == d.subrange(0, 8)[5]);
        assert(d[6] == d.subrange(0, 8)[6]);
        assert(d[7] == d.subrange(0, 8)[7]);
    }
    assert(ihdr_tag_ok(d)) by {
        assert(d[12] == d.subrange(12, 16)[0]);
        assert(d[13] == d.subrange(12, 16)[1]);
        assert(d[14] == d.subrange(12, 16)[2]);
        assert(d[15] == d.subrange(12, 16)[3]);
    }
}

/// Law: a file cut off before its color-type byte classifies as
/// `ReadFailure`, at whatever earlier offset the cut falls, as long as the
/// bytes that are present pass the checks that reach them.
pub proof fn lemma_truncated(d: Seq<u8>)
    requires
        d.len() < 26,
        d.len() >= 8 ==> signature_ok(d),
        d.len() >= 16 ==> ihdr_tag_ok(d),
    ensures
        spec_classify(d) == ClassificationOutcome::ReadFailure,
{
}

} // verus!
