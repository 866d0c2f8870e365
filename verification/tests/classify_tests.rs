use pngfix::ClassificationOutcome;
use pngfix::FileAction;
use pngfix::PixelFormat;
use pngfix::RunState;
use pngfix::classify_color_type;
use pngfix::classify_prefix;
use pngfix::decide_action;
use pngfix::is_candidate;
use pngfix::is_png_extension;
use pngfix::size_change;

/// A well-formed 26-byte header prefix: signature, IHDR length 13, "IHDR",
/// a 1x1 image, bit depth 8, and the given color type.
fn header(color_type: u8) -> Vec<u8> {
    let mut v: Vec<u8> = vec![137, 80, 78, 71, 13, 10, 26, 10];
    v.extend_from_slice(&[0, 0, 0, 13]);
    v.extend_from_slice(b"IHDR");
    v.extend_from_slice(&[0, 0, 0, 1]);
    v.extend_from_slice(&[0, 0, 0, 1]);
    v.push(8);
    v.push(color_type);
    v
}

#[test]
fn bad_signature_is_invalid_regardless_of_rest() {
    // Every corruption of one signature byte is rejected, whatever follows.
    for i in 0..8 {
        let mut v = header(0);
        v[i] ^= 0xFF;
        assert_eq!(classify_prefix(&v), ClassificationOutcome::InvalidSignature);
    }
    // A file holding only a wrong 8-byte prefix is rejected the same way.
    let v: Vec<u8> = vec![1, 2, 3, 4, 5, 6, 7, 8];
    assert_eq!(classify_prefix(&v), ClassificationOutcome::InvalidSignature);
    // JPEG-looking bytes.
    let mut v: Vec<u8> = vec![0xFF, 0xD8, 0xFF, 0xE0, 0, 0x10, 0x4A, 0x46];
    v.extend_from_slice(&[0u8; 18]);
    assert_eq!(classify_prefix(&v), ClassificationOutcome::InvalidSignature);
}

#[test]
fn bad_ihdr_tag_is_invalid() {
    for i in 12..16 {
        let mut v = header(0);
        v[i] ^= 0x20;
        assert_eq!(classify_prefix(&v), ClassificationOutcome::InvalidIhdrTag);
    }
    // A different chunk type entirely.
    let mut v = header(3);
    v[12..16].copy_from_slice(b"IEND");
    assert_eq!(classify_prefix(&v), ClassificationOutcome::InvalidIhdrTag);
}

#[test]
fn color_type_table_is_exact() {
    for b in 0..=255u8 {
        let expected = match b {
            0 => ClassificationOutcome::Classified(PixelFormat::Greyscale),
            2 => ClassificationOutcome::Classified(PixelFormat::TrueColor),
            3 => ClassificationOutcome::Classified(PixelFormat::IndexedColor),
            4 => ClassificationOutcome::Classified(PixelFormat::GreyscaleWithAlpha),
            6 => ClassificationOutcome::Classified(PixelFormat::TrueColorWithAlpha),
            _ => ClassificationOutcome::UnrecognizedPixelFormat,
        };
        assert_eq!(classify_color_type(b), expected);
        assert_eq!(classify_prefix(&header(b)), expected);
    }
}

#[test]
fn truncation_before_color_type_is_read_failure() {
    let full = header(3);
    for len in 0..26 {
        let v: Vec<u8> = full[..len].to_vec();
        assert_eq!(classify_prefix(&v), ClassificationOutcome::ReadFailure);
    }
}

#[test]
fn zero_byte_file_is_read_failure() {
    // The broken.png scenario: nothing at all could be read.
    let v: Vec<u8> = Vec::new();
    assert_eq!(classify_prefix(&v), ClassificationOutcome::ReadFailure);
    assert_eq!(decide_action(&classify_prefix(&v)), FileAction::Report);
}

#[test]
fn only_indexed_color_triggers_repair() {
    assert_eq!(
        decide_action(&ClassificationOutcome::Classified(PixelFormat::IndexedColor)),
        FileAction::Repair
    );
    for f in [
        PixelFormat::Greyscale,
        PixelFormat::TrueColor,
        PixelFormat::GreyscaleWithAlpha,
        PixelFormat::TrueColorWithAlpha,
    ] {
        assert_eq!(
            decide_action(&ClassificationOutcome::Classified(f)),
            FileAction::Ignore
        );
    }
    for o in [
        ClassificationOutcome::OpenFailure,
        ClassificationOutcome::ReadFailure,
        ClassificationOutcome::InvalidSignature,
        ClassificationOutcome::InvalidIhdrTag,
        ClassificationOutcome::UnrecognizedPixelFormat,
    ] {
        assert_eq!(decide_action(&o), FileAction::Report);
    }
}

#[test]
fn greyscale_file_is_left_alone() {
    // Scenario: a valid greyscale header is classified and then ignored,
    // and the count of fixed files does not move.
    let outcome = classify_prefix(&header(0));
    assert_eq!(
        outcome,
        ClassificationOutcome::Classified(PixelFormat::Greyscale)
    );
    let state = RunState::new();
    assert_eq!(decide_action(&outcome), FileAction::Ignore);
    assert_eq!(state.fixed, 0);
}

#[test]
fn extension_filter_is_case_sensitive_exact() {
    assert!(is_png_extension(&b"png".to_vec()));
    assert!(!is_png_extension(&b"PNG".to_vec()));
    assert!(!is_png_extension(&b"jpg".to_vec()));
    assert!(!is_png_extension(&b"pngx".to_vec()));
    assert!(!is_png_extension(&b"pn".to_vec()));
    assert!(!is_png_extension(&Vec::new()));
}

#[test]
fn candidate_filter_requires_regular_png_file() {
    assert!(is_candidate(true, Some(&b"png".to_vec())));
    assert!(!is_candidate(false, Some(&b"png".to_vec())));
    assert!(!is_candidate(true, Some(&b"jpg".to_vec())));
    assert!(!is_candidate(true, Some(&b"PNG".to_vec())));
    assert!(!is_candidate(true, None));
    assert!(!is_candidate(false, None));
}

#[test]
fn run_state_counts_repairs() {
    let mut state = RunState::new();
    assert_eq!(state.fixed, 0);
    state.note_fixed();
    state.note_fixed();
    assert_eq!(state.fixed, 2);
}

#[test]
fn size_change_exact_values() {
    // 64000 -> 52000 bytes: down 12 whole kilobytes, 81% of the original
    // (81.25 rounded to nearest).
    let c = size_change(64000, 52000);
    assert_eq!(c.delta_kb, -12);
    assert_eq!(c.percent, 81);
    // Growth: 100 -> 2600 bytes is +2KB (truncated) and 2600%.
    let c = size_change(100, 2600);
    assert_eq!(c.delta_kb, 2);
    assert_eq!(c.percent, 2600);
    // A shrink smaller than a kilobyte truncates toward zero.
    let c = size_change(1500, 1000);
    assert_eq!(c.delta_kb, 0);
    assert_eq!(c.percent, 67);
    // Halves round up: 101/200 is 50.5%.
    let c = size_change(200, 101);
    assert_eq!(c.delta_kb, 0);
    assert_eq!(c.percent, 51);
    // Unchanged size.
    let c = size_change(4096, 4096);
    assert_eq!(c.delta_kb, 0);
    assert_eq!(c.percent, 100);
}
