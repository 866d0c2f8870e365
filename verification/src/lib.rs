//! A verified core for a PNG repair tool: a bit-exact classifier of the
//! PNG signature and IHDR prefix, a repair pipeline that converts
//! indexed-color images to direct color and recompresses them while
//! proving at run time that the pixels are unchanged, and the dispatch
//! decisions of the directory scan.

mod classify;
mod codec;
mod dispatch;
mod optimizer;
mod repair;
mod report;

pub use classify::ClassificationOutcome;
pub use classify::PixelFormat;
pub use classify::classify_color_type;
pub use classify::classify_prefix;
pub use classify::ihdr_tag;
pub use classify::ihdr_tag_ok;
pub use classify::lemma_bad_ihdr_tag;
pub use classify::lemma_bad_signature;
pub use classify::lemma_color_type_table;
pub use classify::lemma_truncated;
pub use classify::png_signature;
pub use classify::signature_ok;
pub use classify::spec_classify;
pub use classify::spec_classify_color_type;
pub use codec::decoded_pixels;
pub use codec::reencoded;
pub use dispatch::FileAction;
pub use dispatch::RunState;
pub use dispatch::decide_action;
pub use dispatch::is_candidate;
pub use dispatch::is_png_extension;
pub use dispatch::lemma_only_indexed_repairs;
pub use dispatch::png_extension;
pub use dispatch::spec_action;
pub use repair::RepairError;
pub use repair::RepairResult;
pub use repair::bytes_equal;
pub use repair::repair_bytes;
pub use repair::verify_optimized;
pub use report::SizeChange;
pub use report::size_change;
pub use report::spec_delta_kb;
pub use report::spec_percent;
