//! Typed decode errors.
//!
//! Every malformed input is reported through one of these variants; no decode
//! function panics.

use vstd::prelude::*;

verus! {

/// The error type of every decode operation.
#[derive(Debug, Clone)]
pub enum EclError {
    /// The buffer is shorter than a read requires.
    Truncated,
    /// The header declares a non-zero `main_count`, which this engine version
    /// never produces.
    UnsupportedFeature,
    /// A record's opcode is not in the dispatch table of its dialect.
    UnknownOpcode(u16),
    /// A record's declared `size` field does not equal the bytes actually
    /// consumed for it (declared, actual).
    SizeMismatch(u16, u16),
    /// A rank mask has bits set outside the difficulty byte `0xff00`.
    InvalidRankBits(u16),
    /// A difficulty name is not one of `"easy"`, `"normal"`, `"hard"`,
    /// `"lunatic"`.
    InvalidRankName(String),
}

} // verus!
