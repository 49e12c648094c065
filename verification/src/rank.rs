//! Difficulty-level bitmask.
//!
//! A parsed rank mask may only carry bits inside the top byte `0xff00`; the
//! four named difficulties each own one bit of it.

use vstd::prelude::*;

use crate::error::EclError;

verus! {

/// Bit selecting easy mode.
pub const EASY: u16 = 0x100;

/// Bit selecting normal mode.
pub const NORMAL: u16 = 0x200;

/// Bit selecting hard mode.
pub const HARD: u16 = 0x400;

/// Bit selecting lunatic mode.
pub const LUNATIC: u16 = 0x800;

/// Mask covering any or all modes: the whole top byte.
pub const ALL: u16 = 0xff00;

/// Bit flags describing the difficulty level(s) an instruction is active
/// under.
#[derive(Debug, Clone, Copy, PartialEq, Eq, Structural)]
pub struct Rank {
    /// The raw mask; only bits inside `0xff00` are ever set on a parsed
    /// value.
    pub bits: u16,
}

/// A raw mask is legal when no bit outside the difficulty byte `0xff00` is
/// set.
pub open spec fn spec_valid_rank_bits(raw: u16) -> bool {
    raw & 0x00ff == 0
}

/// The single-bit rank a difficulty name denotes, if any; names are
/// case-sensitive.
pub open spec fn spec_rank_of_name(s: Seq<char>) -> Option<u16> {
    if s == "easy"@ {
        Some(EASY)
    } else if s == "normal"@ {
        Some(NORMAL)
    } else if s == "hard"@ {
        Some(HARD)
    } else if s == "lunatic"@ {
        Some(LUNATIC)
    } else {
        None
    }
}

impl Rank {
    /// Reconstruct a rank from a raw integer, rejecting any bit outside the
    /// difficulty byte.
    pub fn from_bits(raw: u16) -> (r: Result<Rank, EclError>)
        ensures
            spec_valid_rank_bits(raw) ==> (r matches Ok(k) && k.bits == raw),
            !spec_valid_rank_bits(raw) ==> r == Err::<Rank, EclError>(
                EclError::InvalidRankBits(raw),
            ),
    {
        if raw & 0x00ff == 0 {
            Ok(Rank { bits: raw })
        } else {
            Err(EclError::InvalidRankBits(raw))
        }
    }

    /// Parse a case-sensitive difficulty name into its single-bit rank.
    pub fn from_name(s: &str) -> (r: Result<Rank, EclError>)
        ensures
            spec_rank_of_name(s@) matches Some(b) ==> (r matches Ok(k) && k.bits == b),
            spec_rank_of_name(s@) is None ==> (r matches Err(e)
                && (e matches EclError::InvalidRankName(n) && n@ == s@)),
    {
        let owned = s.to_owned();
        if owned == "easy".to_owned() {
            Ok(Rank { bits: EASY })
        } else if owned == "normal".to_owned() {
            Ok(Rank { bits: NORMAL })
        } else if owned == "hard".to_owned() {
            Ok(Rank { bits: HARD })
        } else if owned == "lunatic".to_owned() {
            Ok(Rank { bits: LUNATIC })
        } else {
            Err(EclError::InvalidRankName(owned))
        }
    }
}

} // verus!
