//! The Main-dialect opcode dispatch table.
//!
//! One variant per documented opcode; any other opcode decodes to
//! `UnknownOpcode`. Field decoding is strictly little-endian, fixed-width and
//! order-preserving.

use vstd::prelude::*;

use crate::bytes::{le_i16_at, le_u32_at, read_i16_at, read_u32_at};
use crate::error::EclError;

verus! {

/// Argument payload of one Main instruction, one variant per documented
/// opcode. Fields are stored in declaration order; a 32-bit float field is
/// kept as its raw little-endian bit pattern in a `u32`.
#[derive(Debug, Clone, Copy)]
#[allow(non_camel_case_types)]
pub enum MainInstruction {
    SpawnEnemy(u32, u32, u32, i16, i16, u32),
    SpawnEnemyMirrored(u32, u32, u32, i16, i16, u32),
    SpawnEnemyRandom(u32, u32, u32, i16, i16, u32),
    SpawnEnemyMirroredRandom(u32, u32, u32, i16, i16, u32),
    CallMessage,
    WaitMessage,
    ResumeEcl(u32, u32),
    WaitForBossDeath,
}

/// Byte length of the argument tuple of a Main opcode, or -1 when the
/// opcode is not in the dispatch table.
pub open spec fn main_args_size(op: u16) -> int {
    match op {
        0 => 20,
        2 => 20,
        4 => 20,
        6 => 20,
        8 => 0,
        9 => 0,
        10 => 8,
        12 => 0,
        _ => -1,
    }
}

/// `i` is exactly the Main instruction that opcode `op` decodes from the
/// bytes of `b` starting at `p`: the right variant, each field read
/// little-endian at its declared offset.
pub open spec fn main_args_match(b: Seq<u8>, p: int, op: u16, i: MainInstruction) -> bool {
    match op {
        0 => i matches MainInstruction::SpawnEnemy(a0, a1, a2, a3, a4, a5) && a0 == le_u32_at(b, p) && a1 == le_u32_at(b, p + 4) && a2 == le_u32_at(b, p + 8) && a3 == le_i16_at(b, p + 12) && a4 == le_i16_at(b, p + 14) && a5 == le_u32_at(b, p + 16),
        2 => i matches MainInstruction::SpawnEnemyMirrored(a0, a1, a2, a3, a4, a5) && a0 == le_u32_at(b, p) && a1 == le_u32_at(b, p + 4) && a2 == le_u32_at(b, p + 8) && a3 == le_i16_at(b, p + 12) && a4 == le_i16_at(b, p + 14) && a5 == le_u32_at(b, p + 16),
        4 => i matches MainInstruction::SpawnEnemyRandom(a0, a1, a2, a3, a4, a5) && a0 == le_u32_at(b, p) && a1 == le_u32_at(b, p + 4) && a2 == le_u32_at(b, p + 8) && a3 == le_i16_at(b, p + 12) && a4 == le_i16_at(b, p + 14) && a5 == le_u32_at(b, p + 16),
        6 => i matches MainInstruction::SpawnEnemyMirroredRandom(a0, a1, a2, a3, a4, a5) && a0 == le_u32_at(b, p) && a1 == le_u32_at(b, p + 4) && a2 == le_u32_at(b, p + 8) && a3 == le_i16_at(b, p + 12) && a4 == le_i16_at(b, p + 14) && a5 == le_u32_at(b, p + 16),
        8 => i matches MainInstruction::CallMessage,
        9 => i matches MainInstruction::WaitMessage,
        10 => i matches MainInstruction::ResumeEcl(a0, a1) && a0 == le_u32_at(b, p) && a1 == le_u32_at(b, p + 4),
        12 => i matches MainInstruction::WaitForBossDeath,
        _ => false,
    }
}

/// Decode the argument tuple of one Main instruction at `pos`, returning
/// the instruction and the cursor position just past its arguments.
pub fn parse_main_instruction_args(data: &[u8], pos: usize, opcode: u16) -> (r: Result<
    (MainInstruction, usize),
    EclError,
>)
    ensures
        (r matches Ok(_)) == (main_args_size(opcode) >= 0 && pos + main_args_size(opcode)
            <= data@.len()),
        r matches Ok(iq) ==> (main_args_match(data@, pos as int, opcode, iq.0)
            && iq.1 == pos + main_args_size(opcode)),
        r matches Err(e) ==> e == (if main_args_size(opcode) < 0 {
            EclError::UnknownOpcode(opcode)
        } else {
            EclError::Truncated
        }),
{
    match opcode {
        0 => {
            if data.len() < pos || data.len() - pos < 20 {
                return Err(EclError::Truncated);
            }
            let a0 = read_u32_at(data, pos);
            let a1 = read_u32_at(data, pos + 4);
            let a2 = read_u32_at(data, pos + 8);
            let a3 = read_i16_at(data, pos + 12);
            let a4 = read_i16_at(data, pos + 14);
            let a5 = read_u32_at(data, pos + 16);
            Ok((MainInstruction::SpawnEnemy(a0, a1, a2, a3, a4, a5), pos + 20))
        },
        2 => {
            if data.len() < pos || data.len() - pos < 20 {
                return Err(EclError::Truncated);
            }
            let a0 = read_u32_at(data, pos);
            let a1 = read_u32_at(data, pos + 4);
            let a2 = read_u32_at(data, pos + 8);
            let a3 = read_i16_at(data, pos + 12);
            let a4 = read_i16_at(data, pos + 14);
            let a5 = read_u32_at(data, pos + 16);
            Ok((MainInstruction::SpawnEnemyMirrored(a0, a1, a2, a3, a4, a5), pos + 20))
        },
        4 => {
            if data.len() < pos || data.len() - pos < 20 {
                return Err(EclError::Truncated);
            }
            let a0 = read_u32_at(data, pos);
            let a1 = read_u32_at(data, pos + 4);
            let a2 = read_u32_at(data, pos + 8);
            let a3 = read_i16_at(data, pos + 12);
            let a4 = read_i16_at(data, pos + 14);
            let a5 = read_u32_at(data, pos + 16);
            Ok((MainInstruction::SpawnEnemyRandom(a0, a1, a2, a3, a4, a5), pos + 20))
        },
        6 => {
            if data.len() < pos || data.len() - pos < 20 {
                return Err(EclError::Truncated);
            }
            let a0 = read_u32_at(data, pos);
            let a1 = read_u32_at(data, pos + 4);
            let a2 = read_u32_at(data, pos + 8);
            let a3 = read_i16_at(data, pos + 12);
            let a4 = read_i16_at(data, pos + 14);
            let a5 = read_u32_at(data, pos + 16);
            Ok((MainInstruction::SpawnEnemyMirroredRandom(a0, a1, a2, a3, a4, a5), pos + 20))
        },
        8 => {
            if data.len() < pos {
                return Err(EclError::Truncated);
            }
            Ok((MainInstruction::CallMessage, pos))
        },
        9 => {
            if data.len() < pos {
                return Err(EclError::Truncated);
            }
            Ok((MainInstruction::WaitMessage, pos))
        },
        10 => {
            if data.len() < pos || data.len() - pos < 8 {
                return Err(EclError::Truncated);
            }
            let a0 = read_u32_at(data, pos);
            let a1 = read_u32_at(data, pos + 4);
            Ok((MainInstruction::ResumeEcl(a0, a1), pos + 8))
        },
        12 => {
            if data.len() < pos {
                return Err(EclError::Truncated);
            }
            Ok((MainInstruction::WaitForBossDeath, pos))
        },
        _ => Err(EclError::UnknownOpcode(opcode)),
    }
}

} // verus!
