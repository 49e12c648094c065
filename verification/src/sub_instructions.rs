//! The Sub-dialect opcode dispatch table.
//!
//! One variant per documented opcode; reserved or undocumented opcodes are
//! absent and decode to `UnknownOpcode`. Field decoding is strictly
//! little-endian, fixed-width and order-preserving.

use vstd::prelude::*;

use crate::bytes::{le_i16_at, le_i32_at, le_u32_at, le_u8_at, read_i16_at, read_i32_at, read_u32_at, read_u8_at};
use crate::error::EclError;
use crate::text::{le_string, spec_text_at};

verus! {

/// Argument payload of one Sub instruction, one variant per documented
/// opcode. Fields are stored in declaration order; a 32-bit float field is
/// kept as its raw little-endian bit pattern in a `u32`.
#[derive(Debug, Clone)]
#[allow(non_camel_case_types)]
pub enum SubInstruction {
    Noop,
    Destroy(u32),
    RelativeJump(i32, i32),
    RelativeJumpEx(i32, i32, i32),
    SetInt(i32, i32),
    SetFloat(i32, u32),
    SetRandomInt(i32, i32),
    SetRandomIntMin(i32, i32, i32),
    SetRandomFloat(i32, u32),
    SetRandomFloatMin(i32, u32, u32),
    StoreX(i32),
    StoreY(i32),
    StoreZ(i32),
    AddInt(i32, i32, i32),
    SubstractInt(i32, i32, i32),
    MultiplyInt(i32, i32, i32),
    DivideInt(i32, i32, i32),
    ModuloInt(i32, i32, i32),
    Increment(i32),
    Decrement(i32),
    AddFloat(i32, u32, u32),
    SubstractFloat(i32, u32, u32),
    MultiplyFloat(i32, u32, u32),
    DivideFloat(i32, u32, u32),
    ModuloFloat(i32, u32, u32),
    GetDirection(i32, u32, u32, u32, u32),
    FloatToUnitCircle(i32),
    CompareInts(i32, i32),
    CompareFloats(u32, u32),
    RelativeJumpIfLowerThan(i32, i32),
    RelativeJumpIfLowerOrEqual(i32, i32),
    RelativeJumpIfEqual(i32, i32),
    RelativeJumpIfGreaterThan(i32, i32),
    RelativeJumpIfGreaterOrEqual(i32, i32),
    RelativeJumpIfNotEqual(i32, i32),
    Call(i32, i32, u32),
    Return,
    CallIfSuperior(i32, i32, u32, i32, i32),
    CallIfSuperiorOrEqual(i32, i32, u32, i32, i32),
    CallIfEqual(i32, i32, u32, i32, i32),
    CallIfInferior(i32, i32, u32, i32, i32),
    CallIfInferiorOrEqual(i32, i32, u32, i32, i32),
    CallIfNotEqual(i32, i32, u32, i32, i32),
    SetPosition(u32, u32, u32),
    SetAngleAndSpeed(u32, u32),
    SetRotationSpeed(u32),
    SetSpeed(u32),
    SetAcceleration(u32),
    SetRandomAngle(u32, u32),
    SetRandomAngleEx(u32, u32),
    TargetPlayer(u32, u32),
    MoveInDecel(i32, u32, u32),
    MoveToLinear(i32, u32, u32, u32),
    MoveToDecel(i32, u32, u32, u32),
    MoveToAccel(i32, u32, u32, u32),
    StopIn(i32),
    StopInAccel(i32),
    SetScreenBox(u32, u32, u32, u32),
    ClearScreenBox,
    SetBulletAttributes1(i16, i16, i32, i32, u32, u32, u32, u32, u32),
    SetBulletAttributes2(i16, i16, i32, i32, u32, u32, u32, u32, u32),
    SetBulletAttributes3(i16, i16, i32, i32, u32, u32, u32, u32, u32),
    SetBulletAttributes4(i16, i16, i32, i32, u32, u32, u32, u32, u32),
    SetBulletAttributes5(i16, i16, i32, i32, u32, u32, u32, u32, u32),
    SetBulletAttributes6(i16, i16, i32, i32, u32, u32, u32, u32, u32),
    SetBulletAttributes7(i16, i16, i32, i32, u32, u32, u32, u32, u32),
    SetBulletInterval(i32),
    SetBulletIntervalEx(i32),
    DelayAttack,
    NoDelayAttack,
    SetBulletLaunchOffset(u32, u32, u32),
    SetExtendedBulletAttributes(i32, i32, i32, i32, u32, u32, u32, u32),
    ChangeBulletsInStarBonus,
    SetBulletSound(i32),
    NewLaser(i16, i16, u32, u32, u32, u32, u32, u32, i32, i32, i32, i32, i32, i32),
    NewLaserTowardsPlayer(i16, i16, u32, u32, u32, u32, u32, u32, i32, i32, i32, i32, i32, i32),
    SetUpcomingLaserId(u32),
    AlterLaserAngle(u32, u32),
    RepositionLaser(u32, u32, u32, u32),
    LaserSetCompare(u32),
    CancelLaser(u32),
    SetSpellcard(i16, i16, String),
    EndSpellcard,
    SpawnEnemy(i32, u32, u32, u32, i16, i16, i32),
    KillAllEnemies,
    SetAnim(i32),
    SetMultipleAnims(i16, i16, i16, i16, i16, i16),
    SetAuxAnm(i32, i32),
    SetDeathAnim(i32),
    SetBossMode(i32),
    CreateSquares(i32, u32, u32, u32, u32),
    SetHitbox(u32, u32, u32),
    SetCollidable(i32),
    SetDamageable(i32),
    PlaySound(i32),
    SetDeathFlags(u32),
    SetDeathCallback(i32),
    MemoryWriteInt(i32, i32),
    SetLife(i32),
    SetElapsedTime(i32),
    SetLowLifeTrigger(i32),
    SetLowLifeCallback(i32),
    SetTimeout(i32),
    SetTimeoutCallback(i32),
    SetTouchable(i32),
    DropParticles(i32, u32, u8, u8, u8, u8),
    DropBonus(i32),
    SetAutomaticOrientation(i32),
    CallSpecialFunction(i32, i32),
    SetSpecialFunctionCallback(i32),
    SkipFrames(i32),
    DropSpecificBonus(i32),
    UNK_ins125,
    SetRemainingLives(i32),
    UNK_ins127(i32),
    Interrupt(i32),
    InterruptAux(i32, i32),
    UNK_ins130(i32),
    SetDifficultyCoeffs(u32, u32, i32, i32, i32, i32),
    SetInvisible(i32),
    CopyCallbacks,
    UNK_ins134,
    EnableSpellcardBonus(i32),
}

/// Byte length of the argument tuple of a Sub opcode, or -1 when the
/// opcode is not in the dispatch table.
pub open spec fn sub_args_size(op: u16) -> int {
    match op {
        0 => 0,
        1 => 4,
        2 => 8,
        3 => 12,
        4 => 8,
        5 => 8,
        6 => 8,
        7 => 12,
        8 => 8,
        9 => 12,
        10 => 4,
        11 => 4,
        12 => 4,
        13 => 12,
        14 => 12,
        15 => 12,
        16 => 12,
        17 => 12,
        18 => 4,
        19 => 4,
        20 => 12,
        21 => 12,
        22 => 12,
        23 => 12,
        24 => 12,
        25 => 20,
        26 => 4,
        27 => 8,
        28 => 8,
        29 => 8,
        30 => 8,
        31 => 8,
        32 => 8,
        33 => 8,
        34 => 8,
        35 => 12,
        36 => 0,
        37 => 20,
        38 => 20,
        39 => 20,
        40 => 20,
        41 => 20,
        42 => 20,
        43 => 12,
        45 => 8,
        46 => 4,
        47 => 4,
        48 => 4,
        49 => 8,
        50 => 8,
        51 => 8,
        52 => 12,
        56 => 16,
        57 => 16,
        59 => 16,
        61 => 4,
        63 => 4,
        65 => 16,
        66 => 0,
        67 => 32,
        68 => 32,
        69 => 32,
        70 => 32,
        71 => 32,
        74 => 32,
        75 => 32,
        76 => 4,
        77 => 4,
        78 => 0,
        79 => 0,
        81 => 12,
        82 => 32,
        83 => 0,
        84 => 4,
        85 => 52,
        86 => 52,
        87 => 4,
        88 => 8,
        90 => 16,
        91 => 4,
        92 => 4,
        93 => 38,
        94 => 0,
        95 => 24,
        96 => 0,
        97 => 4,
        98 => 12,
        99 => 8,
        100 => 4,
        101 => 4,
        102 => 20,
        103 => 12,
        104 => 4,
        105 => 4,
        106 => 4,
        107 => 4,
        108 => 4,
        109 => 8,
        111 => 4,
        112 => 4,
        113 => 4,
        114 => 4,
        115 => 4,
        116 => 4,
        117 => 4,
        118 => 12,
        119 => 4,
        120 => 4,
        121 => 8,
        122 => 4,
        123 => 4,
        124 => 4,
        125 => 0,
        126 => 4,
        127 => 4,
        128 => 4,
        129 => 8,
        130 => 4,
        131 => 24,
        132 => 4,
        133 => 0,
        134 => 0,
        135 => 4,
        _ => -1,
    }
}

/// `i` is exactly the Sub instruction that opcode `op` decodes from the
/// bytes of `b` starting at `p`: the right variant, each field read
/// little-endian at its declared offset.
pub open spec fn sub_args_match(b: Seq<u8>, p: int, op: u16, i: SubInstruction) -> bool {
    match op {
        0 => i matches SubInstruction::Noop,
        1 => i matches SubInstruction::Destroy(a0) && a0 == le_u32_at(b, p),
        2 => i matches SubInstruction::RelativeJump(a0, a1) && a0 == le_i32_at(b, p) && a1 == le_i32_at(b, p + 4),
        3 => i matches SubInstruction::RelativeJumpEx(a0, a1, a2) && a0 == le_i32_at(b, p) && a1 == le_i32_at(b, p + 4) && a2 == le_i32_at(b, p + 8),
        4 => i matches SubInstruction::SetInt(a0, a1) && a0 == le_i32_at(b, p) && a1 == le_i32_at(b, p + 4),
        5 => i matches SubInstruction::SetFloat(a0, a1) && a0 == le_i32_at(b, p) && a1 == le_u32_at(b, p + 4),
        6 => i matches SubInstruction::SetRandomInt(a0, a1) && a0 == le_i32_at(b, p) && a1 == le_i32_at(b, p + 4),
        7 => i matches SubInstruction::SetRandomIntMin(a0, a1, a2) && a0 == le_i32_at(b, p) && a1 == le_i32_at(b, p + 4) && a2 == le_i32_at(b, p + 8),
        8 => i matches SubInstruction::SetRandomFloat(a0, a1) && a0 == le_i32_at(b, p) && a1 == le_u32_at(b, p + 4),
        9 => i matches SubInstruction::SetRandomFloatMin(a0, a1, a2) && a0 == le_i32_at(b, p) && a1 == le_u32_at(b, p + 4) && a2 == le_u32_at(b, p + 8),
        10 => i matches SubInstruction::StoreX(a0) && a0 == le_i32_at(b, p),
        11 => i matches SubInstruction::StoreY(a0) && a0 == le_i32_at(b, p),
        12 => i matches SubInstruction::StoreZ(a0) && a0 == le_i32_at(b, p),
        13 => i matches SubInstruction::AddInt(a0, a1, a2) && a0 == le_i32_at(b, p) && a1 == le_i32_at(b, p + 4) && a2 == le_i32_at(b, p + 8),
        14 => i matches SubInstruction::SubstractInt(a0, a1, a2) && a0 == le_i32_at(b, p) && a1 == le_i32_at(b, p + 4) && a2 == le_i32_at(b, p + 8),
        15 => i matches SubInstruction::MultiplyInt(a0, a1, a2) && a0 == le_i32_at(b, p) && a1 == le_i32_at(b, p + 4) && a2 == le_i32_at(b, p + 8),
        16 => i matches SubInstruction::DivideInt(a0, a1, a2) && a0 == le_i32_at(b, p) && a1 == le_i32_at(b, p + 4) && a2 == le_i32_at(b, p + 8),
        17 => i matches SubInstruction::ModuloInt(a0, a1, a2) && a0 == le_i32_at(b, p) && a1 == le_i32_at(b, p + 4) && a2 == le_i32_at(b, p + 8),
        18 => i matches SubInstruction::Increment(a0) && a0 == le_i32_at(b, p),
        19 => i matches SubInstruction::Decrement(a0) && a0 == le_i32_at(b, p),
        20 => i matches SubInstruction::AddFloat(a0, a1, a2) && a0 == le_i32_at(b, p) && a1 == le_u32_at(b, p + 4) && a2 == le_u32_at(b, p + 8),
        21 => i matches SubInstruction::SubstractFloat(a0, a1, a2) && a0 == le_i32_at(b, p) && a1 == le_u32_at(b, p + 4) && a2 == le_u32_at(b, p + 8),
        22 => i matches SubInstruction::MultiplyFloat(a0, a1, a2) && a0 == le_i32_at(b, p) && a1 == le_u32_at(b, p + 4) && a2 == le_u32_at(b, p + 8),
        23 => i matches SubInstruction::DivideFloat(a0, a1, a2) && a0 == le_i32_at(b, p) && a1 == le_u32_at(b, p + 4) && a2 == le_u32_at(b, p + 8),
        24 => i matches SubInstruction::ModuloFloat(a0, a1, a2) && a0 == le_i32_at(b, p) && a1 == le_u32_at(b, p + 4) && a2 == le_u32_at(b, p + 8),
        25 => i matches SubInstruction::GetDirection(a0, a1, a2, a3, a4) && a0 == le_i32_at(b, p) && a1 == le_u32_at(b, p + 4) && a2 == le_u32_at(b, p + 8) && a3 == le_u32_at(b, p + 12) && a4 == le_u32_at(b, p + 16),
        26 => i matches SubInstruction::FloatToUnitCircle(a0) && a0 == le_i32_at(b, p),
        27 => i matches SubInstruction::CompareInts(a0, a1) && a0 == le_i32_at(b, p) && a1 == le_i32_at(b, p + 4),
        28 => i matches SubInstruction::CompareFloats(a0, a1) && a0 == le_u32_at(b, p) && a1 == le_u32_at(b, p + 4),
        29 => i matches SubInstruction::RelativeJumpIfLowerThan(a0, a1) && a0 == le_i32_at(b, p) && a1 == le_i32_at(b, p + 4),
        30 => i matches SubInstruction::RelativeJumpIfLowerOrEqual(a0, a1) && a0 == le_i32_at(b, p) && a1 == le_i32_at(b, p + 4),
        31 => i matches SubInstruction::RelativeJumpIfEqual(a0, a1) && a0 == le_i32_at(b, p) && a1 == le_i32_at(b, p + 4),
        32 => i matches SubInstruction::RelativeJumpIfGreaterThan(a0, a1) && a0 == le_i32_at(b, p) && a1 == le_i32_at(b, p + 4),
        33 => i matches SubInstruction::RelativeJumpIfGreaterOrEqual(a0, a1) && a0 == le_i32_at(b, p) && a1 == le_i32_at(b, p + 4),
        34 => i matches SubInstruction::RelativeJumpIfNotEqual(a0, a1) && a0 == le_i32_at(b, p) && a1 == le_i32_at(b, p + 4),
        35 => i matches SubInstruction::Call(a0, a1, a2) && a0 == le_i32_at(b, p) && a1 == le_i32_at(b, p + 4) && a2 == le_u32_at(b, p + 8),
        36 => i matches SubInstruction::Return,
        37 => i matches SubInstruction::CallIfSuperior(a0, a1, a2, a3, a4) && a0 == le_i32_at(b, p) && a1 == le_i32_at(b, p + 4) && a2 == le_u32_at(b, p + 8) && a3 == le_i32_at(b, p + 12) && a4 == le_i32_at(b, p + 16),
        38 => i matches SubInstruction::CallIfSuperiorOrEqual(a0, a1, a2, a3, a4) && a0 == le_i32_at(b, p) && a1 == le_i32_at(b, p + 4) && a2 == le_u32_at(b, p + 8) && a3 == le_i32_at(b, p + 12) && a4 == le_i32_at(b, p + 16),
        39 => i matches SubInstruction::CallIfEqual(a0, a1, a2, a3, a4) && a0 == le_i32_at(b, p) && a1 == le_i32_at(b, p + 4) && a2 == le_u32_at(b, p + 8) && a3 == le_i32_at(b, p + 12) && a4 == le_i32_at(b, p + 16),
        40 => i matches SubInstruction::CallIfInferior(a0, a1, a2, a3, a4) && a0 == le_i32_at(b, p) && a1 == le_i32_at(b, p + 4) && a2 == le_u32_at(b, p + 8) && a3 == le_i32_at(b, p + 12) && a4 == le_i32_at(b, p + 16),
        41 => i matches SubInstruction::CallIfInferiorOrEqual(a0, a1, a2, a3, a4) && a0 == le_i32_at(b, p) && a1 == le_i32_at(b, p + 4) && a2 == le_u32_at(b, p + 8) && a3 == le_i32_at(b, p + 12) && a4 == le_i32_at(b, p + 16),
        42 => i matches SubInstruction::CallIfNotEqual(a0, a1, a2, a3, a4) && a0 == le_i32_at(b, p) && a1 == le_i32_at(b, p + 4) && a2 == le_u32_at(b, p + 8) && a3 == le_i32_at(b, p + 12) && a4 == le_i32_at(b, p + 16),
        43 => i matches SubInstruction::SetPosition(a0, a1, a2) && a0 == le_u32_at(b, p) && a1 == le_u32_at(b, p + 4) && a2 == le_u32_at(b, p + 8),
        45 => i matches SubInstruction::SetAngleAndSpeed(a0, a1) && a0 == le_u32_at(b, p) && a1 == le_u32_at(b, p + 4),
        46 => i matches SubInstruction::SetRotationSpeed(a0) && a0 == le_u32_at(b, p),
        47 => i matches SubInstruction::SetSpeed(a0) && a0 == le_u32_at(b, p),
        48 => i matches SubInstruction::SetAcceleration(a0) && a0 == le_u32_at(b, p),
        49 => i matches SubInstruction::SetRandomAngle(a0, a1) && a0 == le_u32_at(b, p) && a1 == le_u32_at(b, p + 4),
        50 => i matches SubInstruction::SetRandomAngleEx(a0, a1) && a0 == le_u32_at(b, p) && a1 == le_u32_at(b, p + 4),
        51 => i matches SubInstruction::TargetPlayer(a0, a1) && a0 == le_u32_at(b, p) && a1 == le_u32_at(b, p + 4),
        52 => i matches SubInstruction::MoveInDecel(a0, a1, a2) && a0 == le_i32_at(b, p) && a1 == le_u32_at(b, p + 4) && a2 == le_u32_at(b, p + 8),
        56 => i matches SubInstruction::MoveToLinear(a0, a1, a2, a3) && a0 == le_i32_at(b, p) && a1 == le_u32_at(b, p + 4) && a2 == le_u32_at(b, p + 8) && a3 == le_u32_at(b, p + 12),
        57 => i matches SubInstruction::MoveToDecel(a0, a1, a2, a3) && a0 == le_i32_at(b, p) && a1 == le_u32_at(b, p + 4) && a2 == le_u32_at(b, p + 8) && a3 == le_u32_at(b, p + 12),
        59 => i matches SubInstruction::MoveToAccel(a0, a1, a2, a3) && a0 == le_i32_at(b, p) && a1 == le_u32_at(b, p + 4) && a2 == le_u32_at(b, p + 8) && a3 == le_u32_at(b, p + 12),
        61 => i matches SubInstruction::StopIn(a0) && a0 == le_i32_at(b, p),
        63 => i matches SubInstruction::StopInAccel(a0) && a0 == le_i32_at(b, p),
        65 => i matches SubInstruction::SetScreenBox(a0, a1, a2, a3) && a0 == le_u32_at(b, p) && a1 == le_u32_at(b, p + 4) && a2 == le_u32_at(b, p + 8) && a3 == le_u32_at(b, p + 12),
        66 => i matches SubInstruction::ClearScreenBox,
        67 => i matches SubInstruction::SetBulletAttributes1(a0, a1, a2, a3, a4, a5, a6, a7, a8) && a0 == le_i16_at(b, p) && a1 == le_i16_at(b, p + 2) && a2 == le_i32_at(b, p + 4) && a3 == le_i32_at(b, p + 8) && a4 == le_u32_at(b, p + 12) && a5 == le_u32_at(b, p + 16) && a6 == le_u32_at(b, p + 20) && a7 == le_u32_at(b, p + 24) && a8 == le_u32_at(b, p + 28),
        68 => i matches SubInstruction::SetBulletAttributes2(a0, a1, a2, a3, a4, a5, a6, a7, a8) && a0 == le_i16_at(b, p) && a1 == le_i16_at(b, p + 2) && a2 == le_i32_at(b, p + 4) && a3 == le_i32_at(b, p + 8) && a4 == le_u32_at(b, p + 12) && a5 == le_u32_at(b, p + 16) && a6 == le_u32_at(b, p + 20) && a7 == le_u32_at(b, p + 24) && a8 == le_u32_at(b, p + 28),
        69 => i matches SubInstruction::SetBulletAttributes3(a0, a1, a2, a3, a4, a5, a6, a7, a8) && a0 == le_i16_at(b, p) && a1 == le_i16_at(b, p + 2) && a2 == le_i32_at(b, p + 4) && a3 == le_i32_at(b, p + 8) && a4 == le_u32_at(b, p + 12) && a5 == le_u32_at(b, p + 16) && a6 == le_u32_at(b, p + 20) && a7 == le_u32_at(b, p + 24) && a8 == le_u32_at(b, p + 28),
        70 => i matches SubInstruction::SetBulletAttributes4(a0, a1, a2, a3, a4, a5, a6, a7, a8) && a0 == le_i16_at(b, p) && a1 == le_i16_at(b, p + 2) && a2 == le_i32_at(b, p + 4) && a3 == le_i32_at(b, p + 8) && a4 == le_u32_at(b, p + 12) && a5 == le_u32_at(b, p + 16) && a6 == le_u32_at(b, p + 20) && a7 == le_u32_at(b, p + 24) && a8 == le_u32_at(b, p + 28),
        71 => i matches SubInstruction::SetBulletAttributes5(a0, a1, a2, a3, a4, a5, a6, a7, a8) && a0 == le_i16_at(b, p) && a1 == le_i16_at(b, p + 2) && a2 == le_i32_at(b, p + 4) && a3 == le_i32_at(b, p + 8) && a4 == le_u32_at(b, p + 12) && a5 == le_u32_at(b, p + 16) && a6 == le_u32_at(b, p + 20) && a7 == le_u32_at(b, p + 24) && a8 == le_u32_at(b, p + 28),
        74 => i matches SubInstruction::SetBulletAttributes6(a0, a1, a2, a3, a4, a5, a6, a7, a8) && a0 == le_i16_at(b, p) && a1 == le_i16_at(b, p + 2) && a2 == le_i32_at(b, p + 4) && a3 == le_i32_at(b, p + 8) && a4 == le_u32_at(b, p + 12) && a5 == le_u32_at(b, p + 16) && a6 == le_u32_at(b, p + 20) && a7 == le_u32_at(b, p + 24) && a8 == le_u32_at(b, p + 28),
        75 => i matches SubInstruction::SetBulletAttributes7(a0, a1, a2, a3, a4, a5, a6, a7, a8) && a0 == le_i16_at(b, p) && a1 == le_i16_at(b, p + 2) && a2 == le_i32_at(b, p + 4) && a3 == le_i32_at(b, p + 8) && a4 == le_u32_at(b, p + 12) && a5 == le_u32_at(b, p + 16) && a6 == le_u32_at(b, p + 20) && a7 == le_u32_at(b, p + 24) && a8 == le_u32_at(b, p + 28),
        76 => i matches SubInstruction::SetBulletInterval(a0) && a0 == le_i32_at(b, p),
        77 => i matches SubInstruction::SetBulletIntervalEx(a0) && a0 == le_i32_at(b, p),
        78 => i matches SubInstruction::DelayAttack,
        79 => i matches SubInstruction::NoDelayAttack,
        81 => i matches SubInstruction::SetBulletLaunchOffset(a0, a1, a2) && a0 == le_u32_at(b, p) && a1 == le_u32_at(b, p + 4) && a2 == le_u32_at(b, p + 8),
        82 => i matches SubInstruction::SetExtendedBulletAttributes(a0, a1, a2, a3, a4, a5, a6, a7) && a0 == le_i32_at(b, p) && a1 == le_i32_at(b, p + 4) && a2 == le_i32_at(b, p + 8) && a3 == le_i32_at(b, p + 12) && a4 == le_u32_at(b, p + 16) && a5 == le_u32_at(b, p + 20) && a6 == le_u32_at(b, p + 24) && a7 == le_u32_at(b, p + 28),
        83 => i matches SubInstruction::ChangeBulletsInStarBonus,
        84 => i matches SubInstruction::SetBulletSound(a0) && a0 == le_i32_at(b, p),
        85 => i matches SubInstruction::NewLaser(a0, a1, a2, a3, a4, a5, a6, a7, a8, a9, a10, a11, a12, a13) && a0 == le_i16_at(b, p) && a1 == le_i16_at(b, p + 2) && a2 == le_u32_at(b, p + 4) && a3 == le_u32_at(b, p + 8) && a4 == le_u32_at(b, p + 12) && a5 == le_u32_at(b, p + 16) && a6 == le_u32_at(b, p + 20) && a7 == le_u32_at(b, p + 24) && a8 == le_i32_at(b, p + 28) && a9 == le_i32_at(b, p + 32) && a10 == le_i32_at(b, p + 36) && a11 == le_i32_at(b, p + 40) && a12 == le_i32_at(b, p + 44) && a13 == le_i32_at(b, p + 48),
        86 => i matches SubInstruction::NewLaserTowardsPlayer(a0, a1, a2, a3, a4, a5, a6, a7, a8, a9, a10, a11, a12, a13) && a0 == le_i16_at(b, p) && a1 == le_i16_at(b, p + 2) && a2 == le_u32_at(b, p + 4) && a3 == le_u32_at(b, p + 8) && a4 == le_u32_at(b, p + 12) && a5 == le_u32_at(b, p + 16) && a6 == le_u32_at(b, p + 20) && a7 == le_u32_at(b, p + 24) && a8 == le_i32_at(b, p + 28) && a9 == le_i32_at(b, p + 32) && a10 == le_i32_at(b, p + 36) && a11 == le_i32_at(b, p + 40) && a12 == le_i32_at(b, p + 44) && a13 == le_i32_at(b, p + 48),
        87 => i matches SubInstruction::SetUpcomingLaserId(a0) && a0 == le_u32_at(b, p),
        88 => i matches SubInstruction::AlterLaserAngle(a0, a1) && a0 == le_u32_at(b, p) && a1 == le_u32_at(b, p + 4),
        90 => i matches SubInstruction::RepositionLaser(a0, a1, a2, a3) && a0 == le_u32_at(b, p) && a1 == le_u32_at(b, p + 4) && a2 == le_u32_at(b, p + 8) && a3 == le_u32_at(b, p + 12),
        91 => i matches SubInstruction::LaserSetCompare(a0) && a0 == le_u32_at(b, p),
        92 => i matches SubInstruction::CancelLaser(a0) && a0 == le_u32_at(b, p),
        93 => i matches SubInstruction::SetSpellcard(a0, a1, a2) && a0 == le_i16_at(b, p) && a1 == le_i16_at(b, p + 2) && a2@ == spec_text_at(b, p + 4),
        94 => i matches SubInstruction::EndSpellcard,
        95 => i matches SubInstruction::SpawnEnemy(a0, a1, a2, a3, a4, a5, a6) && a0 == le_i32_at(b, p) && a1 == le_u32_at(b, p + 4) && a2 == le_u32_at(b, p + 8) && a3 == le_u32_at(b, p + 12) && a4 == le_i16_at(b, p + 16) && a5 == le_i16_at(b, p + 18) && a6 == le_i32_at(b, p + 20),
        96 => i matches SubInstruction::KillAllEnemies,
        97 => i matches SubInstruction::SetAnim(a0) && a0 == le_i32_at(b, p),
        98 => i matches SubInstruction::SetMultipleAnims(a0, a1, a2, a3, a4, a5) && a0 == le_i16_at(b, p) && a1 == le_i16_at(b, p + 2) && a2 == le_i16_at(b, p + 4) && a3 == le_i16_at(b, p + 6) && a4 == le_i16_at(b, p + 8) && a5 == le_i16_at(b, p + 10),
        99 => i matches SubInstruction::SetAuxAnm(a0, a1) && a0 == le_i32_at(b, p) && a1 == le_i32_at(b, p + 4),
        100 => i matches SubInstruction::SetDeathAnim(a0) && a0 == le_i32_at(b, p),
        101 => i matches SubInstruction::SetBossMode(a0) && a0 == le_i32_at(b, p),
        102 => i matches SubInstruction::CreateSquares(a0, a1, a2, a3, a4) && a0 == le_i32_at(b, p) && a1 == le_u32_at(b, p + 4) && a2 == le_u32_at(b, p + 8) && a3 == le_u32_at(b, p + 12) && a4 == le_u32_at(b, p + 16),
        103 => i matches SubInstruction::SetHitbox(a0, a1, a2) && a0 == le_u32_at(b, p) && a1 == le_u32_at(b, p + 4) && a2 == le_u32_at(b, p + 8),
        104 => i matches SubInstruction::SetCollidable(a0) && a0 == le_i32_at(b, p),
        105 => i matches SubInstruction::SetDamageable(a0) && a0 == le_i32_at(b, p),
        106 => i matches SubInstruction::PlaySound(a0) && a0 == le_i32_at(b, p),
        107 => i matches SubInstruction::SetDeathFlags(a0) && a0 == le_u32_at(b, p),
        108 => i matches SubInstruction::SetDeathCallback(a0) && a0 == le_i32_at(b, p),
        109 => i matches SubInstruction::MemoryWriteInt(a0, a1) && a0 == le_i32_at(b, p) && a1 == le_i32_at(b, p + 4),
        111 => i matches SubInstruction::SetLife(a0) && a0 == le_i32_at(b, p),
        112 => i matches SubInstruction::SetElapsedTime(a0) && a0 == le_i32_at(b, p),
        113 => i matches SubInstruction::SetLowLifeTrigger(a0) && a0 == le_i32_at(b, p),
        114 => i matches SubInstruction::SetLowLifeCallback(a0) && a0 == le_i32_at(b, p),
        115 => i matches SubInstruction::SetTimeout(a0) && a0 == le_i32_at(b, p),
        116 => i matches SubInstruction::SetTimeoutCallback(a0) && a0 == le_i32_at(b, p),
        117 => i matches SubInstruction::SetTouchable(a0) && a0 == le_i32_at(b, p),
        118 => i matches SubInstruction::DropParticles(a0, a1, a2, a3, a4, a5) && a0 == le_i32_at(b, p) && a1 == le_u32_at(b, p + 4) && a2 == le_u8_at(b, p + 8) && a3 == le_u8_at(b, p + 9) && a4 == le_u8_at(b, p + 10) && a5 == le_u8_at(b, p + 11),
        119 => i matches SubInstruction::DropBonus(a0) && a0 == le_i32_at(b, p),
        120 => i matches SubInstruction::SetAutomaticOrientation(a0) && a0 == le_i32_at(b, p),
        121 => i matches SubInstruction::CallSpecialFunction(a0, a1) && a0 == le_i32_at(b, p) && a1 == le_i32_at(b, p + 4),
        122 => i matches SubInstruction::SetSpecialFunctionCallback(a0) && a0 == le_i32_at(b, p),
        123 => i matches SubInstruction::SkipFrames(a0) && a0 == le_i32_at(b, p),
        124 => i matches SubInstruction::DropSpecificBonus(a0) && a0 == le_i32_at(b, p),
        125 => i matches SubInstruction::UNK_ins125,
        126 => i matches SubInstruction::SetRemainingLives(a0) && a0 == le_i32_at(b, p),
        127 => i matches SubInstruction::UNK_ins127(a0) && a0 == le_i32_at(b, p),
        128 => i matches SubInstruction::Interrupt(a0) && a0 == le_i32_at(b, p),
        129 => i matches SubInstruction::InterruptAux(a0, a1) && a0 == le_i32_at(b, p) && a1 == le_i32_at(b, p + 4),
        130 => i matches SubInstruction::UNK_ins130(a0) && a0 == le_i32_at(b, p),
        131 => i matches SubInstruction::SetDifficultyCoeffs(a0, a1, a2, a3, a4, a5) && a0 == le_u32_at(b, p) && a1 == le_u32_at(b, p + 4) && a2 == le_i32_at(b, p + 8) && a3 == le_i32_at(b, p + 12) && a4 == le_i32_at(b, p + 16) && a5 == le_i32_at(b, p + 20),
        132 => i matches SubInstruction::SetInvisible(a0) && a0 == le_i32_at(b, p),
        133 => i matches SubInstruction::CopyCallbacks,
        134 => i matches SubInstruction::UNK_ins134,
        135 => i matches SubInstruction::EnableSpellcardBonus(a0) && a0 == le_i32_at(b, p),
        _ => false,
    }
}

fn parse_sub_args_range0(data: &[u8], pos: usize, opcode: u16) -> (r: Result<
    (SubInstruction, usize),
    EclError,
>)
    requires
        0 <= opcode < 32,
    ensures
        (r matches Ok(_)) == (sub_args_size(opcode) >= 0 && pos + sub_args_size(opcode)
            <= data@.len()),
        r matches Ok(iq) ==> (sub_args_match(data@, pos as int, opcode, iq.0)
            && iq.1 == pos + sub_args_size(opcode)),
        r matches Err(e) ==> e == (if sub_args_size(opcode) < 0 {
            EclError::UnknownOpcode(opcode)
        } else {
            EclError::Truncated
        }),
{
    match opcode {
        0 => {
            if data.len() < pos {
                return Err(EclError::Truncated);
            }
            Ok((SubInstruction::Noop, pos))
        },
        1 => {
            if data.len() < pos || data.len() - pos < 4 {
                return Err(EclError::Truncated);
            }
            let a0 = read_u32_at(data, pos);
            Ok((SubInstruction::Destroy(a0), pos + 4))
        },
        2 => {
            if data.len() < pos || data.len() - pos < 8 {
                return Err(EclError::Truncated);
            }
            let a0 = read_i32_at(data, pos);
            let a1 = read_i32_at(data, pos + 4);
            Ok((SubInstruction::RelativeJump(a0, a1), pos + 8))
        },
        3 => {
            if data.len() < pos || data.len() - pos < 12 {
                return Err(EclError::Truncated);
            }
            let a0 = read_i32_at(data, pos);
            let a1 = read_i32_at(data, pos + 4);
            let a2 = read_i32_at(data, pos + 8);
            Ok((SubInstruction::RelativeJumpEx(a0, a1, a2), pos + 12))
        },
        4 => {
            if data.len() < pos || data.len() - pos < 8 {
                return Err(EclError::Truncated);
            }
            let a0 = read_i32_at(data, pos);
            let a1 = read_i32_at(data, pos + 4);
            Ok((SubInstruction::SetInt(a0, a1), pos + 8))
        },
        5 => {
            if data.len() < pos || data.len() - pos < 8 {
                return Err(EclError::Truncated);
            }
            let a0 = read_i32_at(data, pos);
            let a1 = read_u32_at(data, pos + 4);
            Ok((SubInstruction::SetFloat(a0, a1), pos + 8))
        },
        6 => {
            if data.len() < pos || data.len() - pos < 8 {
                return Err(EclError::Truncated);
            }
            let a0 = read_i32_at(data, pos);
            let a1 = read_i32_at(data, pos + 4);
            Ok((SubInstruction::SetRandomInt(a0, a1), pos + 8))
        },
        7 => {
            if data.len() < pos || data.len() - pos < 12 {
                return Err(EclError::Truncated);
            }
            let a0 = read_i32_at(data, pos);
            let a1 = read_i32_at(data, pos + 4);
            let a2 = read_i32_at(data, pos + 8);
            Ok((SubInstruction::SetRandomIntMin(a0, a1, a2), pos + 12))
        },
        8 => {
            if data.len() < pos || data.len() - pos < 8 {
                return Err(EclError::Truncated);
            }
            let a0 = read_i32_at(data, pos);
            let a1 = read_u32_at(data, pos + 4);
            Ok((SubInstruction::SetRandomFloat(a0, a1), pos + 8))
        },
        9 => {
            if data.len() < pos || data.len() - pos < 12 {
                return Err(EclError::Truncated);
            }
            let a0 = read_i32_at(data, pos);
            let a1 = read_u32_at(data, pos + 4);
            let a2 = read_u32_at(data, pos + 8);
            Ok((SubInstruction::SetRandomFloatMin(a0, a1, a2), pos + 12))
        },
        10 => {
            if data.len() < pos || data.len() - pos < 4 {
                return Err(EclError::Truncated);
            }
            let a0 = read_i32_at(data, pos);
            Ok((SubInstruction::StoreX(a0), pos + 4))
        },
        11 => {
            if data.len() < pos || data.len() - pos < 4 {
                return Err(EclError::Truncated);
            }
            let a0 = read_i32_at(data, pos);
            Ok((SubInstruction::StoreY(a0), pos + 4))
        },
        12 => {
            if data.len() < pos || data.len() - pos < 4 {
                return Err(EclError::Truncated);
            }
            let a0 = read_i32_at(data, pos);
            Ok((SubInstruction::StoreZ(a0), pos + 4))
        },
        13 => {
            if data.len() < pos || data.len() - pos < 12 {
                return Err(EclError::Truncated);
            }
            let a0 = read_i32_at(data, pos);
            let a1 = read_i32_at(data, pos + 4);
            let a2 = read_i32_at(data, pos + 8);
            Ok((SubInstruction::AddInt(a0, a1, a2), pos + 12))
        },
        14 => {
            if data.len() < pos || data.len() - pos < 12 {
                return Err(EclError::Truncated);
            }
            let a0 = read_i32_at(data, pos);
            let a1 = read_i32_at(data, pos + 4);
            let a2 = read_i32_at(data, pos + 8);
            Ok((SubInstruction::SubstractInt(a0, a1, a2), pos + 12))
        },
        15 => {
            if data.len() < pos || data.len() - pos < 12 {
                return Err(EclError::Truncated);
            }
            let a0 = read_i32_at(data, pos);
            let a1 = read_i32_at(data, pos + 4);
            let a2 = read_i32_at(data, pos + 8);
            Ok((SubInstruction::MultiplyInt(a0, a1, a2), pos + 12))
        },
        16 => {
            if data.len() < pos || data.len() - pos < 12 {
                return Err(EclError::Truncated);
            }
            let a0 = read_i32_at(data, pos);
            let a1 = read_i32_at(data, pos + 4);
            let a2 = read_i32_at(data, pos + 8);
            Ok((SubInstruction::DivideInt(a0, a1, a2), pos + 12))
        },
        17 => {
            if data.len() < pos || data.len() - pos < 12 {
                return Err(EclError::Truncated);
            }
            let a0 = read_i32_at(data, pos);
            let a1 = read_i32_at(data, pos + 4);
            let a2 = read_i32_at(data, pos + 8);
            Ok((SubInstruction::ModuloInt(a0, a1, a2), pos + 12))
        },
        18 => {
            if data.len() < pos || data.len() - pos < 4 {
                return Err(EclError::Truncated);
            }
            let a0 = read_i32_at(data, pos);
            Ok((SubInstruction::Increment(a0), pos + 4))
        },
        19 => {
            if data.len() < pos || data.len() - pos < 4 {
                return Err(EclError::Truncated);
            }
            let a0 = read_i32_at(data, pos);
            Ok((SubInstruction::Decrement(a0), pos + 4))
        },
        20 => {
            if data.len() < pos || data.len() - pos < 12 {
                return Err(EclError::Truncated);
            }
            let a0 = read_i32_at(data, pos);
            let a1 = read_u32_at(data, pos + 4);
            let a2 = read_u32_at(data, pos + 8);
            Ok((SubInstruction::AddFloat(a0, a1, a2), pos + 12))
        },
        21 => {
            if data.len() < pos || data.len() - pos < 12 {
                return Err(EclError::Truncated);
            }
            let a0 = read_i32_at(data, pos);
            let a1 = read_u32_at(data, pos + 4);
            let a2 = read_u32_at(data, pos + 8);
            Ok((SubInstruction::SubstractFloat(a0, a1, a2), pos + 12))
        },
        22 => {
            if data.len() < pos || data.len() - pos < 12 {
                return Err(EclError::Truncated);
            }
            let a0 = read_i32_at(data, pos);
            let a1 = read_u32_at(data, pos + 4);
            let a2 = read_u32_at(data, pos + 8);
            Ok((SubInstruction::MultiplyFloat(a0, a1, a2), pos + 12))
        },
        23 => {
            if data.len() < pos || data.len() - pos < 12 {
                return Err(EclError::Truncated);
            }
            let a0 = read_i32_at(data, pos);
            let a1 = read_u32_at(data, pos + 4);
            let a2 = read_u32_at(data, pos + 8);
            Ok((SubInstruction::DivideFloat(a0, a1, a2), pos + 12))
        },
        24 => {
            if data.len() < pos || data.len() - pos < 12 {
                return Err(EclError::Truncated);
            }
            let a0 = read_i32_at(data, pos);
            let a1 = read_u32_at(data, pos + 4);
            let a2 = read_u32_at(data, pos + 8);
            Ok((SubInstruction::ModuloFloat(a0, a1, a2), pos + 12))
        },
        25 => {
            if data.len() < pos || data.len() - pos < 20 {
                return Err(EclError::Truncated);
            }
            let a0 = read_i32_at(data, pos);
            let a1 = read_u32_at(data, pos + 4);
            let a2 = read_u32_at(data, pos + 8);
            let a3 = read_u32_at(data, pos + 12);
            let a4 = read_u32_at(data, pos + 16);
            Ok((SubInstruction::GetDirection(a0, a1, a2, a3, a4), pos + 20))
        },
        26 => {
            if data.len() < pos || data.len() - pos < 4 {
                return Err(EclError::Truncated);
            }
            let a0 = read_i32_at(data, pos);
            Ok((SubInstruction::FloatToUnitCircle(a0), pos + 4))
        },
        27 => {
            if data.len() < pos || data.len() - pos < 8 {
                return Err(EclError::Truncated);
            }
            let a0 = read_i32_at(data, pos);
            let a1 = read_i32_at(data, pos + 4);
            Ok((SubInstruction::CompareInts(a0, a1), pos + 8))
        },
        28 => {
            if data.len() < pos || data.len() - pos < 8 {
                return Err(EclError::Truncated);
            }
            let a0 = read_u32_at(data, pos);
            let a1 = read_u32_at(data, pos + 4);
            Ok((SubInstruction::CompareFloats(a0, a1), pos + 8))
        },
        29 => {
            if data.len() < pos || data.len() - pos < 8 {
                return Err(EclError::Truncated);
            }
            let a0 = read_i32_at(data, pos);
            let a1 = read_i32_at(data, pos + 4);
            Ok((SubInstruction::RelativeJumpIfLowerThan(a0, a1), pos + 8))
        },
        30 => {
            if data.len() < pos || data.len() - pos < 8 {
                return Err(EclError::Truncated);
            }
            let a0 = read_i32_at(data, pos);
            let a1 = read_i32_at(data, pos + 4);
            Ok((SubInstruction::RelativeJumpIfLowerOrEqual(a0, a1), pos + 8))
        },
        31 => {
            if data.len() < pos || data.len() - pos < 8 {
                return Err(EclError::Truncated);
            }
            let a0 = read_i32_at(data, pos);
            let a1 = read_i32_at(data, pos + 4);
            Ok((SubInstruction::RelativeJumpIfEqual(a0, a1), pos + 8))
        },
        _ => Err(EclError::UnknownOpcode(opcode)),
    }
}

fn parse_sub_args_range1(data: &[u8], pos: usize, opcode: u16) -> (r: Result<
    (SubInstruction, usize),
    EclError,
>)
    requires
        32 <= opcode < 64,
    ensures
        (r matches Ok(_)) == (sub_args_size(opcode) >= 0 && pos + sub_args_size(opcode)
            <= data@.len()),
        r matches Ok(iq) ==> (sub_args_match(data@, pos as int, opcode, iq.0)
            && iq.1 == pos + sub_args_size(opcode)),
        r matches Err(e) ==> e == (if sub_args_size(opcode) < 0 {
            EclError::UnknownOpcode(opcode)
        } else {
            EclError::Truncated
        }),
{
    match opcode {
        32 => {
            if data.len() < pos || data.len() - pos < 8 {
                return Err(EclError::Truncated);
            }
            let a0 = read_i32_at(data, pos);
            let a1 = read_i32_at(data, pos + 4);
            Ok((SubInstruction::RelativeJumpIfGreaterThan(a0, a1), pos + 8))
        },
        33 => {
            if data.len() < pos || data.len() - pos < 8 {
                return Err(EclError::Truncated);
            }
            let a0 = read_i32_at(data, pos);
            let a1 = read_i32_at(data, pos + 4);
            Ok((SubInstruction::RelativeJumpIfGreaterOrEqual(a0, a1), pos + 8))
        },
        34 => {
            if data.len() < pos || data.len() - pos < 8 {
                return Err(EclError::Truncated);
            }
            let a0 = read_i32_at(data, pos);
            let a1 = read_i32_at(data, pos + 4);
            Ok((SubInstruction::RelativeJumpIfNotEqual(a0, a1), pos + 8))
        },
        35 => {
            if data.len() < pos || data.len() - pos < 12 {
                return Err(EclError::Truncated);
            }
            let a0 = read_i32_at(data, pos);
            let a1 = read_i32_at(data, pos + 4);
            let a2 = read_u32_at(data, pos + 8);
            Ok((SubInstruction::Call(a0, a1, a2), pos + 12))
        },
        36 => {
            if data.len() < pos {
                return Err(EclError::Truncated);
            }
            Ok((SubInstruction::Return, pos))
        },
        37 => {
            if data.len() < pos || data.len() - pos < 20 {
                return Err(EclError::Truncated);
            }
            let a0 = read_i32_at(data, pos);
            let a1 = read_i32_at(data, pos + 4);
            let a2 = read_u32_at(data, pos + 8);
            let a3 = read_i32_at(data, pos + 12);
            let a4 = read_i32_at(data, pos + 16);
            Ok((SubInstruction::CallIfSuperior(a0, a1, a2, a3, a4), pos + 20))
        },
        38 => {
            if data.len() < pos || data.len() - pos < 20 {
                return Err(EclError::Truncated);
            }
            let a0 = read_i32_at(data, pos);
            let a1 = read_i32_at(data, pos + 4);
            let a2 = read_u32_at(data, pos + 8);
            let a3 = read_i32_at(data, pos + 12);
            let a4 = read_i32_at(data, pos + 16);
            Ok((SubInstruction::CallIfSuperiorOrEqual(a0, a1, a2, a3, a4), pos + 20))
        },
        39 => {
            if data.len() < pos || data.len() - pos < 20 {
                return Err(EclError::Truncated);
            }
            let a0 = read_i32_at(data, pos);
            let a1 = read_i32_at(data, pos + 4);
            let a2 = read_u32_at(data, pos + 8);
            let a3 = read_i32_at(data, pos + 12);
            let a4 = read_i32_at(data, pos + 16);
            Ok((SubInstruction::CallIfEqual(a0, a1, a2, a3, a4), pos + 20))
        },
        40 => {
            if data.len() < pos || data.len() - pos < 20 {
                return Err(EclError::Truncated);
            }
            let a0 = read_i32_at(data, pos);
            let a1 = read_i32_at(data, pos + 4);
            let a2 = read_u32_at(data, pos + 8);
            let a3 = read_i32_at(data, pos + 12);
            let a4 = read_i32_at(data, pos + 16);
            Ok((SubInstruction::CallIfInferior(a0, a1, a2, a3, a4), pos + 20))
        },
        41 => {
            if data.len() < pos || data.len() - pos < 20 {
                return Err(EclError::Truncated);
            }
            let a0 = read_i32_at(data, pos);
            let a1 = read_i32_at(data, pos + 4);
            let a2 = read_u32_at(data, pos + 8);
            let a3 = read_i32_at(data, pos + 12);
            let a4 = read_i32_at(data, pos + 16);
            Ok((SubInstruction::CallIfInferiorOrEqual(a0, a1, a2, a3, a4), pos + 20))
        },
        42 => {
            if data.len() < pos || data.len() - pos < 20 {
                return Err(EclError::Truncated);
            }
            let a0 = read_i32_at(data, pos);
            let a1 = read_i32_at(data, pos + 4);
            let a2 = read_u32_at(data, pos + 8);
            let a3 = read_i32_at(data, pos + 12);
            let a4 = read_i32_at(data, pos + 16);
            Ok((SubInstruction::CallIfNotEqual(a0, a1, a2, a3, a4), pos + 20))
        },
        43 => {
            if data.len() < pos || data.len() - pos < 12 {
                return Err(EclError::Truncated);
            }
            let a0 = read_u32_at(data, pos);
            let a1 = read_u32_at(data, pos + 4);
            let a2 = read_u32_at(data, pos + 8);
            Ok((SubInstruction::SetPosition(a0, a1, a2), pos + 12))
        },
        45 => {
            if data.len() < pos || data.len() - pos < 8 {
                return Err(EclError::Truncated);
            }
            let a0 = read_u32_at(data, pos);
            let a1 = read_u32_at(data, pos + 4);
            Ok((SubInstruction::SetAngleAndSpeed(a0, a1), pos + 8))
        },
        46 => {
            if data.len() < pos || data.len() - pos < 4 {
                return Err(EclError::Truncated);
            }
            let a0 = read_u32_at(data, pos);
            Ok((SubInstruction::SetRotationSpeed(a0), pos + 4))
        },
        47 => {
            if data.len() < pos || data.len() - pos < 4 {
                return Err(EclError::Truncated);
            }
            let a0 = read_u32_at(data, pos);
            Ok((SubInstruction::SetSpeed(a0), pos + 4))
        },
        48 => {
            if data.len() < pos || data.len() - pos < 4 {
                return Err(EclError::Truncated);
            }
            let a0 = read_u32_at(data, pos);
            Ok((SubInstruction::SetAcceleration(a0), pos + 4))
        },
        49 => {
            if data.len() < pos || data.len() - pos < 8 {
                return Err(EclError::Truncated);
            }
            let a0 = read_u32_at(data, pos);
            let a1 = read_u32_at(data, pos + 4);
            Ok((SubInstruction::SetRandomAngle(a0, a1), pos + 8))
        },
        50 => {
            if data.len() < pos || data.len() - pos < 8 {
                return Err(EclError::Truncated);
            }
            let a0 = read_u32_at(data, pos);
            let a1 = read_u32_at(data, pos + 4);
            Ok((SubInstruction::SetRandomAngleEx(a0, a1), pos + 8))
        },
        51 => {
            if data.len() < pos || data.len() - pos < 8 {
                return Err(EclError::Truncated);
            }
            let a0 = read_u32_at(data, pos);
            let a1 = read_u32_at(data, pos + 4);
            Ok((SubInstruction::TargetPlayer(a0, a1), pos + 8))
        },
        52 => {
            if data.len() < pos || data.len() - pos < 12 {
                return Err(EclError::Truncated);
            }
            let a0 = read_i32_at(data, pos);
            let a1 = read_u32_at(data, pos + 4);
            let a2 = read_u32_at(data, pos + 8);
            Ok((SubInstruction::MoveInDecel(a0, a1, a2), pos + 12))
        },
        56 => {
            if data.len() < pos || data.len() - pos < 16 {
                return Err(EclError::Truncated);
            }
            let a0 = read_i32_at(data, pos);
            let a1 = read_u32_at(data, pos + 4);
            let a2 = read_u32_at(data, pos + 8);
            let a3 = read_u32_at(data, pos + 12);
            Ok((SubInstruction::MoveToLinear(a0, a1, a2, a3), pos + 16))
        },
        57 => {
            if data.len() < pos || data.len() - pos < 16 {
                return Err(EclError::Truncated);
            }
            let a0 = read_i32_at(data, pos);
            let a1 = read_u32_at(data, pos + 4);
            let a2 = read_u32_at(data, pos + 8);
            let a3 = read_u32_at(data, pos + 12);
            Ok((SubInstruction::MoveToDecel(a0, a1, a2, a3), pos + 16))
        },
        59 => {
            if data.len() < pos || data.len() - pos < 16 {
                return Err(EclError::Truncated);
            }
            let a0 = read_i32_at(data, pos);
            let a1 = read_u32_at(data, pos + 4);
            let a2 = read_u32_at(data, pos + 8);
            let a3 = read_u32_at(data, pos + 12);
            Ok((SubInstruction::MoveToAccel(a0, a1, a2, a3), pos + 16))
        },
        61 => {
            if data.len() < pos || data.len() - pos < 4 {
                return Err(EclError::Truncated);
            }
            let a0 = read_i32_at(data, pos);
            Ok((SubInstruction::StopIn(a0), pos + 4))
        },
        63 => {
            if data.len() < pos || data.len() - pos < 4 {
                return Err(EclError::Truncated);
            }
            let a0 = read_i32_at(data, pos);
            Ok((SubInstruction::StopInAccel(a0), pos + 4))
        },
        _ => Err(EclError::UnknownOpcode(opcode)),
    }
}

fn parse_sub_args_range2(data: &[u8], pos: usize, opcode: u16) -> (r: Result<
    (SubInstruction, usize),
    EclError,
>)
    requires
        64 <= opcode < 96,
    ensures
        (r matches Ok(_)) == (sub_args_size(opcode) >= 0 && pos + sub_args_size(opcode)
            <= data@.len()),
        r matches Ok(iq) ==> (sub_args_match(data@, pos as int, opcode, iq.0)
            && iq.1 == pos + sub_args_size(opcode)),
        r matches Err(e) ==> e == (if sub_args_size(opcode) < 0 {
            EclError::UnknownOpcode(opcode)
        } else {
            EclError::Truncated
        }),
{
    match opcode {
        65 => {
            if data.len() < pos || data.len() - pos < 16 {
                return Err(EclError::Truncated);
            }
            let a0 = read_u32_at(data, pos);
            let a1 = read_u32_at(data, pos + 4);
            let a2 = read_u32_at(data, pos + 8);
            let a3 = read_u32_at(data, pos + 12);
            Ok((SubInstruction::SetScreenBox(a0, a1, a2, a3), pos + 16))
        },
        66 => {
            if data.len() < pos {
                return Err(EclError::Truncated);
            }
            Ok((SubInstruction::ClearScreenBox, pos))
        },
        67 => {
            if data.len() < pos || data.len() - pos < 32 {
                return Err(EclError::Truncated);
            }
            let a0 = read_i16_at(data, pos);
            let a1 = read_i16_at(data, pos + 2);
            let a2 = read_i32_at(data, pos + 4);
            let a3 = read_i32_at(data, pos + 8);
            let a4 = read_u32_at(data, pos + 12);
            let a5 = read_u32_at(data, pos + 16);
            let a6 = read_u32_at(data, pos + 20);
            let a7 = read_u32_at(data, pos + 24);
            let a8 = read_u32_at(data, pos + 28);
            Ok((SubInstruction::SetBulletAttributes1(a0, a1, a2, a3, a4, a5, a6, a7, a8), pos + 32))
        },
        68 => {
            if data.len() < pos || data.len() - pos < 32 {
                return Err(EclError::Truncated);
            }
            let a0 = read_i16_at(data, pos);
            let a1 = read_i16_at(data, pos + 2);
            let a2 = read_i32_at(data, pos + 4);
            let a3 = read_i32_at(data, pos + 8);
            let a4 = read_u32_at(data, pos + 12);
            let a5 = read_u32_at(data, pos + 16);
            let a6 = read_u32_at(data, pos + 20);
            let a7 = read_u32_at(data, pos + 24);
            let a8 = read_u32_at(data, pos + 28);
            Ok((SubInstruction::SetBulletAttributes2(a0, a1, a2, a3, a4, a5, a6, a7, a8), pos + 32))
        },
        69 => {
            if data.len() < pos || data.len() - pos < 32 {
                return Err(EclError::Truncated);
            }
            let a0 = read_i16_at(data, pos);
            let a1 = read_i16_at(data, pos + 2);
            let a2 = read_i32_at(data, pos + 4);
            let a3 = read_i32_at(data, pos + 8);
            let a4 = read_u32_at(data, pos + 12);
            let a5 = read_u32_at(data, pos + 16);
            let a6 = read_u32_at(data, pos + 20);
            let a7 = read_u32_at(data, pos + 24);
            let a8 = read_u32_at(data, pos + 28);
            Ok((SubInstruction::SetBulletAttributes3(a0, a1, a2, a3, a4, a5, a6, a7, a8), pos + 32))
        },
        70 => {
            if data.len() < pos || data.len() - pos < 32 {
                return Err(EclError::Truncated);
            }
            let a0 = read_i16_at(data, pos);
            let a1 = read_i16_at(data, pos + 2);
            let a2 = read_i32_at(data, pos + 4);
            let a3 = read_i32_at(data, pos + 8);
            let a4 = read_u32_at(data, pos + 12);
            let a5 = read_u32_at(data, pos + 16);
            let a6 = read_u32_at(data, pos + 20);
            let a7 = read_u32_at(data, pos + 24);
            let a8 = read_u32_at(data, pos + 28);
            Ok((SubInstruction::SetBulletAttributes4(a0, a1, a2, a3, a4, a5, a6, a7, a8), pos + 32))
        },
        71 => {
            if data.len() < pos || data.len() - pos < 32 {
                return Err(EclError::Truncated);
            }
            let a0 = read_i16_at(data, pos);
            let a1 = read_i16_at(data, pos + 2);
            let a2 = read_i32_at(data, pos + 4);
            let a3 = read_i32_at(data, pos + 8);
            let a4 = read_u32_at(data, pos + 12);
            let a5 = read_u32_at(data, pos + 16);
            let a6 = read_u32_at(data, pos + 20);
            let a7 = read_u32_at(data, pos + 24);
            let a8 = read_u32_at(data, pos + 28);
            Ok((SubInstruction::SetBulletAttributes5(a0, a1, a2, a3, a4, a5, a6, a7, a8), pos + 32))
        },
        74 => {
            if data.len() < pos || data.len() - pos < 32 {
                return Err(EclError::Truncated);
            }
            let a0 = read_i16_at(data, pos);
            let a1 = read_i16_at(data, pos + 2);
            let a2 = read_i32_at(data, pos + 4);
            let a3 = read_i32_at(data, pos + 8);
            let a4 = read_u32_at(data, pos + 12);
            let a5 = read_u32_at(data, pos + 16);
            let a6 = read_u32_at(data, pos + 20);
            let a7 = read_u32_at(data, pos + 24);
            let a8 = read_u32_at(data, pos + 28);
            Ok((SubInstruction::SetBulletAttributes6(a0, a1, a2, a3, a4, a5, a6, a7, a8), pos + 32))
        },
        75 => {
            if data.len() < pos || data.len() - pos < 32 {
                return Err(EclError::Truncated);
            }
            let a0 = read_i16_at(data, pos);
            let a1 = read_i16_at(data, pos + 2);
            let a2 = read_i32_at(data, pos + 4);
            let a3 = read_i32_at(data, pos + 8);
            let a4 = read_u32_at(data, pos + 12);
            let a5 = read_u32_at(data, pos + 16);
            let a6 = read_u32_at(data, pos + 20);
            let a7 = read_u32_at(data, pos + 24);
            let a8 = read_u32_at(data, pos + 28);
            Ok((SubInstruction::SetBulletAttributes7(a0, a1, a2, a3, a4, a5, a6, a7, a8), pos + 32))
        },
        76 => {
            if data.len() < pos || data.len() - pos < 4 {
                return Err(EclError::Truncated);
            }
            let a0 = read_i32_at(data, pos);
            Ok((SubInstruction::SetBulletInterval(a0), pos + 4))
        },
        77 => {
            if data.len() < pos || data.len() - pos < 4 {
                return Err(EclError::Truncated);
            }
            let a0 = read_i32_at(data, pos);
            Ok((SubInstruction::SetBulletIntervalEx(a0), pos + 4))
        },
        78 => {
            if data.len() < pos {
                return Err(EclError::Truncated);
            }
            Ok((SubInstruction::DelayAttack, pos))
        },
        79 => {
            if data.len() < pos {
                return Err(EclError::Truncated);
            }
            Ok((SubInstruction::NoDelayAttack, pos))
        },
        81 => {
            if data.len() < pos || data.len() - pos < 12 {
                return Err(EclError::Truncated);
            }
            let a0 = read_u32_at(data, pos);
            let a1 = read_u32_at(data, pos + 4);
            let a2 = read_u32_at(data, pos + 8);
            Ok((SubInstruction::SetBulletLaunchOffset(a0, a1, a2), pos + 12))
        },
        82 => {
            if data.len() < pos || data.len() - pos < 32 {
                return Err(EclError::Truncated);
            }
            let a0 = read_i32_at(data, pos);
            let a1 = read_i32_at(data, pos + 4);
            let a2 = read_i32_at(data, pos + 8);
            let a3 = read_i32_at(data, pos + 12);
            let a4 = read_u32_at(data, pos + 16);
            let a5 = read_u32_at(data, pos + 20);
            let a6 = read_u32_at(data, pos + 24);
            let a7 = read_u32_at(data, pos + 28);
            Ok((SubInstruction::SetExtendedBulletAttributes(a0, a1, a2, a3, a4, a5, a6, a7), pos + 32))
        },
        83 => {
            if data.len() < pos {
                return Err(EclError::Truncated);
            }
            Ok((SubInstruction::ChangeBulletsInStarBonus, pos))
        },
        84 => {
            if data.len() < pos || data.len() - pos < 4 {
                return Err(EclError::Truncated);
            }
            let a0 = read_i32_at(data, pos);
            Ok((SubInstruction::SetBulletSound(a0), pos + 4))
        },
        85 => {
            if data.len() < pos || data.len() - pos < 52 {
                return Err(EclError::Truncated);
            }
            let a0 = read_i16_at(data, pos);
            let a1 = read_i16_at(data, pos + 2);
            let a2 = read_u32_at(data, pos + 4);
            let a3 = read_u32_at(data, pos + 8);
            let a4 = read_u32_at(data, pos + 12);
            let a5 = read_u32_at(data, pos + 16);
            let a6 = read_u32_at(data, pos + 20);
            let a7 = read_u32_at(data, pos + 24);
            let a8 = read_i32_at(data, pos + 28);
            let a9 = read_i32_at(data, pos + 32);
            let a10 = read_i32_at(data, pos + 36);
            let a11 = read_i32_at(data, pos + 40);
            let a12 = read_i32_at(data, pos + 44);
            let a13 = read_i32_at(data, pos + 48);
            Ok((SubInstruction::NewLaser(a0, a1, a2, a3, a4, a5, a6, a7, a8, a9, a10, a11, a12, a13), pos + 52))
        },
        86 => {
            if data.len() < pos || data.len() - pos < 52 {
                return Err(EclError::Truncated);
            }
            let a0 = read_i16_at(data, pos);
            let a1 = read_i16_at(data, pos + 2);
            let a2 = read_u32_at(data, pos + 4);
            let a3 = read_u32_at(data, pos + 8);
            let a4 = read_u32_at(data, pos + 12);
            let a5 = read_u32_at(data, pos + 16);
            let a6 = read_u32_at(data, pos + 20);
            let a7 = read_u32_at(data, pos + 24);
            let a8 = read_i32_at(data, pos + 28);
            let a9 = read_i32_at(data, pos + 32);
            let a10 = read_i32_at(data, pos + 36);
            let a11 = read_i32_at(data, pos + 40);
            let a12 = read_i32_at(data, pos + 44);
            let a13 = read_i32_at(data, pos + 48);
            Ok((SubInstruction::NewLaserTowardsPlayer(a0, a1, a2, a3, a4, a5, a6, a7, a8, a9, a10, a11, a12, a13), pos + 52))
        },
        87 => {
            if data.len() < pos || data.len() - pos < 4 {
                return Err(EclError::Truncated);
            }
            let a0 = read_u32_at(data, pos);
            Ok((SubInstruction::SetUpcomingLaserId(a0), pos + 4))
        },
        88 => {
            if data.len() < pos || data.len() - pos < 8 {
                return Err(EclError::Truncated);
            }
            let a0 = read_u32_at(data, pos);
            let a1 = read_u32_at(data, pos + 4);
            Ok((SubInstruction::AlterLaserAngle(a0, a1), pos + 8))
        },
        90 => {
            if data.len() < pos || data.len() - pos < 16 {
                return Err(EclError::Truncated);
            }
            let a0 = read_u32_at(data, pos);
            let a1 = read_u32_at(data, pos + 4);
            let a2 = read_u32_at(data, pos + 8);
            let a3 = read_u32_at(data, pos + 12);
            Ok((SubInstruction::RepositionLaser(a0, a1, a2, a3), pos + 16))
        },
        91 => {
            if data.len() < pos || data.len() - pos < 4 {
                return Err(EclError::Truncated);
            }
            let a0 = read_u32_at(data, pos);
            Ok((SubInstruction::LaserSetCompare(a0), pos + 4))
        },
        92 => {
            if data.len() < pos || data.len() - pos < 4 {
                return Err(EclError::Truncated);
            }
            let a0 = read_u32_at(data, pos);
            Ok((SubInstruction::CancelLaser(a0), pos + 4))
        },
        93 => {
            if data.len() < pos || data.len() - pos < 38 {
                return Err(EclError::Truncated);
            }
            let a0 = read_i16_at(data, pos);
            let a1 = read_i16_at(data, pos + 2);
            let a2 = match le_string(data, pos + 4) {
                Ok(sq) => sq.0,
                Err(e) => return Err(e),
            };
            Ok((SubInstruction::SetSpellcard(a0, a1, a2), pos + 38))
        },
        94 => {
            if data.len() < pos {
                return Err(EclError::Truncated);
            }
            Ok((SubInstruction::EndSpellcard, pos))
        },
        95 => {
            if data.len() < pos || data.len() - pos < 24 {
                return Err(EclError::Truncated);
            }
            let a0 = read_i32_at(data, pos);
            let a1 = read_u32_at(data, pos + 4);
            let a2 = read_u32_at(data, pos + 8);
            let a3 = read_u32_at(data, pos + 12);
            let a4 = read_i16_at(data, pos + 16);
            let a5 = read_i16_at(data, pos + 18);
            let a6 = read_i32_at(data, pos + 20);
            Ok((SubInstruction::SpawnEnemy(a0, a1, a2, a3, a4, a5, a6), pos + 24))
        },
        _ => Err(EclError::UnknownOpcode(opcode)),
    }
}

fn parse_sub_args_range3(data: &[u8], pos: usize, opcode: u16) -> (r: Result<
    (SubInstruction, usize),
    EclError,
>)
    requires
        opcode >= 96,
    ensures
        (r matches Ok(_)) == (sub_args_size(opcode) >= 0 && pos + sub_args_size(opcode)
            <= data@.len()),
        r matches Ok(iq) ==> (sub_args_match(data@, pos as int, opcode, iq.0)
            && iq.1 == pos + sub_args_size(opcode)),
        r matches Err(e) ==> e == (if sub_args_size(opcode) < 0 {
            EclError::UnknownOpcode(opcode)
        } else {
            EclError::Truncated
        }),
{
    match opcode {
        96 => {
            if data.len() < pos {
                return Err(EclError::Truncated);
            }
            Ok((SubInstruction::KillAllEnemies, pos))
        },
        97 => {
            if data.len() < pos || data.len() - pos < 4 {
                return Err(EclError::Truncated);
            }
            let a0 = read_i32_at(data, pos);
            Ok((SubInstruction::SetAnim(a0), pos + 4))
        },
        98 => {
            if data.len() < pos || data.len() - pos < 12 {
                return Err(EclError::Truncated);
            }
            let a0 = read_i16_at(data, pos);
            let a1 = read_i16_at(data, pos + 2);
            let a2 = read_i16_at(data, pos + 4);
            let a3 = read_i16_at(data, pos + 6);
            let a4 = read_i16_at(data, pos + 8);
            let a5 = read_i16_at(data, pos + 10);
            Ok((SubInstruction::SetMultipleAnims(a0, a1, a2, a3, a4, a5), pos + 12))
        },
        99 => {
            if data.len() < pos || data.len() - pos < 8 {
                return Err(EclError::Truncated);
            }
            let a0 = read_i32_at(data, pos);
            let a1 = read_i32_at(data, pos + 4);
            Ok((SubInstruction::SetAuxAnm(a0, a1), pos + 8))
        },
        100 => {
            if data.len() < pos || data.len() - pos < 4 {
                return Err(EclError::Truncated);
            }
            let a0 = read_i32_at(data, pos);
            Ok((SubInstruction::SetDeathAnim(a0), pos + 4))
        },
        101 => {
            if data.len() < pos || data.len() - pos < 4 {
                return Err(EclError::Truncated);
            }
            let a0 = read_i32_at(data, pos);
            Ok((SubInstruction::SetBossMode(a0), pos + 4))
        },
        102 => {
            if data.len() < pos || data.len() - pos < 20 {
                return Err(EclError::Truncated);
            }
            let a0 = read_i32_at(data, pos);
            let a1 = read_u32_at(data, pos + 4);
            let a2 = read_u32_at(data, pos + 8);
            let a3 = read_u32_at(data, pos + 12);
            let a4 = read_u32_at(data, pos + 16);
            Ok((SubInstruction::CreateSquares(a0, a1, a2, a3, a4), pos + 20))
        },
        103 => {
            if data.len() < pos || data.len() - pos < 12 {
                return Err(EclError::Truncated);
            }
            let a0 = read_u32_at(data, pos);
            let a1 = read_u32_at(data, pos + 4);
            let a2 = read_u32_at(data, pos + 8);
            Ok((SubInstruction::SetHitbox(a0, a1, a2), pos + 12))
        },
        104 => {
            if data.len() < pos || data.len() - pos < 4 {
                return Err(EclError::Truncated);
            }
            let a0 = read_i32_at(data, pos);
            Ok((SubInstruction::SetCollidable(a0), pos + 4))
        },
        105 => {
            if data.len() < pos || data.len() - pos < 4 {
                return Err(EclError::Truncated);
            }
            let a0 = read_i32_at(data, pos);
            Ok((SubInstruction::SetDamageable(a0), pos + 4))
        },
        106 => {
            if data.len() < pos || data.len() - pos < 4 {
                return Err(EclError::Truncated);
            }
            let a0 = read_i32_at(data, pos);
            Ok((SubInstruction::PlaySound(a0), pos + 4))
        },
        107 => {
            if data.len() < pos || data.len() - pos < 4 {
                return Err(EclError::Truncated);
            }
            let a0 = read_u32_at(data, pos);
            Ok((SubInstruction::SetDeathFlags(a0), pos + 4))
        },
        108 => {
            if data.len() < pos || data.len() - pos < 4 {
                return Err(EclError::Truncated);
            }
            let a0 = read_i32_at(data, pos);
            Ok((SubInstruction::SetDeathCallback(a0), pos + 4))
        },
        109 => {
            if data.len() < pos || data.len() - pos < 8 {
                return Err(EclError::Truncated);
            }
            let a0 = read_i32_at(data, pos);
            let a1 = read_i32_at(data, pos + 4);
            Ok((SubInstruction::MemoryWriteInt(a0, a1), pos + 8))
        },
        111 => {
            if data.len() < pos || data.len() - pos < 4 {
                return Err(EclError::Truncated);
            }
            let a0 = read_i32_at(data, pos);
            Ok((SubInstruction::SetLife(a0), pos + 4))
        },
        112 => {
            if data.len() < pos || data.len() - pos < 4 {
                return Err(EclError::Truncated);
            }
            let a0 = read_i32_at(data, pos);
            Ok((SubInstruction::SetElapsedTime(a0), pos + 4))
        },
        113 => {
            if data.len() < pos || data.len() - pos < 4 {
                return Err(EclError::Truncated);
            }
            let a0 = read_i32_at(data, pos);
            Ok((SubInstruction::SetLowLifeTrigger(a0), pos + 4))
        },
        114 => {
            if data.len() < pos || data.len() - pos < 4 {
                return Err(EclError::Truncated);
            }
            let a0 = read_i32_at(data, pos);
            Ok((SubInstruction::SetLowLifeCallback(a0), pos + 4))
        },
        115 => {
            if data.len() < pos || data.len() - pos < 4 {
                return Err(EclError::Truncated);
            }
            let a0 = read_i32_at(data, pos);
            Ok((SubInstruction::SetTimeout(a0), pos + 4))
        },
        116 => {
            if data.len() < pos || data.len() - pos < 4 {
                return Err(EclError::Truncated);
            }
            let a0 = read_i32_at(data, pos);
            Ok((SubInstruction::SetTimeoutCallback(a0), pos + 4))
        },
        117 => {
            if data.len() < pos || data.len() - pos < 4 {
                return Err(EclError::Truncated);
            }
            let a0 = read_i32_at(data, pos);
            Ok((SubInstruction::SetTouchable(a0), pos + 4))
        },
        118 => {
            if data.len() < pos || data.len() - pos < 12 {
                return Err(EclError::Truncated);
            }
            let a0 = read_i32_at(data, pos);
            let a1 = read_u32_at(data, pos + 4);
            let a2 = read_u8_at(data, pos + 8);
            let a3 = read_u8_at(data, pos + 9);
            let a4 = read_u8_at(data, pos + 10);
            let a5 = read_u8_at(data, pos + 11);
            Ok((SubInstruction::DropParticles(a0, a1, a2, a3, a4, a5), pos + 12))
        },
        119 => {
            if data.len() < pos || data.len() - pos < 4 {
                return Err(EclError::Truncated);
            }
            let a0 = read_i32_at(data, pos);
            Ok((SubInstruction::DropBonus(a0), pos + 4))
        },
        120 => {
            if data.len() < pos || data.len() - pos < 4 {
                return Err(EclError::Truncated);
            }
            let a0 = read_i32_at(data, pos);
            Ok((SubInstruction::SetAutomaticOrientation(a0), pos + 4))
        },
        121 => {
            if data.len() < pos || data.len() - pos < 8 {
                return Err(EclError::Truncated);
            }
            let a0 = read_i32_at(data, pos);
            let a1 = read_i32_at(data, pos + 4);
            Ok((SubInstruction::CallSpecialFunction(a0, a1), pos + 8))
        },
        122 => {
            if data.len() < pos || data.len() - pos < 4 {
                return Err(EclError::Truncated);
            }
            let a0 = read_i32_at(data, pos);
            Ok((SubInstruction::SetSpecialFunctionCallback(a0), pos + 4))
        },
        123 => {
            if data.len() < pos || data.len() - pos < 4 {
                return Err(EclError::Truncated);
            }
            let a0 = read_i32_at(data, pos);
            Ok((SubInstruction::SkipFrames(a0), pos + 4))
        },
        124 => {
            if data.len() < pos || data.len() - pos < 4 {
                return Err(EclError::Truncated);
            }
            let a0 = read_i32_at(data, pos);
            Ok((SubInstruction::DropSpecificBonus(a0), pos + 4))
        },
        125 => {
            if data.len() < pos {
                return Err(EclError::Truncated);
            }
            Ok((SubInstruction::UNK_ins125, pos))
        },
        126 => {
            if data.len() < pos || data.len() - pos < 4 {
                return Err(EclError::Truncated);
            }
            let a0 = read_i32_at(data, pos);
            Ok((SubInstruction::SetRemainingLives(a0), pos + 4))
        },
        127 => {
            if data.len() < pos || data.len() - pos < 4 {
                return Err(EclError::Truncated);
            }
            let a0 = read_i32_at(data, pos);
            Ok((SubInstruction::UNK_ins127(a0), pos + 4))
        },
        128 => {
            if data.len() < pos || data.len() - pos < 4 {
                return Err(EclError::Truncated);
            }
            let a0 = read_i32_at(data, pos);
            Ok((SubInstruction::Interrupt(a0), pos + 4))
        },
        129 => {
            if data.len() < pos || data.len() - pos < 8 {
                return Err(EclError::Truncated);
            }
            let a0 = read_i32_at(data, pos);
            let a1 = read_i32_at(data, pos + 4);
            Ok((SubInstruction::InterruptAux(a0, a1), pos + 8))
        },
        130 => {
            if data.len() < pos || data.len() - pos < 4 {
                return Err(EclError::Truncated);
            }
            let a0 = read_i32_at(data, pos);
            Ok((SubInstruction::UNK_ins130(a0), pos + 4))
        },
        131 => {
            if data.len() < pos || data.len() - pos < 24 {
                return Err(EclError::Truncated);
            }
            let a0 = read_u32_at(data, pos);
            let a1 = read_u32_at(data, pos + 4);
            let a2 = read_i32_at(data, pos + 8);
            let a3 = read_i32_at(data, pos + 12);
            let a4 = read_i32_at(data, pos + 16);
            let a5 = read_i32_at(data, pos + 20);
            Ok((SubInstruction::SetDifficultyCoeffs(a0, a1, a2, a3, a4, a5), pos + 24))
        },
        132 => {
            if data.len() < pos || data.len() - pos < 4 {
                return Err(EclError::Truncated);
            }
            let a0 = read_i32_at(data, pos);
            Ok((SubInstruction::SetInvisible(a0), pos + 4))
        },
        133 => {
            if data.len() < pos {
                return Err(EclError::Truncated);
            }
            Ok((SubInstruction::CopyCallbacks, pos))
        },
        134 => {
            if data.len() < pos {
                return Err(EclError::Truncated);
            }
            Ok((SubInstruction::UNK_ins134, pos))
        },
        135 => {
            if data.len() < pos || data.len() - pos < 4 {
                return Err(EclError::Truncated);
            }
            let a0 = read_i32_at(data, pos);
            Ok((SubInstruction::EnableSpellcardBonus(a0), pos + 4))
        },
        _ => Err(EclError::UnknownOpcode(opcode)),
    }
}

/// Decode the argument tuple of one Sub instruction at `pos`, returning
/// the instruction and the cursor position just past its arguments.
pub fn parse_sub_instruction_args(data: &[u8], pos: usize, opcode: u16) -> (r: Result<
    (SubInstruction, usize),
    EclError,
>)
    ensures
        (r matches Ok(_)) == (sub_args_size(opcode) >= 0 && pos + sub_args_size(opcode)
            <= data@.len()),
        r matches Ok(iq) ==> (sub_args_match(data@, pos as int, opcode, iq.0)
            && iq.1 == pos + sub_args_size(opcode)),
        r matches Err(e) ==> e == (if sub_args_size(opcode) < 0 {
            EclError::UnknownOpcode(opcode)
        } else {
            EclError::Truncated
        }),
{
    if opcode < 32 {
        parse_sub_args_range0(data, pos, opcode)
    } else if opcode < 64 {
        parse_sub_args_range1(data, pos, opcode)
    } else if opcode < 96 {
        parse_sub_args_range2(data, pos, opcode)
    } else {
        parse_sub_args_range3(data, pos, opcode)
    }
}

} // verus!
