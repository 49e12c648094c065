//! End-to-end tests of the record, sequence and whole-buffer decoders.

use ecl::ecl::{parse_main, parse_sub, parse_sub_instruction, Ecl};
use ecl::error::EclError;
use ecl::main_instructions::MainInstruction;
use ecl::sub_instructions::SubInstruction;

fn push_u16(buf: &mut Vec<u8>, v: u16) {
    buf.extend_from_slice(&v.to_le_bytes());
}

fn push_i32(buf: &mut Vec<u8>, v: i32) {
    buf.extend_from_slice(&v.to_le_bytes());
}

fn push_u32(buf: &mut Vec<u8>, v: u32) {
    buf.extend_from_slice(&v.to_le_bytes());
}

fn push_f32(buf: &mut Vec<u8>, v: f32) {
    buf.extend_from_slice(&v.to_bits().to_le_bytes());
}

/// One Sub record: 12-byte header then the argument bytes.
fn push_sub_record(buf: &mut Vec<u8>, time: i32, opcode: u16, size: u16, rank: u16, param: u16) {
    push_i32(buf, time);
    push_u16(buf, opcode);
    push_u16(buf, size);
    push_u16(buf, rank);
    push_u16(buf, param);
}

fn push_sub_sentinel(buf: &mut Vec<u8>) {
    push_i32(buf, -1);
    push_u16(buf, 0xffff);
}

fn push_main_sentinel(buf: &mut Vec<u8>) {
    push_u16(buf, 0xffff);
    push_u16(buf, 4);
}

#[test]
fn sub_record_set_int() {
    let mut buf = Vec::new();
    push_sub_record(&mut buf, 10, 4, 20, 0xff00, 5);
    push_i32(&mut buf, 7);
    push_i32(&mut buf, -3);
    let r = parse_sub_instruction(&buf, 0).unwrap();
    let (call, end) = r.expect("not a sentinel");
    assert_eq!(end, 20);
    assert_eq!(call.time, 10);
    assert_eq!(call.rank_mask.bits, 0xff00);
    assert_eq!(call.param_mask, 5);
    match call.instr {
        SubInstruction::SetInt(var, value) => {
            assert_eq!(var, 7);
            assert_eq!(value, -3);
        }
        other => panic!("wrong variant: {:?}", other),
    }
}

#[test]
fn sub_record_float_bits() {
    // SetFloat(var, value): the f32 argument is preserved as its bit pattern.
    let mut buf = Vec::new();
    push_sub_record(&mut buf, 0, 5, 20, 0x0100, 0);
    push_i32(&mut buf, 2);
    push_f32(&mut buf, 1.5);
    let (call, _) = parse_sub_instruction(&buf, 0).unwrap().unwrap();
    match call.instr {
        SubInstruction::SetFloat(var, bits) => {
            assert_eq!(var, 2);
            assert_eq!(bits, (1.5f32).to_bits());
            assert_eq!(f32::from_bits(bits), 1.5);
        }
        other => panic!("wrong variant: {:?}", other),
    }
}

#[test]
fn sub_record_sentinel_detected() {
    let mut buf = Vec::new();
    push_sub_sentinel(&mut buf);
    let r = parse_sub_instruction(&buf, 0).unwrap();
    assert!(r.is_none());
}

#[test]
fn sub_record_size_mismatch() {
    let mut buf = Vec::new();
    // SetInt takes 8 argument bytes, so the true record size is 20.
    push_sub_record(&mut buf, 0, 4, 21, 0x0100, 0);
    push_i32(&mut buf, 1);
    push_i32(&mut buf, 2);
    buf.push(0);
    match parse_sub_instruction(&buf, 0) {
        Err(EclError::SizeMismatch(declared, actual)) => {
            assert_eq!(declared, 21);
            assert_eq!(actual, 20);
        }
        other => panic!("expected SizeMismatch, got {:?}", other),
    }
}

#[test]
fn sub_record_unknown_opcode() {
    // 44 sits in a gap of the documented table; 136 is past its end.
    for &op in &[44u16, 136u16] {
        let mut buf = Vec::new();
        push_sub_record(&mut buf, 0, op, 12, 0x0100, 0);
        match parse_sub_instruction(&buf, 0) {
            Err(EclError::UnknownOpcode(got)) => assert_eq!(got, op),
            other => panic!("expected UnknownOpcode, got {:?}", other),
        }
    }
}

#[test]
fn sub_record_invalid_rank_bits() {
    let mut buf = Vec::new();
    push_sub_record(&mut buf, 0, 0, 12, 0xff01, 0);
    match parse_sub_instruction(&buf, 0) {
        Err(EclError::InvalidRankBits(raw)) => assert_eq!(raw, 0xff01),
        other => panic!("expected InvalidRankBits, got {:?}", other),
    }
}

#[test]
fn sub_record_truncated() {
    let mut buf = Vec::new();
    push_sub_record(&mut buf, 0, 4, 20, 0x0100, 0);
    push_i32(&mut buf, 1);
    // Second argument missing.
    match parse_sub_instruction(&buf, 0) {
        Err(EclError::Truncated) => {}
        other => panic!("expected Truncated, got {:?}", other),
    }
}

#[test]
fn sub_sequence_stops_at_sentinel() {
    let mut buf = Vec::new();
    push_sub_record(&mut buf, 1, 0, 12, 0x0100, 0);
    push_sub_record(&mut buf, 2, 18, 16, 0x0200, 0);
    push_i32(&mut buf, 9);
    push_sub_sentinel(&mut buf);
    // Garbage past the sentinel must never be read.
    buf.extend_from_slice(&[0xAB; 40]);
    let sub = parse_sub(&buf, 0).unwrap();
    assert_eq!(sub.instructions.len(), 2);
    assert_eq!(sub.instructions[0].time, 1);
    assert!(matches!(sub.instructions[0].instr, SubInstruction::Noop));
    assert_eq!(sub.instructions[1].time, 2);
    match sub.instructions[1].instr {
        SubInstruction::Increment(var) => assert_eq!(var, 9),
        ref other => panic!("wrong variant: {:?}", other),
    }
}

#[test]
fn sub_sequence_empty() {
    let mut buf = Vec::new();
    push_sub_sentinel(&mut buf);
    buf.extend_from_slice(&[0x55; 8]);
    let sub = parse_sub(&buf, 0).unwrap();
    assert_eq!(sub.instructions.len(), 0);
}

#[test]
fn main_record_spawn_enemy() {
    let mut buf = Vec::new();
    push_u16(&mut buf, 60); // time
    push_u16(&mut buf, 3); // sub
    push_u16(&mut buf, 0); // opcode: SpawnEnemy
    push_u16(&mut buf, 28); // size: 8 header + 20 args
    push_f32(&mut buf, 1.5);
    push_f32(&mut buf, -2.0);
    push_f32(&mut buf, 0.25);
    buf.extend_from_slice(&100i16.to_le_bytes());
    buf.extend_from_slice(&2i16.to_le_bytes());
    push_u32(&mut buf, 1000);
    push_main_sentinel(&mut buf);
    let main = parse_main(&buf, 0).unwrap();
    assert_eq!(main.instructions.len(), 1);
    let call = &main.instructions[0];
    assert_eq!(call.time, 60);
    assert_eq!(call.sub, 3);
    match call.instr {
        MainInstruction::SpawnEnemy(x, y, z, life, bonus, score) => {
            assert_eq!(f32::from_bits(x), 1.5);
            assert_eq!(f32::from_bits(y), -2.0);
            assert_eq!(f32::from_bits(z), 0.25);
            assert_eq!(life, 100);
            assert_eq!(bonus, 2);
            assert_eq!(score, 1000);
        }
        other => panic!("wrong variant: {:?}", other),
    }
}

#[test]
fn main_record_unknown_opcode() {
    let mut buf = Vec::new();
    push_u16(&mut buf, 0);
    push_u16(&mut buf, 0);
    push_u16(&mut buf, 3); // not in the Main table
    push_u16(&mut buf, 8);
    match parse_main(&buf, 0) {
        Err(EclError::UnknownOpcode(op)) => assert_eq!(op, 3),
        other => panic!("expected UnknownOpcode, got {:?}", other),
    }
}

/// A minimal well-formed file: `nsubs` sentinel-only Subs and `mains`
/// sentinel-only Mains (at most 3), with correct offset tables.
fn build_file(nsubs: u16, nmains: usize) -> Vec<u8> {
    let mut buf = Vec::new();
    push_u16(&mut buf, nsubs);
    push_u16(&mut buf, 0);
    let header_len = 4 + 12 + 4 * nsubs as usize;
    // Main offsets: sequences laid out after the Sub sequences.
    let subs_len = 6 * nsubs as usize;
    for k in 0..3 {
        if k < nmains {
            push_u32(&mut buf, (header_len + subs_len + 4 * k) as u32);
        } else {
            push_u32(&mut buf, 0);
        }
    }
    for k in 0..nsubs as usize {
        push_u32(&mut buf, (header_len + 6 * k) as u32);
    }
    for _ in 0..nsubs {
        push_sub_sentinel(&mut buf);
    }
    for _ in 0..nmains {
        push_main_sentinel(&mut buf);
    }
    buf
}

#[test]
fn whole_file_counts() {
    let buf = build_file(2, 1);
    let ecl = Ecl::from_slice(&buf).unwrap();
    assert_eq!(ecl.subs.len(), 2);
    assert_eq!(ecl.mains.len(), 1);
    assert_eq!(ecl.subs[0].instructions.len(), 0);
    assert_eq!(ecl.mains[0].instructions.len(), 0);
}

#[test]
fn whole_file_regression_counts() {
    // Regression shape: 24 Subs and a single Main.
    let buf = build_file(24, 1);
    let ecl = Ecl::from_slice(&buf).unwrap();
    assert_eq!(ecl.subs.len(), 24);
    assert_eq!(ecl.mains.len(), 1);
}

#[test]
fn whole_file_with_instructions() {
    let mut buf = Vec::new();
    push_u16(&mut buf, 1); // sub_count
    push_u16(&mut buf, 0); // main_count
    let header_len: usize = 4 + 12 + 4;
    let sub_body = 12 + 6; // one Noop record + sentinel
    push_u32(&mut buf, (header_len + sub_body) as u32); // main offset 0
    push_u32(&mut buf, 0);
    push_u32(&mut buf, 0);
    push_u32(&mut buf, header_len as u32); // sub offset 0
    push_sub_record(&mut buf, 30, 0, 12, 0x0f00, 0);
    push_sub_sentinel(&mut buf);
    // Main: one CallMessage record, then the sentinel.
    push_u16(&mut buf, 12);
    push_u16(&mut buf, 0);
    push_u16(&mut buf, 8);
    push_u16(&mut buf, 8);
    push_main_sentinel(&mut buf);
    let ecl = Ecl::from_slice(&buf).unwrap();
    assert_eq!(ecl.subs.len(), 1);
    assert_eq!(ecl.subs[0].instructions.len(), 1);
    assert_eq!(ecl.subs[0].instructions[0].time, 30);
    assert_eq!(ecl.subs[0].instructions[0].rank_mask.bits, 0x0f00);
    assert_eq!(ecl.mains.len(), 1);
    assert_eq!(ecl.mains[0].instructions.len(), 1);
    assert_eq!(ecl.mains[0].instructions[0].time, 12);
    assert!(matches!(ecl.mains[0].instructions[0].instr, MainInstruction::CallMessage));
}

#[test]
fn main_count_must_be_zero() {
    let mut buf = build_file(1, 1);
    buf[2] = 1; // main_count
    match Ecl::from_slice(&buf) {
        Err(EclError::UnsupportedFeature) => {}
        other => panic!("expected UnsupportedFeature, got {:?}", other),
    }
}

#[test]
fn header_truncated() {
    for len in 0..16 {
        let buf = vec![0u8; len];
        // With fewer than 16 bytes even the offset arrays cannot be read
        // (sub_count is 0 here, so exactly 16 bytes are required).
        match Ecl::from_slice(&buf) {
            Err(EclError::Truncated) => {}
            other => panic!("expected Truncated at len {}, got {:?}", len, other),
        }
    }
}

#[test]
fn main_offsets_stop_at_first_zero() {
    // Offsets [m, 0, m]: decoding must stop at the zero and yield one Main.
    let mut buf = build_file(0, 1);
    let third = buf.len() as u32;
    buf[12..16].copy_from_slice(&third.to_le_bytes());
    push_main_sentinel(&mut buf);
    let ecl = Ecl::from_slice(&buf).unwrap();
    assert_eq!(ecl.mains.len(), 1);

    // Offsets [0, m, m]: no Main at all.
    let mut buf2 = build_file(0, 2);
    buf2[4..8].copy_from_slice(&0u32.to_le_bytes());
    let ecl2 = Ecl::from_slice(&buf2).unwrap();
    assert_eq!(ecl2.mains.len(), 0);
}

#[test]
fn sub_offset_out_of_bounds() {
    let mut buf = build_file(1, 0);
    // Point the sole Sub offset far past the end of the buffer.
    buf[16..20].copy_from_slice(&0xffff_0000u32.to_le_bytes());
    match Ecl::from_slice(&buf) {
        Err(EclError::Truncated) => {}
        other => panic!("expected Truncated, got {:?}", other),
    }
}

#[test]
fn decode_never_panics_on_noise() {
    // Deterministic pseudo-random buffers: decode must always return.
    let mut state: u64 = 0x2545F4914F6CDD1D;
    for len in 0..200usize {
        let mut buf = Vec::with_capacity(len);
        for _ in 0..len {
            state = state.wrapping_mul(6364136223846793005).wrapping_add(1442695040888963407);
            buf.push((state >> 33) as u8);
        }
        let _ = Ecl::from_slice(&buf);
        let _ = parse_sub(&buf, 0);
        let _ = parse_main(&buf, 0);
    }
}
