//! Tests of the rank bitmask and the fixed-width text field decoder.

use ecl::error::EclError;
use ecl::rank::{Rank, ALL, EASY, HARD, LUNATIC, NORMAL};
use ecl::sub_instructions::SubInstruction;
use ecl::text::le_string;

#[test]
fn rank_names_round_trip() {
    assert_eq!(Rank::from_name("easy").unwrap().bits, 0x100);
    assert_eq!(Rank::from_name("normal").unwrap().bits, 0x200);
    assert_eq!(Rank::from_name("hard").unwrap().bits, 0x400);
    assert_eq!(Rank::from_name("lunatic").unwrap().bits, 0x800);
    assert_eq!(EASY, 0x100);
    assert_eq!(NORMAL, 0x200);
    assert_eq!(HARD, 0x400);
    assert_eq!(LUNATIC, 0x800);
    assert_eq!(ALL, 0xff00);
}

#[test]
fn rank_name_rejected() {
    match Rank::from_name("xyz") {
        Err(EclError::InvalidRankName(s)) => assert_eq!(s, "xyz"),
        other => panic!("expected InvalidRankName, got {:?}", other),
    }
    // Names are case-sensitive.
    assert!(Rank::from_name("Easy").is_err());
    assert!(Rank::from_name("").is_err());
}

#[test]
fn rank_bits_validated() {
    match Rank::from_bits(0x0001) {
        Err(EclError::InvalidRankBits(raw)) => assert_eq!(raw, 0x0001),
        other => panic!("expected InvalidRankBits, got {:?}", other),
    }
    assert_eq!(Rank::from_bits(0x0300).unwrap().bits, 0x0300);
    assert_eq!(Rank::from_bits(0xff00).unwrap().bits, 0xff00);
    assert_eq!(Rank::from_bits(0).unwrap().bits, 0);
    assert!(Rank::from_bits(0xffff).is_err());
}

fn window(content: &[u8]) -> Vec<u8> {
    let mut buf = content.to_vec();
    while buf.len() < 34 {
        buf.push(0);
    }
    buf
}

#[test]
fn text_field_ascii() {
    let buf = window(b"AB");
    let (s, next) = le_string(&buf, 0).unwrap();
    assert_eq!(s, "AB");
    assert_eq!(next, 34);
}

#[test]
fn text_field_shift_jis() {
    // 0x82 0xA0 is the Shift JIS encoding of the hiragana "a".
    let buf = window(&[0x82, 0xA0]);
    let (s, _) = le_string(&buf, 0).unwrap();
    assert_eq!(s, "\u{3042}");
}

#[test]
fn text_field_no_zero_byte() {
    let buf = vec![b'A'; 40];
    let (s, next) = le_string(&buf, 3).unwrap();
    assert_eq!(s.len(), 34);
    assert_eq!(next, 37);
}

#[test]
fn text_field_truncated() {
    let buf = vec![b'A'; 33];
    match le_string(&buf, 0) {
        Err(EclError::Truncated) => {}
        other => panic!("expected Truncated, got {:?}", other),
    }
}

#[test]
fn spellcard_record_carries_text() {
    // Sub opcode 93 (SetSpellcard) embeds a 34-byte text field after two i16s.
    let mut buf = Vec::new();
    buf.extend_from_slice(&7i32.to_le_bytes()); // time
    buf.extend_from_slice(&93u16.to_le_bytes()); // opcode
    buf.extend_from_slice(&50u16.to_le_bytes()); // size: 12 + 2 + 2 + 34
    buf.extend_from_slice(&0x0800u16.to_le_bytes()); // rank mask
    buf.extend_from_slice(&0u16.to_le_bytes()); // param mask
    buf.extend_from_slice(&1i16.to_le_bytes()); // face
    buf.extend_from_slice(&2i16.to_le_bytes()); // number
    buf.extend_from_slice(&window(b"Spell"));
    let (call, end) = ecl::ecl::parse_sub_instruction(&buf, 0).unwrap().unwrap();
    assert_eq!(end, 50);
    match call.instr {
        SubInstruction::SetSpellcard(face, number, name) => {
            assert_eq!(face, 1);
            assert_eq!(number, 2);
            assert_eq!(name, "Spell");
        }
        other => panic!("wrong variant: {:?}", other),
    }
}

#[test]
fn call_sub_new_clears_param_mask() {
    let rank = Rank::from_bits(0x0100).unwrap();
    let call = ecl::ecl::CallSub::new(5, rank, SubInstruction::Return);
    assert_eq!(call.time, 5);
    assert_eq!(call.rank_mask.bits, 0x0100);
    assert_eq!(call.param_mask, 0);
    assert!(matches!(call.instr, SubInstruction::Return));
}
