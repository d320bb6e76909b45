use parsmips::fields::Fields;
use parsmips::{Decode, DecodeError, Immediate, Jump, MipsI, Register};

#[test]
fn decode_instruction() {
    assert_eq!(
        0x3c048000.decode(),
        Ok(MipsI::Lui(Immediate {
            rs: 0,
            rt: 4,
            immediate: 0x8000
        }))
    )
}

#[test]
fn decode_invalid_instruction() {
    assert_eq!(
        0x00000001.decode(),
        Err(DecodeError::CannotDecodeU8 { u32: 0x00000001 })
    );
}

#[test]
fn api_works() {
    assert_eq!(
        0x3c080013.decode(),
        Ok(MipsI::Lui(Immediate {
            rs: 0,
            rt: 8,
            immediate: 0x13
        }))
    );
}

#[test]
fn decode_add() {
    assert_eq!(
        0x00011020u32.decode(),
        Ok(MipsI::Add(Register { rs: 0, rt: 1, rd: 2, sa: 0 }))
    );
}

#[test]
fn decode_addi() {
    assert_eq!(
        0x2246743bu32.decode(),
        Ok(MipsI::Addi(Immediate { rs: 0x12, rt: 0x06, immediate: 0x743b }))
    );
}

#[test]
fn decode_jal() {
    assert_eq!(0x0e0ab251u32.decode(), Ok(MipsI::Jal(Jump { target: 0x020ab251 })));
}

#[test]
fn decode_j() {
    assert_eq!(0x0bffffffu32.decode(), Ok(MipsI::J(Jump { target: 0x03ffffff })));
}

#[test]
fn decode_zero_word_is_sll() {
    assert_eq!(
        0x00000000u32.decode(),
        Ok(MipsI::Sll(Register { rs: 0, rt: 0, rd: 0, sa: 0 }))
    );
}

#[test]
fn decode_all_ones_fails() {
    assert_eq!(
        0xffffffffu32.decode(),
        Err(DecodeError::CannotDecodeU8 { u32: 0xffffffff })
    );
}

#[test]
fn decode_unassigned_opcode_fails() {
    let word: u32 = 0x27 << 26;
    assert_eq!(word.decode(), Err(DecodeError::CannotDecodeU8 { u32: word }));
}

#[test]
fn register_fields_come_from_their_bits() {
    assert_eq!(
        0x03eaac60u32.decode(),
        Ok(MipsI::Add(Register { rs: 31, rt: 10, rd: 21, sa: 17 }))
    );
}

#[test]
fn decode_is_deterministic() {
    for word in [0x00011020u32, 0x2246743b, 0x00000001, 0x4a232146, 0xffffffff] {
        assert_eq!(word.decode(), word.decode());
    }
}

#[test]
fn regimm_selects_on_rd() {
    assert_eq!(
        0x04608800u32.decode(),
        Ok(MipsI::Bgezal(Immediate { rs: 3, rt: 0, immediate: 0x8800 }))
    );
    assert_eq!(
        0x04612800u32.decode(),
        Err(DecodeError::CannotDecodeU8 { u32: 0x04612800 })
    );
}

#[test]
fn cop0_functions() {
    assert_eq!(
        0x42000001u32.decode(),
        Ok(MipsI::Tlbr(Register { rs: 0x10, rt: 0, rd: 0, sa: 0 }))
    );
    assert_eq!(
        0x42000010u32.decode(),
        Ok(MipsI::Rfe(Register { rs: 0x10, rt: 0, rd: 0, sa: 0 }))
    );
    assert_eq!(
        0x40856000u32.decode(),
        Ok(MipsI::Mtc0(Register { rs: 4, rt: 5, rd: 12, sa: 0 }))
    );
}

// The generic coprocessor operation is a deliberate fallback: words in a
// coprocessor's operation region that name no modelled function decode to it.
#[test]
fn coprocessor_operation_fallback() {
    assert_eq!(
        0x42000003u32.decode(),
        Ok(MipsI::Cop0(Register { rs: 0x10, rt: 0, rd: 0, sa: 0 }))
    );
    assert_eq!(
        0x4a232146u32.decode(),
        Ok(MipsI::Cop2(Register { rs: 0x11, rt: 3, rd: 4, sa: 5 }))
    );
}

// Sub-opcodes that a coprocessor does not assign fall back to its generic
// operation as well: coprocessor groups never fail.
#[test]
fn coprocessor_unassigned_sub_opcodes_fall_back() {
    assert_eq!(
        0x40400000u32.decode(),
        Ok(MipsI::Cop0(Register { rs: 2, rt: 0, rd: 0, sa: 0 }))
    );
    assert_eq!(
        0x44200000u32.decode(),
        Ok(MipsI::Cop1(Register { rs: 1, rt: 0, rd: 0, sa: 0 }))
    );
    assert_eq!(
        0x45001000u32.decode(),
        Ok(MipsI::Cop1(Register { rs: 8, rt: 0, rd: 2, sa: 0 }))
    );
    assert_eq!(
        0x4fe0ffffu32.decode(),
        Ok(MipsI::Cop3(Register { rs: 0x1f, rt: 0, rd: 0x1f, sa: 0x1f }))
    );
}

#[test]
fn coprocessor_branch() {
    assert_eq!(
        0x45000800u32.decode(),
        Ok(MipsI::Bc1t(Immediate { rs: 8, rt: 0, immediate: 0x0800 }))
    );
}

#[test]
fn grouping_opcodes_never_reach_flat_table() {
    // Opcode 0x01 with an unassigned rd fails rather than taking a flat entry.
    let word: u32 = (0x01 << 26) | (0x02 << 11);
    assert_eq!(word.decode(), Err(DecodeError::CannotDecodeU8 { u32: word }));
}

#[test]
fn extract_reads_every_field() {
    let f = Fields::extract(0xdeadbeef);
    assert_eq!(f.op, 0x37);
    assert_eq!(f.rs, 0x15);
    assert_eq!(f.rt, 0x0d);
    assert_eq!(f.rd, 0x17);
    assert_eq!(f.sa, 0x1b);
    assert_eq!(f.funct, 0x2f);
    assert_eq!(f.immediate, 0xbeef);
    assert_eq!(f.target, 0x02adbeef);
}
