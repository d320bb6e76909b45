//! The MIPS I instruction set and its decoder.

use vstd::prelude::*;

use crate::fields::{fields_of, Fields};
use crate::{Decode, DecodeError, Immediate, Jump, Register};

verus! {

/// One MIPS I instruction: a tag per mnemonic, each bound to one payload shape.
#[derive(Debug, PartialEq, Eq, Structural)]
pub enum MipsI {
    Add(Register),
    Addi(Immediate),
    Addiu(Immediate),
    Addu(Register),
    And(Register),
    Andi(Immediate),
    Bc0f(Immediate),
    Bc0t(Immediate),
    Bc1f(Immediate),
    Bc1t(Immediate),
    Bc2f(Immediate),
    Bc2t(Immediate),
    Bc3f(Immediate),
    Bc3t(Immediate),
    Beq(Immediate),
    Bgez(Immediate),
    Bgezal(Immediate),
    Bgtz(Immediate),
    Blez(Immediate),
    Bltz(Immediate),
    Bltzal(Immediate),
    Bne(Immediate),
    Break(Register),
    Cfc1(Register),
    Cfc2(Register),
    Cfc3(Register),
    Cop0(Register),
    Cop1(Register),
    Cop2(Register),
    Cop3(Register),
    Ctc1(Register),
    Ctc2(Register),
    Ctc3(Register),
    Div(Register),
    Divu(Register),
    J(Jump),
    Jal(Jump),
    Jalr(Register),
    Jr(Register),
    Lb(Immediate),
    Lbu(Immediate),
    Lh(Immediate),
    Lhu(Immediate),
    Lui(Immediate),
    Lw(Immediate),
    Lwc1(Immediate),
    Lwc2(Immediate),
    Lwc3(Immediate),
    Lwl(Immediate),
    Lwr(Immediate),
    Mfc0(Register),
    Mfc1(Register),
    Mfc2(Register),
    Mfc3(Register),
    Mfhi(Register),
    Mflo(Register),
    Mtc0(Register),
    Mtc1(Register),
    Mtc2(Register),
    Mtc3(Register),
    Mthi(Register),
    Mtlo(Register),
    Mult(Register),
    Multu(Register),
    Nor(Register),
    Or(Register),
    Ori(Immediate),
    Rfe(Register),
    Sb(Immediate),
    Sh(Immediate),
    Sll(Register),
    Sllv(Register),
    Slt(Register),
    Slti(Immediate),
    Sltiu(Immediate),
    Sltu(Register),
    Sra(Register),
    Srav(Register),
    Srl(Register),
    Srlv(Register),
    Sub(Register),
    Subu(Register),
    Sw(Immediate),
    Swc1(Immediate),
    Swc2(Immediate),
    Swc3(Immediate),
    Swl(Immediate),
    Swr(Immediate),
    Syscall(Register),
    Tlbp(Register),
    Tlbr(Register),
    Tlbwi(Register),
    Tlbwr(Register),
    Xor(Register),
    Xori(Immediate),
}

impl MipsI {
    /// Every field of the payload fits in its bit width.
    pub open spec fn wf(self) -> bool {
        &&& (self.register_payload() matches Some(p) ==> p.wf())
        &&& (self.immediate_payload() matches Some(p) ==> p.wf())
        &&& (self.jump_payload() matches Some(p) ==> p.wf())
    }

    /// The payload, where the tag is of register format.
    pub open spec fn register_payload(self) -> Option<Register> {
        match self {
            MipsI::Add(p)
            | MipsI::Addu(p)
            | MipsI::And(p)
            | MipsI::Break(p)
            | MipsI::Cfc1(p)
            | MipsI::Cfc2(p)
            | MipsI::Cfc3(p)
            | MipsI::Cop0(p)
            | MipsI::Cop1(p)
            | MipsI::Cop2(p)
            | MipsI::Cop3(p)
            | MipsI::Ctc1(p)
            | MipsI::Ctc2(p)
            | MipsI::Ctc3(p)
            | MipsI::Div(p)
            | MipsI::Divu(p)
            | MipsI::Jalr(p)
            | MipsI::Jr(p)
            | MipsI::Mfc0(p)
            | MipsI::Mfc1(p)
            | MipsI::Mfc2(p)
            | MipsI::Mfc3(p)
            | MipsI::Mfhi(p)
            | MipsI::Mflo(p)
            | MipsI::Mtc0(p)
            | MipsI::Mtc1(p)
            | MipsI::Mtc2(p)
            | MipsI::Mtc3(p)
            | MipsI::Mthi(p)
            | MipsI::Mtlo(p)
            | MipsI::Mult(p)
            | MipsI::Multu(p)
            | MipsI::Nor(p)
            | MipsI::Or(p)
            | MipsI::Rfe(p)
            | MipsI::Sll(p)
            | MipsI::Sllv(p)
            | MipsI::Slt(p)
            | MipsI::Sltu(p)
            | MipsI::Sra(p)
            | MipsI::Srav(p)
            | MipsI::Srl(p)
            | MipsI::Srlv(p)
            | MipsI::Sub(p)
            | MipsI::Subu(p)
            | MipsI::Syscall(p)
            | MipsI::Tlbp(p)
            | MipsI::Tlbr(p)
            | MipsI::Tlbwi(p)
            | MipsI::Tlbwr(p)
            | MipsI::Xor(p) => Some(p),
            _ => None,
        }
    }

    /// The payload, where the tag is of immediate format.
    pub open spec fn immediate_payload(self) -> Option<Immediate> {
        match self {
            MipsI::Addi(p)
            | MipsI::Addiu(p)
            | MipsI::Andi(p)
            | MipsI::Bc0f(p)
            | MipsI::Bc0t(p)
            | MipsI::Bc1f(p)
            | MipsI::Bc1t(p)
            | MipsI::Bc2f(p)
            | MipsI::Bc2t(p)
            | MipsI::Bc3f(p)
            | MipsI::Bc3t(p)
            | MipsI::Beq(p)
            | MipsI::Bgez(p)
            | MipsI::Bgezal(p)
            | MipsI::Bgtz(p)
            | MipsI::Blez(p)
            | MipsI::Bltz(p)
            | MipsI::Bltzal(p)
            | MipsI::Bne(p)
            | MipsI::Lb(p)
            | MipsI::Lbu(p)
            | MipsI::Lh(p)
            | MipsI::Lhu(p)
            | MipsI::Lui(p)
            | MipsI::Lw(p)
            | MipsI::Lwc1(p)
            | MipsI::Lwc2(p)
            | MipsI::Lwc3(p)
            | MipsI::Lwl(p)
            | MipsI::Lwr(p)
            | MipsI::Ori(p)
            | MipsI::Sb(p)
            | MipsI::Sh(p)
            | MipsI::Slti(p)
            | MipsI::Sltiu(p)
            | MipsI::Sw(p)
            | MipsI::Swc1(p)
            | MipsI::Swc2(p)
            | MipsI::Swc3(p)
            | MipsI::Swl(p)
            | MipsI::Swr(p)
            | MipsI::Xori(p) => Some(p),
            _ => None,
        }
    }

    /// The payload, where the tag is of jump format.
    pub open spec fn jump_payload(self) -> Option<Jump> {
        match self {
            MipsI::J(p)
            | MipsI::Jal(p) => Some(p),
            _ => None,
        }
    }

}

/// Primary opcode of the register-format group, selected by the function code.
pub const SPECIAL: u8 = 0x00;
/// Primary opcode of the branch-on-register group, selected by `rd`.
pub const REGIMM: u8 = 0x01;
/// Primary opcode of `j`.
pub const J: u8 = 0x02;
/// Primary opcode of `jal`.
pub const JAL: u8 = 0x03;
/// Primary opcode of coprocessor 0; coprocessor `z` has `COP0 + z`.
pub const COP0: u8 = 0x10;
/// Primary opcode of coprocessor 3, the last one.
pub const COP3: u8 = 0x13;

/// Coprocessor sub-opcode (in `rs`): move from a coprocessor register.
pub const MF: u8 = 0x00;
/// Coprocessor sub-opcode: move from a coprocessor control register.
pub const CF: u8 = 0x02;
/// Coprocessor sub-opcode: move to a coprocessor register.
pub const MT: u8 = 0x04;
/// Coprocessor sub-opcode: move to a coprocessor control register.
pub const CT: u8 = 0x06;
/// Coprocessor sub-opcode: branch on the coprocessor condition.
pub const BC: u8 = 0x08;
/// First sub-opcode of the coprocessor-operation region.
pub const CO: u8 = 0x10;
/// Last sub-opcode of the coprocessor-operation region.
pub const CO_LAST: u8 = 0x1f;

/// Coprocessor branch condition (in `rd`): branch if false.
pub const BC_FALSE: u8 = 0x00;
/// Coprocessor branch condition: branch if true.
pub const BC_TRUE: u8 = 0x01;

/// The primary opcode is a grouping value: a secondary field, or the jump
/// format, decides the instruction instead of the flat opcode table.
pub open spec fn is_grouping(op: u8) -> bool {
    op == SPECIAL || op == REGIMM || op == J || op == JAL || (COP0 <= op && op <= COP3)
}

/// Function codes that coprocessor 0 assigns in its operation region.
pub open spec fn is_cop0_function(funct: u8) -> bool {
    funct == 0x01 || funct == 0x02 || funct == 0x06 || funct == 0x08 || funct == 0x10
}

/// Register-format instructions of the `SPECIAL` group, by function code.
pub open spec fn special_table(f: Fields) -> Option<MipsI> {
    match f.funct {
            0x00 => Some(MipsI::Sll(f.register_spec())),
            0x02 => Some(MipsI::Srl(f.register_spec())),
            0x03 => Some(MipsI::Sra(f.register_spec())),
            0x04 => Some(MipsI::Sllv(f.register_spec())),
            0x06 => Some(MipsI::Srlv(f.register_spec())),
            0x07 => Some(MipsI::Srav(f.register_spec())),
            0x08 => Some(MipsI::Jr(f.register_spec())),
            0x09 => Some(MipsI::Jalr(f.register_spec())),
            0x0c => Some(MipsI::Syscall(f.register_spec())),
            0x0d => Some(MipsI::Break(f.register_spec())),
            0x10 => Some(MipsI::Mfhi(f.register_spec())),
            0x11 => Some(MipsI::Mthi(f.register_spec())),
            0x12 => Some(MipsI::Mflo(f.register_spec())),
            0x13 => Some(MipsI::Mtlo(f.register_spec())),
            0x18 => Some(MipsI::Mult(f.register_spec())),
            0x19 => Some(MipsI::Multu(f.register_spec())),
            0x1a => Some(MipsI::Div(f.register_spec())),
            0x1b => Some(MipsI::Divu(f.register_spec())),
            0x20 => Some(MipsI::Add(f.register_spec())),
            0x21 => Some(MipsI::Addu(f.register_spec())),
            0x22 => Some(MipsI::Sub(f.register_spec())),
            0x23 => Some(MipsI::Subu(f.register_spec())),
            0x24 => Some(MipsI::And(f.register_spec())),
            0x25 => Some(MipsI::Or(f.register_spec())),
            0x26 => Some(MipsI::Xor(f.register_spec())),
            0x27 => Some(MipsI::Nor(f.register_spec())),
            0x2a => Some(MipsI::Slt(f.register_spec())),
            0x2b => Some(MipsI::Sltu(f.register_spec())),
            _ => None,
    }
}

/// Branches of the `REGIMM` group, by `rd`.
pub open spec fn regimm_table(f: Fields) -> Option<MipsI> {
    match f.rd {
            0x00 => Some(MipsI::Bltz(f.immediate_spec())),
            0x01 => Some(MipsI::Bgez(f.immediate_spec())),
            0x10 => Some(MipsI::Bltzal(f.immediate_spec())),
            0x11 => Some(MipsI::Bgezal(f.immediate_spec())),
            _ => None,
    }
}

/// Instructions of the four coprocessor groups: by sub-opcode in `rs`,
/// then by coprocessor number. In the operation region, coprocessor 0
/// assigns a few function codes. Every other word of a coprocessor group,
/// whatever its sub-opcode, is a generic operation of its coprocessor:
/// these groups never fail.
pub open spec fn coprocessor_table(f: Fields) -> Option<MipsI> {
    let r = f.register_spec();
    let i = f.immediate_spec();
    if f.rs == MF {
        match f.op {
            0x10 => Some(MipsI::Mfc0(r)),
            0x11 => Some(MipsI::Mfc1(r)),
            0x12 => Some(MipsI::Mfc2(r)),
            0x13 => Some(MipsI::Mfc3(r)),
            _ => None,
        }
    } else if f.rs == CF && f.op != COP0 {
        match f.op {
            0x11 => Some(MipsI::Cfc1(r)),
            0x12 => Some(MipsI::Cfc2(r)),
            0x13 => Some(MipsI::Cfc3(r)),
            _ => None,
        }
    } else if f.rs == MT {
        match f.op {
            0x10 => Some(MipsI::Mtc0(r)),
            0x11 => Some(MipsI::Mtc1(r)),
            0x12 => Some(MipsI::Mtc2(r)),
            0x13 => Some(MipsI::Mtc3(r)),
            _ => None,
        }
    } else if f.rs == CT && f.op != COP0 {
        match f.op {
            0x11 => Some(MipsI::Ctc1(r)),
            0x12 => Some(MipsI::Ctc2(r)),
            0x13 => Some(MipsI::Ctc3(r)),
            _ => None,
        }
    } else if f.rs == BC && f.rd == BC_FALSE {
        match f.op {
            0x10 => Some(MipsI::Bc0f(i)),
            0x11 => Some(MipsI::Bc1f(i)),
            0x12 => Some(MipsI::Bc2f(i)),
            0x13 => Some(MipsI::Bc3f(i)),
            _ => None,
        }
    } else if f.rs == BC && f.rd == BC_TRUE {
        match f.op {
            0x10 => Some(MipsI::Bc0t(i)),
            0x11 => Some(MipsI::Bc1t(i)),
            0x12 => Some(MipsI::Bc2t(i)),
            0x13 => Some(MipsI::Bc3t(i)),
            _ => None,
        }
    } else if f.op == COP0 && CO <= f.rs && f.rs <= CO_LAST && is_cop0_function(f.funct) {
        match f.funct {
            0x01 => Some(MipsI::Tlbr(r)),
            0x02 => Some(MipsI::Tlbwi(r)),
            0x06 => Some(MipsI::Tlbwr(r)),
            0x08 => Some(MipsI::Tlbp(r)),
            0x10 => Some(MipsI::Rfe(r)),
            _ => None,
        }
    } else {
        match f.op {
            0x10 => Some(MipsI::Cop0(r)),
            0x11 => Some(MipsI::Cop1(r)),
            0x12 => Some(MipsI::Cop2(r)),
            0x13 => Some(MipsI::Cop3(r)),
            _ => None,
        }
    }
}

/// Immediate-format instructions, by primary opcode alone.
pub open spec fn flat_table(f: Fields) -> Option<MipsI> {
    match f.op {
            0x04 => Some(MipsI::Beq(f.immediate_spec())),
            0x05 => Some(MipsI::Bne(f.immediate_spec())),
            0x06 => Some(MipsI::Blez(f.immediate_spec())),
            0x07 => Some(MipsI::Bgtz(f.immediate_spec())),
            0x08 => Some(MipsI::Addi(f.immediate_spec())),
            0x09 => Some(MipsI::Addiu(f.immediate_spec())),
            0x0a => Some(MipsI::Slti(f.immediate_spec())),
            0x0b => Some(MipsI::Sltiu(f.immediate_spec())),
            0x0c => Some(MipsI::Andi(f.immediate_spec())),
            0x0d => Some(MipsI::Ori(f.immediate_spec())),
            0x0e => Some(MipsI::Xori(f.immediate_spec())),
            0x0f => Some(MipsI::Lui(f.immediate_spec())),
            0x20 => Some(MipsI::Lb(f.immediate_spec())),
            0x21 => Some(MipsI::Lh(f.immediate_spec())),
            0x22 => Some(MipsI::Lwl(f.immediate_spec())),
            0x23 => Some(MipsI::Lw(f.immediate_spec())),
            0x24 => Some(MipsI::Lbu(f.immediate_spec())),
            0x25 => Some(MipsI::Lhu(f.immediate_spec())),
            0x26 => Some(MipsI::Lwr(f.immediate_spec())),
            0x28 => Some(MipsI::Sb(f.immediate_spec())),
            0x29 => Some(MipsI::Sh(f.immediate_spec())),
            0x2a => Some(MipsI::Swl(f.immediate_spec())),
            0x2b => Some(MipsI::Sw(f.immediate_spec())),
            0x2e => Some(MipsI::Swr(f.immediate_spec())),
            0x31 => Some(MipsI::Swc1(f.immediate_spec())),
            0x32 => Some(MipsI::Swc2(f.immediate_spec())),
            0x33 => Some(MipsI::Swc3(f.immediate_spec())),
            0x39 => Some(MipsI::Lwc1(f.immediate_spec())),
            0x3a => Some(MipsI::Lwc2(f.immediate_spec())),
            0x3b => Some(MipsI::Lwc3(f.immediate_spec())),
            _ => None,
    }
}

/// The instruction that `word` encodes, if any.
pub open spec fn decoded(word: u32) -> Option<MipsI> {
    let f = fields_of(word);
    if f.op == SPECIAL {
        special_table(f)
    } else if f.op == REGIMM {
        regimm_table(f)
    } else if COP0 <= f.op && f.op <= COP3 {
        coprocessor_table(f)
    } else if f.op == J {
        Some(MipsI::J(f.jump_spec()))
    } else if f.op == JAL {
        Some(MipsI::Jal(f.jump_spec()))
    } else {
        flat_table(f)
    }
}

/// What decoding `word` returns: its instruction, or an error that carries
/// the word.
pub open spec fn decode_spec(word: u32) -> Result<MipsI, DecodeError> {
    match decoded(word) {
        Some(i) => Ok(i),
        None => Err(DecodeError::CannotDecodeU8 { u32: word }),
    }
}

fn special(f: &Fields) -> (r: Option<MipsI>)
    ensures
        r == special_table(*f),
{
    match f.funct {
            0x00 => Some(MipsI::Sll(f.register())),
            0x02 => Some(MipsI::Srl(f.register())),
            0x03 => Some(MipsI::Sra(f.register())),
            0x04 => Some(MipsI::Sllv(f.register())),
            0x06 => Some(MipsI::Srlv(f.register())),
            0x07 => Some(MipsI::Srav(f.register())),
            0x08 => Some(MipsI::Jr(f.register())),
            0x09 => Some(MipsI::Jalr(f.register())),
            0x0c => Some(MipsI::Syscall(f.register())),
            0x0d => Some(MipsI::Break(f.register())),
            0x10 => Some(MipsI::Mfhi(f.register())),
            0x11 => Some(MipsI::Mthi(f.register())),
            0x12 => Some(MipsI::Mflo(f.register())),
            0x13 => Some(MipsI::Mtlo(f.register())),
            0x18 => Some(MipsI::Mult(f.register())),
            0x19 => Some(MipsI::Multu(f.register())),
            0x1a => Some(MipsI::Div(f.register())),
            0x1b => Some(MipsI::Divu(f.register())),
            0x20 => Some(MipsI::Add(f.register())),
            0x21 => Some(MipsI::Addu(f.register())),
            0x22 => Some(MipsI::Sub(f.register())),
            0x23 => Some(MipsI::Subu(f.register())),
            0x24 => Some(MipsI::And(f.register())),
            0x25 => Some(MipsI::Or(f.register())),
            0x26 => Some(MipsI::Xor(f.register())),
            0x27 => Some(MipsI::Nor(f.register())),
            0x2a => Some(MipsI::Slt(f.register())),
            0x2b => Some(MipsI::Sltu(f.register())),
            _ => None,
    }
}

fn regimm(f: &Fields) -> (r: Option<MipsI>)
    ensures
        r == regimm_table(*f),
{
    match f.rd {
            0x00 => Some(MipsI::Bltz(f.immediate())),
            0x01 => Some(MipsI::Bgez(f.immediate())),
            0x10 => Some(MipsI::Bltzal(f.immediate())),
            0x11 => Some(MipsI::Bgezal(f.immediate())),
            _ => None,
    }
}

fn cop0_function(funct: u8) -> (r: bool)
    ensures
        r == is_cop0_function(funct),
{
    funct == 0x01 || funct == 0x02 || funct == 0x06 || funct == 0x08 || funct == 0x10
}

fn coprocessor(f: &Fields) -> (result: Option<MipsI>)
    ensures
        result == coprocessor_table(*f),
{
    let r = f.register();
    let i = f.immediate();
    if f.rs == MF {
        match f.op {
            0x10 => Some(MipsI::Mfc0(r)),
            0x11 => Some(MipsI::Mfc1(r)),
            0x12 => Some(MipsI::Mfc2(r)),
            0x13 => Some(MipsI::Mfc3(r)),
            _ => None,
        }
    } else if f.rs == CF && f.op != COP0 {
        match f.op {
            0x11 => Some(MipsI::Cfc1(r)),
            0x12 => Some(MipsI::Cfc2(r)),
            0x13 => Some(MipsI::Cfc3(r)),
            _ => None,
        }
    } else if f.rs == MT {
        match f.op {
            0x10 => Some(MipsI::Mtc0(r)),
            0x11 => Some(MipsI::Mtc1(r)),
            0x12 => Some(MipsI::Mtc2(r)),
            0x13 => Some(MipsI::Mtc3(r)),
            _ => None,
        }
    } else if f.rs == CT && f.op != COP0 {
        match f.op {
            0x11 => Some(MipsI::Ctc1(r)),
            0x12 => Some(MipsI::Ctc2(r)),
            0x13 => Some(MipsI::Ctc3(r)),
            _ => None,
        }
    } else if f.rs == BC && f.rd == BC_FALSE {
        match f.op {
            0x10 => Some(MipsI::Bc0f(i)),
            0x11 => Some(MipsI::Bc1f(i)),
            0x12 => Some(MipsI::Bc2f(i)),
            0x13 => Some(MipsI::Bc3f(i)),
            _ => None,
        }
    } else if f.rs == BC && f.rd == BC_TRUE {
        match f.op {
            0x10 => Some(MipsI::Bc0t(i)),
            0x11 => Some(MipsI::Bc1t(i)),
            0x12 => Some(MipsI::Bc2t(i)),
            0x13 => Some(MipsI::Bc3t(i)),
            _ => None,
        }
    } else if f.op == COP0 && CO <= f.rs && f.rs <= CO_LAST && cop0_function(f.funct) {
        match f.funct {
            0x01 => Some(MipsI::Tlbr(r)),
            0x02 => Some(MipsI::Tlbwi(r)),
            0x06 => Some(MipsI::Tlbwr(r)),
            0x08 => Some(MipsI::Tlbp(r)),
            0x10 => Some(MipsI::Rfe(r)),
            _ => None,
        }
    } else {
        match f.op {
            0x10 => Some(MipsI::Cop0(r)),
            0x11 => Some(MipsI::Cop1(r)),
            0x12 => Some(MipsI::Cop2(r)),
            0x13 => Some(MipsI::Cop3(r)),
            _ => None,
        }
    }
}

fn flat(f: &Fields) -> (r: Option<MipsI>)
    ensures
        r == flat_table(*f),
{
    match f.op {
            0x04 => Some(MipsI::Beq(f.immediate())),
            0x05 => Some(MipsI::Bne(f.immediate())),
            0x06 => Some(MipsI::Blez(f.immediate())),
            0x07 => Some(MipsI::Bgtz(f.immediate())),
            0x08 => Some(MipsI::Addi(f.immediate())),
            0x09 => Some(MipsI::Addiu(f.immediate())),
            0x0a => Some(MipsI::Slti(f.immediate())),
            0x0b => Some(MipsI::Sltiu(f.immediate())),
            0x0c => Some(MipsI::Andi(f.immediate())),
            0x0d => Some(MipsI::Ori(f.immediate())),
            0x0e => Some(MipsI::Xori(f.immediate())),
            0x0f => Some(MipsI::Lui(f.immediate())),
            0x20 => Some(MipsI::Lb(f.immediate())),
            0x21 => Some(MipsI::Lh(f.immediate())),
            0x22 => Some(MipsI::Lwl(f.immediate())),
            0x23 => Some(MipsI::Lw(f.immediate())),
            0x24 => Some(MipsI::Lbu(f.immediate())),
            0x25 => Some(MipsI::Lhu(f.immediate())),
            0x26 => Some(MipsI::Lwr(f.immediate())),
            0x28 => Some(MipsI::Sb(f.immediate())),
            0x29 => Some(MipsI::Sh(f.immediate())),
            0x2a => Some(MipsI::Swl(f.immediate())),
            0x2b => Some(MipsI::Sw(f.immediate())),
            0x2e => Some(MipsI::Swr(f.immediate())),
            0x31 => Some(MipsI::Swc1(f.immediate())),
            0x32 => Some(MipsI::Swc2(f.immediate())),
            0x33 => Some(MipsI::Swc3(f.immediate())),
            0x39 => Some(MipsI::Lwc1(f.immediate())),
            0x3a => Some(MipsI::Lwc2(f.immediate())),
            0x3b => Some(MipsI::Lwc3(f.immediate())),
            _ => None,
    }
}

impl Decode<MipsI> for u32 {
    type Error = DecodeError;

    /// Decodes the word; fails exactly where no instruction matches.
    fn decode(&self) -> (r: Result<MipsI, DecodeError>)
        ensures
            r == decode_spec(*self),
    {
        let f = Fields::extract(*self);
        let found = if f.op == SPECIAL {
            special(&f)
        } else if f.op == REGIMM {
            regimm(&f)
        } else if COP0 <= f.op && f.op <= COP3 {
            coprocessor(&f)
        } else if f.op == J {
            Some(MipsI::J(f.jump()))
        } else if f.op == JAL {
            Some(MipsI::Jal(f.jump()))
        } else {
            flat(&f)
        };
        match found {
            Some(i) => Ok(i),
            None => Err(DecodeError::CannotDecodeU8 { u32: *self }),
        }
    }
}

} // verus!
