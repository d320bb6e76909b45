//! The fixed bit fields of an instruction word.

use vstd::arithmetic::power2::{lemma2_to64, pow2};
use vstd::prelude::*;

use crate::{Immediate, Jump, Register};

verus! {

/// The `width` bits of `word` that start at bit `lo`, as a number.
pub open spec fn bits(word: u32, lo: nat, width: nat) -> nat {
    ((word as nat) / pow2(lo)) % pow2(width)
}

/// All fields of a word, whatever its opcode turns out to be.
#[derive(Clone, Copy)]
pub struct Fields {
    /// Bits 31..26.
    pub op: u8,
    /// Bits 25..21.
    pub rs: u8,
    /// Bits 20..16.
    pub rt: u8,
    /// Bits 15..11.
    pub rd: u8,
    /// Bits 10..6.
    pub sa: u8,
    /// Bits 5..0.
    pub funct: u8,
    /// Bits 15..0.
    pub immediate: u16,
    /// Bits 25..0.
    pub target: u32,
}

/// The fields of `word`, each read from its bit range.
pub open spec fn fields_of(word: u32) -> Fields {
    Fields {
        op: bits(word, 26, 6) as u8,
        rs: bits(word, 21, 5) as u8,
        rt: bits(word, 16, 5) as u8,
        rd: bits(word, 11, 5) as u8,
        sa: bits(word, 6, 5) as u8,
        funct: bits(word, 0, 6) as u8,
        immediate: bits(word, 0, 16) as u16,
        target: bits(word, 0, 26) as u32,
    }
}

impl Fields {
    /// Every field fits in its bit width.
    pub open spec fn wf(self) -> bool {
        &&& self.op < 64
        &&& self.rs < 32
        &&& self.rt < 32
        &&& self.rd < 32
        &&& self.sa < 32
        &&& self.funct < 64
        &&& self.target < 0x400_0000
    }

    pub open spec fn register_spec(self) -> Register {
        Register { rs: self.rs, rt: self.rt, rd: self.rd, sa: self.sa }
    }

    pub open spec fn immediate_spec(self) -> Immediate {
        Immediate { rs: self.rs, rt: self.rt, immediate: self.immediate }
    }

    pub open spec fn jump_spec(self) -> Jump {
        Jump { target: self.target }
    }

    /// Splits `word` into its fields by shifting and masking.
    pub fn extract(word: u32) -> (f: Fields)
        ensures
            f == fields_of(word),
            f.wf(),
    {
        proof {
            lemma2_to64();
            assert(((word >> 26u32) & 0x3f) == (word / 0x400_0000) % 64) by (bit_vector);
            assert(((word >> 21u32) & 0x1f) == (word / 0x20_0000) % 32) by (bit_vector);
            assert(((word >> 16u32) & 0x1f) == (word / 0x1_0000) % 32) by (bit_vector);
            assert(((word >> 11u32) & 0x1f) == (word / 0x800) % 32) by (bit_vector);
            assert(((word >> 6u32) & 0x1f) == (word / 0x40) % 32) by (bit_vector);
            assert((word & 0x3f) == (word / 1) % 64) by (bit_vector);
            assert((word & 0xffff) == (word / 1) % 0x1_0000) by (bit_vector);
            assert((word & 0x3ff_ffff) == (word / 1) % 0x400_0000) by (bit_vector);
        }
        Fields {
            op: ((word >> 26u32) & 0x3f) as u8,
            rs: ((word >> 21u32) & 0x1f) as u8,
            rt: ((word >> 16u32) & 0x1f) as u8,
            rd: ((word >> 11u32) & 0x1f) as u8,
            sa: ((word >> 6u32) & 0x1f) as u8,
            funct: (word & 0x3f) as u8,
            immediate: (word & 0xffff) as u16,
            target: word & 0x3ff_ffff,
        }
    }

    /// The register-format payload of these fields.
    pub fn register(&self) -> (r: Register)
        ensures
            r == self.register_spec(),
    {
        Register { rs: self.rs, rt: self.rt, rd: self.rd, sa: self.sa }
    }

    /// The immediate-format payload of these fields.
    pub fn immediate(&self) -> (r: Immediate)
        ensures
            r == self.immediate_spec(),
    {
        Immediate { rs: self.rs, rt: self.rt, immediate: self.immediate }
    }

    /// The jump-format payload of these fields.
    pub fn jump(&self) -> (r: Jump)
        ensures
            r == self.jump_spec(),
    {
        Jump { target: self.target }
    }
}

} // verus!
