//! Decoding of 32-bit MIPS I instruction words into typed instructions.
//!
//! A word is split into its fixed bit fields (see `fields`), then classified
//! by its primary opcode and, for the grouping opcodes, by a secondary field
//! (see `mipsi`). Every word decodes to exactly one instruction or to a
//! `DecodeError` that carries the word back.

use vstd::prelude::*;

pub mod fields;
pub mod lemmas;
pub mod mipsi;

pub use mipsi::MipsI;

verus! {

/// Decoding of a raw value into an instruction of type `T`.
pub trait Decode<T> {
    type Error;

    fn decode(&self) -> Result<T, Self::Error>;
}

/// The word matched no instruction of the set.
#[derive(Debug, PartialEq, Eq, Structural)]
pub enum DecodeError {
    CannotDecodeU8 { u32: u32 },
}

/// Register-format payload: three register indices and a shift amount,
/// each five bits wide.
#[derive(Debug, PartialEq, Eq, Structural)]
pub struct Register {
    pub rs: u8,
    pub rt: u8,
    pub rd: u8,
    pub sa: u8,
}

/// Immediate-format payload: two register indices and the raw 16-bit
/// immediate, whose sign is left to the consumer.
#[derive(Debug, PartialEq, Eq, Structural)]
pub struct Immediate {
    pub rs: u8,
    pub rt: u8,
    pub immediate: u16,
}

/// Jump-format payload: the raw 26-bit instruction index.
#[derive(Debug, PartialEq, Eq, Structural)]
pub struct Jump {
    pub target: u32,
}

impl Register {
    /// Every field fits in five bits.
    pub open spec fn wf(self) -> bool {
        self.rs < 32 && self.rt < 32 && self.rd < 32 && self.sa < 32
    }
}

impl Immediate {
    /// Both register indices fit in five bits.
    pub open spec fn wf(self) -> bool {
        self.rs < 32 && self.rt < 32
    }
}

impl Jump {
    /// The target fits in 26 bits.
    pub open spec fn wf(self) -> bool {
        self.target < 0x400_0000
    }
}

} // verus!
