//! Facts about the decoder that hold of every word.

use vstd::arithmetic::power2::lemma2_to64;
use vstd::prelude::*;

use crate::fields::{bits, fields_of, Fields};
use crate::mipsi::{
    decode_spec, decoded, flat_table, is_grouping, MipsI, BC, BC_FALSE, BC_TRUE, COP0, COP3, J, JAL,
    SPECIAL,
};
use crate::DecodeError;

verus! {

/// The tags that the flat opcode table can produce.
spec fn from_flat_table(i: MipsI) -> bool {
    match i {
        MipsI::Beq(_) | MipsI::Bne(_) | MipsI::Blez(_) | MipsI::Bgtz(_) | MipsI::Addi(_)
        | MipsI::Addiu(_) | MipsI::Slti(_) | MipsI::Sltiu(_) | MipsI::Andi(_) | MipsI::Ori(_)
        | MipsI::Xori(_) | MipsI::Lui(_) | MipsI::Lb(_) | MipsI::Lh(_) | MipsI::Lwl(_)
        | MipsI::Lw(_) | MipsI::Lbu(_) | MipsI::Lhu(_) | MipsI::Lwr(_) | MipsI::Sb(_)
        | MipsI::Sh(_) | MipsI::Swl(_) | MipsI::Sw(_) | MipsI::Swr(_) | MipsI::Swc1(_)
        | MipsI::Swc2(_) | MipsI::Swc3(_) | MipsI::Lwc1(_) | MipsI::Lwc2(_) | MipsI::Lwc3(_) => true,
        _ => false,
    }
}

/// Each field of `fields_of(word)` equals its bit range of `word`.
proof fn lemma_fields_are_bits(word: u32)
    ensures
        fields_of(word).op == bits(word, 26, 6),
        fields_of(word).rs == bits(word, 21, 5),
        fields_of(word).rt == bits(word, 16, 5),
        fields_of(word).rd == bits(word, 11, 5),
        fields_of(word).sa == bits(word, 6, 5),
        fields_of(word).funct == bits(word, 0, 6),
        fields_of(word).immediate == bits(word, 0, 16),
        fields_of(word).target == bits(word, 0, 26),
        fields_of(word).wf(),
{
    lemma2_to64();
}

/// Every word decodes either to a well-formed instruction or to an error
/// that carries the word itself.
pub proof fn decode_total(word: u32)
    ensures
        decode_spec(word) matches Ok(i) ==> i.wf() && decoded(word) == Some(i),
        decode_spec(word) matches Err(e) ==> decoded(word) is None && e == (DecodeError::CannotDecodeU8 { u32: word }),
{
    lemma_fields_are_bits(word);
}

/// Decoding is a function of the word: two decodings of one word agree.
pub proof fn decode_deterministic(
    word: u32,
    a: Result<MipsI, DecodeError>,
    b: Result<MipsI, DecodeError>,
)
    requires
        a == decode_spec(word),
        b == decode_spec(word),
    ensures
        a == b,
{
}

/// Every decoded payload field is the matching bit range of the word:
/// registers at bits 25..21, 20..16, 15..11 and the shift amount at 10..6,
/// the immediate at 15..0 and the jump target at 25..0.
pub proof fn decoded_fields_match_word(word: u32)
    ensures
        decoded(word) matches Some(i) ==> {
            &&& (i.register_payload() matches Some(p) ==> {
                &&& p.rs == bits(word, 21, 5)
                &&& p.rt == bits(word, 16, 5)
                &&& p.rd == bits(word, 11, 5)
                &&& p.sa == bits(word, 6, 5)
            })
            &&& (i.immediate_payload() matches Some(p) ==> {
                &&& p.rs == bits(word, 21, 5)
                &&& p.rt == bits(word, 16, 5)
                &&& p.immediate == bits(word, 0, 16)
            })
            &&& (i.jump_payload() matches Some(p) ==> p.target == bits(word, 0, 26))
        },
{
    lemma_fields_are_bits(word);
}

/// Every instruction carries exactly one payload shape, the one its tag
/// is bound to.
pub proof fn payload_shape_is_unique(i: MipsI)
    ensures
        i.register_payload() is Some || i.immediate_payload() is Some || i.jump_payload() is Some,
        !(i.register_payload() is Some && i.immediate_payload() is Some),
        !(i.register_payload() is Some && i.jump_payload() is Some),
        !(i.immediate_payload() is Some && i.jump_payload() is Some),
{
}

/// A decoded instruction has its fields within their bit widths, and its
/// shape follows from the encoding: jump format for the two jump opcodes,
/// register format for the function-code group and for coprocessor words
/// other than the two coprocessor branches, immediate format for everything
/// else.
pub proof fn decoded_shape_follows_opcode(word: u32)
    ensures
        decoded(word) matches Some(i) ==> {
            let f = fields_of(word);
            let cop = COP0 <= f.op && f.op <= COP3;
            let cop_branch = f.rs == BC && (f.rd == BC_FALSE || f.rd == BC_TRUE);
            &&& i.wf()
            &&& (i.jump_payload() is Some <==> (f.op == J || f.op == JAL))
            &&& (i.register_payload() is Some <==> (f.op == SPECIAL || (cop && !cop_branch)))
            &&& (i.immediate_payload() is Some <==> !(f.op == J || f.op == JAL || f.op == SPECIAL || (cop && !cop_branch)))
        },
{
    lemma_fields_are_bits(word);
}

/// A word of any of the four coprocessor groups always decodes: a sub-opcode
/// that the group does not assign gives the coprocessor's generic operation.
pub proof fn coprocessor_words_always_decode(word: u32)
    requires
        COP0 <= fields_of(word).op <= COP3,
    ensures
        decoded(word) is Some,
        decode_spec(word) is Ok,
{
    lemma_fields_are_bits(word);
}

/// Words whose opcode is a grouping value never take a result of the flat
/// opcode table, whatever fields that table is read with; every other word
/// takes exactly what the table holds for its opcode.
pub proof fn grouping_opcodes_bypass_flat_table(word: u32, other: Fields)
    ensures
        is_grouping(fields_of(word).op) ==> (decoded(word) is None || decoded(word) != flat_table(other)),
        !is_grouping(fields_of(word).op) ==> decoded(word) == flat_table(fields_of(word)),
{
    lemma_fields_are_bits(word);
    assert(flat_table(other) matches Some(i) ==> from_flat_table(i));
    assert(is_grouping(fields_of(word).op) ==> (decoded(word) matches Some(i) ==> !from_flat_table(i)));
}

} // verus!
