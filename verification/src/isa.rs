//! The symbolic instruction set of the validation subroutines, and its
//! assembly into bytecode.
//!
//! Only the instructions that the schema's validation logic uses are
//! modelled. Their byte layout follows the verification machine's encoding:
//! one opcode byte, then the operands, each 16-bit operand little-endian.

use vstd::prelude::*;

use crate::errors::BuildError;

verus! {

/// Opcode of the commitment-sum consistency check: the Pedersen-committed
/// amounts must sum to the declared total, within two range-bound operands.
pub const OP_PCCS: u8 = 0xd1;

/// Opcode of the commitment-sum conservation check: the sum of the input
/// commitments must equal the sum of the output commitments, in the
/// commitment family selected by the operand.
pub const OP_PCVS: u8 = 0xd0;

/// Opcode of the subroutine return instruction of the machine's control-flow
/// family.
pub const OP_RET: u8 = 0x07;

/// Upper bound on a library's code segment, in bytes: the machine addresses
/// code with 16-bit offsets and lengths.
pub const MAX_CODE_LEN: usize = 65535;

/// One symbolic instruction.
#[derive(Clone, Copy, Debug, PartialEq, Eq, Structural)]
pub enum Instr {
    /// Check Pedersen commitments against the declared total; the operands
    /// are the upper and lower range-bound parameters of the check.
    Pccs(u16, u16),
    /// Return from the current subroutine.
    Ret,
    /// Check conservation of committed sums between consumed and produced
    /// assignments; the operand selects the commitment family.
    Pcvs(u16),
}

/// The two bytes of `x`, least significant first.
pub open spec fn le16(x: u16) -> Seq<u8> {
    seq![(x & 0xff) as u8, ((x >> 8) & 0xff) as u8]
}

/// Byte encoding of one instruction: opcode byte, then operands.
pub open spec fn spec_encode(i: Instr) -> Seq<u8> {
    match i {
        Instr::Pccs(a, b) => seq![OP_PCCS] + le16(a) + le16(b),
        Instr::Ret => seq![OP_RET],
        Instr::Pcvs(a) => seq![OP_PCVS] + le16(a),
    }
}

/// Byte encoding of an instruction sequence: the encodings, concatenated.
pub open spec fn spec_assemble(s: Seq<Instr>) -> Seq<u8>
    decreases s.len(),
{
    if s.len() == 0 {
        Seq::empty()
    } else {
        spec_encode(s.first()) + spec_assemble(s.drop_first())
    }
}

/// Appends the encoding of `i` to `out`.
pub fn encode_instr(out: &mut Vec<u8>, i: &Instr)
    ensures
        final(out)@ == old(out)@ + spec_encode(*i),
{
    match i {
        Instr::Pccs(a, b) => {
            out.push(OP_PCCS);
            out.push((*a & 0xff) as u8);
            out.push(((*a >> 8) & 0xff) as u8);
            out.push((*b & 0xff) as u8);
            out.push(((*b >> 8) & 0xff) as u8);
            assert(out@ =~= old(out)@ + spec_encode(*i));
        }
        Instr::Ret => {
            out.push(OP_RET);
            assert(out@ =~= old(out)@ + spec_encode(*i));
        }
        Instr::Pcvs(a) => {
            out.push(OP_PCVS);
            out.push((*a & 0xff) as u8);
            out.push(((*a >> 8) & 0xff) as u8);
            assert(out@ =~= old(out)@ + spec_encode(*i));
        }
    }
}

/// Assembles the instruction sequence into its byte encoding. Fails exactly
/// when the stream would overflow the code segment.
pub fn assemble(instrs: &Vec<Instr>) -> (r: Result<Vec<u8>, BuildError>)
    ensures
        r matches Ok(code) ==> code@ == spec_assemble(instrs@)
            && code@.len() <= MAX_CODE_LEN,
        r is Err ==> r == Err::<Vec<u8>, BuildError>(BuildError::OversizedCode)
            && spec_assemble(instrs@).len() > MAX_CODE_LEN,
{
    let mut out: Vec<u8> = Vec::new();
    let n = instrs.len();
    let mut i: usize = 0;
    assert(instrs@.skip(0) =~= instrs@);
    while i < n
        invariant
            i <= n,
            n == instrs@.len(),
            out@ + spec_assemble(instrs@.skip(i as int)) == spec_assemble(instrs@),
        decreases n - i,
    {
        proof {
            assert(instrs@.skip(i as int).first() == instrs@[i as int]);
            assert(instrs@.skip(i as int).drop_first() =~= instrs@.skip(i as int + 1));
        }
        let ins = instrs[i];
        encode_instr(&mut out, &ins);
        i += 1;
    }
    assert(instrs@.skip(n as int) =~= Seq::<Instr>::empty());
    assert(out@ =~= spec_assemble(instrs@));
    if out.len() > MAX_CODE_LEN {
        Err(BuildError::OversizedCode)
    } else {
        Ok(out)
    }
}

} // verus!
