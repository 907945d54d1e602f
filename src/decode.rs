use vstd::prelude::*;
use crate::register::Register;

verus! {

/// `v` with bit `bit_count - 1` copied into every bit above it.
pub open spec fn sign_extended(v: u16, bit_count: u16) -> u16 {
    if (v >> (bit_count - 1) as u16) & 1 == 1 {
        v | (0xffffu16 << bit_count)
    } else {
        v
    }
}

/// Replicates bit `bit_count - 1` of `v` into every higher bit.
pub fn sign_extend(v: u16, bit_count: u16) -> (r: u16)
    requires
        1 <= bit_count < 16,
    ensures
        r == sign_extended(v, bit_count),
{
    let mut ret: u16 = v;
    if (ret >> (bit_count - 1)) & 1 == 1 {
        ret = ret | (0xffffu16 << bit_count);
    }
    ret
}

/// Sign extension changes nothing the second time.
pub proof fn lemma_sign_extend_idempotent(v: u16, bit_count: u16)
    requires
        1 <= bit_count < 16,
    ensures
        sign_extended(sign_extended(v, bit_count), bit_count) == sign_extended(v, bit_count),
{
    assert(1 <= bit_count < 16 ==> (((v >> (bit_count - 1) as u16) & 1 == 1) ==> (((v | (0xffffu16 << bit_count)) >> (bit_count - 1) as u16) & 1 == 1 && ((v | (0xffffu16 << bit_count)) | (0xffffu16 << bit_count)) == (v | (0xffffu16 << bit_count))))) by (bit_vector);
}

/// A value held in the low `bit_count` bits whose top bit is clear comes back unchanged:
/// it is its own zero extension.
pub proof fn lemma_sign_extend_nonnegative(v: u16, bit_count: u16)
    requires
        1 <= bit_count < 16,
        v < (1u16 << bit_count),
        (v >> (bit_count - 1) as u16) & 1 == 0,
    ensures
        sign_extended(v, bit_count) == v & ((1u16 << bit_count) - 1) as u16,
{
    assert(1 <= bit_count < 16 && v < (1u16 << bit_count) ==> v & ((1u16 << bit_count) - 1) as u16 == v) by (bit_vector);
}

/// Bit 5 of an instruction: the operand form of ADD and AND.
pub open spec fn spec_imm_mode(instr: u16) -> bool {
    (instr >> 5) & 1 == 1
}

/// The general register numbered by `n`, for `n` below eight.
pub open spec fn general_register(n: u16) -> Register {
    if n == 0 { Register::R0 }
    else if n == 1 { Register::R1 }
    else if n == 2 { Register::R2 }
    else if n == 3 { Register::R3 }
    else if n == 4 { Register::R4 }
    else if n == 5 { Register::R5 }
    else if n == 6 { Register::R6 }
    else { Register::R7 }
}

/// Whether the instruction selects the immediate operand form.
pub fn get_imm_mode(instr: u16) -> (r: bool)
    ensures
        r == spec_imm_mode(instr),
{
    (instr >> 5) & 0x1 == 1
}

fn register_field(n: u16) -> (r: Register)
    requires
        n < 8,
    ensures
        r == general_register(n),
        r.spec_index() == n,
{
    match Register::from_index(n) {
        Some(r) => r,
        None => Register::R0,
    }
}

/// The destination register: bits 9 to 11.
pub fn get_dr(instr: u16) -> (r: Register)
    ensures
        r == general_register((instr >> 9) & 7),
        r.is_general(),
{
    assert((instr >> 9) & 7 < 8) by (bit_vector);
    register_field((instr >> 9) & 0x7)
}

/// The first source register: bits 6 to 8.
pub fn get_sr1(instr: u16) -> (r: Register)
    ensures
        r == general_register((instr >> 6) & 7),
        r.is_general(),
{
    assert((instr >> 6) & 7 < 8) by (bit_vector);
    register_field((instr >> 6) & 0x7)
}

/// The second source register: bits 0 to 2.
pub fn get_sr2(instr: u16) -> (r: Register)
    ensures
        r == general_register(instr & 7),
        r.is_general(),
{
    assert(instr & 7 < 8) by (bit_vector);
    register_field(instr & 0x7)
}

/// The five-bit immediate operand, sign-extended; only for the immediate form.
pub fn get_imm5(instr: u16) -> (r: u16)
    requires
        spec_imm_mode(instr),
    ensures
        r == sign_extended(instr & 0x1f, 5),
{
    sign_extend(instr & 0x1f, 5)
}

} // verus!
