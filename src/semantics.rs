use vstd::prelude::*;
use crate::decode::{general_register, sign_extended, spec_imm_mode};
use crate::memory::{cells_after_read, key_after_read, value_read, MEMORY_MAX, MR_KBSR};
use crate::opcode::DecodeError;
use crate::register::{flag_bits_of, wrap_add, Register};

verus! {

/// What the machine does after a step.
#[derive(Debug, Clone, Copy, PartialEq, Eq, Structural)]
pub enum Status {
    /// the instruction completed; the next one may follow
    Running,
    /// a HALT trap ran; the loop must stop
    Halted,
    /// the instruction reads a character and none is waiting; nothing changed
    NeedInput,
    /// the instruction cannot be carried out; the loop must stop
    Fault(DecodeError),
}

/// The whole observable machine: registers, memory, the character waiting
/// on the input (if any) and everything written to the output so far.
#[verifier::ext_equal]
pub struct VmState {
    pub regs: Seq<u16>,
    pub mem: Seq<u16>,
    pub key: Option<u8>,
    pub out: Seq<u8>,
}

/// The value register `r` holds.
pub open spec fn reg(s: VmState, r: Register) -> u16 {
    s.regs[r.spec_index()]
}

/// `s` with `v` in register `r`.
pub open spec fn set_reg(s: VmState, r: Register, v: u16) -> VmState {
    VmState { regs: s.regs.update(r.spec_index(), v), mem: s.mem, key: s.key, out: s.out }
}

/// `s` with `v` in register `r` and the condition register describing `v`.
pub open spec fn set_result(s: VmState, r: Register, v: u16) -> VmState {
    VmState {
        regs: s.regs.update(r.spec_index(), v).update(Register::COND.spec_index(), flag_bits_of(v)),
        mem: s.mem,
        key: s.key,
        out: s.out,
    }
}

/// `s` after a memory read of `loc` (which polls the keyboard at the status register).
pub open spec fn after_read(s: VmState, loc: u16) -> VmState {
    VmState {
        regs: s.regs,
        mem: cells_after_read(s.mem, loc, s.key),
        key: key_after_read(loc, s.key),
        out: s.out,
    }
}

/// The value a memory read of `loc` returns in state `s`.
pub open spec fn read_value(s: VmState, loc: u16) -> u16 {
    value_read(s.mem, loc, s.key)
}

/// `s` with `v` stored at `loc`.
pub open spec fn store(s: VmState, loc: u16, v: u16) -> VmState {
    VmState { regs: s.regs, mem: s.mem.update(loc as int, v), key: s.key, out: s.out }
}

/// `s` with `bytes` written to the output.
pub open spec fn emit(s: VmState, bytes: Seq<u8>) -> VmState {
    VmState { regs: s.regs, mem: s.mem, key: s.key, out: s.out + bytes }
}

/// `s` with the waiting character taken.
pub open spec fn take_key(s: VmState) -> VmState {
    VmState { regs: s.regs, mem: s.mem, key: None, out: s.out }
}

/// The text a HALT trap writes.
pub open spec fn halt_notice() -> Seq<u8> {
    seq![72u8, 65u8, 76u8, 84u8]
}

/// The program counter.
pub open spec fn pc(s: VmState) -> u16 {
    reg(s, Register::PC)
}

/// Nine-bit PC offset.
pub open spec fn offset9(instr: u16) -> u16 {
    sign_extended(instr & 0x1ff, 9)
}

/// Eleven-bit PC offset.
pub open spec fn offset11(instr: u16) -> u16 {
    sign_extended(instr & 0x7ff, 11)
}

/// Six-bit base offset.
pub open spec fn offset6(instr: u16) -> u16 {
    sign_extended(instr & 0x3f, 6)
}

/// Destination register field.
pub open spec fn dr(instr: u16) -> Register {
    general_register((instr >> 9) & 7)
}

/// First source (or base) register field.
pub open spec fn sr1(instr: u16) -> Register {
    general_register((instr >> 6) & 7)
}

/// The second operand of ADD and AND: the immediate or the second source register.
pub open spec fn operand2(s: VmState, instr: u16) -> u16 {
    if spec_imm_mode(instr) {
        sign_extended(instr & 0x1f, 5)
    } else {
        reg(s, general_register(instr & 7))
    }
}

/// Whether the n/z/p mask of a BR instruction accepts the condition bits `cond`.
pub open spec fn branch_taken(instr: u16, cond: u16) -> bool {
    ((instr >> 11) & 1 == 1 && cond == 4) || ((instr >> 10) & 1 == 1 && cond == 2) || (
    (instr >> 9) & 1 == 1 && cond == 1)
}

/// BR: adds the PC offset when the n/z/p mask accepts COND.
pub open spec fn op_br(s: VmState, instr: u16) -> VmState {
    if branch_taken(instr, reg(s, Register::COND)) {
        set_reg(s, Register::PC, wrap_add(pc(s), offset9(instr)))
    } else {
        s
    }
}

/// ADD: register plus register or immediate, wrapping; sets the flags.
pub open spec fn op_add(s: VmState, instr: u16) -> VmState {
    set_result(s, dr(instr), wrap_add(reg(s, sr1(instr)), operand2(s, instr)))
}

/// AND: bitwise and with a register or immediate; sets the flags.
pub open spec fn op_and(s: VmState, instr: u16) -> VmState {
    set_result(s, dr(instr), reg(s, sr1(instr)) & operand2(s, instr))
}

/// NOT: bitwise complement; sets the flags.
pub open spec fn op_not(s: VmState, instr: u16) -> VmState {
    set_result(s, dr(instr), !reg(s, sr1(instr)))
}

/// LD: loads the cell at PC plus offset; sets the flags.
pub open spec fn op_ld(s: VmState, instr: u16) -> VmState {
    let a = wrap_add(pc(s), offset9(instr));
    set_result(after_read(s, a), dr(instr), read_value(s, a))
}

/// LDR: loads the cell at base register plus offset; sets the flags.
pub open spec fn op_ldr(s: VmState, instr: u16) -> VmState {
    let a = wrap_add(reg(s, sr1(instr)), offset6(instr));
    set_result(after_read(s, a), dr(instr), read_value(s, a))
}

/// LDI: loads through the pointer stored at PC plus offset; sets the flags.
pub open spec fn op_ldi(s: VmState, instr: u16) -> VmState {
    let a = wrap_add(pc(s), offset9(instr));
    let s1 = after_read(s, a);
    let p = read_value(s, a);
    set_result(after_read(s1, p), dr(instr), read_value(s1, p))
}

/// ST: stores a register at PC plus offset.
pub open spec fn op_st(s: VmState, instr: u16) -> VmState {
    store(s, wrap_add(pc(s), offset9(instr)), reg(s, dr(instr)))
}

/// STR: stores a register at base register plus offset.
pub open spec fn op_str(s: VmState, instr: u16) -> VmState {
    store(s, wrap_add(reg(s, sr1(instr)), offset6(instr)), reg(s, dr(instr)))
}

/// STI: stores a register through the pointer stored at PC plus offset.
pub open spec fn op_sti(s: VmState, instr: u16) -> VmState {
    let a = wrap_add(pc(s), offset9(instr));
    store(after_read(s, a), read_value(s, a), reg(s, dr(instr)))
}

/// JSR (bit 11 set: PC-relative) or JSRR (base register); R7 receives the return address.
pub open spec fn op_jsr(s: VmState, instr: u16) -> VmState {
    let target = if (instr >> 11) & 1 == 1 {
        wrap_add(pc(s), offset11(instr))
    } else {
        reg(s, sr1(instr))
    };
    set_reg(set_reg(s, Register::R7, pc(s)), Register::PC, target)
}

/// JMP: jumps to the address in the base register.
pub open spec fn op_jmp(s: VmState, instr: u16) -> VmState {
    set_reg(s, Register::PC, reg(s, sr1(instr)))
}

/// LEA: loads PC plus offset into a register; sets the flags.
pub open spec fn op_lea(s: VmState, instr: u16) -> VmState {
    set_result(s, dr(instr), wrap_add(pc(s), offset9(instr)))
}

/// The characters one string cell stands for: its low byte, and with `packed`
/// also its high byte when that is not zero.
pub open spec fn cell_chars(c: u16, packed: bool) -> Seq<u8> {
    if packed && (c >> 8) as u8 != 0 {
        seq![(c & 0xff) as u8, (c >> 8) as u8]
    } else {
        seq![(c & 0xff) as u8]
    }
}

/// Writes the string that starts at `loc`: cell after cell up to a zero cell
/// or the end of memory.
pub open spec fn put_string(s: VmState, loc: int, packed: bool) -> VmState
    decreases MEMORY_MAX - loc,
{
    if loc < 0 || loc >= MEMORY_MAX {
        s
    } else {
        let c = read_value(s, loc as u16);
        let s1 = after_read(s, loc as u16);
        if c == 0 {
            s1
        } else {
            put_string(emit(s1, cell_chars(c, packed)), loc + 1, packed)
        }
    }
}

/// The character waiting on the input, as a register value.
pub open spec fn key_value(s: VmState) -> u16 {
    match s.key {
        Some(c) => c as u16,
        None => 0,
    }
}

/// A TRAP instruction; R7 receives the return address.
pub open spec fn op_trap(s: VmState, instr: u16) -> (VmState, Status) {
    let code = instr & 0xff;
    let s1 = set_reg(s, Register::R7, pc(s));
    if code == 0x20 {
        (set_result(take_key(s1), Register::R0, key_value(s)), Status::Running)
    } else if code == 0x21 {
        (emit(s1, seq![(reg(s, Register::R0) & 0xff) as u8]), Status::Running)
    } else if code == 0x22 {
        (put_string(s1, reg(s, Register::R0) as int, false), Status::Running)
    } else if code == 0x23 {
        (
            set_result(take_key(emit(s1, seq![key_value(s) as u8])), Register::R0, key_value(s)),
            Status::Running,
        )
    } else if code == 0x24 {
        (put_string(s1, reg(s, Register::R0) as int, true), Status::Running)
    } else if code == 0x25 {
        (emit(s1, halt_notice()), Status::Halted)
    } else {
        (s, Status::Fault(DecodeError::UnknownTrap(instr)))
    }
}

/// Carries out `instr` on a state whose PC has already advanced past it.
pub open spec fn execute(s: VmState, instr: u16) -> (VmState, Status) {
    let op = instr >> 12;
    if op == 0 {
        (op_br(s, instr), Status::Running)
    } else if op == 1 {
        (op_add(s, instr), Status::Running)
    } else if op == 2 {
        (op_ld(s, instr), Status::Running)
    } else if op == 3 {
        (op_st(s, instr), Status::Running)
    } else if op == 4 {
        (op_jsr(s, instr), Status::Running)
    } else if op == 5 {
        (op_and(s, instr), Status::Running)
    } else if op == 6 {
        (op_ldr(s, instr), Status::Running)
    } else if op == 7 {
        (op_str(s, instr), Status::Running)
    } else if op == 9 {
        (op_not(s, instr), Status::Running)
    } else if op == 10 {
        (op_ldi(s, instr), Status::Running)
    } else if op == 11 {
        (op_sti(s, instr), Status::Running)
    } else if op == 12 {
        (op_jmp(s, instr), Status::Running)
    } else if op == 14 {
        (op_lea(s, instr), Status::Running)
    } else if op == 15 {
        op_trap(s, instr)
    } else {
        (s, Status::Fault(DecodeError::Unimplemented(instr)))
    }
}

/// Whether the instruction at PC reads a character while none is waiting.
pub open spec fn waits_for_input(s: VmState) -> bool {
    let i = s.mem[pc(s) as int];
    &&& pc(s) != MR_KBSR
    &&& s.key is None
    &&& i >> 12 == 15
    &&& ((i & 0xff) == 0x20 || (i & 0xff) == 0x23)
}

/// `s` after the fetch: the instruction read and PC advanced by one.
pub open spec fn fetched(s: VmState) -> VmState {
    set_reg(after_read(s, pc(s)), Register::PC, wrap_add(pc(s), 1))
}

/// One fetch-decode-execute cycle.
pub open spec fn next(s: VmState) -> (VmState, Status) {
    if waits_for_input(s) {
        (s, Status::NeedInput)
    } else {
        execute(fetched(s), read_value(s, pc(s)))
    }
}

} // verus!
