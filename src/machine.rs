use vstd::prelude::*;
use crate::decode::{get_dr, get_imm5, get_imm_mode, get_sr1, get_sr2, sign_extend};
use crate::memory::{Memory, MEMORY_MAX, MR_KBSR};
use crate::trap::Trap;
use crate::opcode::{ConditionFlag, DecodeError, Opcode};
use crate::register::{Register, RegisterBlock};
use crate::semantics::{
    after_read, cell_chars, emit, halt_notice, fetched, next, op_add, op_and, op_br, op_jmp, op_jsr, op_ld,
    op_ldi, op_ldr, op_lea, op_not, op_st, op_sti, op_str, op_trap, operand2, put_string,
    read_value, Status, VmState,
};

verus! {

/// Address at which execution starts.
pub const PC_START: u16 = 0x3000;

/// The machine: a register file and a memory, owned together.
pub struct Machine {
    pub registers: RegisterBlock,
    pub memory: Memory,
}

impl Machine {
    /// Memory covers the address space and COND holds a flag.
    pub open spec fn wf(&self) -> bool {
        &&& self.memory.wf()
        &&& ConditionFlag::is_flag_bits(self.registers.spec_get(Register::COND))
    }

    /// The machine together with the input character and the output so far.
    pub open spec fn state(&self, key: Option<u8>, out: Seq<u8>) -> VmState {
        VmState { regs: self.registers@, mem: self.memory@, key, out }
    }

    /// A machine over `memory` with zeroed registers, PC at the start
    /// address and the condition register at zero.
    pub fn new(memory: Memory) -> (m: Machine)
        requires
            memory.wf(),
        ensures
            m.wf(),
            m.memory@ == memory@,
            m.registers@ == Seq::new(10, |i: int| 0u16).update(
                Register::PC.spec_index(),
                PC_START,
            ).update(Register::COND.spec_index(), ConditionFlag::ZRO.spec_bits()),
    {
        let mut registers = RegisterBlock::new();
        registers.set(Register::PC, PC_START);
        registers.set(Register::COND, ConditionFlag::ZRO.bits());
        Machine { registers, memory }
    }

    fn exec_br(&mut self, instr: u16, key: &mut Option<u8>, out: &mut Vec<u8>)
        requires
            old(self).wf(),
        ensures
            final(self).wf(),
            final(self).state(*final(key), final(out)@) == op_br(
                old(self).state(*old(key), old(out)@),
                instr,
            ),
    {
        let pc_offset = sign_extend(instr & 0x1ff, 9);
        let n_flag = (instr >> 11) & 0x1 == 1;
        let z_flag = (instr >> 10) & 0x1 == 1;
        let p_flag = (instr >> 9) & 0x1 == 1;
        let cond = self.registers.read_cond();
        if (n_flag && cond == ConditionFlag::NEG) || (z_flag && cond == ConditionFlag::ZRO) || (
        p_flag && cond == ConditionFlag::POS) {
            let pc = self.registers.get(Register::PC);
            self.registers.set(Register::PC, pc.wrapping_add(pc_offset));
        }
    }

    fn operand2(&self, instr: u16, key: &Option<u8>, out: &Vec<u8>) -> (v: u16)
        ensures
            v == operand2(self.state(*key, out@), instr),
    {
        if get_imm_mode(instr) {
            get_imm5(instr)
        } else {
            self.registers.get(get_sr2(instr))
        }
    }

    fn exec_alu(&mut self, op: Opcode, instr: u16, key: &mut Option<u8>, out: &mut Vec<u8>)
        requires
            old(self).wf(),
            op == Opcode::ADD || op == Opcode::AND || op == Opcode::NOT || op == Opcode::LEA,
        ensures
            final(self).wf(),
            ({
                let s = old(self).state(*old(key), old(out)@);
                final(self).state(*final(key), final(out)@) == if op == Opcode::ADD {
                    op_add(s, instr)
                } else if op == Opcode::AND {
                    op_and(s, instr)
                } else if op == Opcode::NOT {
                    op_not(s, instr)
                } else {
                    op_lea(s, instr)
                }
            }),
    {
        let dr = get_dr(instr);
        let a = self.registers.get(get_sr1(instr));
        let v = match op {
            Opcode::ADD => a.wrapping_add(self.operand2(instr, key, out)),
            Opcode::AND => a & self.operand2(instr, key, out),
            Opcode::NOT => !a,
            _ => self.registers.get(Register::PC).wrapping_add(sign_extend(instr & 0x1ff, 9)),
        };
        self.registers.write_and_update(dr, v);
    }

    fn load(&mut self, loc: u16, key: &mut Option<u8>, out: &mut Vec<u8>) -> (v: u16)
        requires
            old(self).wf(),
        ensures
            final(self).wf(),
            final(self).state(*final(key), final(out)@) == after_read(
                old(self).state(*old(key), old(out)@),
                loc,
            ),
            v == read_value(old(self).state(*old(key), old(out)@), loc),
    {
        crate::memory::read(&mut self.memory, loc, key)
    }

    fn store(&mut self, loc: u16, v: u16)
        requires
            old(self).wf(),
        ensures
            final(self).wf(),
            final(self).registers == old(self).registers,
            final(self).memory@ == old(self).memory@.update(loc as int, v),
    {
        let _ = crate::memory::write(&mut self.memory, loc as usize, v);
    }

    fn exec_load(&mut self, op: Opcode, instr: u16, key: &mut Option<u8>, out: &mut Vec<u8>)
        requires
            old(self).wf(),
            op == Opcode::LD || op == Opcode::LDR || op == Opcode::LDI,
        ensures
            final(self).wf(),
            ({
                let s = old(self).state(*old(key), old(out)@);
                final(self).state(*final(key), final(out)@) == if op == Opcode::LD {
                    op_ld(s, instr)
                } else if op == Opcode::LDR {
                    op_ldr(s, instr)
                } else {
                    op_ldi(s, instr)
                }
            }),
    {
        let dr = get_dr(instr);
        let addr = match op {
            Opcode::LDR => self.registers.get(get_sr1(instr)).wrapping_add(
                sign_extend(instr & 0x3f, 6),
            ),
            _ => self.registers.get(Register::PC).wrapping_add(sign_extend(instr & 0x1ff, 9)),
        };
        let mut v = self.load(addr, key, out);
        if op == Opcode::LDI {
            v = self.load(v, key, out);
        }
        self.registers.write_and_update(dr, v);
    }

    fn exec_store(&mut self, op: Opcode, instr: u16, key: &mut Option<u8>, out: &mut Vec<u8>)
        requires
            old(self).wf(),
            op == Opcode::ST || op == Opcode::STR || op == Opcode::STI,
        ensures
            final(self).wf(),
            ({
                let s = old(self).state(*old(key), old(out)@);
                final(self).state(*final(key), final(out)@) == if op == Opcode::ST {
                    op_st(s, instr)
                } else if op == Opcode::STR {
                    op_str(s, instr)
                } else {
                    op_sti(s, instr)
                }
            }),
    {
        let v = self.registers.get(get_dr(instr));
        let mut addr = match op {
            Opcode::STR => self.registers.get(get_sr1(instr)).wrapping_add(
                sign_extend(instr & 0x3f, 6),
            ),
            _ => self.registers.get(Register::PC).wrapping_add(sign_extend(instr & 0x1ff, 9)),
        };
        if op == Opcode::STI {
            addr = self.load(addr, key, out);
        }
        self.store(addr, v);
    }

    fn exec_jump(&mut self, op: Opcode, instr: u16, key: &mut Option<u8>, out: &mut Vec<u8>)
        requires
            old(self).wf(),
            op == Opcode::JSR || op == Opcode::JMP,
        ensures
            final(self).wf(),
            ({
                let s = old(self).state(*old(key), old(out)@);
                final(self).state(*final(key), final(out)@) == if op == Opcode::JSR {
                    op_jsr(s, instr)
                } else {
                    op_jmp(s, instr)
                }
            }),
    {
        let pc = self.registers.get(Register::PC);
        let base = self.registers.get(get_sr1(instr));
        if op == Opcode::JSR {
            let target = if (instr >> 11) & 0x1 == 1 {
                pc.wrapping_add(sign_extend(instr & 0x7ff, 11))
            } else {
                base
            };
            self.registers.set(Register::R7, pc);
            self.registers.set(Register::PC, target);
        } else {
            self.registers.set(Register::PC, base);
        }
    }

    fn put_string(&mut self, start: u16, packed: bool, key: &mut Option<u8>, out: &mut Vec<u8>)
        requires
            old(self).wf(),
        ensures
            final(self).wf(),
            final(self).state(*final(key), final(out)@) == put_string(
                old(self).state(*old(key), old(out)@),
                start as int,
                packed,
            ),
    {
        let ghost goal = put_string(self.state(*key, out@), start as int, packed);
        let mut loc: usize = start as usize;
        while loc < MEMORY_MAX
            invariant
                self.wf(),
                start <= loc <= MEMORY_MAX,
                put_string(self.state(*key, out@), loc as int, packed) == goal,
                goal == put_string(old(self).state(*old(key), old(out)@), start as int, packed),
            decreases MEMORY_MAX - loc,
        {
            let ghost before = self.state(*key, out@);
            let c = self.load(loc as u16, key, out);
            if c == 0 {
                assert(self.state(*key, out@) == put_string(before, loc as int, packed));
                return;
            }
            assert(c & 0xff < 256 && c >> 8 < 256) by (bit_vector);
            let low: u8 = (c & 0xff) as u8;
            out.push(low);
            if packed {
                let high = (c >> 8) as u8;
                if high != 0 {
                    out.push(high);
                }
            }
            assert(self.state(*key, out@) =~= emit(after_read(before, loc as u16), cell_chars(c, packed)));
            loc = loc + 1;
        }
    }

    fn exec_trap(&mut self, instr: u16, key: &mut Option<u8>, out: &mut Vec<u8>) -> (st: Status)
        requires
            old(self).wf(),
            (instr & 0xff == 0x20 || instr & 0xff == 0x23) ==> *old(key) is Some,
        ensures
            final(self).wf(),
            (final(self).state(*final(key), final(out)@), st) == op_trap(
                old(self).state(*old(key), old(out)@),
                instr,
            ),
    {
        let trap = match Trap::from_code(instr & 0xff) {
            Some(t) => t,
            None => {
                return Status::Fault(DecodeError::UnknownTrap(instr));
            },
        };
        let ghost s0 = self.state(*key, out@);
        let pc = self.registers.get(Register::PC);
        self.registers.set(Register::R7, pc);
        match trap {
            Trap::GETC => {
                let c: u8 = match *key {
                    Some(c) => c,
                    None => 0,
                };
                *key = None;
                self.registers.write_and_update(Register::R0, c as u16);
            },
            Trap::OUT => {
                let r0 = self.registers.get(Register::R0);
                assert(r0 & 0xff < 256) by (bit_vector);
                out.push((r0 & 0xff) as u8);
            },
            Trap::PUTS => {
                let start = self.registers.get(Register::R0);
                self.put_string(start, false, key, out);
            },
            Trap::IN => {
                let c: u8 = match *key {
                    Some(c) => c,
                    None => 0,
                };
                out.push(c);
                *key = None;
                self.registers.write_and_update(Register::R0, c as u16);
            },
            Trap::PUTSP => {
                let start = self.registers.get(Register::R0);
                self.put_string(start, true, key, out);
            },
            Trap::HALT => {
                out.push(72u8);
                out.push(65u8);
                out.push(76u8);
                out.push(84u8);
                assert(out@ =~= s0.out + halt_notice());
                return Status::Halted;
            },
        }
        assert(self.state(*key, out@) =~= op_trap(s0, instr).0);
        Status::Running
    }

    /// Runs one fetch-decode-execute cycle. `key` is the character waiting on
    /// the input, if any; the cycle takes it when it reads one. What the cycle
    /// writes is appended to `out`. When the instruction reads a character and
    /// none is waiting, nothing changes and `NeedInput` is returned.
    pub fn step(&mut self, key: &mut Option<u8>, out: &mut Vec<u8>) -> (st: Status)
        requires
            old(self).wf(),
        ensures
            final(self).wf(),
            (final(self).state(*final(key), final(out)@), st) == next(
                old(self).state(*old(key), old(out)@),
            ),
    {
        let ghost s0 = self.state(*key, out@);
        let pc = self.registers.get(Register::PC);
        if pc != MR_KBSR && key.is_none() {
            let ahead = self.memory.get(pc);
            if ahead >> 12 == 15 && ((ahead & 0xff) == 0x20 || (ahead & 0xff) == 0x23) {
                return Status::NeedInput;
            }
        }
        let pc = self.registers.read_and_inc_pc();
        let instr = self.load(pc, key, out);
        assert(self.state(*key, out@) == fetched(s0));
        assert(instr == read_value(s0, pc));
        assert(pc == MR_KBSR ==> (instr == 0x8000 || instr == 0));
        assert((instr == 0x8000 || instr == 0) ==> instr >> 12 != 15) by (bit_vector);
        let op = match Opcode::try_from_instruction(instr) {
            Ok(op) => op,
            Err(e) => {
                return Status::Fault(e);
            },
        };
        match op {
            Opcode::BR => {
                self.exec_br(instr, key, out);
            },
            Opcode::ADD | Opcode::AND | Opcode::NOT | Opcode::LEA => {
                self.exec_alu(op, instr, key, out);
            },
            Opcode::LD | Opcode::LDR | Opcode::LDI => {
                self.exec_load(op, instr, key, out);
            },
            Opcode::ST | Opcode::STR | Opcode::STI => {
                self.exec_store(op, instr, key, out);
            },
            Opcode::JSR | Opcode::JMP => {
                self.exec_jump(op, instr, key, out);
            },
            Opcode::TRAP => {
                return self.exec_trap(instr, key, out);
            },
            Opcode::RTI | Opcode::RES => {
                return Status::Fault(DecodeError::Unimplemented(instr));
            },
        }
        Status::Running
    }
}

} // verus!
