use lc3_vm::image::load_image;
use lc3_vm::machine::{Machine, PC_START};
use lc3_vm::memory::{Memory, MR_KBDR, MR_KBSR};
use lc3_vm::opcode::{ConditionFlag, DecodeError};
use lc3_vm::register::Register;
use lc3_vm::semantics::Status;

fn machine_with(words: &[(u16, u16)]) -> Machine {
    let mut mem = Memory::new();
    for (a, w) in words {
        lc3_vm::memory::write(&mut mem, *a as usize, *w).unwrap();
    }
    Machine::new(mem)
}

fn run_one(m: &mut Machine) -> (Status, Vec<u8>) {
    let mut key = None;
    let mut out = Vec::new();
    let st = m.step(&mut key, &mut out);
    (st, out)
}

#[test]
fn starts_at_default_address() {
    let m = Machine::new(Memory::new());
    assert_eq!(m.registers.get(Register::PC), PC_START);
    assert_eq!(m.registers.read_cond(), ConditionFlag::ZRO);
}

#[test]
fn add_immediate_from_image() {
    let mut mem = Memory::new();
    load_image(&mut mem, &vec![0x30, 0x00, 0x10, 0x21]).unwrap();
    let mut m = Machine::new(mem);
    let (st, out) = run_one(&mut m);
    assert_eq!(st, Status::Running);
    assert!(out.is_empty());
    assert_eq!(m.registers.get(Register::R0), 1);
    assert_eq!(m.registers.read_cond(), ConditionFlag::POS);
    assert_eq!(m.registers.get(Register::PC), 0x3001);
}

#[test]
fn add_wraps() {
    // ADD R1, R1, #-1 with R1 = 0
    let mut m = machine_with(&[(0x3000, 0x127f)]);
    run_one(&mut m);
    assert_eq!(m.registers.get(Register::R1), 0xffff);
    assert_eq!(m.registers.read_cond(), ConditionFlag::NEG);
    // ADD R2, R1, R3 with R3 = 1
    let mut m = machine_with(&[(0x3000, 0x1443)]);
    m.registers.set(Register::R1, 0xffff);
    m.registers.set(Register::R3, 1);
    run_one(&mut m);
    assert_eq!(m.registers.get(Register::R2), 0);
    assert_eq!(m.registers.read_cond(), ConditionFlag::ZRO);
}

#[test]
fn halt_stops_with_notice() {
    let mut m = machine_with(&[(0x3000, 0xf025)]);
    m.registers.set(Register::R3, 42);
    let (st, out) = run_one(&mut m);
    assert_eq!(st, Status::Halted);
    assert_eq!(out, b"HALT".to_vec());
    assert_eq!(m.registers.get(Register::PC), 0x3001);
    assert_eq!(m.registers.get(Register::R7), 0x3001);
    assert_eq!(m.registers.get(Register::R3), 42);
}

#[test]
fn branch_on_negative_taken() {
    // BRn #5
    let mut m = machine_with(&[(0x3000, 0x0805)]);
    m.registers.write_and_update(Register::R0, 0x8000);
    run_one(&mut m);
    assert_eq!(m.registers.get(Register::PC), 0x3006);
}

#[test]
fn branch_not_taken() {
    // BRn #5 with COND = ZRO
    let mut m = machine_with(&[(0x3000, 0x0805)]);
    run_one(&mut m);
    assert_eq!(m.registers.get(Register::PC), 0x3001);
    // BRzp #-2 with COND = ZRO goes back
    let mut m = machine_with(&[(0x3000, 0x07fe)]);
    run_one(&mut m);
    assert_eq!(m.registers.get(Register::PC), 0x2fff);
}

#[test]
fn loads_and_stores() {
    // LD R2, #2 ; ST R2, #3 ; LDR R4, R5, #-1 ; STR R4, R5, #1
    let mut m = machine_with(&[
        (0x3000, 0x2402),
        (0x3001, 0x3403),
        (0x3002, 0x697f),
        (0x3003, 0x7941),
    ]);
    // the word LD reads sits at 0x3003: it is the STR instruction itself
    run_one(&mut m);
    assert_eq!(m.registers.get(Register::R2), 0x7941);
    assert_eq!(m.registers.read_cond(), ConditionFlag::POS);
    run_one(&mut m);
    assert_eq!(m.memory.get(0x3005), 0x7941);
    m.registers.set(Register::R5, 0x4001);
    lc3_vm::memory::write(&mut m.memory, 0x4000, 0xfffe).unwrap();
    run_one(&mut m);
    assert_eq!(m.registers.get(Register::R4), 0xfffe);
    assert_eq!(m.registers.read_cond(), ConditionFlag::NEG);
    run_one(&mut m);
    assert_eq!(m.memory.get(0x4002), 0xfffe);
}

#[test]
fn indirect_load_and_store() {
    // LDI R1, #1 ; STI R1, #1 ; pointer 0x5000 ; pointer 0x6000
    let mut m = machine_with(&[
        (0x3000, 0xa201),
        (0x3001, 0xb201),
        (0x3002, 0x5000),
        (0x3003, 0x6000),
        (0x5000, 0x0000),
    ]);
    lc3_vm::memory::write(&mut m.memory, 0x5000, 77).unwrap();
    run_one(&mut m);
    assert_eq!(m.registers.get(Register::R1), 77);
    run_one(&mut m);
    assert_eq!(m.memory.get(0x6000), 77);
}

#[test]
fn and_not_lea() {
    // AND R0, R1, #0x0f ; NOT R2, R0 ; LEA R3, #-4
    let mut m = machine_with(&[(0x3000, 0x506f), (0x3001, 0x943f), (0x3002, 0xe7fc)]);
    m.registers.set(Register::R1, 0x1234);
    run_one(&mut m);
    assert_eq!(m.registers.get(Register::R0), 0x0004);
    run_one(&mut m);
    assert_eq!(m.registers.get(Register::R2), 0xfffb);
    assert_eq!(m.registers.read_cond(), ConditionFlag::NEG);
    run_one(&mut m);
    assert_eq!(m.registers.get(Register::R3), 0x2fff);
    assert_eq!(m.registers.read_cond(), ConditionFlag::POS);
}

#[test]
fn and_with_register() {
    // AND R0, R1, R2
    let mut m = machine_with(&[(0x3000, 0x5042)]);
    m.registers.set(Register::R1, 0xff00);
    m.registers.set(Register::R2, 0x0ff0);
    run_one(&mut m);
    assert_eq!(m.registers.get(Register::R0), 0x0f00);
}

#[test]
fn jumps() {
    // JSR #16
    let mut m = machine_with(&[(0x3000, 0x4810)]);
    run_one(&mut m);
    assert_eq!(m.registers.get(Register::R7), 0x3001);
    assert_eq!(m.registers.get(Register::PC), 0x3011);
    // JSRR R2
    let mut m = machine_with(&[(0x3000, 0x4080)]);
    m.registers.set(Register::R2, 0x4444);
    run_one(&mut m);
    assert_eq!(m.registers.get(Register::R7), 0x3001);
    assert_eq!(m.registers.get(Register::PC), 0x4444);
    // JMP R7 (RET)
    let mut m = machine_with(&[(0x3000, 0xc1c0)]);
    m.registers.set(Register::R7, 0x3456);
    run_one(&mut m);
    assert_eq!(m.registers.get(Register::PC), 0x3456);
}

#[test]
fn out_and_strings() {
    // OUT ; PUTS ; PUTSP
    let mut m = machine_with(&[
        (0x3000, 0xf021),
        (0x3001, 0xf022),
        (0x3002, 0xf024),
        (0x4000, 0x0048),
        (0x4001, 0x0069),
        (0x4002, 0x0000),
        (0x5000, 0x6968),
        (0x5001, 0x0021),
        (0x5002, 0x0000),
    ]);
    m.registers.set(Register::R0, 0x1241);
    let (_, out) = run_one(&mut m);
    assert_eq!(out, vec![0x41]);
    m.registers.set(Register::R0, 0x4000);
    let (_, out) = run_one(&mut m);
    assert_eq!(out, b"Hi".to_vec());
    m.registers.set(Register::R0, 0x5000);
    let (st, out) = run_one(&mut m);
    assert_eq!(st, Status::Running);
    assert_eq!(out, b"hi!".to_vec());
}

#[test]
fn getc_and_in() {
    // GETC ; IN
    let mut m = machine_with(&[(0x3000, 0xf020), (0x3001, 0xf023)]);
    let mut key = None;
    let mut out = Vec::new();
    assert_eq!(m.step(&mut key, &mut out), Status::NeedInput);
    assert_eq!(m.registers.get(Register::PC), 0x3000);
    key = Some(b'a');
    assert_eq!(m.step(&mut key, &mut out), Status::Running);
    assert_eq!(key, None);
    assert_eq!(m.registers.get(Register::R0), b'a' as u16);
    assert_eq!(m.registers.read_cond(), ConditionFlag::POS);
    key = Some(b'z');
    assert_eq!(m.step(&mut key, &mut out), Status::Running);
    assert_eq!(out, vec![b'z']);
    assert_eq!(m.registers.get(Register::R0), b'z' as u16);
}

#[test]
fn keyboard_status_through_load() {
    // LDI R0, #0 ; pointer to the status register
    let mut m = machine_with(&[(0x3000, 0xa000), (0x3001, MR_KBSR)]);
    lc3_vm::memory::write(&mut m.memory, MR_KBDR as usize, 0x55).unwrap();
    let mut key = None;
    let mut out = Vec::new();
    m.step(&mut key, &mut out);
    assert_eq!(m.registers.get(Register::R0), 0);
    assert_eq!(m.memory.get(MR_KBSR), 0);
    assert_eq!(m.memory.get(MR_KBDR), 0x55);
    let mut m = machine_with(&[(0x3000, 0xa000), (0x3001, MR_KBSR)]);
    key = Some(b'k');
    m.step(&mut key, &mut out);
    assert_eq!(m.registers.get(Register::R0), 0x8000);
    assert_eq!(m.memory.get(MR_KBSR), 0x8000);
    assert_eq!(m.memory.get(MR_KBDR), b'k' as u16);
    assert_eq!(key, None);
}

#[test]
fn reserved_opcodes_fault() {
    let mut m = machine_with(&[(0x3000, 0x8000)]);
    assert_eq!(run_one(&mut m).0, Status::Fault(DecodeError::Unimplemented(0x8000)));
    let mut m = machine_with(&[(0x3000, 0xd123)]);
    assert_eq!(run_one(&mut m).0, Status::Fault(DecodeError::Unimplemented(0xd123)));
}

#[test]
fn unknown_trap_faults() {
    let mut m = machine_with(&[(0x3000, 0xf026)]);
    assert_eq!(run_one(&mut m).0, Status::Fault(DecodeError::UnknownTrap(0xf026)));
}

#[test]
fn program_runs_to_halt() {
    // R1 = 3; loop: R0 += 2; R1 -= 1; BRp loop; HALT
    let prog = [0x5260u16, 0x1263, 0x1022, 0x127f, 0x03fd, 0xf025];
    let mut bytes = vec![0x30u8, 0x00];
    for w in prog {
        bytes.push((w >> 8) as u8);
        bytes.push((w & 0xff) as u8);
    }
    let mut mem = Memory::new();
    load_image(&mut mem, &bytes).unwrap();
    let mut m = Machine::new(mem);
    let mut key = None;
    let mut out = Vec::new();
    let mut steps = 0;
    loop {
        let st = m.step(&mut key, &mut out);
        steps += 1;
        if st != Status::Running {
            assert_eq!(st, Status::Halted);
            break;
        }
        assert!(steps < 100);
    }
    assert_eq!(m.registers.get(Register::R0), 6);
    assert_eq!(out, b"HALT".to_vec());
}
