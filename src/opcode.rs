use vstd::prelude::*;

verus! {

/// The sixteen operations selected by the top four bits of an instruction.
#[derive(Debug, Clone, Copy, PartialEq, Eq, Structural)]
pub enum Opcode {
    /// conditional branch
    BR,
    /// addition
    ADD,
    /// PC-relative load
    LD,
    /// PC-relative store
    ST,
    /// jump to subroutine
    JSR,
    /// bitwise and
    AND,
    /// base-plus-offset load
    LDR,
    /// base-plus-offset store
    STR,
    /// return from interrupt (not implemented by this machine)
    RTI,
    /// bitwise complement
    NOT,
    /// indirect load
    LDI,
    /// indirect store
    STI,
    /// jump through a register
    JMP,
    /// reserved slot (not implemented by this machine)
    RES,
    /// load effective address
    LEA,
    /// system call
    TRAP,
}

/// The three mutually exclusive condition codes.
#[derive(Debug, Clone, Copy, PartialEq, Eq, Structural)]
pub enum ConditionFlag {
    /// last written value was positive
    POS,
    /// last written value was zero
    ZRO,
    /// last written value was negative
    NEG,
}

/// Why an instruction could not be carried out.
#[derive(Debug, Clone, Copy, PartialEq, Eq, Structural)]
pub enum DecodeError {
    /// the top four bits name no operation
    UnknownOpcode(u16),
    /// the instruction names a reserved operation (RTI or RES)
    Unimplemented(u16),
    /// a TRAP instruction carries a code with no routine
    UnknownTrap(u16),
}

impl Opcode {
    /// The four-bit value that selects this operation.
    pub open spec fn spec_code(self) -> u16 {
        match self {
            Opcode::BR => 0,
            Opcode::ADD => 1,
            Opcode::LD => 2,
            Opcode::ST => 3,
            Opcode::JSR => 4,
            Opcode::AND => 5,
            Opcode::LDR => 6,
            Opcode::STR => 7,
            Opcode::RTI => 8,
            Opcode::NOT => 9,
            Opcode::LDI => 10,
            Opcode::STI => 11,
            Opcode::JMP => 12,
            Opcode::RES => 13,
            Opcode::LEA => 14,
            Opcode::TRAP => 15,
        }
    }

    /// Whether this machine carries the operation out (all but RTI and RES).
    pub open spec fn spec_implemented(self) -> bool {
        self != Opcode::RTI && self != Opcode::RES
    }

    /// The operation whose code is `v`, if there is one.
    pub fn from_code(v: u16) -> (r: Option<Opcode>)
        ensures
            v < 16 <==> r is Some,
            r matches Some(op) ==> op.spec_code() == v,
    {
        match v {
            0 => Some(Opcode::BR),
            1 => Some(Opcode::ADD),
            2 => Some(Opcode::LD),
            3 => Some(Opcode::ST),
            4 => Some(Opcode::JSR),
            5 => Some(Opcode::AND),
            6 => Some(Opcode::LDR),
            7 => Some(Opcode::STR),
            8 => Some(Opcode::RTI),
            9 => Some(Opcode::NOT),
            10 => Some(Opcode::LDI),
            11 => Some(Opcode::STI),
            12 => Some(Opcode::JMP),
            13 => Some(Opcode::RES),
            14 => Some(Opcode::LEA),
            15 => Some(Opcode::TRAP),
            _ => None,
        }
    }

    /// The code of this operation.
    pub fn code(&self) -> (r: u16)
        ensures
            r == self.spec_code(),
    {
        match self {
            Opcode::BR => 0,
            Opcode::ADD => 1,
            Opcode::LD => 2,
            Opcode::ST => 3,
            Opcode::JSR => 4,
            Opcode::AND => 5,
            Opcode::LDR => 6,
            Opcode::STR => 7,
            Opcode::RTI => 8,
            Opcode::NOT => 9,
            Opcode::LDI => 10,
            Opcode::STI => 11,
            Opcode::JMP => 12,
            Opcode::RES => 13,
            Opcode::LEA => 14,
            Opcode::TRAP => 15,
        }
    }

    /// Decodes the operation from the top four bits of `instr`. Every
    /// four-bit value names an operation, so decoding always succeeds.
    pub fn try_from_instruction(instr: u16) -> (r: Result<Opcode, DecodeError>)
        ensures
            r is Ok,
            r matches Ok(op) ==> op.spec_code() == instr >> 12,
            r matches Err(e) ==> e == DecodeError::UnknownOpcode(instr),
    {
        let op: u16 = instr >> 12;
        assert(instr >> 12 < 16) by (bit_vector);
        match Opcode::from_code(op) {
            Some(o) => Ok(o),
            None => Err(DecodeError::UnknownOpcode(instr)),
        }
    }
}

impl ConditionFlag {
    /// The bit pattern the condition register holds for this flag.
    pub open spec fn spec_bits(self) -> u16 {
        match self {
            ConditionFlag::POS => 1,
            ConditionFlag::ZRO => 2,
            ConditionFlag::NEG => 4,
        }
    }

    /// Whether `v` is the bit pattern of some flag.
    pub open spec fn is_flag_bits(v: u16) -> bool {
        v == 1 || v == 2 || v == 4
    }

    /// The bit pattern of this flag.
    pub fn bits(&self) -> (r: u16)
        ensures
            r == self.spec_bits(),
    {
        match self {
            ConditionFlag::POS => 1,
            ConditionFlag::ZRO => 2,
            ConditionFlag::NEG => 4,
        }
    }

    /// The flag whose bit pattern is `v`.
    pub fn from_bits(v: u16) -> (r: ConditionFlag)
        requires
            ConditionFlag::is_flag_bits(v),
        ensures
            r.spec_bits() == v,
    {
        if v == 4 {
            ConditionFlag::NEG
        } else if v == 1 {
            ConditionFlag::POS
        } else {
            ConditionFlag::ZRO
        }
    }
}

} // verus!
