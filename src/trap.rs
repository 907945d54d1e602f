use vstd::prelude::*;

verus! {

/// The built-in I/O routines a TRAP instruction can call.
#[derive(Debug, Clone, Copy, PartialEq, Eq, Structural)]
pub enum Trap {
    /// read one character into R0
    GETC,
    /// write the low byte of R0
    OUT,
    /// write a zero-terminated string of one character per cell
    PUTS,
    /// read one character, echo it, and store it in R0
    IN,
    /// write a zero-terminated string of two characters per cell
    PUTSP,
    /// stop the machine
    HALT,
}

impl Trap {
    /// The trap code of this routine.
    pub open spec fn spec_code(self) -> u16 {
        match self {
            Trap::GETC => 0x20,
            Trap::OUT => 0x21,
            Trap::PUTS => 0x22,
            Trap::IN => 0x23,
            Trap::PUTSP => 0x24,
            Trap::HALT => 0x25,
        }
    }

    /// The routine with trap code `v`, if there is one.
    pub fn from_code(v: u16) -> (r: Option<Trap>)
        ensures
            (0x20 <= v <= 0x25) <==> r is Some,
            r matches Some(t) ==> t.spec_code() == v,
    {
        match v {
            0x20 => Some(Trap::GETC),
            0x21 => Some(Trap::OUT),
            0x22 => Some(Trap::PUTS),
            0x23 => Some(Trap::IN),
            0x24 => Some(Trap::PUTSP),
            0x25 => Some(Trap::HALT),
            _ => None,
        }
    }
}

} // verus!
