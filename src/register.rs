use vstd::prelude::*;
use crate::opcode::ConditionFlag;

verus! {

/// Number of register slots: eight general-purpose registers, PC and COND.
pub const REGISTER_COUNT: usize = 10;

/// A register slot. `COUNT` only marks the number of slots and is never stored.
#[derive(Debug, Clone, Copy, PartialEq, Eq, Structural)]
pub enum Register {
    R0,
    R1,
    R2,
    R3,
    R4,
    R5,
    R6,
    R7,
    PC,
    COND,
    COUNT,
}

impl Register {
    /// The slot number of this register.
    pub open spec fn spec_index(self) -> int {
        match self {
            Register::R0 => 0,
            Register::R1 => 1,
            Register::R2 => 2,
            Register::R3 => 3,
            Register::R4 => 4,
            Register::R5 => 5,
            Register::R6 => 6,
            Register::R7 => 7,
            Register::PC => 8,
            Register::COND => 9,
            Register::COUNT => 10,
        }
    }

    /// A register that holds a value (anything but the `COUNT` marker).
    pub open spec fn is_slot(self) -> bool {
        self != Register::COUNT
    }

    /// One of R0 to R7.
    pub open spec fn is_general(self) -> bool {
        self.spec_index() < 8
    }

    /// The slot number of this register.
    pub fn index(&self) -> (r: usize)
        ensures
            r == self.spec_index(),
    {
        match self {
            Register::R0 => 0,
            Register::R1 => 1,
            Register::R2 => 2,
            Register::R3 => 3,
            Register::R4 => 4,
            Register::R5 => 5,
            Register::R6 => 6,
            Register::R7 => 7,
            Register::PC => 8,
            Register::COND => 9,
            Register::COUNT => 10,
        }
    }

    /// The register with slot number `v`, if there is one.
    pub fn from_index(v: u16) -> (r: Option<Register>)
        ensures
            v <= 10 <==> r is Some,
            r matches Some(reg) ==> reg.spec_index() == v,
    {
        match v {
            0 => Some(Register::R0),
            1 => Some(Register::R1),
            2 => Some(Register::R2),
            3 => Some(Register::R3),
            4 => Some(Register::R4),
            5 => Some(Register::R5),
            6 => Some(Register::R6),
            7 => Some(Register::R7),
            8 => Some(Register::PC),
            9 => Some(Register::COND),
            10 => Some(Register::COUNT),
            _ => None,
        }
    }
}

/// `a + b` modulo 2^16.
pub open spec fn wrap_add(a: u16, b: u16) -> u16 {
    if a + b > 0xffff {
        (a + b - 0x10000) as u16
    } else {
        (a + b) as u16
    }
}

/// The flag bits that describe `v`: zero, negative (top bit set) or positive.
pub open spec fn flag_bits_of(v: u16) -> u16 {
    if v == 0 {
        ConditionFlag::ZRO.spec_bits()
    } else if v >= 0x8000 {
        ConditionFlag::NEG.spec_bits()
    } else {
        ConditionFlag::POS.spec_bits()
    }
}

/// The register file: R0 to R7, the program counter and the condition register.
pub struct RegisterBlock(pub [u16; REGISTER_COUNT]);

impl View for RegisterBlock {
    type V = Seq<u16>;

    open spec fn view(&self) -> Seq<u16> {
        self.0@
    }
}

impl RegisterBlock {
    /// The value held by `r`.
    pub open spec fn spec_get(&self, r: Register) -> u16 {
        self@[r.spec_index()]
    }

    /// A register file with every slot zero.
    pub fn new() -> (r: RegisterBlock)
        ensures
            r@ == Seq::new(REGISTER_COUNT as nat, |i: int| 0u16),
    {
        let r = RegisterBlock([0u16; REGISTER_COUNT]);
        assert(r@ =~= Seq::new(REGISTER_COUNT as nat, |i: int| 0u16));
        r
    }

    /// The value held by `r`.
    pub fn get(&self, r: Register) -> (v: u16)
        requires
            r.is_slot(),
        ensures
            v == self.spec_get(r),
    {
        self.0[r.index()]
    }

    /// Stores `v` in `r`, leaving every other slot as it was.
    pub fn set(&mut self, r: Register, v: u16)
        requires
            r.is_slot(),
        ensures
            final(self)@ == old(self)@.update(r.spec_index(), v),
    {
        self.0[r.index()] = v;
    }

    /// Returns the program counter, then advances it by one (wrapping).
    pub fn read_and_inc_pc(&mut self) -> (v: u16)
        ensures
            v == old(self).spec_get(Register::PC),
            final(self)@ == old(self)@.update(Register::PC.spec_index(), wrap_add(v, 1)),
    {
        let v = self.0[Register::PC.index()];
        self.0[Register::PC.index()] = v.wrapping_add(1);
        v
    }

    /// Stores `v` in `r`, then sets the condition register from it.
    pub fn write_and_update(&mut self, r: Register, v: u16)
        requires
            r.is_slot(),
            r != Register::COND,
        ensures
            final(self)@ == old(self)@.update(r.spec_index(), v).update(
                Register::COND.spec_index(),
                flag_bits_of(v),
            ),
    {
        self.set(r, v);
        self.update_flags(r);
    }

    /// Sets the condition register from the value `r` holds.
    pub fn update_flags(&mut self, r: Register)
        requires
            r.is_slot(),
        ensures
            final(self)@ == old(self)@.update(
                Register::COND.spec_index(),
                flag_bits_of(old(self).spec_get(r)),
            ),
    {
        let v = self.get(r);
        let condition_flag = if v == 0 {
            ConditionFlag::ZRO
        } else if v >> 15 > 0 {
            assert(v >> 15 > 0 ==> v >= 0x8000) by (bit_vector);
            ConditionFlag::NEG
        } else {
            assert(v >> 15 == 0 ==> v < 0x8000) by (bit_vector);
            ConditionFlag::POS
        };
        self.set(Register::COND, condition_flag.bits());
    }

    /// The condition flag that the condition register holds.
    pub fn read_cond(&self) -> (c: ConditionFlag)
        requires
            ConditionFlag::is_flag_bits(self.spec_get(Register::COND)),
        ensures
            c.spec_bits() == self.spec_get(Register::COND),
    {
        ConditionFlag::from_bits(self.get(Register::COND))
    }
}

/// Once `write_and_update(r, v)` has run, recomputing the flags from `r`
/// leaves the register file as it is.
pub proof fn lemma_update_flags_after_write(regs: Seq<u16>, r: Register, v: u16)
    requires
        regs.len() == REGISTER_COUNT,
        r.is_slot(),
        r != Register::COND,
    ensures
        ({
            let written = regs.update(r.spec_index(), v).update(
                Register::COND.spec_index(),
                flag_bits_of(v),
            );
            written.update(Register::COND.spec_index(), flag_bits_of(written[r.spec_index()]))
                == written
        }),
{
    let written = regs.update(r.spec_index(), v).update(Register::COND.spec_index(), flag_bits_of(v));
    assert(written.update(Register::COND.spec_index(), flag_bits_of(written[r.spec_index()])) =~= written);
}

} // verus!
