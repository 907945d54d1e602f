use vstd::prelude::*;

verus! {

/// Number of cells: the whole 16-bit address space.
pub const MEMORY_MAX: usize = 0x10000;

/// Keyboard status register: its top bit is set when a character has arrived.
pub const MR_KBSR: u16 = 0xfe00;

/// Keyboard data register: the character that arrived last.
pub const MR_KBDR: u16 = 0xfe02;

/// Status value that signals a waiting character.
pub const KEY_READY: u16 = 0x8000;

/// Why a memory write failed.
#[derive(Debug, Clone, Copy, PartialEq, Eq, Structural)]
pub enum MemoryError {
    /// the address lies beyond the address space
    MemoryOverflow,
}

/// The machine's memory: one 16-bit cell for each address.
pub struct Memory {
    cells: Vec<u16>,
}

impl View for Memory {
    type V = Seq<u16>;

    closed spec fn view(&self) -> Seq<u16> {
        self.cells@
    }
}

/// The cells after the keyboard is polled: with a character waiting, status
/// says so and the data register holds it; with none, status is zero.
pub open spec fn polled(cells: Seq<u16>, key: Option<u8>) -> Seq<u16> {
    match key {
        Some(c) => cells.update(MR_KBSR as int, KEY_READY).update(MR_KBDR as int, c as u16),
        None => cells.update(MR_KBSR as int, 0),
    }
}

/// The cells after a read of `loc`: only a read of the status register changes them.
pub open spec fn cells_after_read(cells: Seq<u16>, loc: u16, key: Option<u8>) -> Seq<u16> {
    if loc == MR_KBSR {
        polled(cells, key)
    } else {
        cells
    }
}

/// The waiting character after a read of `loc`: a read of the status register takes it.
pub open spec fn key_after_read(loc: u16, key: Option<u8>) -> Option<u8> {
    if loc == MR_KBSR {
        None
    } else {
        key
    }
}

/// The value a read of `loc` returns.
pub open spec fn value_read(cells: Seq<u16>, loc: u16, key: Option<u8>) -> u16 {
    cells_after_read(cells, loc, key)[loc as int]
}

impl Memory {
    /// Every address is backed by a cell.
    pub open spec fn wf(&self) -> bool {
        self@.len() == MEMORY_MAX
    }

    /// A memory with every cell zero.
    pub fn new() -> (m: Memory)
        ensures
            m.wf(),
            forall|a: int| 0 <= a < MEMORY_MAX ==> #[trigger] m@[a] == 0,
    {
        let mut cells: Vec<u16> = Vec::new();
        let mut i: usize = 0;
        while i < MEMORY_MAX
            invariant
                i <= MEMORY_MAX,
                cells@.len() == i,
                forall|a: int| 0 <= a < i ==> #[trigger] cells@[a] == 0,
            decreases MEMORY_MAX - i,
        {
            cells.push(0);
            i = i + 1;
        }
        Memory { cells }
    }

    /// The value stored at `loc`, without polling the keyboard.
    pub fn get(&self, loc: u16) -> (v: u16)
        requires
            self.wf(),
        ensures
            v == self@[loc as int],
    {
        self.cells[loc as usize]
    }
}

/// Reads the cell at `loc`. A read of the keyboard status register first
/// polls the keyboard: `key` is the character waiting on the input, if any,
/// and is taken by the poll.
pub fn read(mem: &mut Memory, loc: u16, key: &mut Option<u8>) -> (v: u16)
    requires
        old(mem).wf(),
    ensures
        final(mem).wf(),
        final(mem)@ == cells_after_read(old(mem)@, loc, *old(key)),
        *final(key) == key_after_read(loc, *old(key)),
        v == value_read(old(mem)@, loc, *old(key)),
{
    if loc == MR_KBSR {
        match *key {
            Some(c) => {
                mem.cells.set(MR_KBSR as usize, KEY_READY);
                mem.cells.set(MR_KBDR as usize, c as u16);
            },
            None => {
                mem.cells.set(MR_KBSR as usize, 0);
            },
        }
        *key = None;
    }
    mem.cells[loc as usize]
}

/// Stores `v` at `loc`; fails when `loc` lies beyond the address space.
pub fn write(mem: &mut Memory, loc: usize, v: u16) -> (r: Result<(), MemoryError>)
    requires
        old(mem).wf(),
    ensures
        final(mem).wf(),
        r is Ok <==> loc < MEMORY_MAX,
        r is Err ==> r == Err::<(), MemoryError>(MemoryError::MemoryOverflow)
            && final(mem)@ == old(mem)@,
        r is Ok ==> final(mem)@ == old(mem)@.update(loc as int, v),
{
    if loc >= MEMORY_MAX {
        return Err(MemoryError::MemoryOverflow);
    }
    mem.cells.set(loc, v);
    Ok(())
}

} // verus!
