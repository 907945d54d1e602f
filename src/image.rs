use vstd::prelude::*;
use crate::memory::{value_read, Memory, MemoryError, MEMORY_MAX, MR_KBSR};

verus! {

/// Why a program image could not be loaded.
#[derive(Debug, Clone, Copy, PartialEq, Eq, Structural)]
pub enum ReadImageError {
    /// the image is too short to hold its load address
    MissingOrigin,
    /// the image runs past the end of memory
    Memory(MemoryError),
}

/// The big-endian word made of the bytes `hi` and `lo`.
pub open spec fn be_word(hi: u8, lo: u8) -> u16 {
    (hi as int * 256 + lo as int) as u16
}

/// The words of an image: big-endian pairs of bytes; a last odd byte is ignored.
pub open spec fn image_words(bytes: Seq<u8>) -> Seq<u16> {
    Seq::new(bytes.len() / 2, |i: int| be_word(bytes[2 * i], bytes[2 * i + 1]))
}

/// `cells` with `body` written from address `origin` on, as far as memory reaches.
pub open spec fn loaded(cells: Seq<u16>, origin: int, body: Seq<u16>) -> Seq<u16> {
    Seq::new(
        cells.len(),
        |a: int| if origin <= a < origin + body.len() { body[a - origin] } else { cells[a] },
    )
}

/// The word made of `bytes[2 * i]` and `bytes[2 * i + 1]`.
pub fn read_u16(bytes: &Vec<u8>, i: usize) -> (r: u16)
    requires
        2 * i + 1 < bytes@.len(),
    ensures
        r == be_word(bytes@[2 * i as int], bytes@[2 * i as int + 1]),
{
    let len: usize = bytes.len();
    let hi: u8 = bytes[2 * i];
    let lo: u8 = bytes[2 * i + 1];
    assert(((hi as u16) << 8u16) | (lo as u16) == (hi as int * 256 + lo as int) as u16) by (bit_vector);
    ((hi as u16) << 8u16) | (lo as u16)
}

/// Loads a program image into memory. The first word is the load address;
/// each word after it goes to the next address. Returns the load address.
pub fn load_image(mem: &mut Memory, bytes: &Vec<u8>) -> (r: Result<u16, ReadImageError>)
    requires
        old(mem).wf(),
    ensures
        final(mem).wf(),
        image_words(bytes@).len() == 0 <==> r == Err::<u16, ReadImageError>(
            ReadImageError::MissingOrigin,
        ),
        image_words(bytes@).len() == 0 ==> final(mem)@ == old(mem)@,
        image_words(bytes@).len() > 0 ==> {
            let words = image_words(bytes@);
            let origin = words[0];
            let body = words.skip(1);
            &&& final(mem)@ == loaded(old(mem)@, origin as int, body)
            &&& (origin + body.len() <= MEMORY_MAX <==> r == Ok::<u16, ReadImageError>(origin))
            &&& (origin + body.len() > MEMORY_MAX <==> r == Err::<u16, ReadImageError>(
                ReadImageError::Memory(MemoryError::MemoryOverflow),
            ))
        },
{
    let n: usize = bytes.len() / 2;
    if n == 0 {
        return Err(ReadImageError::MissingOrigin);
    }
    let ghost words = image_words(bytes@);
    let ghost cells0 = mem@;
    let origin: u16 = read_u16(bytes, 0);
    let mut i: usize = 1;
    while i < n
        invariant
            1 <= i <= n,
            n == bytes@.len() / 2,
            words == image_words(bytes@),
            origin == words[0],
            origin + i - 1 <= MEMORY_MAX,
            mem.wf(),
            cells0 == old(mem)@,
            cells0.len() == MEMORY_MAX,
            mem@ == loaded(cells0, origin as int, words.subrange(1, i as int)),
        decreases n - i,
    {
        let addr: usize = origin as usize + (i - 1);
        let w = read_u16(bytes, i);
        match crate::memory::write(mem, addr, w) {
            Ok(()) => {},
            Err(e) => {
                assert(words.len() == n);
                assert(words.skip(1).len() == n - 1);
                assert(mem@ =~= loaded(cells0, origin as int, words.skip(1)));
                return Err(ReadImageError::Memory(e));
            },
        }
        assert(mem@ =~= loaded(cells0, origin as int, words.subrange(1, i + 1)));
        i = i + 1;
    }
    assert(words.subrange(1, n as int) =~= words.skip(1));
    Ok(origin)
}

/// Loading an image into zeroed memory and reading back: every address the
/// image covers gives its word, every other address gives zero. The keyboard
/// status register is left out, as a read of it reports the keyboard instead.
pub proof fn lemma_load_round_trip(cells: Seq<u16>, bytes: Seq<u8>, loc: u16, key: Option<u8>)
    requires
        cells.len() == MEMORY_MAX,
        forall|a: int| 0 <= a < MEMORY_MAX ==> #[trigger] cells[a] == 0,
        image_words(bytes).len() > 0,
        image_words(bytes)[0] + image_words(bytes).len() - 1 <= MEMORY_MAX,
        loc != MR_KBSR,
    ensures
        ({
            let words = image_words(bytes);
            let origin = words[0] as int;
            let after = loaded(cells, origin, words.skip(1));
            &&& origin <= loc < origin + words.len() - 1 ==> value_read(after, loc, key) == words[loc
                - origin + 1]
            &&& !(origin <= loc < origin + words.len() - 1) ==> value_read(after, loc, key) == 0
        }),
{
}

} // verus!
