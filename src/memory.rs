//! Word-granular access to the byte memory: eight bytes, little-endian,
//! bounds-checked.

use vstd::prelude::*;

verus! {

/// The number of bytes in a machine word.
pub const WORD_BYTES: usize = 8;

/// Whether the eight bytes starting at `a` lie inside a memory of `len` bytes.
pub open spec fn word_in_bounds(len: int, a: int) -> bool {
    0 <= a && a + 8 <= len
}

/// The unsigned value of eight little-endian bytes.
pub open spec fn le_u64(b0: u8, b1: u8, b2: u8, b3: u8, b4: u8, b5: u8, b6: u8, b7: u8) -> u64 {
    (b0 as u64) | ((b1 as u64) << 8u64) | ((b2 as u64) << 16u64) | ((b3 as u64) << 24u64) | ((
    b4 as u64) << 32u64) | ((b5 as u64) << 40u64) | ((b6 as u64) << 48u64) | ((b7 as u64)
        << 56u64)
}

/// The signed word stored little-endian at `a`.
pub open spec fn word_at(mem: Seq<u8>, a: int) -> i64 {
    le_u64(mem[a], mem[a + 1], mem[a + 2], mem[a + 3], mem[a + 4], mem[a + 5], mem[a + 6], mem[a + 7]) as i64
}

/// Byte `k` (0 is the least significant) of the two's-complement word `w`.
pub open spec fn word_byte(w: i64, k: int) -> u8 {
    ((w as u64) >> (8 * k) as u64) as u8
}

/// The memory after storing `w` little-endian at `a`.
pub open spec fn write_word(mem: Seq<u8>, a: int, w: i64) -> Seq<u8> {
    Seq::new(mem.len(), |j: int| if a <= j < a + 8 { word_byte(w, j - a) } else { mem[j] })
}

/// A stored word reads back as itself.
pub proof fn lemma_word_round_trip(mem: Seq<u8>, a: int, w: i64)
    requires
        word_in_bounds(mem.len() as int, a),
    ensures
        word_at(write_word(mem, a, w), a) == w,
{
    let m2 = write_word(mem, a, w);
    assert(m2[a] == word_byte(w, 0));
    assert(m2[a + 1] == word_byte(w, 1));
    assert(m2[a + 2] == word_byte(w, 2));
    assert(m2[a + 3] == word_byte(w, 3));
    assert(m2[a + 4] == word_byte(w, 4));
    assert(m2[a + 5] == word_byte(w, 5));
    assert(m2[a + 6] == word_byte(w, 6));
    assert(m2[a + 7] == word_byte(w, 7));
    assert(le_u64(
        word_byte(w, 0),
        word_byte(w, 1),
        word_byte(w, 2),
        word_byte(w, 3),
        word_byte(w, 4),
        word_byte(w, 5),
        word_byte(w, 6),
        word_byte(w, 7),
    ) as i64 == w) by (bit_vector);
}

} // verus!
