//! Byte-addressed memory and the 64-bit words that the switching code keeps in it.
//!
//! Memory is a finite map from addresses to bytes: an address outside the map is
//! not backed by any page and must not be touched. Words are little-endian, as on
//! every Windows target.
use std::collections::HashMap;
use vstd::bytes::*;
use vstd::prelude::*;

verus! {

/// One past the highest address.
pub const ADDRESS_SPACE_END: u128 = 0x1_0000_0000_0000_0000;

/// The `len` bytes from `start` on are backed by memory.
pub open spec fn mapped(m: Map<u64, u8>, start: int, len: int) -> bool {
    &&& 0 <= start
    &&& start + len <= ADDRESS_SPACE_END
    &&& forall|a: u64| start <= a < start + len ==> #[trigger] m.dom().contains(a)
}

/// Two ranges of addresses, given by start and length, share no byte.
pub open spec fn disjoint(a: int, a_len: int, b: int, b_len: int) -> bool {
    a + a_len <= b || b + b_len <= a
}

/// The memory `m` after `bytes` are written from `start` on.
#[verifier::opaque]
pub open spec fn put_bytes(m: Map<u64, u8>, start: int, bytes: Seq<u8>) -> Map<u64, u8> {
    Map::new(
        |a: u64| m.contains_key(a) || start <= a < start + bytes.len(),
        |a: u64|
            if start <= a < start + bytes.len() {
                bytes[a - start]
            } else {
                m[a]
            },
    )
}

/// The byte at `addr`, or zero where nothing is mapped.
pub open spec fn byte_at(m: Map<u64, u8>, addr: int) -> u8 {
    if m.contains_key(addr as u64) {
        m[addr as u64]
    } else {
        0
    }
}

/// The `len` bytes from `start` on.
#[verifier::opaque]
pub open spec fn bytes_at(m: Map<u64, u8>, start: int, len: nat) -> Seq<u8> {
    Seq::new(len, |i: int| byte_at(m, start + i))
}

/// The memory `m` after the word `value` is stored at `addr`.
#[verifier::opaque]
pub open spec fn put_word(m: Map<u64, u8>, addr: int, value: u64) -> Map<u64, u8> {
    put_bytes(m, addr, spec_u64_to_le_bytes(value))
}

/// The word at `addr`.
#[verifier::opaque]
pub open spec fn word_at(m: Map<u64, u8>, addr: int) -> u64 {
    spec_u64_from_le_bytes(bytes_at(m, addr, 8))
}

/// The bytes written are the bytes read back, and bytes elsewhere stay.
pub broadcast proof fn lemma_bytes_after_put_bytes(
    m: Map<u64, u8>,
    start: int,
    bytes: Seq<u8>,
    other: int,
    len: nat,
)
    requires
        0 <= start,
        start + bytes.len() <= ADDRESS_SPACE_END,
        0 <= other,
        other + len <= ADDRESS_SPACE_END,
    ensures
        other == start && len == bytes.len() ==> #[trigger] bytes_at(
            put_bytes(m, start, bytes),
            other,
            len,
        ) == bytes,
        disjoint(start, bytes.len() as int, other, len as int) ==> bytes_at(
            put_bytes(m, start, bytes),
            other,
            len,
        ) == bytes_at(m, other, len),
{
    reveal(put_bytes);
    reveal(bytes_at);
    assert forall|i: int| 0 <= i < len implies #[trigger] ((other + i) as u64) == other + i by {}
    let after = put_bytes(m, start, bytes);
    if other == start && len == bytes.len() {
        assert(bytes_at(after, other, len) =~= bytes);
    }
    if disjoint(start, bytes.len() as int, other, len as int) {
        assert(bytes_at(after, other, len) =~= bytes_at(m, other, len));
    }
}

/// Storing a word leaves the bytes outside it alone.
pub broadcast proof fn lemma_bytes_after_put_word(
    m: Map<u64, u8>,
    addr: int,
    value: u64,
    other: int,
    len: nat,
)
    requires
        0 <= addr,
        addr + 8 <= ADDRESS_SPACE_END,
        0 <= other,
        other + len <= ADDRESS_SPACE_END,
        disjoint(addr, 8, other, len as int),
    ensures
        #[trigger] bytes_at(put_word(m, addr, value), other, len) == bytes_at(m, other, len),
{
    reveal(put_word);
    lemma_auto_spec_u64_to_from_le_bytes();
    lemma_bytes_after_put_bytes(m, addr, spec_u64_to_le_bytes(value), other, len);
}

/// A word that was stored is read back, and a word elsewhere stays.
pub broadcast proof fn lemma_word_after_put_word(m: Map<u64, u8>, addr: int, value: u64, other: int)
    requires
        0 <= addr,
        addr + 8 <= ADDRESS_SPACE_END,
        0 <= other,
        other + 8 <= ADDRESS_SPACE_END,
    ensures
        other == addr ==> #[trigger] word_at(put_word(m, addr, value), other) == value,
        disjoint(addr, 8, other, 8) ==> word_at(put_word(m, addr, value), other) == word_at(
            m,
            other,
        ),
{
    reveal(word_at);
    reveal(put_word);
    lemma_auto_spec_u64_to_from_le_bytes();
    lemma_bytes_after_put_bytes(m, addr, spec_u64_to_le_bytes(value), other, 8);
}

/// Writing bytes leaves a word elsewhere alone.
pub broadcast proof fn lemma_word_after_put_bytes(
    m: Map<u64, u8>,
    start: int,
    bytes: Seq<u8>,
    other: int,
)
    requires
        0 <= start,
        start + bytes.len() <= ADDRESS_SPACE_END,
        0 <= other,
        other + 8 <= ADDRESS_SPACE_END,
        disjoint(start, bytes.len() as int, other, 8),
    ensures
        #[trigger] word_at(put_bytes(m, start, bytes), other) == word_at(m, other),
{
    reveal(word_at);
    lemma_bytes_after_put_bytes(m, start, bytes, other, 8);
}

/// Writing bytes unmaps nothing.
pub broadcast proof fn lemma_mapped_after_put_bytes(
    m: Map<u64, u8>,
    start: int,
    bytes: Seq<u8>,
    other: int,
    len: int,
)
    requires
        mapped(m, other, len),
    ensures
        #[trigger] mapped(put_bytes(m, start, bytes), other, len),
{
    reveal(put_bytes);
}

/// Storing a word unmaps nothing.
pub broadcast proof fn lemma_mapped_after_put_word(
    m: Map<u64, u8>,
    addr: int,
    value: u64,
    other: int,
    len: int,
)
    requires
        mapped(m, other, len),
    ensures
        #[trigger] mapped(put_word(m, addr, value), other, len),
{
    reveal(put_word);
    lemma_mapped_after_put_bytes(m, addr, spec_u64_to_le_bytes(value), other, len);
}

/// Writing bytes maps and changes nothing elsewhere.
pub broadcast proof fn lemma_elsewhere_after_put_bytes(
    m: Map<u64, u8>,
    start: int,
    bytes: Seq<u8>,
    other: u64,
)
    requires
        other < start || start + bytes.len() <= other,
    ensures
        #![trigger put_bytes(m, start, bytes).dom().contains(other)]
        #![trigger byte_at(put_bytes(m, start, bytes), other as int)]
        put_bytes(m, start, bytes).dom().contains(other) == m.dom().contains(other),
        byte_at(put_bytes(m, start, bytes), other as int) == byte_at(m, other as int),
{
    reveal(put_bytes);
}

/// Storing a word maps and changes nothing elsewhere.
pub broadcast proof fn lemma_elsewhere_after_put_word(
    m: Map<u64, u8>,
    addr: int,
    value: u64,
    other: u64,
)
    requires
        other < addr || addr + 8 <= other,
    ensures
        #![trigger put_word(m, addr, value).dom().contains(other)]
        #![trigger byte_at(put_word(m, addr, value), other as int)]
        put_word(m, addr, value).dom().contains(other) == m.dom().contains(other),
        byte_at(put_word(m, addr, value), other as int) == byte_at(m, other as int),
{
    reveal(put_word);
    lemma_auto_spec_u64_to_from_le_bytes();
    lemma_elsewhere_after_put_bytes(m, addr, spec_u64_to_le_bytes(value), other);
}

/// What writes leave alone, address by address.
pub broadcast group group_elsewhere {
    lemma_elsewhere_after_put_bytes,
    lemma_elsewhere_after_put_word,
}

/// The `len` bytes from `start` on are the same in both memories.
pub open spec fn unchanged(before: Map<u64, u8>, after: Map<u64, u8>, start: int, len: int) -> bool {
    bytes_at(before, start, len as nat) == bytes_at(after, start, len as nat)
}

/// Part of a range that is unchanged is unchanged.
pub proof fn lemma_unchanged_part(
    before: Map<u64, u8>,
    after: Map<u64, u8>,
    start: int,
    len: int,
    part: int,
    part_len: int,
)
    requires
        unchanged(before, after, start, len),
        start <= part,
        0 <= part_len,
        part + part_len <= start + len,
    ensures
        unchanged(before, after, part, part_len),
{
    reveal(bytes_at);
    let offset = part - start;
    assert(bytes_at(before, part, part_len as nat) =~= bytes_at(before, start, len as nat).subrange(
        offset,
        offset + part_len,
    ));
    assert(bytes_at(after, part, part_len as nat) =~= bytes_at(after, start, len as nat).subrange(
        offset,
        offset + part_len,
    ));
}

/// A word in a range that is unchanged is unchanged.
pub proof fn lemma_unchanged_word(
    before: Map<u64, u8>,
    after: Map<u64, u8>,
    start: int,
    len: int,
    addr: int,
)
    requires
        unchanged(before, after, start, len),
        start <= addr,
        addr + 8 <= start + len,
    ensures
        word_at(before, addr) == word_at(after, addr),
{
    reveal(word_at);
    lemma_unchanged_part(before, after, start, len, addr, 8);
}

/// How reads behave after writes.
pub broadcast group group_memory {
    lemma_bytes_after_put_bytes,
    lemma_bytes_after_put_word,
    lemma_word_after_put_word,
    lemma_word_after_put_bytes,
    lemma_mapped_after_put_bytes,
    lemma_mapped_after_put_word,
}

/// The memory that the stacks live in.
pub struct Memory {
    bytes: HashMap<u64, u8>,
}

impl View for Memory {
    type V = Map<u64, u8>;

    closed spec fn view(&self) -> Map<u64, u8> {
        self.bytes@
    }
}

impl Memory {
    /// Memory with nothing mapped.
    pub fn new() -> (r: Memory)
        ensures
            r@ == Map::<u64, u8>::empty(),
    {
        Memory { bytes: HashMap::new() }
    }

    /// Backs the addresses from `start` on with memory that holds `bytes`.
    pub fn map_bytes(&mut self, start: u64, bytes: &[u8])
        requires
            start + bytes@.len() <= ADDRESS_SPACE_END,
        ensures
            final(self)@ == put_bytes(old(self)@, start as int, bytes@),
    {
        broadcast use vstd::std_specs::hash::group_hash_axioms;

        proof {
            reveal(put_bytes);
            assert(self@ =~= put_bytes(old(self)@, start as int, bytes@.take(0)));
        }
        let mut i: usize = 0;
        while i < bytes.len()
            invariant
                start + bytes@.len() <= ADDRESS_SPACE_END,
                i <= bytes@.len(),
                self@ == put_bytes(old(self)@, start as int, bytes@.take(i as int)),
            decreases bytes.len() - i,
        {
            let ghost before = self@;
            self.bytes.insert(start + i as u64, bytes[i]);
            i += 1;
            proof {
                reveal(put_bytes);
                assert(self@ =~= put_bytes(old(self)@, start as int, bytes@.take(i as int)));
            }
        }
        assert(bytes@.take(bytes@.len() as int) =~= bytes@);
    }

    /// Reads `len` bytes from `start` on.
    pub fn read_bytes(&self, start: u64, len: usize) -> (r: Vec<u8>)
        requires
            mapped(self@, start as int, len as int),
        ensures
            r@ == bytes_at(self@, start as int, len as nat),
    {
        broadcast use vstd::std_specs::hash::group_hash_axioms;

        let mut r: Vec<u8> = Vec::new();
        let mut i: usize = 0;
        while i < len
            invariant
                mapped(self@, start as int, len as int),
                i <= len,
                r@.len() == i,
                forall|j: int| 0 <= j < i ==> r@[j] == byte_at(self@, start + j),
            decreases len - i,
        {
            assert(self@.contains_key((start + i) as u64));
            match self.bytes.get(&(start + i as u64)) {
                Some(byte) => {
                    r.push(*byte);
                },
                None => {
                    assert(false);
                },
            }
            i += 1;
        }
        proof {
            reveal(bytes_at);
            assert(r@ =~= bytes_at(self@, start as int, len as nat));
        }
        r
    }

    /// Writes `bytes` to mapped memory from `start` on.
    pub fn write_bytes(&mut self, start: u64, bytes: &[u8])
        requires
            mapped(old(self)@, start as int, bytes@.len() as int),
        ensures
            final(self)@ == put_bytes(old(self)@, start as int, bytes@),
            final(self)@.dom() == old(self)@.dom(),
    {
        self.map_bytes(start, bytes);
        proof {
            reveal(put_bytes);
            assert(self@.dom() =~= old(self)@.dom());
        }
    }

    /// Reads the word at `addr`.
    pub fn load(&self, addr: u64) -> (value: u64)
        requires
            mapped(self@, addr as int, 8),
        ensures
            value == word_at(self@, addr as int),
    {
        let bytes = self.read_bytes(addr, 8);
        proof {
            reveal(word_at);
            reveal(bytes_at);
        }
        u64_from_le_bytes(bytes.as_slice())
    }

    /// Stores `value` as the word at `addr`.
    pub fn store(&mut self, addr: u64, value: u64)
        requires
            mapped(old(self)@, addr as int, 8),
        ensures
            final(self)@ == put_word(old(self)@, addr as int, value),
            final(self)@.dom() == old(self)@.dom(),
    {
        let bytes = u64_to_le_bytes(value);
        proof {
            reveal(put_word);
        }
        self.write_bytes(addr, bytes.as_slice())
    }
}

} // verus!
