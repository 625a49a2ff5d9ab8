//! A fixed-capacity, byte-addressable flat store with little-endian
//! multi-byte accessors.
//!
//! Every accessor validates that the whole byte span of the access lies
//! within the capacity and reports [`Fault::MemoryOutOfBounds`] instead
//! of touching anything outside it; a failed access leaves the store
//! unchanged. Multi-byte accesses need not be aligned.

use crate::fault::Fault;
use vstd::prelude::*;

verus! {

/// The store's capacity in bytes.
pub const MEM_SIZE: usize = 8192;

/// The little-endian half-word stored at `a` in `m`.
pub open spec fn half_le(m: Seq<u8>, a: int) -> u16
    recommends
        0 <= a,
        a + 2 <= m.len(),
{
    (m[a] + m[a + 1] * 0x100) as u16
}

/// The little-endian word stored at `a` in `m`.
pub open spec fn word_le(m: Seq<u8>, a: int) -> u32
    recommends
        0 <= a,
        a + 4 <= m.len(),
{
    (m[a] + m[a + 1] * 0x100 + m[a + 2] * 0x1_0000 + m[a + 3] * 0x100_0000) as u32
}

/// `m` with the half-word `v` stored little-endian at `a`.
pub open spec fn store_half_le(m: Seq<u8>, a: int, v: u16) -> Seq<u8>
    recommends
        0 <= a,
        a + 2 <= m.len(),
{
    m.update(a, (v & 0xFF) as u8).update(a + 1, ((v >> 8) & 0xFF) as u8)
}

/// `m` with the word `v` stored little-endian at `a`.
pub open spec fn store_word_le(m: Seq<u8>, a: int, v: u32) -> Seq<u8>
    recommends
        0 <= a,
        a + 4 <= m.len(),
{
    m.update(a, (v & 0xFF) as u8).update(a + 1, ((v >> 8) & 0xFF) as u8).update(
        a + 2,
        ((v >> 16) & 0xFF) as u8,
    ).update(a + 3, ((v >> 24) & 0xFF) as u8)
}

/// Round trip: a stored byte is read back unchanged.
pub proof fn lemma_store_load_byte(m: Seq<u8>, a: int, v: u8)
    requires
        0 <= a,
        a + 1 <= m.len(),
    ensures
        m.update(a, v)[a] == v,
{
}

/// Round trip: a half-word stored little-endian at any in-bounds
/// address is read back unchanged.
pub proof fn lemma_store_load_half(m: Seq<u8>, a: int, v: u16)
    requires
        0 <= a,
        a + 2 <= m.len(),
    ensures
        half_le(store_half_le(m, a, v), a) == v,
{
    assert(((v & 0xFF) as u8) + (((v >> 8) & 0xFF) as u8) * 0x100 == v) by (bit_vector);
}

/// Round trip: a word stored little-endian at any in-bounds address is
/// read back unchanged.
pub proof fn lemma_store_load_word(m: Seq<u8>, a: int, v: u32)
    requires
        0 <= a,
        a + 4 <= m.len(),
    ensures
        word_le(store_word_le(m, a, v), a) == v,
{
    assert(((v & 0xFF) as u8) + (((v >> 8) & 0xFF) as u8) * 0x100 + (((v >> 16) & 0xFF) as u8)
        * 0x1_0000 + (((v >> 24) & 0xFF) as u8) * 0x100_0000 == v) by (bit_vector);
}

/// A flat byte store of capacity [`MEM_SIZE`], owned exclusively by
/// one CPU.
pub struct Memory {
    bytes: Vec<u8>,
}

impl View for Memory {
    type V = Seq<u8>;

    closed spec fn view(&self) -> Seq<u8> {
        self.bytes@
    }
}

impl Memory {
    /// The store always holds exactly [`MEM_SIZE`] bytes.
    pub open spec fn wf(&self) -> bool {
        self@.len() == MEM_SIZE
    }

    /// Loads the byte at `addr`.
    pub fn load_byte(&self, addr: u32) -> (r: Result<u8, Fault>)
        requires
            self.wf(),
        ensures
            addr + 1 <= MEM_SIZE ==> r == Ok::<u8, Fault>(self@[addr as int]),
            addr + 1 > MEM_SIZE ==> r == Err::<u8, Fault>(Fault::MemoryOutOfBounds),
    {
        if addr <= (MEM_SIZE - 1) as u32 {
            Ok(self.bytes[addr as usize])
        } else {
            Err(Fault::MemoryOutOfBounds)
        }
    }

    /// Loads the little-endian half-word whose bytes start at `addr`.
    pub fn load_half(&self, addr: u32) -> (r: Result<u16, Fault>)
        requires
            self.wf(),
        ensures
            addr + 2 <= MEM_SIZE ==> r == Ok::<u16, Fault>(half_le(self@, addr as int)),
            addr + 2 > MEM_SIZE ==> r == Err::<u16, Fault>(Fault::MemoryOutOfBounds),
    {
        if addr <= (MEM_SIZE - 2) as u32 {
            let i = addr as usize;
            let b0 = self.bytes[i];
            let b1 = self.bytes[i + 1];
            let v = (b0 as u16) | ((b1 as u16) << 8);
            proof {
                assert((b0 as u16) | ((b1 as u16) << 8) == b0 + b1 * 0x100) by (bit_vector);
            }
            Ok(v)
        } else {
            Err(Fault::MemoryOutOfBounds)
        }
    }

    /// Loads the little-endian word whose bytes start at `addr`.
    pub fn load_word(&self, addr: u32) -> (r: Result<u32, Fault>)
        requires
            self.wf(),
        ensures
            addr + 4 <= MEM_SIZE ==> r == Ok::<u32, Fault>(word_le(self@, addr as int)),
            addr + 4 > MEM_SIZE ==> r == Err::<u32, Fault>(Fault::MemoryOutOfBounds),
    {
        if addr <= (MEM_SIZE - 4) as u32 {
            let i = addr as usize;
            let b0 = self.bytes[i];
            let b1 = self.bytes[i + 1];
            let b2 = self.bytes[i + 2];
            let b3 = self.bytes[i + 3];
            let v = (b0 as u32) | ((b1 as u32) << 8) | ((b2 as u32) << 16) | ((b3 as u32) << 24);
            proof {
                assert((b0 as u32) | ((b1 as u32) << 8) | ((b2 as u32) << 16) | ((b3 as u32) << 24)
                    == b0 + b1 * 0x100 + b2 * 0x1_0000 + b3 * 0x100_0000) by (bit_vector);
            }
            Ok(v)
        } else {
            Err(Fault::MemoryOutOfBounds)
        }
    }

    /// Stores the byte `value` at `addr`.
    pub fn store_byte(&mut self, addr: u32, value: u8) -> (r: Result<(), Fault>)
        requires
            old(self).wf(),
        ensures
            final(self).wf(),
            addr + 1 <= MEM_SIZE ==> r == Ok::<(), Fault>(()) && final(self)@ == old(self)@.update(
                addr as int,
                value,
            ),
            addr + 1 > MEM_SIZE ==> r == Err::<(), Fault>(Fault::MemoryOutOfBounds) && final(self)@
                == old(self)@,
    {
        if addr <= (MEM_SIZE - 1) as u32 {
            self.bytes.set(addr as usize, value);
            Ok(())
        } else {
            Err(Fault::MemoryOutOfBounds)
        }
    }

    /// Stores the half-word `value` little-endian starting at `addr`.
    pub fn store_half(&mut self, addr: u32, value: u16) -> (r: Result<(), Fault>)
        requires
            old(self).wf(),
        ensures
            final(self).wf(),
            addr + 2 <= MEM_SIZE ==> r == Ok::<(), Fault>(()) && final(self)@ == store_half_le(
                old(self)@,
                addr as int,
                value,
            ),
            addr + 2 > MEM_SIZE ==> r == Err::<(), Fault>(Fault::MemoryOutOfBounds) && final(self)@
                == old(self)@,
    {
        if addr <= (MEM_SIZE - 2) as u32 {
            let i = addr as usize;
            proof {
                assert(value & 0xFF < 0x100 && (value >> 8) & 0xFF < 0x100) by (bit_vector);
            }
            self.bytes.set(i, (value & 0xFF) as u8);
            self.bytes.set(i + 1, ((value >> 8) & 0xFF) as u8);
            Ok(())
        } else {
            Err(Fault::MemoryOutOfBounds)
        }
    }

    /// Stores the word `value` little-endian starting at `addr`.
    pub fn store_word(&mut self, addr: u32, value: u32) -> (r: Result<(), Fault>)
        requires
            old(self).wf(),
        ensures
            final(self).wf(),
            addr + 4 <= MEM_SIZE ==> r == Ok::<(), Fault>(()) && final(self)@ == store_word_le(
                old(self)@,
                addr as int,
                value,
            ),
            addr + 4 > MEM_SIZE ==> r == Err::<(), Fault>(Fault::MemoryOutOfBounds) && final(self)@
                == old(self)@,
    {
        if addr <= (MEM_SIZE - 4) as u32 {
            let i = addr as usize;
            proof {
                assert(value & 0xFF < 0x100 && (value >> 8) & 0xFF < 0x100 && (value >> 16) & 0xFF
                    < 0x100 && (value >> 24) & 0xFF < 0x100) by (bit_vector);
            }
            self.bytes.set(i, (value & 0xFF) as u8);
            self.bytes.set(i + 1, ((value >> 8) & 0xFF) as u8);
            self.bytes.set(i + 2, ((value >> 16) & 0xFF) as u8);
            self.bytes.set(i + 3, ((value >> 24) & 0xFF) as u8);
            Ok(())
        } else {
            Err(Fault::MemoryOutOfBounds)
        }
    }
}

impl Default for Memory {
    /// A fresh store of [`MEM_SIZE`] zero bytes.
    fn default() -> (r: Memory)
        ensures
            r.wf(),
            forall|i: int| 0 <= i < MEM_SIZE ==> r@[i] == 0u8,
    {
        let mut bytes: Vec<u8> = Vec::new();
        while bytes.len() < MEM_SIZE
            invariant
                bytes@.len() <= MEM_SIZE,
                forall|i: int| 0 <= i < bytes@.len() ==> bytes@[i] == 0u8,
            decreases MEM_SIZE - bytes@.len(),
        {
            bytes.push(0u8);
        }
        Memory { bytes }
    }
}

} // verus!
