//! The memory bus: flat byte storage over the whole 16-bit address space.

use vstd::prelude::*;

verus! {

/// Number of addressable bytes: one for every 16-bit address.
pub const MEMORY_SIZE: usize = 0x10000;

/// Byte-addressable storage for the addresses 0x0000 to 0xFFFF.
pub struct MemoryBus {
    memory: [u8; 0x10000],
}

impl View for MemoryBus {
    type V = Seq<u8>;

    /// The stored bytes, indexed by address.
    closed spec fn view(&self) -> Seq<u8> {
        self.memory@
    }
}

impl MemoryBus {
    /// A bus whose every byte is zero.
    pub fn new() -> (bus: MemoryBus)
        ensures
            bus@.len() == MEMORY_SIZE,
            forall|address: int| 0 <= address < MEMORY_SIZE ==> bus@[address] == 0,
    {
        MemoryBus { memory: [0u8; 0x10000] }
    }

    /// The bus holds exactly one byte per 16-bit address.
    pub proof fn lemma_size(&self)
        ensures
            self@.len() == MEMORY_SIZE,
    {
    }

    /// The byte stored at `address`.
    pub fn read_byte(&self, address: u16) -> (value: u8)
        ensures
            value == self@[address as int],
    {
        self.memory[address as usize]
    }

    /// Stores `value` at `address` and leaves every other byte as it was.
    pub fn write_byte(&mut self, address: u16, value: u8)
        ensures
            final(self)@ == old(self)@.update(address as int, value),
    {
        self.memory[address as usize] = value;
    }
}

} // verus!
