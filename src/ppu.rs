//! The picture processor, as far as this core needs it: its memory.
use crate::memory::{PPU_CELLS, PATTERN_TABLE_SIZE, PPU_Memory};
use vstd::prelude::*;

verus! {

pub struct PPU {
    pub memory: PPU_Memory,
}

impl PPU {
    /// A PPU with zeroed memory.
    pub fn new() -> (r: PPU)
        ensures
            r.memory.wf(),
            r.memory@ == Seq::new(PPU_CELLS as nat, |i: int| 0u8),
    {
        let empty: Vec<u8> = Vec::new();
        let r = PPU { memory: PPU_Memory::new(empty.as_slice(), 0) };
        assert(r.memory@ =~= Seq::new(PPU_CELLS as nat, |i: int| 0u8));
        r
    }

    /// Loads character data at the start of the pattern tables.
    pub fn init_memory(&mut self, character_rom: &[u8], character_size: usize)
        requires
            old(self).memory.wf(),
            character_rom@.len() == character_size,
            character_size <= PATTERN_TABLE_SIZE,
        ensures
            final(self).memory.wf(),
            final(self).memory@ == character_rom@ + old(self).memory@.subrange(
                character_size as int,
                PPU_CELLS as int,
            ),
    {
        self.memory.load_pattern_table(character_rom, character_size);
    }
}

} // verus!
