use vstd::prelude::*;

verus! {

/// Number of addressable bytes.
pub const MEMORY_SIZE: usize = 0x10000;

pub const ROM_BANK_0: (u16, u16) = (0x0000, 0x3fff);

pub const ROM_BIOS: (u16, u16) = (0x0000, 0x00ff);

pub const ROM_HEADER: (u16, u16) = (0x0100, 0x014f);

pub const ROM_BANK_OTHER: (u16, u16) = (0x4000, 0x7fff);

pub const VRAM: (u16, u16) = (0x8000, 0x9fff);

pub const EXT_RAM: (u16, u16) = (0xa000, 0xbfff);

pub const WORKING_RAM: (u16, u16) = (0xc000, 0xdfff);

pub const WORKING_RAM_SHADOW: (u16, u16) = (0xe000, 0xfdff);

pub const GRAPHICS: (u16, u16) = (0xfe00, 0xfe9f);

pub const IO: (u16, u16) = (0xff00, 0xff7f);

pub const ZERO_PAGE: (u16, u16) = (0xff80, 0xffff);

/// The flat 64 KiB address space. Reads and writes are plain byte
/// operations whatever region the address falls in.
pub struct Memory {
    buffer: [u8; 0x10000],
}

impl View for Memory {
    type V = Seq<u8>;

    closed spec fn view(&self) -> Seq<u8> {
        self.buffer@
    }
}

impl Memory {
    /// Every byte zero.
    pub fn new() -> (m: Memory)
        ensures
            m@ == Seq::new(MEMORY_SIZE as nat, |i: int| 0u8),
    {
        let m = Memory { buffer: [0u8; 0x10000] };
        assert(m@ =~= Seq::new(MEMORY_SIZE as nat, |i: int| 0u8));
        m
    }

    /// Zeroes every byte of video RAM and leaves the rest.
    pub fn clear_vram(&mut self)
        ensures
            final(self)@.len() == MEMORY_SIZE,
            forall|i: int|
                0 <= i < MEMORY_SIZE ==> #[trigger] final(self)@[i] == (if VRAM.0 <= i <= VRAM.1 {
                    0u8
                } else {
                    old(self)@[i]
                }),
    {
        let mut a: usize = VRAM.0 as usize;
        while a <= VRAM.1 as usize
            invariant
                VRAM.0 <= a <= VRAM.1 + 1,
                self@.len() == MEMORY_SIZE,
                forall|i: int|
                    0 <= i < MEMORY_SIZE ==> #[trigger] self@[i] == (if VRAM.0 <= i < a {
                        0u8
                    } else {
                        old(self)@[i]
                    }),
            decreases VRAM.1 + 1 - a,
        {
            self.buffer[a] = 0;
            a = a + 1;
        }
    }

    /// Stores `byte` at `address`; no other byte changes.
    pub fn write(&mut self, address: usize, byte: u8)
        requires
            address < MEMORY_SIZE,
        ensures
            final(self)@ == old(self)@.update(address as int, byte),
    {
        self.buffer[address] = byte;
    }

    /// The byte at `address`.
    pub fn read(&self, address: usize) -> (r: u8)
        requires
            address < MEMORY_SIZE,
        ensures
            r == self@[address as int],
    {
        self.buffer[address]
    }
}

/// A write is seen by the next read at the same address, and by no other address.
pub proof fn lemma_write_then_read(m: Seq<u8>, address: int, byte: u8, other: int)
    requires
        m.len() == MEMORY_SIZE,
        0 <= address < MEMORY_SIZE,
        0 <= other < MEMORY_SIZE,
        other != address,
    ensures
        m.update(address, byte)[address] == byte,
        m.update(address, byte)[other] == m[other],
{
}

} // verus!
