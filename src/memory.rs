use vstd::prelude::*;

verus! {

/// Size of the whole address space that decodes to storage.
pub const MEM_SIZE: usize = 0x4000;

/// Size of the read-only program image at the bottom of memory.
pub const ROM_SIZE: usize = 0x2000;

/// Size of the writable memory above the program image.
pub const RAM_SIZE: usize = 0x2000;

/// First address of the video buffer inside RAM.
pub const VIDEO_START: usize = 0x2400;

/// Length of the video buffer: 256 rows of 32 bytes.
pub const VIDEO_SIZE: usize = 0x1C00;

/// The byte seen at `addr` in a 16 KiB image `m`: addresses past the image read as 0.
pub open spec fn mem_read(m: Seq<u8>, addr: int) -> u8 {
    if 0 <= addr < m.len() {
        m[addr]
    } else {
        0
    }
}

/// The image `m` after a write of `v` at `addr`: only RAM addresses take it.
pub open spec fn mem_write(m: Seq<u8>, addr: int, v: u8) -> Seq<u8> {
    if ROM_SIZE <= addr < MEM_SIZE {
        m.update(addr, v)
    } else {
        m
    }
}

/// The cabinet's memory: 8 KiB of ROM followed by 8 KiB of RAM.
#[derive(Debug)]
pub struct Memory {
    pub rom: [u8; ROM_SIZE],
    pub ram: [u8; RAM_SIZE],
}

impl View for Memory {
    type V = Seq<u8>;

    /// The 16 KiB image, ROM first.
    open spec fn view(&self) -> Seq<u8> {
        self.rom@ + self.ram@
    }
}

impl Memory {
    /// Memory holding `rom` below 0x2000 and zeroed RAM above it.
    pub fn new(rom: [u8; ROM_SIZE]) -> (r: Memory)
        ensures
            r@ == rom@ + Seq::new(RAM_SIZE as nat, |i: int| 0u8),
    {
        let r = Memory { rom, ram: [0x0; RAM_SIZE] };
        assert(r@ =~= rom@ + Seq::new(RAM_SIZE as nat, |i: int| 0u8));
        r
    }

    /// Reads a byte; ROM and RAM answer, everything above reads as 0.
    pub fn read(&self, hblb: usize) -> (r: u8)
        ensures
            r == mem_read(self@, hblb as int),
    {
        if hblb < ROM_SIZE {
            self.rom[hblb]
        } else if hblb < MEM_SIZE {
            self.ram[hblb - ROM_SIZE]
        } else {
            0
        }
    }

    /// Writes a byte to RAM; writes elsewhere are discarded.
    pub fn write(&mut self, hblb: usize, db: u8)
        ensures
            final(self)@ == mem_write(old(self)@, hblb as int, db),
    {
        if hblb >= ROM_SIZE && hblb < MEM_SIZE {
            self.ram[hblb - ROM_SIZE] = db;
            assert(final(self)@ =~= old(self)@.update(hblb as int, db));
        }
    }
}

} // verus!
