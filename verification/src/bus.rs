//! The address-space router: dispatches every byte read and write to the
//! backing region that owns the address, mirrors the echo window into work
//! memory by address translation, and discards accesses to the unusable range.

use vstd::prelude::*;

verus! {

/// The unusable dead zone `[0xFEA0, 0xFEFF]`: reads yield `0xFF`, writes are
/// discarded.
pub open spec fn unusable(addr: u16) -> bool {
    0xFEA0 <= addr <= 0xFEFF
}

/// The storage an address resolves to. Echo addresses alias work memory
/// `0x2000` below; every other address is its own backing location.
pub open spec fn canonical(addr: u16) -> u16 {
    if 0xE000 <= addr <= 0xFDFF {
        (addr - 0x2000) as u16
    } else {
        addr
    }
}

/// The fixed-capacity backing regions of the 16-bit address space. The echo
/// window `[0xE000, 0xFDFF]` has no storage of its own: it reads and writes
/// through to the first 7680 bytes of work memory.
pub struct BUS {
    /// ROM window A, `[0x0000, 0x3FFF]`.
    pub rom_a: Vec<u8>,
    /// ROM window B, `[0x4000, 0x7FFF]`.
    pub rom_b: Vec<u8>,
    /// Video memory, `[0x8000, 0x9FFF]`.
    pub vram: Vec<u8>,
    /// External/cartridge memory, `[0xA000, 0xBFFF]`.
    pub eram: Vec<u8>,
    /// Work memory, `[0xC000, 0xDFFF]`; also serves the echo window.
    pub wram: Vec<u8>,
    /// Object-attribute table, `[0xFE00, 0xFE9F]`.
    pub oam: Vec<u8>,
    /// I/O registers, `[0xFF00, 0xFF7F]`.
    pub io: Vec<u8>,
    /// High memory, `[0xFF80, 0xFFFE]`.
    pub hram: Vec<u8>,
    /// Interrupt-enable register, address `0xFFFF`.
    pub ie: u8,
}

impl BUS {
    /// Each region holds exactly its declared capacity.
    pub open spec fn wf(self) -> bool {
        &&& self.rom_a@.len() == 0x4000
        &&& self.rom_b@.len() == 0x4000
        &&& self.vram@.len() == 0x2000
        &&& self.eram@.len() == 0x2000
        &&& self.wram@.len() == 0x2000
        &&& self.oam@.len() == 0xA0
        &&& self.io@.len() == 0x80
        &&& self.hram@.len() == 0x80
    }

    /// The byte a read at `addr` observes: the partition of the 16-bit
    /// address range over the backing regions, with the echo window read
    /// from work memory and the unusable range fixed at `0xFF`.
    pub open spec fn spec_read(self, addr: u16) -> u8 {
        if addr < 0x4000 {
            self.rom_a@[addr as int]
        } else if addr < 0x8000 {
            self.rom_b@[addr - 0x4000]
        } else if addr < 0xA000 {
            self.vram@[addr - 0x8000]
        } else if addr < 0xC000 {
            self.eram@[addr - 0xA000]
        } else if addr < 0xE000 {
            self.wram@[addr - 0xC000]
        } else if addr < 0xFE00 {
            self.wram@[addr - 0xE000]
        } else if addr < 0xFEA0 {
            self.oam@[addr - 0xFE00]
        } else if addr < 0xFF00 {
            0xFF
        } else if addr < 0xFF80 {
            self.io@[addr - 0xFF00]
        } else if addr < 0xFFFF {
            self.hram@[addr - 0xFF80]
        } else {
            self.ie
        }
    }

    /// Creates the address space with every backed byte zeroed.
    pub fn new() -> (r: BUS)
        ensures
            r.wf(),
            forall|a: u16| r.spec_read(a) == (if unusable(a) { 0xFFu8 } else { 0u8 }),
    {
        BUS {
            rom_a: zero_vec(0x4000),
            rom_b: zero_vec(0x4000),
            vram: zero_vec(0x2000),
            eram: zero_vec(0x2000),
            wram: zero_vec(0x2000),
            oam: zero_vec(0xA0),
            io: zero_vec(0x80),
            hram: zero_vec(0x80),
            ie: 0,
        }
    }

    /// Reads the byte at `addr`. Total over the whole 16-bit range; the
    /// unusable range yields the fill value `0xFF`.
    pub fn read(&mut self, addr: u16) -> (r: u8)
        requires
            old(self).wf(),
        ensures
            *final(self) == *old(self),
            r == old(self).spec_read(addr),
    {
        if addr < 0x4000 {
            self.rom_a[addr as usize]
        } else if addr < 0x8000 {
            self.rom_b[addr as usize - 0x4000]
        } else if addr < 0xA000 {
            self.vram[addr as usize - 0x8000]
        } else if addr < 0xC000 {
            self.eram[addr as usize - 0xA000]
        } else if addr < 0xE000 {
            self.wram[addr as usize - 0xC000]
        } else if addr < 0xFE00 {
            self.wram[addr as usize - 0xE000]
        } else if addr < 0xFEA0 {
            self.oam[addr as usize - 0xFE00]
        } else if addr < 0xFF00 {
            0xFF
        } else if addr < 0xFF80 {
            self.io[addr as usize - 0xFF00]
        } else if addr < 0xFFFF {
            self.hram[addr as usize - 0xFF80]
        } else {
            self.ie
        }
    }

    /// Writes `value` at `addr`: exactly the storage `addr` resolves to
    /// changes (observable at the address itself and, for work-memory and
    /// echo addresses, at the alias), and a write into the unusable range
    /// is discarded.
    pub fn write(&mut self, addr: u16, value: u8)
        requires
            old(self).wf(),
        ensures
            final(self).wf(),
            written(*old(self), *final(self), addr, value),
    {
        if addr < 0x4000 {
            self.rom_a.set(addr as usize, value);
        } else if addr < 0x8000 {
            self.rom_b.set(addr as usize - 0x4000, value);
        } else if addr < 0xA000 {
            self.vram.set(addr as usize - 0x8000, value);
        } else if addr < 0xC000 {
            self.eram.set(addr as usize - 0xA000, value);
        } else if addr < 0xE000 {
            self.wram.set(addr as usize - 0xC000, value);
        } else if addr < 0xFE00 {
            self.wram.set(addr as usize - 0xE000, value);
        } else if addr < 0xFEA0 {
            self.oam.set(addr as usize - 0xFE00, value);
        } else if addr < 0xFF00 {
            // unusable: the write is discarded
        } else if addr < 0xFF80 {
            self.io.set(addr as usize - 0xFF00, value);
        } else if addr < 0xFFFF {
            self.hram.set(addr as usize - 0xFF80, value);
        } else {
            self.ie = value;
        }
    }
}

/// Relates the state after a write at `addr` to the state before it: the
/// written value is observed at every address resolving to the same storage,
/// everything else is unchanged, and a write into the unusable range changes
/// nothing.
pub open spec fn written(b0: BUS, b1: BUS, addr: u16, value: u8) -> bool {
    forall|a: u16|
        #[trigger] b1.spec_read(a) == (if !unusable(addr) && canonical(a) == canonical(addr) {
            value
        } else {
            b0.spec_read(a)
        })
}

/// Law: a read at an address returns the byte just written there, except in
/// the unusable range, where the write is discarded and the read yields
/// `0xFF` regardless.
pub proof fn lemma_write_then_read(b0: BUS, b1: BUS, addr: u16, value: u8)
    requires
        written(b0, b1, addr, value),
    ensures
        !unusable(addr) ==> b1.spec_read(addr) == value,
        unusable(addr) ==> b1.spec_read(addr) == 0xFF,
{
    assert(b1.spec_read(addr) == (if !unusable(addr) && canonical(addr) == canonical(addr) {
        value
    } else {
        b0.spec_read(addr)
    }));
}

/// Law: a write is not observable at any address backed by different
/// storage; only the written address and its echo alias change. In
/// particular, adjacent regions never bleed into one another.
pub proof fn lemma_write_no_bleed(b0: BUS, b1: BUS, addr: u16, value: u8, other: u16)
    requires
        written(b0, b1, addr, value),
        canonical(other) != canonical(addr),
    ensures
        b1.spec_read(other) == b0.spec_read(other),
{
}

/// A vector of `n` zero bytes.
fn zero_vec(n: usize) -> (r: Vec<u8>)
    ensures
        r@.len() == n,
        forall|i: int| 0 <= i < n ==> r@[i] == 0u8,
{
    let mut v: Vec<u8> = Vec::new();
    let mut i: usize = 0;
    while i < n
        invariant
            i <= n,
            v@.len() == i,
            forall|j: int| 0 <= j < i ==> v@[j] == 0u8,
        decreases n - i,
    {
        v.push(0);
        i += 1;
    }
    v
}

} // verus!
