//! The power-on sequence: the architectural reset values for the program
//! counter and stack pointer, and the one-shot copy of the first 32 KiB of
//! cartridge data into the address space before execution begins.

use crate::bus::BUS;
use crate::bus::unusable;
use crate::cartridge::CartridgeHeader;
use vstd::prelude::*;

verus! {

/// The cartridge entry address: where the program counter points after the
/// boot ROM hands over control.
pub const CARTRIDGE_ADDR: u16 = 0x0100;

/// The execution engine's state at power-on: registers, program counter,
/// stack pointer, the address space, and the loaded cartridge.
pub struct CPU {
    /// The eight 8-bit registers.
    pub register: Vec<u8>,
    /// Program counter.
    pub pc: u16,
    /// Stack pointer.
    pub sp: u16,
    /// The address space every memory access goes through.
    pub bus: BUS,
    /// The parsed cartridge whose image is copied in at power-on.
    pub cartridge: CartridgeHeader,
}

impl CPU {
    /// The register file holds its eight bytes and the owned components are
    /// themselves well-formed.
    pub open spec fn wf(self) -> bool {
        &&& self.register@.len() == 8
        &&& self.bus.wf()
        &&& self.cartridge.wf()
    }

    /// A processor over a freshly zeroed address space, holding the given
    /// cartridge, with all registers cleared.
    pub fn new(cartridge: CartridgeHeader) -> (r: CPU)
        requires
            cartridge.wf(),
        ensures
            r.wf(),
            r.pc == 0,
            r.sp == 0,
            r.cartridge == cartridge,
            forall|i: int| 0 <= i < 8 ==> r.register@[i] == 0u8,
            forall|a: u16| r.bus.spec_read(a) == (if unusable(a) {
                0xFFu8
            } else {
                0u8
            }),
    {
        let mut register: Vec<u8> = Vec::new();
        let mut i: usize = 0;
        while i < 8
            invariant
                i <= 8,
                register@.len() == i,
                forall|j: int| 0 <= j < i ==> register@[j] == 0u8,
            decreases 8 - i,
        {
            register.push(0);
            i += 1;
        }
        CPU { register, pc: 0, sp: 0, bus: BUS::new(), cartridge }
    }

    /// The power-on sequence: reproduces the documented post-boot state —
    /// program counter at the cartridge entry address, stack pointer at its
    /// reset value — and copies the cartridge bytes at offsets
    /// `[0, 0x8000)` into the address space at the same addresses (exactly
    /// the two fixed ROM windows); everything else is left untouched.
    pub fn init(&mut self)
        requires
            old(self).wf(),
        ensures
            final(self).wf(),
            final(self).pc == CARTRIDGE_ADDR,
            final(self).sp == 0xFFFE,
            final(self).register == old(self).register,
            final(self).cartridge == old(self).cartridge,
            forall|a: u16|
                final(self).bus.spec_read(a) == (if a < 0x8000 {
                    old(self).cartridge.data@[a as int]
                } else {
                    old(self).bus.spec_read(a)
                }),
    {
        self.pc = CARTRIDGE_ADDR;
        self.sp = 0xFFFE;
        let ghost orig = *self;
        let mut i: usize = 0;
        while i < 0x8000
            invariant
                i <= 0x8000,
                *self == (CPU { bus: self.bus, ..orig }),
                self.wf(),
                forall|a: u16|
                    self.bus.spec_read(a) == (if (a as int) < i {
                        orig.cartridge.data@[a as int]
                    } else {
                        orig.bus.spec_read(a)
                    }),
            decreases 0x8000 - i,
        {
            let v = self.cartridge.data[i];
            self.bus.write(i as u16, v);
            i += 1;
        }
    }

    /// Reserved for swapping in a new image; leaves the processor unchanged.
    pub fn load(&mut self, rom: Vec<u8>)
        ensures
            *final(self) == *old(self),
    {
    }
}

} // verus!
