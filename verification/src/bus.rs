//! A flat 64KiB test bus: one block of RAM covering the whole address
//! space, with the last address left unmapped.
use vstd::prelude::*;

verus! {

/// A bus backed by a single 64KiB RAM block.
pub struct Bus {
    pub ram: Vec<u8>,
}

/// Reads and writes over a bus address space.
pub trait BusActions {
    spec fn wf(&self) -> bool;

    fn write(&mut self, addr: u16, data: u8)
        requires
            old(self).wf(),
        ensures
            final(self).wf(),
    ;

    fn read(&mut self, addr: u16, read_only: bool) -> (r: u8)
        requires
            old(self).wf(),
        ensures
            final(self).wf(),
    ;
}

impl Bus {
    /// A bus with its RAM zeroed.
    pub fn new() -> (r: Bus)
        ensures
            r.wf(),
            forall|i: int| 0 <= i < 0x10000 ==> r.ram@[i] == 0,
    {
        Bus { ram: vec![0u8; 64 * 1024] }
    }
}

impl BusActions for Bus {
    /// The RAM block spans the full 64KiB address space.
    open spec fn wf(&self) -> bool {
        self.ram@.len() == 0x10000
    }

    /// Reads the byte at `addr`; the last address is unmapped and reads
    /// as 0.
    fn read(&mut self, addr: u16, read_only: bool) -> (r: u8)
        ensures
            r == if addr < 0xFFFF {
                old(self).ram@[addr as int]
            } else {
                0u8
            },
            *final(self) == *old(self),
    {
        if addr < 0xFFFF {
            self.ram[addr as usize]
        } else {
            0u8
        }
    }

    /// Writes the byte at `addr`; a write to the last, unmapped address is
    /// dropped.
    fn write(&mut self, addr: u16, data: u8)
        ensures
            final(self).ram@ == if addr < 0xFFFF {
                old(self).ram@.update(addr as int, data)
            } else {
                old(self).ram@
            },
    {
        if addr < 0xFFFF {
            self.ram.set(addr as usize, data);
        }
    }
}

} // verus!
