use vstd::prelude::*;
use vstd::string::StringExecFns;
use crate::device::Device;
use vstd::array::spec_array_update;

verus! {

pub const RAM_SIZE: u16 = 2048;

/// Two kilobytes of RAM answering a range of addresses; the memory is mirrored
/// every 2048 bytes across that range.
pub struct Ram2K {
    pub memory: [u8; 2048],
    pub memory_bounds: (u16, u16),
}

impl Ram2K {
    pub fn new(memory_bounds: (u16, u16)) -> (r: Ram2K)
        ensures
            r.memory_bounds == memory_bounds,
            forall|i: int| 0 <= i < 2048 ==> #[trigger] r.memory[i] == 0,
    {
        Ram2K { memory: [0; 2048], memory_bounds }
    }

    pub open spec fn in_bounds(&self, addr: u16) -> bool {
        self.memory_bounds.0 <= addr <= self.memory_bounds.1
    }

    /// The byte that a read of `addr` gives.
    pub open spec fn value_at(&self, addr: u16) -> u8 {
        self.memory[(addr % RAM_SIZE) as int]
    }

    /// The memory after a write of `data` to `addr`.
    pub open spec fn written(&self, addr: u16, data: u8) -> Ram2K {
        Ram2K {
            memory: spec_array_update(self.memory, (addr % RAM_SIZE) as int, data),
            memory_bounds: self.memory_bounds,
        }
    }

    /// A write followed by a read answers the written byte at every address
    /// that mirrors the written one, and the old byte elsewhere.
    pub proof fn lemma_read_after_write(&self, waddr: u16, data: u8, raddr: u16)
        ensures
            self.written(waddr, data).value_at(raddr) == if waddr % RAM_SIZE == raddr
                % RAM_SIZE {
                data
            } else {
                self.value_at(raddr)
            },
    {
        vstd::array::axiom_spec_array_update(self.memory, (waddr % RAM_SIZE) as int, data);
    }
}

impl Device for Ram2K {
    open spec fn inv(&self) -> bool {
        true
    }

    open spec fn readable(&self, addr: u16) -> bool {
        true
    }

    open spec fn writable(&self, addr: u16) -> bool {
        true
    }

    fn in_memory_bounds(&self, addr: u16) -> (r: bool)
        ensures
            r == self.in_bounds(addr),
    {
        if addr >= self.memory_bounds.0 && addr <= self.memory_bounds.1 {
            true
        } else {
            false
        }
    }

    fn write(&mut self, addr: u16, content: u8) -> (r: Result<(), String>)
        ensures
            r is Ok <==> old(self).in_bounds(addr),
            *final(self) == if old(self).in_bounds(addr) {
                old(self).written(addr, content)
            } else {
                *old(self)
            },
    {
        if self.in_memory_bounds(addr) {
            self.memory[(addr % RAM_SIZE) as usize] = content;
            Ok(())
        } else {
            Err(String::from_str("Tried to write outside RAM bounds!"))
        }
    }

    fn read(&mut self, addr: u16) -> (r: Result<u8, String>)
        ensures
            *final(self) == *old(self),
            r is Ok <==> old(self).in_bounds(addr),
            r is Ok ==> r->Ok_0 == old(self).value_at(addr),
    {
        if self.in_memory_bounds(addr) {
            Ok(self.memory[(addr % RAM_SIZE) as usize])
        } else {
            Err(String::from_str("Tried to read outside RAM bounds!"))
        }
    }
}

/// 64 kilobytes of RAM answering a range of addresses, one byte per address.
pub struct Ram64K {
    pub memory: [u8; 65536],
    pub memory_bounds: (u16, u16),
}

impl Ram64K {
    pub open spec fn in_bounds(&self, addr: u16) -> bool {
        self.memory_bounds.0 <= addr <= self.memory_bounds.1
    }
}

impl Device for Ram64K {
    open spec fn inv(&self) -> bool {
        true
    }

    open spec fn readable(&self, addr: u16) -> bool {
        true
    }

    open spec fn writable(&self, addr: u16) -> bool {
        true
    }

    fn in_memory_bounds(&self, addr: u16) -> (r: bool)
        ensures
            r == self.in_bounds(addr),
    {
        if addr >= self.memory_bounds.0 && addr <= self.memory_bounds.1 {
            true
        } else {
            false
        }
    }

    fn write(&mut self, addr: u16, content: u8) -> (r: Result<(), String>)
        ensures
            r is Ok <==> old(self).in_bounds(addr),
            final(self).memory_bounds == old(self).memory_bounds,
            final(self).memory@ == if old(self).in_bounds(addr) {
                old(self).memory@.update(addr as int, content)
            } else {
                old(self).memory@
            },
    {
        if self.in_memory_bounds(addr) {
            self.memory[addr as usize] = content;
            Ok(())
        } else {
            Err(String::from_str("Tried to write outside RAM bounds!"))
        }
    }

    fn read(&mut self, addr: u16) -> (r: Result<u8, String>)
        ensures
            *final(self) == *old(self),
            r is Ok <==> old(self).in_bounds(addr),
            r is Ok ==> r->Ok_0 == old(self).memory[addr as int],
    {
        if self.in_memory_bounds(addr) {
            Ok(self.memory[addr as usize])
        } else {
            Err(String::from_str("Tried to read outside RAM bounds!"))
        }
    }
}

} // verus!
