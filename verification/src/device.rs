use vstd::prelude::*;

verus! {

/// Something attached to a 16-bit address bus: it claims a range of addresses
/// and answers reads and writes there.
pub trait Device: Sized {
    /// The device's internal consistency, kept by every read and write.
    spec fn inv(&self) -> bool;

    /// Whether a read of `addr` is defined for the device (some device
    /// registers cannot be read at all).
    spec fn readable(&self, addr: u16) -> bool;

    /// Whether a write to `addr` is defined for the device.
    spec fn writable(&self, addr: u16) -> bool;

    fn in_memory_bounds(&self, addr: u16) -> (r: bool);

    fn write(&mut self, addr: u16, data: u8) -> (r: Result<(), String>)
        requires
            old(self).inv(),
            old(self).writable(addr),
        ensures
            final(self).inv(),
    ;

    fn read(&mut self, addr: u16) -> (r: Result<u8, String>)
        requires
            old(self).inv(),
            old(self).readable(addr),
        ensures
            final(self).inv(),
    ;
}

} // verus!
