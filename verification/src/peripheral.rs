use vstd::prelude::*;

verus! {

/// A memory-mapped device as the bus sees it: a window of 32-bit registers.
///
/// `addr` is the index of a register inside the device's window, never a
/// physical address. A device answers 0 for a register it does not have and
/// ignores a write to one. Both operations may change the device, a read too.
pub trait Peripheral {
    fn read(&mut self, addr: u32) -> u32;

    fn write(&mut self, addr: u32, val: u32);
}

} // verus!
