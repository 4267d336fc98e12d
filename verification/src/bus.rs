//! The byte-level bus transport capability.
//!
//! The controller core never talks to hardware directly: it is handed a value
//! implementing [`Bus`], a synchronous, fallible, single-byte register
//! read/write capability. The contract models the device behind the bus as a
//! register file, a total map from byte address to byte value: a successful
//! read returns the byte held at the address, a successful write replaces
//! exactly that byte, and a failed operation changes nothing. A failure
//! surfaces a [`TransportError`] and is never retried, so a multi-register
//! sequence that aborts midway leaves exactly the registers already written
//! before the failure written (a documented limitation of the chip protocol,
//! not corrected here).
//!
//! [`MemBus`] is the crate's own register-file implementation, verified
//! against that contract; it stands in for real hardware wherever the code
//! runs without a bus.

use vstd::prelude::*;

verus! {

/// An opaque transport failure, propagated verbatim from the bus to the
/// caller of the operation that failed.
#[derive(Clone, Copy, Debug, PartialEq, Eq, Structural)]
pub struct TransportError;

/// The ghost abstraction of a device behind a [`Bus`]: a total map from byte
/// register address to byte value. It is erased from compiled code; an
/// unverified `Bus` implementation never evaluates it.
pub type RegisterModel = Map<u8, u8>;

/// Synchronous single-byte register access to one device.
///
/// An implementation chooses how `regs` abstracts its state; every method
/// contract below is stated against that abstraction. A value implementing
/// `Bus` is meant to be owned exclusively by one controller for its whole
/// lifetime and never cloned or aliased.
pub trait Bus: Sized {
    /// The device's registers, as a total map from byte address to byte value.
    spec fn regs(&self) -> RegisterModel;

    /// Reads one byte from the register at `addr`. Reading never changes the
    /// register file; a successful read returns the byte held at `addr`.
    fn read_register(&mut self, addr: u8) -> (r: Result<u8, TransportError>)
        ensures
            final(self).regs() == old(self).regs(),
            r matches Ok(value) ==> value == old(self).regs()[addr],
    ;

    /// Writes `value` into the register at `addr`. A successful write
    /// replaces exactly that byte; a failed write changes nothing.
    fn write_register(&mut self, addr: u8, value: u8) -> (r: Result<(), TransportError>)
        ensures
            r is Ok ==> final(self).regs() == old(self).regs().insert(addr, value),
            r is Err ==> final(self).regs() == old(self).regs(),
    ;

    /// Blocks until the device's oscillator has settled (roughly 5 ms on real
    /// hardware). Waiting changes no register.
    fn settle(&mut self)
        ensures
            final(self).regs() == old(self).regs(),
    ;
}

/// An in-memory register file: 256 byte registers, all starting at zero.
/// Every operation succeeds and `settle` returns at once.
pub struct MemBus {
    bytes: [u8; 256],
}

impl MemBus {
    /// Creates a register file with every register holding zero.
    pub fn new() -> (r: MemBus)
        ensures
            forall|a: u8| r.regs()[a] == 0u8,
    {
        MemBus { bytes: [0u8; 256] }
    }
}

impl Bus for MemBus {
    closed spec fn regs(&self) -> RegisterModel {
        Map::new(|a: u8| true, |a: u8| self.bytes[a as int])
    }

    fn read_register(&mut self, addr: u8) -> (r: Result<u8, TransportError>)
        ensures
            final(self).regs() == old(self).regs(),
            r matches Ok(value) ==> value == old(self).regs()[addr],
    {
        Ok(self.bytes[addr as usize])
    }

    fn write_register(&mut self, addr: u8, value: u8) -> (r: Result<(), TransportError>)
        ensures
            r is Ok ==> final(self).regs() == old(self).regs().insert(addr, value),
            r is Err ==> final(self).regs() == old(self).regs(),
    {
        self.bytes[addr as usize] = value;
        proof {
            assert(self.regs() =~= old(self).regs().insert(addr, value));
        }
        Ok(())
    }

    fn settle(&mut self)
        ensures
            final(self).regs() == old(self).regs(),
    {
    }
}

} // verus!
