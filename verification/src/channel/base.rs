//! Register addressing shared by every channel variant.
//!
//! Each of the sixteen channels owns four consecutive byte registers holding
//! its ON and OFF tick values: for channel `i` they sit at the four fixed base
//! addresses plus `4 * i`. The [`Channel`] trait derives those addresses and
//! moves whole four-byte channel values over a [`Bus`].

use vstd::prelude::*;

use crate::bus::{Bus, TransportError};
use crate::channel::errors::{IndexRangeError, ValueRangeError};
use crate::constants::{BASE_LED_OFF_HIGH, BASE_LED_OFF_LOW, BASE_LED_ON_HIGH, BASE_LED_ON_LOW};

verus! {

/// A range failure from a channel operation: either a channel index outside
/// 0 through 15, or a value outside a channel's configured range.
#[derive(Clone, Copy, Debug, PartialEq, Eq, Structural)]
pub enum ChannelError {
    IndexRange(IndexRangeError),
    ValueRange(ValueRangeError),
}

/// The address of channel `i`'s ON-value low byte.
pub open spec fn on_low_addr(i: u8) -> u8 {
    (BASE_LED_ON_LOW + 4 * i) as u8
}

/// The address of channel `i`'s ON-value high byte.
pub open spec fn on_high_addr(i: u8) -> u8 {
    (BASE_LED_ON_HIGH + 4 * i) as u8
}

/// The address of channel `i`'s OFF-value low byte.
pub open spec fn off_low_addr(i: u8) -> u8 {
    (BASE_LED_OFF_LOW + 4 * i) as u8
}

/// The address of channel `i`'s OFF-value high byte.
pub open spec fn off_high_addr(i: u8) -> u8 {
    (BASE_LED_OFF_HIGH + 4 * i) as u8
}

/// The four register addresses of channel `i`, as a set.
pub open spec fn quad_addrs(i: u8) -> Set<u8> {
    set![on_low_addr(i), on_high_addr(i), off_low_addr(i), off_high_addr(i)]
}

/// Register quads of distinct channels never overlap: a write to one
/// channel's registers cannot touch another channel's.
pub proof fn lemma_register_quads_disjoint(i: u8, j: u8)
    requires
        i <= 15,
        j <= 15,
        i != j,
    ensures
        quad_addrs(i).disjoint(quad_addrs(j)),
{
    assert forall|a: u8| quad_addrs(i).contains(a) implies !quad_addrs(j).contains(a) by {
        assert(on_low_addr(i) == 6 + 4 * i);
        assert(on_high_addr(i) == 7 + 4 * i);
        assert(off_low_addr(i) == 8 + 4 * i);
        assert(off_high_addr(i) == 9 + 4 * i);
        assert(on_low_addr(j) == 6 + 4 * j);
        assert(on_high_addr(j) == 7 + 4 * j);
        assert(off_low_addr(j) == 8 + 4 * j);
        assert(off_high_addr(j) == 9 + 4 * j);
    }
}

/// A channel on the controller: a validated index in 0 through 15, from which
/// the four register addresses for the channel's ON and OFF tick values are
/// derived.
pub trait Channel: Sized {
    /// The channel's index.
    spec fn index(&self) -> u8;

    /// Returns the channel index.
    fn channel_num(&self) -> (r: u8)
        ensures
            r == self.index(),
    ;

    /// Offsets `base` by four registers per channel index.
    fn register_offset(&self, base: u8) -> (r: u8)
        requires
            base + 4 * self.index() <= 255,
        ensures
            r == base + 4 * self.index(),
    {
        base + 4 * self.channel_num()
    }

    /// Returns the first register address used by this channel, which is the
    /// address of its ON-value low byte.
    fn base_address(&self) -> (r: u8)
        requires
            self.index() <= 15,
        ensures
            r == on_low_addr(self.index()),
    {
        self.on_low()
    }

    /// Returns the address of this channel's ON-value low byte.
    fn on_low(&self) -> (r: u8)
        requires
            self.index() <= 15,
        ensures
            r == on_low_addr(self.index()),
    {
        self.register_offset(BASE_LED_ON_LOW)
    }

    /// Returns the address of this channel's ON-value high byte.
    fn on_high(&self) -> (r: u8)
        requires
            self.index() <= 15,
        ensures
            r == on_high_addr(self.index()),
    {
        self.register_offset(BASE_LED_ON_HIGH)
    }

    /// Returns the address of this channel's OFF-value low byte.
    fn off_low(&self) -> (r: u8)
        requires
            self.index() <= 15,
        ensures
            r == off_low_addr(self.index()),
    {
        self.register_offset(BASE_LED_OFF_LOW)
    }

    /// Returns the address of this channel's OFF-value high byte.
    fn off_high(&self) -> (r: u8)
        requires
            self.index() <= 15,
        ensures
            r == off_high_addr(self.index()),
    {
        self.register_offset(BASE_LED_OFF_HIGH)
    }

    /// Returns the addresses of this channel's ON-value pair (low, high).
    fn on_addrs(&self) -> (r: (u8, u8))
        requires
            self.index() <= 15,
        ensures
            r.0 == on_low_addr(self.index()),
            r.1 == on_high_addr(self.index()),
    {
        (self.on_low(), self.on_high())
    }

    /// Returns the addresses of this channel's OFF-value pair (low, high).
    fn off_addrs(&self) -> (r: (u8, u8))
        requires
            self.index() <= 15,
        ensures
            r.0 == off_low_addr(self.index()),
            r.1 == off_high_addr(self.index()),
    {
        (self.off_low(), self.off_high())
    }

    /// Reads this channel's four register bytes in fixed order (ON low,
    /// ON high, OFF low, OFF high). The first failing read aborts and the bus
    /// error is surfaced verbatim; no partial result is returned. Reading
    /// never changes the register file.
    fn read_channel<B: Bus>(&self, dev: &mut B) -> (r: Result<[u8; 4], TransportError>)
        requires
            self.index() <= 15,
        ensures
            final(dev).regs() == old(dev).regs(),
            r matches Ok(bytes) ==> {
                &&& bytes[0] == old(dev).regs()[on_low_addr(self.index())]
                &&& bytes[1] == old(dev).regs()[on_high_addr(self.index())]
                &&& bytes[2] == old(dev).regs()[off_low_addr(self.index())]
                &&& bytes[3] == old(dev).regs()[off_high_addr(self.index())]
            },
    {
        let b0 = match dev.read_register(self.on_low()) {
            Ok(v) => v,
            Err(e) => return Err(e),
        };
        let b1 = match dev.read_register(self.on_high()) {
            Ok(v) => v,
            Err(e) => return Err(e),
        };
        let b2 = match dev.read_register(self.off_low()) {
            Ok(v) => v,
            Err(e) => return Err(e),
        };
        let b3 = match dev.read_register(self.off_high()) {
            Ok(v) => v,
            Err(e) => return Err(e),
        };
        Ok([b0, b1, b2, b3])
    }

    /// Writes `data` into this channel's four registers in fixed order (ON
    /// low, ON high, OFF low, OFF high). The first failing write aborts and
    /// the bus error is surfaced verbatim; registers already written before
    /// the failure remain written — there is no rollback, and a failed write
    /// leaves exactly some prefix of the four registers written.
    fn write_channel<B: Bus>(&self, dev: &mut B, data: [u8; 4]) -> (r: Result<
        (),
        TransportError,
    >)
        requires
            self.index() <= 15,
        ensures
            r is Ok ==> final(dev).regs() == old(dev).regs().insert(
                on_low_addr(self.index()),
                data[0],
            ).insert(on_high_addr(self.index()), data[1]).insert(
                off_low_addr(self.index()),
                data[2],
            ).insert(off_high_addr(self.index()), data[3]),
            r is Err ==> {
                ||| final(dev).regs() == old(dev).regs()
                ||| final(dev).regs() == old(dev).regs().insert(
                    on_low_addr(self.index()),
                    data[0],
                )
                ||| final(dev).regs() == old(dev).regs().insert(
                    on_low_addr(self.index()),
                    data[0],
                ).insert(on_high_addr(self.index()), data[1])
                ||| final(dev).regs() == old(dev).regs().insert(
                    on_low_addr(self.index()),
                    data[0],
                ).insert(on_high_addr(self.index()), data[1]).insert(
                    off_low_addr(self.index()),
                    data[2],
                )
            },
    {
        match dev.write_register(self.on_low(), data[0]) {
            Ok(u) => u,
            Err(e) => return Err(e),
        };
        match dev.write_register(self.on_high(), data[1]) {
            Ok(u) => u,
            Err(e) => return Err(e),
        };
        match dev.write_register(self.off_low(), data[2]) {
            Ok(u) => u,
            Err(e) => return Err(e),
        };
        match dev.write_register(self.off_high(), data[3]) {
            Ok(u) => u,
            Err(e) => return Err(e),
        };
        Ok(())
    }
}

} // verus!
