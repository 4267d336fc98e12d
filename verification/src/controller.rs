//! The controller: owns the bus handle exclusively and runs the chip's
//! register sequences.
//!
//! The chip's mode registers must be sequenced carefully: the prescale
//! register may only be rewritten while the chip sleeps, and the RESTART bit
//! may only be set after the oscillator has stabilized from a wake. Each
//! sequence below aborts on the first transport error and surfaces it;
//! registers already written before the failure remain written — there is no
//! rollback.

use vstd::prelude::*;

use crate::bus::{Bus, TransportError};
use crate::channel::base::{
    lemma_register_quads_disjoint,
    off_high_addr,
    off_low_addr,
    on_high_addr,
    on_low_addr,
    Channel,
};
use crate::channel::servo::rounded_div;
use crate::constants::{
    ALL_CALL,
    ALL_LED_OFF_HIGH,
    ALL_LED_OFF_LOW,
    ALL_LED_ON_HIGH,
    ALL_LED_ON_LOW,
    MODE_1,
    MODE_2,
    OSCILLATION_FREQ,
    OUTDRV,
    PRE_SCALE,
    RESTART,
    SLEEP,
    STEP_SIZE,
};

verus! {

/// The low byte of a 16-bit tick value.
pub open spec fn low_byte(v: u16) -> u8 {
    (v & 0xff) as u8
}

/// The high byte of a 16-bit tick value.
pub open spec fn high_byte(v: u16) -> u8 {
    (v >> 8) as u8
}

/// The prescale register value for an output modulation rate in Hz: the
/// oscillator frequency divided by the 4096 steps of one cycle and by the
/// rate, rounded to the nearest integer, less one, clamped into a byte.
pub open spec fn prescale_for_rate(update_rate: int) -> int {
    let q = rounded_div(OSCILLATION_FREQ as int, STEP_SIZE * update_rate);
    if q < 1 {
        0
    } else if q - 1 > 255 {
        255
    } else {
        q - 1
    }
}

/// The register file after channel `i`'s four registers are written with the
/// split bytes of the 16-bit `on` and `off` tick values.
pub open spec fn channel_regs_written(m: Map<u8, u8>, i: u8, on: u16, off: u16) -> Map<u8, u8> {
    m.insert(on_low_addr(i), low_byte(on)).insert(on_high_addr(i), high_byte(on)).insert(
        off_low_addr(i),
        low_byte(off),
    ).insert(off_high_addr(i), high_byte(off))
}

/// Writing one channel's tick values touches exactly that channel's four
/// registers: the written quad holds the split bytes afterwards, and the
/// registers of every other channel are unchanged.
pub proof fn lemma_channel_write_isolated(m: Map<u8, u8>, i: u8, j: u8, on: u16, off: u16)
    requires
        i <= 15,
        j <= 15,
        j != i,
    ensures
        channel_regs_written(m, i, on, off)[on_low_addr(i)] == low_byte(on),
        channel_regs_written(m, i, on, off)[on_high_addr(i)] == high_byte(on),
        channel_regs_written(m, i, on, off)[off_low_addr(i)] == low_byte(off),
        channel_regs_written(m, i, on, off)[off_high_addr(i)] == high_byte(off),
        channel_regs_written(m, i, on, off)[on_low_addr(j)] == m[on_low_addr(j)],
        channel_regs_written(m, i, on, off)[on_high_addr(j)] == m[on_high_addr(j)],
        channel_regs_written(m, i, on, off)[off_low_addr(j)] == m[off_low_addr(j)],
        channel_regs_written(m, i, on, off)[off_high_addr(j)] == m[off_high_addr(j)],
{
    lemma_register_quads_disjoint(i, j);
    assert(on_low_addr(i) == 6 + 4 * i);
    assert(on_high_addr(i) == 7 + 4 * i);
    assert(off_low_addr(i) == 8 + 4 * i);
    assert(off_high_addr(i) == 9 + 4 * i);
    assert(on_low_addr(j) == 6 + 4 * j);
    assert(on_high_addr(j) == 7 + 4 * j);
    assert(off_low_addr(j) == 8 + 4 * j);
    assert(off_high_addr(j) == 9 + 4 * j);
}

/// Calculates the value to put into the prescale register so that the chip's
/// output modulation frequency becomes `update_rate` Hz. The rate must be
/// strictly positive; results too large for the register are clamped to its
/// byte range.
pub fn calculate_prescale_value(update_rate: u32) -> (r: u8)
    requires
        1 <= update_rate,
    ensures
        r == prescale_for_rate(update_rate as int),
{
    let denom: u64 = 4096u64 * (update_rate as u64);
    let q: u64 = (2 * 25_000_000u64 + denom) / (2 * denom);
    proof {
        assert(STEP_SIZE * (update_rate as int) == denom) by (nonlinear_arith)
            requires
                STEP_SIZE == 4096u32,
                denom == 4096u64 * (update_rate as u64),
        ;
        assert(q == rounded_div(OSCILLATION_FREQ as int, STEP_SIZE * (update_rate as int)));
    }
    if q < 1 {
        0
    } else if q - 1 > 255 {
        255
    } else {
        (q - 1) as u8
    }
}

/// Drives the chip over an exclusively owned bus handle. Construction runs
/// the initialization sequence; the handle is held for the controller's whole
/// lifetime, never cloned or aliased, and can only be taken back by consuming
/// the controller.
pub struct Controller<B: Bus> {
    device: B,
}

impl<B: Bus> Controller<B> {
    /// The controller's view of the device's registers.
    pub closed spec fn regs(&self) -> Map<u8, u8> {
        self.device.regs()
    }

    /// Creates a controller around `device` and puts the chip's mode
    /// registers into a known state: configure the output driver on MODE_2,
    /// enable all-call addressing on MODE_1, wait for the oscillator, read
    /// MODE_1 back and write it with the SLEEP bit cleared to wake the chip,
    /// and wait again. The first transport error aborts construction.
    pub fn new(device: B) -> (r: Result<Controller<B>, TransportError>)
        ensures
            r matches Ok(c) ==> c.regs() == device.regs().insert(MODE_2, OUTDRV).insert(
                MODE_1,
                ALL_CALL & !SLEEP,
            ),
    {
        let mut c = Controller { device };
        match c.device.write_register(MODE_2, OUTDRV) {
            Ok(u) => u,
            Err(e) => return Err(e),
        };
        match c.device.write_register(MODE_1, ALL_CALL) {
            Ok(u) => u,
            Err(e) => return Err(e),
        };
        c.device.settle();
        let mode1 = match c.device.read_register(MODE_1) {
            Ok(v) => v,
            Err(e) => return Err(e),
        };
        let awake = mode1 & !SLEEP;
        match c.device.write_register(MODE_1, awake) {
            Ok(u) => u,
            Err(e) => return Err(e),
        };
        c.device.settle();
        proof {
            assert(c.regs() =~= device.regs().insert(MODE_2, OUTDRV).insert(
                MODE_1,
                ALL_CALL & !SLEEP,
            ));
        }
        Ok(c)
    }

    /// Releases the bus handle, consuming the controller.
    pub fn into_device(self) -> (r: B)
        ensures
            r.regs() == self.regs(),
    {
        self.device
    }

    /// Reprograms the output modulation frequency. The chip must sleep while
    /// the prescale register is rewritten, so the sequence is: read MODE_1,
    /// write it back with RESTART dropped and SLEEP forced, write the
    /// prescale register, restore the old MODE_1 to wake the oscillator, wait
    /// for it to stabilize, then set the RESTART bit so that channel values
    /// persist across future sleeps. Afterwards MODE_1 holds its old value
    /// with RESTART set and the prescale register holds `prescale_value`. A
    /// transport error leaves the steps already taken in place: MODE_1 and
    /// the prescale register may then hold any intermediate state of the
    /// sequence, but no other register is ever touched.
    pub fn set_pwm_rate(&mut self, prescale_value: u8) -> (r: Result<(), TransportError>)
        ensures
            r is Ok ==> final(self).regs() == old(self).regs().insert(
                PRE_SCALE,
                prescale_value,
            ).insert(MODE_1, old(self).regs()[MODE_1] | RESTART),
            r is Err ==> ({
                let slept = old(self).regs().insert(
                    MODE_1,
                    (old(self).regs()[MODE_1] & 0x7f) | SLEEP,
                );
                ||| final(self).regs() == old(self).regs()
                ||| final(self).regs() == slept
                ||| final(self).regs() == slept.insert(PRE_SCALE, prescale_value)
                ||| final(self).regs() == slept.insert(PRE_SCALE, prescale_value).insert(
                    MODE_1,
                    old(self).regs()[MODE_1],
                )
            }),
    {
        let old_mode = match self.device.read_register(MODE_1) {
            Ok(v) => v,
            Err(e) => return Err(e),
        };
        // Carry every mode bit but RESTART over, and force SLEEP.
        let new_mode = (old_mode & 0x7f) | SLEEP;
        match self.device.write_register(MODE_1, new_mode) {
            Ok(u) => u,
            Err(e) => return Err(e),
        };
        match self.device.write_register(PRE_SCALE, prescale_value) {
            Ok(u) => u,
            Err(e) => return Err(e),
        };
        match self.device.write_register(MODE_1, old_mode) {
            Ok(u) => u,
            Err(e) => return Err(e),
        };
        self.device.settle();
        let restart_mode = old_mode | RESTART;
        match self.device.write_register(MODE_1, restart_mode) {
            Ok(u) => u,
            Err(e) => return Err(e),
        };
        proof {
            assert(self.regs() =~= old(self).regs().insert(PRE_SCALE, prescale_value).insert(
                MODE_1,
                old(self).regs()[MODE_1] | RESTART,
            ));
        }
        Ok(())
    }

    /// Sets `channel`'s registers to the given ON and OFF tick values. Each
    /// 16-bit value is split into its low byte and high byte, and the four
    /// bytes are written through the channel's own registers in fixed order
    /// (ON low, ON high, OFF low, OFF high). The first failing write aborts,
    /// leaving exactly some prefix of the four registers written; registers
    /// outside the channel's quad are never touched.
    pub fn set_channel<C: Channel>(&mut self, channel: &C, on: u16, off: u16) -> (r: Result<
        (),
        TransportError,
    >)
        requires
            channel.index() <= 15,
        ensures
            r is Ok ==> final(self).regs() == channel_regs_written(
                old(self).regs(),
                channel.index(),
                on,
                off,
            ),
            r is Err ==> {
                ||| final(self).regs() == old(self).regs()
                ||| final(self).regs() == old(self).regs().insert(
                    on_low_addr(channel.index()),
                    low_byte(on),
                )
                ||| final(self).regs() == old(self).regs().insert(
                    on_low_addr(channel.index()),
                    low_byte(on),
                ).insert(on_high_addr(channel.index()), high_byte(on))
                ||| final(self).regs() == old(self).regs().insert(
                    on_low_addr(channel.index()),
                    low_byte(on),
                ).insert(on_high_addr(channel.index()), high_byte(on)).insert(
                    off_low_addr(channel.index()),
                    low_byte(off),
                )
            },
    {
        let data: [u8; 4] = [
            (on & 0xff) as u8,
            (on >> 8) as u8,
            (off & 0xff) as u8,
            (off >> 8) as u8,
        ];
        channel.write_channel(&mut self.device, data)
    }

    /// Sets every channel's output at once through the chip's four all-channel
    /// override registers, with the same byte split as `set_channel`. These
    /// writes bypass per-channel addressing entirely. The first failing write
    /// aborts, leaving exactly some prefix of the four registers written.
    pub fn set_all_channels(&mut self, on: u16, off: u16) -> (r: Result<(), TransportError>)
        ensures
            r is Ok ==> final(self).regs() == old(self).regs().insert(
                ALL_LED_ON_LOW,
                low_byte(on),
            ).insert(ALL_LED_ON_HIGH, high_byte(on)).insert(ALL_LED_OFF_LOW, low_byte(off)).insert(
                ALL_LED_OFF_HIGH,
                high_byte(off),
            ),
            r is Err ==> {
                ||| final(self).regs() == old(self).regs()
                ||| final(self).regs() == old(self).regs().insert(ALL_LED_ON_LOW, low_byte(on))
                ||| final(self).regs() == old(self).regs().insert(
                    ALL_LED_ON_LOW,
                    low_byte(on),
                ).insert(ALL_LED_ON_HIGH, high_byte(on))
                ||| final(self).regs() == old(self).regs().insert(
                    ALL_LED_ON_LOW,
                    low_byte(on),
                ).insert(ALL_LED_ON_HIGH, high_byte(on)).insert(ALL_LED_OFF_LOW, low_byte(off))
            },
    {
        match self.device.write_register(ALL_LED_ON_LOW, (on & 0xff) as u8) {
            Ok(u) => u,
            Err(e) => return Err(e),
        };
        match self.device.write_register(ALL_LED_ON_HIGH, (on >> 8) as u8) {
            Ok(u) => u,
            Err(e) => return Err(e),
        };
        match self.device.write_register(ALL_LED_OFF_LOW, (off & 0xff) as u8) {
            Ok(u) => u,
            Err(e) => return Err(e),
        };
        match self.device.write_register(ALL_LED_OFF_HIGH, (off >> 8) as u8) {
            Ok(u) => u,
            Err(e) => return Err(e),
        };
        Ok(())
    }
}

} // verus!
