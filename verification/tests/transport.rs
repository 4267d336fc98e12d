use rust_pca9685::bus::{Bus, MemBus, TransportError};
use rust_pca9685::channel::base::Channel;
use rust_pca9685::channel::led::LedChannel;
use rust_pca9685::controller::Controller;

/// A register file whose operations start failing after a set number of
/// successes, to exercise how sequences abort on the first transport error.
struct FlakyBus {
    inner: MemBus,
    successes_left: u32,
}

impl FlakyBus {
    fn new(successes_left: u32) -> FlakyBus {
        FlakyBus {
            inner: MemBus::new(),
            successes_left,
        }
    }

    fn tick(&mut self) -> Result<(), TransportError> {
        if self.successes_left == 0 {
            return Err(TransportError);
        }
        self.successes_left -= 1;
        Ok(())
    }
}

impl Bus for FlakyBus {
    // Ghost abstraction, erased from compiled code and never called at run
    // time; delegate to the inner register file.
    fn regs(&self) -> rust_pca9685::bus::RegisterModel {
        self.inner.regs()
    }

    fn read_register(&mut self, addr: u8) -> Result<u8, TransportError> {
        self.tick()?;
        self.inner.read_register(addr)
    }

    fn write_register(&mut self, addr: u8, value: u8) -> Result<(), TransportError> {
        self.tick()?;
        self.inner.write_register(addr, value)
    }

    fn settle(&mut self) {}
}

#[test]
fn test_construction_aborts_on_transport_error() {
    // The init sequence's first register write already fails.
    let device = FlakyBus::new(0);
    assert!(Controller::new(device).is_err());
}

#[test]
fn test_write_channel_aborts_on_first_failure() {
    // Two writes succeed, the third fails: the first two registers keep what
    // was written and the rest were never touched — there is no rollback.
    let mut device = FlakyBus::new(2);
    let channel = LedChannel::new(0).unwrap();
    let result = channel.write_channel(&mut device, [0x11, 0x22, 0x33, 0x44]);
    assert_eq!(Err(TransportError), result);

    let mut inner = device.inner;
    assert_eq!(0x11, inner.read_register(channel.on_low()).unwrap());
    assert_eq!(0x22, inner.read_register(channel.on_high()).unwrap());
    assert_eq!(0x00, inner.read_register(channel.off_low()).unwrap());
    assert_eq!(0x00, inner.read_register(channel.off_high()).unwrap());
}

#[test]
fn test_read_channel_returns_no_partial_result() {
    // Three reads succeed, the fourth fails: the whole read fails.
    let mut device = FlakyBus::new(3);
    let channel = LedChannel::new(0).unwrap();
    assert_eq!(Err(TransportError), channel.read_channel(&mut device));
}
