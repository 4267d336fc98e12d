use rust_pca9685::bus::{Bus, MemBus};
use rust_pca9685::channel::base::Channel;
use rust_pca9685::channel::led::LedChannel;
use rust_pca9685::constants;
use rust_pca9685::controller::{calculate_prescale_value, Controller};

#[test]
fn test_calculate_prescale_values() {
    assert_eq!(0x1e, calculate_prescale_value(200));
}

#[test]
fn test_controller_init() {
    let mut device = MemBus::new();

    // Write the default values to `MODE_*` registers
    device.write_register(constants::MODE_1, 0x11).unwrap();
    device.write_register(constants::MODE_2, 0x04).unwrap();

    // Run the controller initialization step
    let controller = Controller::new(device).unwrap();
    let mut device = controller.into_device();

    let mode1 = device.read_register(constants::MODE_1).unwrap();
    let mode2 = device.read_register(constants::MODE_2).unwrap();

    assert_eq!(0x01, mode1);
    assert_eq!(0x04, mode2);
}

#[test]
fn test_controller_set_pwm_rate() {
    let prescale_value = calculate_prescale_value(60);

    let device = MemBus::new();

    let mut ctrl = Controller::new(device).unwrap();
    ctrl.set_pwm_rate(prescale_value).unwrap();
    let mut device = ctrl.into_device();

    let mode1 = device.read_register(constants::MODE_1).unwrap();
    let prescale_reg = device.read_register(constants::PRE_SCALE).unwrap();
    assert_eq!(constants::ALL_CALL | constants::RESTART, mode1);
    assert_eq!(prescale_value, prescale_reg);
}

#[test]
fn test_write_value_to_channel() {
    let (on, off) = (0x199u16, 0x4ccu16);
    let expected: [u8; 4] = [
        (on & 0xff) as u8,
        (on >> 8) as u8,
        (off & 0xff) as u8,
        (off >> 8) as u8,
    ];

    assert_eq!(expected[0], 0x99u8); // ON_L
    assert_eq!(expected[1], 0x1u8); // ON_H
    assert_eq!(expected[2], 0xccu8); // OFF_L
    assert_eq!(expected[3], 0x4u8); // OFF_H

    let device = MemBus::new();

    let mut ctrl = Controller::new(device).unwrap();
    let channel = LedChannel::new(0).unwrap();
    ctrl.set_channel(&channel, on, off).unwrap();
    let mut device = ctrl.into_device();

    let actual = channel.read_channel(&mut device).unwrap();

    assert_eq!(expected, actual);
}
