use rust_pca9685::bus::{Bus, MemBus};
use rust_pca9685::channel::base::Channel;
use rust_pca9685::channel::led::LedChannel;

#[test]
fn test_ledchan_new_over_max() {
    let result = LedChannel::new(16);
    match result {
        Ok(_) => panic!("expected error, received ok"),
        Err(_) => return,
    }
}

#[test]
fn test_ledchan_read_channel_bytes() {
    let mut device = MemBus::new();
    let channel = LedChannel::new(0).unwrap();
    let channel_values: [u8; 4] = [0xfe, 0xed, 0xb3, 0x3f];

    // Write `channel_values` to the device's register map
    let base = channel.base_address();
    for (k, value) in channel_values.iter().enumerate() {
        device.write_register(base + k as u8, *value).unwrap();
    }

    // Retrieve the written bytes from the channel's registers
    let stored = channel.read_channel(&mut device).unwrap();

    assert_eq!(channel_values, stored);
}

#[test]
fn test_ledchan_write_channel_bytes() {
    let mut device = MemBus::new();
    let channel = LedChannel::new(1).unwrap();
    let channel_values: [u8; 4] = [0xca, 0xfe, 0xba, 0xbe];

    // Write `channel_values` to the device using `write_channel`
    channel.write_channel(&mut device, channel_values).unwrap();

    // Retrieve the written bytes from the channel's registers
    let stored = channel.read_channel(&mut device).unwrap();

    assert_eq!(channel_values, stored);
}
