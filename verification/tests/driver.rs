//! Tests of the device driver against a mock transport that models the
//! sensor's register bank and records every transaction.

use tmp1075::{
    AlertPolarity, ConsecutiveFaults, ConversionRate, I2cBus, PowerMode, Register, Tmp1075,
};

/// A mock I2C bus: a register bank of sixteen 16-bit registers, a record
/// of every transaction (device address and bytes written), and an
/// optional injected fault.
struct MockBus {
    regs: [u16; 16],
    addresses: Vec<u8>,
    writes: Vec<Vec<u8>>,
    fail_with: Option<u8>,
}

impl MockBus {
    fn new() -> MockBus {
        MockBus { regs: [0; 16], addresses: Vec::new(), writes: Vec::new(), fail_with: None }
    }
}

impl I2cBus for MockBus {
    type BusError = u8;

    fn bus_write(&mut self, address: u8, bytes: &[u8]) -> Result<(), u8> {
        if let Some(e) = self.fail_with {
            return Err(e);
        }
        self.addresses.push(address);
        self.writes.push(bytes.to_vec());
        assert_eq!(bytes.len(), 3, "register write is three bytes");
        let reg = bytes[0] as usize;
        self.regs[reg] = ((bytes[1] as u16) << 8) | bytes[2] as u16;
        Ok(())
    }

    fn bus_write_read2(&mut self, address: u8, bytes: &[u8]) -> Result<(u8, u8), u8> {
        if let Some(e) = self.fail_with {
            return Err(e);
        }
        self.addresses.push(address);
        self.writes.push(bytes.to_vec());
        assert_eq!(bytes.len(), 1, "register read writes one address byte");
        let v = self.regs[bytes[0] as usize];
        Ok(((v >> 8) as u8, (v & 0xFF) as u8))
    }
}

#[test]
fn test_register_addresses() {
    assert_eq!(Register::TEMP.addr(), 0x00);
    assert_eq!(Register::CFGR.addr(), 0x01);
    assert_eq!(Register::LLIM.addr(), 0x02);
    assert_eq!(Register::HLIM.addr(), 0x03);
    assert_eq!(Register::DIEID.addr(), 0x0F);
}

#[test]
fn test_temperature_reads_decode_big_endian() {
    let mut bus = MockBus::new();
    bus.regs[0x00] = 0x4B10; // 75.0625 degrees Celsius
    let mut dev = Tmp1075::new(bus);
    assert_eq!(dev.get_temperature_raw(), Ok(0x4B10));
    assert_eq!(dev.get_temperature_q4(), Ok(1201));
    assert_eq!(dev.get_temperature_msb(), Ok(75));
}

#[test]
fn test_device_id_read() {
    let mut bus = MockBus::new();
    bus.regs[0x0F] = 0x7500;
    let mut dev = Tmp1075::new(bus);
    assert_eq!(dev.get_device_id(), Ok(0x7500));
}

#[test]
fn test_default_address_used_for_all_transactions() {
    let mut dev = Tmp1075::new(MockBus::new());
    dev.get_temperature_raw().unwrap();
    dev.set_conversion_rate(ConversionRate::Rate110ms).unwrap();
    dev.set_power_mode(PowerMode::Shutdown).unwrap();
    dev.get_device_id().unwrap();
    let bus = dev.release();
    assert!(!bus.addresses.is_empty());
    assert!(bus.addresses.iter().all(|&a| a == 0x48));
}

#[test]
fn test_explicit_address_used_for_all_transactions() {
    let mut dev = Tmp1075::with_address(0x33, MockBus::new());
    dev.get_temperature_raw().unwrap();
    dev.set_alert_polarity(AlertPolarity::ActiveHigh).unwrap();
    let bus = dev.release();
    assert!(bus.addresses.iter().all(|&a| a == 0x33));
}

#[test]
fn test_read_modify_write_preserves_unrelated_bits() {
    let mut dev = Tmp1075::new(MockBus::new());
    // Configuration register starts at 0x0000. After setting shutdown
    // mode and then alert polarity, both bits must be set and every
    // other bit still zero: the second modify did not clobber the first.
    dev.set_power_mode(PowerMode::Shutdown).unwrap();
    dev.set_alert_polarity(AlertPolarity::ActiveHigh).unwrap();
    let bus = dev.release();
    assert_eq!(bus.regs[0x01], (1 << 8) | (1 << 10));
}

#[test]
fn test_setters_write_expected_bit_patterns() {
    let mut dev = Tmp1075::new(MockBus::new());
    dev.set_conversion_rate(ConversionRate::Rate220ms).unwrap();
    dev.set_consecutive_faults(ConsecutiveFaults::Four).unwrap();
    let bus = dev.release();
    // Rate220ms is code 0b11 at bits 14-13; Four is code 0b11 at
    // bits 12-11.
    assert_eq!(bus.regs[0x01], 0b0111_1000_0000_0000);
    // Each setter issues exactly two transactions: one read, one write.
    assert_eq!(bus.writes.len(), 4);
    // The write-back of the first setter is three bytes, big-endian.
    assert_eq!(bus.writes[1], vec![0x01, 0b0110_0000, 0x00]);
}

#[test]
fn test_transport_error_propagation() {
    let mut bus = MockBus::new();
    bus.fail_with = Some(42);
    let mut dev = Tmp1075::new(bus);
    assert_eq!(dev.get_temperature_raw(), Err(42));
    assert_eq!(dev.get_temperature_q4(), Err(42));
    assert_eq!(dev.get_temperature_msb(), Err(42));
    assert_eq!(dev.get_device_id(), Err(42));
    assert_eq!(dev.set_power_mode(PowerMode::Shutdown), Err(42));
    let bus = dev.release();
    // No transaction completed and nothing was retried.
    assert!(bus.addresses.is_empty());
}

#[test]
fn test_write_back_failure_leaves_single_read() {
    struct WriteFailBus {
        regs: [u16; 16],
        reads: usize,
    }
    impl I2cBus for WriteFailBus {
        type BusError = i32;

        fn bus_write(&mut self, _address: u8, _bytes: &[u8]) -> Result<(), i32> {
            Err(-5)
        }

        fn bus_write_read2(&mut self, _address: u8, bytes: &[u8]) -> Result<(u8, u8), i32> {
            self.reads += 1;
            let v = self.regs[bytes[0] as usize];
            Ok(((v >> 8) as u8, (v & 0xFF) as u8))
        }
    }
    let mut dev = Tmp1075::with_address(0x49, WriteFailBus { regs: [0; 16], reads: 0 });
    assert_eq!(dev.set_conversion_rate(ConversionRate::Rate55ms), Err(-5));
    let bus = dev.release();
    assert_eq!(bus.reads, 1);
}
