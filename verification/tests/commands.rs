use adxl345_driver::{
    ATStatus, ActivityMode, Adxl345, Adxl345Init, Adxl345Reader, Adxl345Writer, AdxlError,
    AdxlResult, FifoControl, IntControlMode, IntMapMode, Tap, TapMode, Traced,
};

/// A device made of memory: it keeps what is written, answers reads from it,
/// records every primitive call, and fails the calls it is told to fail.
struct Bench {
    registers: [u8; 0x3a],
    sample: (i16, i16, i16),
    three_wire: bool,
    reads: Vec<u8>,
    writes: Vec<(u8, u8)>,
    bursts: usize,
    fail_read: Option<usize>,
    fail_write: Option<usize>,
}

impl Bench {
    fn new() -> Self {
        Bench {
            registers: [0; 0x3a],
            sample: (0, 0, 0),
            three_wire: false,
            reads: Vec::new(),
            writes: Vec::new(),
            bursts: 0,
            fail_read: None,
            fail_write: None,
        }
    }

    fn holding(register: u8, byte: u8) -> Self {
        let mut bench = Bench::new();
        bench.registers[register as usize] = byte;
        bench
    }
}

fn bus_fault() -> AdxlError {
    AdxlError::I2c("bus fault".to_string())
}

impl Traced for Bench {}

impl Adxl345Reader for Bench {
    fn access(&mut self, register: u8) -> AdxlResult<u8> {
        self.reads.push(register);
        if self.fail_read == Some(self.reads.len() - 1) {
            return Err(bus_fault());
        }
        Ok(self.registers[register as usize])
    }

    fn acceleration(&mut self) -> AdxlResult<(i16, i16, i16)> {
        self.bursts += 1;
        Ok(self.sample)
    }
}

impl Adxl345Writer for Bench {
    fn command(&mut self, register: u8, byte: u8) -> AdxlResult<()> {
        self.writes.push((register, byte));
        if self.fail_write == Some(self.writes.len() - 1) {
            return Err(bus_fault());
        }
        self.registers[register as usize] = byte;
        Ok(())
    }

    fn init(&mut self) -> AdxlResult<()> {
        self.init_registers(self.three_wire)
    }
}

impl Adxl345Init for Bench {}

impl Adxl345 for Bench {}

fn init_writes(format: u8) -> Vec<(u8, u8)> {
    let mut expected: Vec<(u8, u8)> = vec![(0x31, format)];
    for register in 0x1du8..=0x2a {
        expected.push((register, 0));
    }
    expected.push((0x2c, 0x0a));
    for register in 0x2du8..=0x2f {
        expected.push((register, 0));
    }
    expected.push((0x38, 0));
    expected
}

#[test]
fn init_three_wire_writes_in_order() {
    let mut bench = Bench::new();
    assert_eq!(bench.init_registers(true), Ok(()));
    assert_eq!(bench.writes, init_writes(0x40));
    assert_eq!(bench.writes.len(), 20);
    assert!(bench.reads.is_empty());
}

#[test]
fn init_four_wire_clears_the_data_format() {
    let mut bench = Bench::new();
    assert_eq!(bench.init_registers(false), Ok(()));
    assert_eq!(bench.writes, init_writes(0x00));
}

#[test]
fn init_goes_through_the_binding() {
    let mut bench = Bench::new();
    bench.three_wire = true;
    assert_eq!(bench.init(), Ok(()));
    assert_eq!(bench.writes, init_writes(0x40));
    assert_eq!(bench.registers[0x31], 0x40);
    assert_eq!(bench.registers[0x2c], 0x0a);
}

#[test]
fn init_stops_at_the_first_failure() {
    for at in 0..20usize {
        let mut bench = Bench::new();
        bench.fail_write = Some(at);
        assert_eq!(bench.init_registers(true), Err(bus_fault()));
        assert_eq!(bench.writes, init_writes(0x40)[..=at].to_vec());
    }
}

#[test]
fn set_offset_adjustment_skips_absent_axes() {
    let mut bench = Bench::new();
    assert_eq!(bench.set_offset_adjustment(Some(5), None, Some(-3)), Ok(()));
    assert_eq!(bench.writes, vec![(0x1e, 0x05), (0x20, 0xfd)]);
}

#[test]
fn set_offset_adjustment_writes_each_axis_to_its_register() {
    let mut bench = Bench::new();
    assert_eq!(bench.set_offset_adjustment(Some(1), Some(2), Some(3)), Ok(()));
    assert_eq!(bench.writes, vec![(0x1e, 1), (0x1f, 2), (0x20, 3)]);
    assert_eq!(bench.offset_adjustment(), Ok((1, 2, 3)));
}

#[test]
fn set_offset_adjustment_with_no_axis_writes_nothing() {
    let mut bench = Bench::new();
    assert_eq!(bench.set_offset_adjustment(None, None, None), Ok(()));
    assert!(bench.writes.is_empty());
}

#[test]
fn set_offset_adjustment_stops_at_the_first_failure() {
    let mut bench = Bench::new();
    bench.fail_write = Some(1);
    assert_eq!(bench.set_offset_adjustment(Some(1), Some(2), Some(3)), Err(bus_fault()));
    assert_eq!(bench.writes, vec![(0x1e, 1), (0x1f, 2)]);
}

#[test]
fn byte_setters_write_their_register() {
    let mut bench = Bench::new();
    assert_eq!(bench.set_tap_threshold(0x11), Ok(()));
    assert_eq!(bench.set_tap_duration(0x12), Ok(()));
    assert_eq!(bench.set_tap_latency(0x13), Ok(()));
    assert_eq!(bench.set_tap_window(0x14), Ok(()));
    assert_eq!(bench.set_activity_threshold(0x15), Ok(()));
    assert_eq!(bench.set_inactivity_threshold(0x16), Ok(()));
    assert_eq!(bench.set_inactivity_time(0x17), Ok(()));
    assert_eq!(bench.set_free_fall_threshold(0x18), Ok(()));
    assert_eq!(bench.set_free_fall_time(0x19), Ok(()));
    assert_eq!(bench.set_x_offset(-1), Ok(()));
    assert_eq!(bench.set_y_offset(-128), Ok(()));
    assert_eq!(bench.set_z_offset(127), Ok(()));
    assert_eq!(
        bench.writes,
        vec![
            (0x1d, 0x11),
            (0x21, 0x12),
            (0x22, 0x13),
            (0x23, 0x14),
            (0x24, 0x15),
            (0x25, 0x16),
            (0x26, 0x17),
            (0x28, 0x18),
            (0x29, 0x19),
            (0x1e, 0xff),
            (0x1f, 0x80),
            (0x20, 0x7f),
        ]
    );
}

#[test]
fn flag_setters_write_their_register() {
    let mut bench = Bench::new();
    let activity = ActivityMode::from_bits(ActivityMode::ACT_AC | ActivityMode::ACT_X_ENABLE);
    assert_eq!(bench.set_activity_control(activity.unwrap()), Ok(()));
    assert_eq!(bench.set_tap_control(TapMode::from_bits(0x07).unwrap()), Ok(()));
    let enable = IntControlMode::from_bits(IntControlMode::DATA_READY_ENABLE).unwrap();
    assert_eq!(bench.set_interrupt_control(enable), Ok(()));
    assert_eq!(bench.set_interrupt_map(IntMapMode::from_bits(0x02).unwrap()), Ok(()));
    assert_eq!(bench.set_fifo_control(FifoControl::from(0x9f)), Ok(()));
    assert_eq!(
        bench.writes,
        vec![(0x27, 0xc0), (0x2a, 0x07), (0x2e, 0x80), (0x2f, 0x02), (0x38, 0x9f)]
    );
}

#[test]
fn checked_setters_write_valid_bytes() {
    let mut bench = Bench::new();
    assert_eq!(bench.set_bandwidth_rate(0x1a), Ok(()));
    assert_eq!(bench.set_data_format(0x08), Ok(()));
    assert_eq!(bench.set_power_control(0x08), Ok(()));
    assert_eq!(bench.writes, vec![(0x2c, 0x1a), (0x31, 0x08), (0x2d, 0x08)]);
}

#[test]
fn checked_setters_refuse_undefined_bits_without_writing() {
    let mut bench = Bench::new();
    assert_eq!(bench.set_bandwidth_rate(0x20), Err(AdxlError::UnknownModeBit(0x20)));
    assert_eq!(bench.set_data_format(0x10), Err(AdxlError::UnknownModeBit(0x10)));
    assert_eq!(bench.set_power_control(0xc0), Err(AdxlError::UnknownModeBit(0xc0)));
    assert!(bench.writes.is_empty());
}

#[test]
fn setter_hands_back_the_transport_error() {
    let mut bench = Bench::new();
    bench.fail_write = Some(0);
    assert_eq!(bench.set_power_control(0x08), Err(bus_fault()));
    assert_eq!(bench.writes, vec![(0x2d, 0x08)]);
}

#[test]
fn set_tap_writes_threshold_duration_latency_window() {
    let mut bench = Bench::new();
    assert_eq!(bench.set_tap(Tap::new(0x30, 0x10, 0x50, 0xff)), Ok(()));
    assert_eq!(bench.writes, vec![(0x1d, 0x30), (0x21, 0x10), (0x22, 0x50), (0x23, 0xff)]);
    assert_eq!(bench.tap(), Ok(Tap::new(0x30, 0x10, 0x50, 0xff)));
    assert_eq!(bench.reads, vec![0x1d, 0x21, 0x22, 0x23]);
}

#[test]
fn set_tap_stops_at_the_first_failure() {
    let mut bench = Bench::new();
    bench.fail_write = Some(2);
    assert_eq!(bench.set_tap(Tap::new(1, 2, 3, 4)), Err(bus_fault()));
    assert_eq!(bench.writes, vec![(0x1d, 1), (0x21, 2), (0x22, 3)]);
}

#[test]
fn set_inactivity_and_free_fall_write_threshold_then_time() {
    let mut bench = Bench::new();
    assert_eq!(bench.set_inactivity(0x04, 0x0a), Ok(()));
    assert_eq!(bench.set_free_fall(0x07, 0x28), Ok(()));
    assert_eq!(bench.writes, vec![(0x25, 0x04), (0x26, 0x0a), (0x28, 0x07), (0x29, 0x28)]);
    assert_eq!(bench.free_fall(), Ok((0x07, 0x28)));
    assert_eq!(bench.reads, vec![0x28, 0x29]);

    let mut bench = Bench::new();
    bench.fail_write = Some(0);
    assert_eq!(bench.set_inactivity(0x04, 0x0a), Err(bus_fault()));
    assert_eq!(bench.writes, vec![(0x25, 0x04)]);
}

#[test]
fn byte_getters_read_their_register() {
    let mut bench = Bench::new();
    for register in 0..0x3au8 {
        bench.registers[register as usize] = register ^ 0xa5;
    }
    assert_eq!(bench.device_id(), Ok(0x00 ^ 0xa5));
    assert_eq!(bench.tap_threshold(), Ok(0x1d ^ 0xa5));
    assert_eq!(bench.tap_duration(), Ok(0x21 ^ 0xa5));
    assert_eq!(bench.tap_latency(), Ok(0x22 ^ 0xa5));
    assert_eq!(bench.tap_window(), Ok(0x23 ^ 0xa5));
    assert_eq!(bench.activity_threshold(), Ok(0x24 ^ 0xa5));
    assert_eq!(bench.inactivity_threshold(), Ok(0x25 ^ 0xa5));
    assert_eq!(bench.inactivity_time(), Ok(0x26 ^ 0xa5));
    assert_eq!(bench.free_fall_threshold(), Ok(0x28 ^ 0xa5));
    assert_eq!(bench.free_fall_time(), Ok(0x29 ^ 0xa5));
    assert_eq!(
        bench.reads,
        vec![0x00, 0x1d, 0x21, 0x22, 0x23, 0x24, 0x25, 0x26, 0x28, 0x29]
    );
    assert!(bench.writes.is_empty());
}

#[test]
fn offset_getters_read_signed_values() {
    let mut bench = Bench::new();
    bench.registers[0x1e] = 0x05;
    bench.registers[0x1f] = 0xfd;
    bench.registers[0x20] = 0x80;
    assert_eq!(bench.x_offset(), Ok(5));
    assert_eq!(bench.y_offset(), Ok(-3));
    assert_eq!(bench.z_offset(), Ok(-128));
    assert_eq!(bench.offset_adjustment(), Ok((5, -3, -128)));
    assert_eq!(bench.reads, vec![0x1e, 0x1f, 0x20, 0x1e, 0x1f, 0x20]);
}

#[test]
fn bitfield_getters_decode_their_register() {
    let mut bench = Bench::holding(0x2d, 0x28);
    let power = bench.power_control().unwrap();
    assert!(power.link() && power.measure() && !power.auto_sleep());
    bench.registers[0x2c] = 0x0a;
    assert_eq!(bench.bandwidth_rate().unwrap().rate(), 0x0a);
    bench.registers[0x31] = 0x4b;
    let format = bench.data_format().unwrap();
    assert!(format.spi() && format.full_res());
    assert_eq!(format.range(), 3);
    bench.registers[0x38] = 0x85;
    assert_eq!(bench.fifo_control().unwrap().fifo_mode(), 2);
    bench.registers[0x39] = 0x82;
    assert_eq!(bench.fifo_status().unwrap().entries(), 2);
    assert_eq!(bench.reads, vec![0x2d, 0x2c, 0x31, 0x38, 0x39]);
}

#[test]
fn bitfield_getters_refuse_undefined_bits() {
    assert_eq!(
        Bench::holding(0x2d, 0xc0).power_control(),
        Err(AdxlError::UnknownModeBit(0xc0))
    );
    assert_eq!(
        Bench::holding(0x2c, 0x2a).bandwidth_rate(),
        Err(AdxlError::UnknownModeBit(0x2a))
    );
    assert_eq!(Bench::holding(0x31, 0x10).data_format(), Err(AdxlError::UnknownModeBit(0x10)));
    assert_eq!(Bench::holding(0x39, 0x40).fifo_status(), Err(AdxlError::UnknownModeBit(0x40)));
}

#[test]
fn flag_getters_decode_their_register() {
    let mut bench = Bench::new();
    bench.registers[0x27] = 0xc0;
    bench.registers[0x2a] = 0x0f;
    bench.registers[0x2b] = 0x44;
    bench.registers[0x2e] = 0x80;
    bench.registers[0x2f] = 0x02;
    bench.registers[0x30] = 0x83;
    assert_eq!(bench.activity_control().unwrap().bits(), 0xc0);
    assert_eq!(bench.tap_control(), Ok(TapMode::all()));
    let status = bench.activity_tap_status().unwrap();
    assert!(status.contains(ATStatus::from_bits(ATStatus::ACT_X | ATStatus::TAP_X).unwrap()));
    assert_eq!(bench.interrupt_control().unwrap().bits(), 0x80);
    assert_eq!(bench.interrupt_map().unwrap().bits(), 0x02);
    assert_eq!(bench.interrupt_source().unwrap().bits(), 0x83);
    assert_eq!(bench.reads, vec![0x27, 0x2a, 0x2b, 0x2e, 0x2f, 0x30]);
}

#[test]
fn flag_getters_refuse_undefined_bits() {
    assert_eq!(Bench::holding(0x2a, 0x10).tap_control(), Err(AdxlError::UnknownModeBit(0x10)));
    assert_eq!(
        Bench::holding(0x2b, 0x80).activity_tap_status(),
        Err(AdxlError::UnknownModeBit(0x80))
    );
}

#[test]
fn getter_hands_back_the_transport_error() {
    let mut bench = Bench::holding(0x2d, 0x08);
    bench.fail_read = Some(0);
    assert_eq!(bench.power_control(), Err(bus_fault()));
    assert_eq!(bench.power_control().unwrap().byte(), 0x08);
    assert_eq!(bench.reads, vec![0x2d, 0x2d]);
}

#[test]
fn composite_getters_stop_at_the_first_failure() {
    let mut bench = Bench::new();
    bench.fail_read = Some(1);
    assert_eq!(bench.tap(), Err(bus_fault()));
    assert_eq!(bench.reads, vec![0x1d, 0x21]);

    let mut bench = Bench::new();
    bench.fail_read = Some(0);
    assert_eq!(bench.free_fall(), Err(bus_fault()));
    assert_eq!(bench.reads, vec![0x28]);

    let mut bench = Bench::new();
    bench.fail_read = Some(2);
    assert_eq!(bench.offset_adjustment(), Err(bus_fault()));
    assert_eq!(bench.reads, vec![0x1e, 0x1f, 0x20]);
}

#[test]
fn acceleration_is_one_burst() {
    let mut bench = Bench::new();
    bench.sample = (12, -34, 256);
    assert_eq!(bench.acceleration(), Ok((12, -34, 256)));
    assert_eq!(bench.bursts, 1);
    assert!(bench.reads.is_empty());
}
