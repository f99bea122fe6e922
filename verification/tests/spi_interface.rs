use icm20948::error::Error;
use icm20948::interfaces::spi::SpiInterface;
use icm20948::interfaces::SensorInterface;
use icm20948::transport::ChipSelect;
use icm20948::transport::SpiBus;
use std::cell::RefCell;
use std::rc::Rc;

#[derive(Debug, Clone, PartialEq)]
enum Call {
    Low,
    High,
    Transfer(Vec<u8>),
    Write(Vec<u8>),
}

type Log = Rc<RefCell<Vec<Call>>>;

struct Line {
    log: Log,
    fail_low: bool,
    fail_high: bool,
    fail_later_high: bool,
    releases: usize,
}

impl ChipSelect for Line {
    type Error = &'static str;

    fn set_low(&mut self) -> Result<(), &'static str> {
        self.log.borrow_mut().push(Call::Low);
        if self.fail_low {
            Err("low")
        } else {
            Ok(())
        }
    }

    fn set_high(&mut self) -> Result<(), &'static str> {
        self.log.borrow_mut().push(Call::High);
        self.releases += 1;
        if self.fail_high || (self.fail_later_high && self.releases > 1) {
            Err("high")
        } else {
            Ok(())
        }
    }
}

fn line(log: &Log, fail_low: bool, fail_high: bool, fail_later_high: bool) -> Line {
    Line { log: log.clone(), fail_low, fail_high, fail_later_high, releases: 0 }
}

struct Bus {
    log: Log,
    answer: Vec<u8>,
    fail: bool,
}

impl SpiBus for Bus {
    type Error = u32;

    fn transfer(&mut self, words: &mut [u8]) -> Result<(), u32> {
        self.log.borrow_mut().push(Call::Transfer(words.to_vec()));
        if self.fail {
            return Err(7);
        }
        for (i, w) in words.iter_mut().enumerate() {
            *w = self.answer[i];
        }
        Ok(())
    }

    fn write(&mut self, words: &[u8]) -> Result<(), u32> {
        self.log.borrow_mut().push(Call::Write(words.to_vec()));
        if self.fail {
            Err(7)
        } else {
            Ok(())
        }
    }
}

fn interface(answer: Vec<u8>, fail_bus: bool, fail_low: bool) -> (SpiInterface<Bus, Line>, Log) {
    interface_with(answer, fail_bus, fail_low, false)
}

fn interface_with(
    answer: Vec<u8>,
    fail_bus: bool,
    fail_low: bool,
    fail_release: bool,
) -> (SpiInterface<Bus, Line>, Log) {
    let log: Log = Rc::new(RefCell::new(Vec::new()));
    let bus = Bus { log: log.clone(), answer, fail: fail_bus };
    let line = line(&log, fail_low, false, fail_release);
    let si = match SpiInterface::new(bus, line) {
        Ok(si) => si,
        Err(_) => panic!("the line could not be driven high"),
    };
    log.borrow_mut().clear();
    (si, log)
}

fn count(log: &Log, call: Call) -> usize {
    log.borrow().iter().filter(|c| **c == call).count()
}

#[test]
fn new_drives_the_line_high() {
    let log: Log = Rc::new(RefCell::new(Vec::new()));
    let bus = Bus { log: log.clone(), answer: vec![], fail: false };
    let line = line(&log, false, false, false);
    assert!(SpiInterface::new(bus, line).is_ok());
    assert_eq!(*log.borrow(), vec![Call::High]);
}

#[test]
fn new_fails_with_pin_when_the_line_cannot_be_driven() {
    let log: Log = Rc::new(RefCell::new(Vec::new()));
    let bus = Bus { log: log.clone(), answer: vec![], fail: false };
    let line = line(&log, false, true, false);
    assert!(matches!(SpiInterface::new(bus, line), Err(Error::Pin("high"))));
    assert_eq!(*log.borrow(), vec![Call::High]);
}

#[test]
fn register_read_sets_bit_7_of_the_first_byte() {
    for addr in 0u8..=0x7F {
        let (mut si, log) = interface(vec![0, 0x5A], false, false);
        assert!(matches!(si.register_read(addr), Ok(0x5A)));
        assert_eq!(
            *log.borrow(),
            vec![Call::Low, Call::Transfer(vec![addr | 0x80, 0]), Call::High]
        );
    }
}

#[test]
fn register_read_returns_the_second_byte() {
    let (mut si, _log) = interface(vec![0x11, 0x22], false, false);
    assert!(matches!(si.register_read(0x06), Ok(0x22)));
}

#[test]
fn register_write_leaves_bit_7_clear() {
    for addr in 0u8..=0x7F {
        let (mut si, log) = interface(vec![], false, false);
        assert!(si.register_write(addr, 0xC3).is_ok());
        assert_eq!(*log.borrow(), vec![Call::Low, Call::Write(vec![addr, 0xC3]), Call::High]);
    }
}

#[test]
fn chip_select_toggles_once_per_read() {
    let (mut si, log) = interface(vec![0, 0], false, false);
    assert!(si.register_read(0x00).is_ok());
    assert_eq!(count(&log, Call::Low), 1);
    assert_eq!(count(&log, Call::High), 1);
}

#[test]
fn chip_select_toggles_once_per_write() {
    let (mut si, log) = interface(vec![], false, false);
    assert!(si.register_write(0x06, 0x01).is_ok());
    assert_eq!(count(&log, Call::Low), 1);
    assert_eq!(count(&log, Call::High), 1);
}

#[test]
fn chip_select_is_released_when_the_transfer_fails() {
    let (mut si, log) = interface(vec![0, 0], true, false);
    assert!(matches!(si.register_read(0x06), Err(Error::Comm(7))));
    assert_eq!(
        *log.borrow(),
        vec![Call::Low, Call::Transfer(vec![0x86, 0]), Call::High]
    );
}

#[test]
fn chip_select_is_released_when_the_write_fails() {
    let (mut si, log) = interface(vec![], true, false);
    assert!(matches!(si.register_write(0x06, 0x80), Err(Error::Comm(7))));
    assert_eq!(*log.borrow(), vec![Call::Low, Call::Write(vec![0x06, 0x80]), Call::High]);
}

#[test]
fn chip_select_is_released_when_it_could_not_be_asserted() {
    let (mut si, log) = interface(vec![0, 0], false, true);
    assert!(matches!(si.register_read(0x06), Err(Error::Pin("low"))));
    assert_eq!(*log.borrow(), vec![Call::Low, Call::High]);
    log.borrow_mut().clear();
    assert!(matches!(si.register_write(0x06, 0x01), Err(Error::Pin("low"))));
    assert_eq!(*log.borrow(), vec![Call::Low, Call::High]);
}

#[test]
fn a_failed_release_alone_fails_the_access() {
    let (mut si, log) = interface_with(vec![0, 0x42], false, false, true);
    assert!(matches!(si.register_read(0x00), Err(Error::Pin("high"))));
    assert_eq!(
        *log.borrow(),
        vec![Call::Low, Call::Transfer(vec![0x80, 0]), Call::High]
    );
    log.borrow_mut().clear();
    assert!(matches!(si.register_write(0x00, 1), Err(Error::Pin("high"))));
    assert_eq!(*log.borrow(), vec![Call::Low, Call::Write(vec![0x00, 1]), Call::High]);
}

#[test]
fn a_failed_release_hides_a_failed_transfer() {
    let (mut si, log) = interface_with(vec![0, 0], true, false, true);
    assert!(matches!(si.register_read(0x06), Err(Error::Pin("high"))));
    assert_eq!(
        *log.borrow(),
        vec![Call::Low, Call::Transfer(vec![0x86, 0]), Call::High]
    );
}

#[test]
fn a_failed_assert_is_reported_before_a_failed_release() {
    let (mut si, log) = interface_with(vec![0, 0], false, true, true);
    assert!(matches!(si.register_read(0x06), Err(Error::Pin("low"))));
    assert_eq!(*log.borrow(), vec![Call::Low, Call::High]);
}

#[test]
fn read_block_exchanges_the_whole_buffer() {
    let (mut si, log) = interface(vec![9, 8, 7, 6], false, false);
    let mut buffer = [0xFFu8, 1, 2, 3];
    assert!(si.read_block(0x2D, &mut buffer).is_ok());
    assert_eq!(buffer, [9, 8, 7, 6]);
    assert_eq!(
        *log.borrow(),
        vec![Call::Low, Call::Transfer(vec![0xAD, 1, 2, 3]), Call::High]
    );
}

#[test]
fn write_block_sends_the_buffer_as_it_stands() {
    let (mut si, log) = interface(vec![], false, false);
    assert!(si.write_block(&[0x10, 0, 0, 0]).is_ok());
    assert_eq!(*log.borrow(), vec![Call::Low, Call::Write(vec![0x10, 0, 0, 0]), Call::High]);
}

#[test]
fn read_vec3_i16_reads_six_bytes_in_one_transaction() {
    let (mut si, log) = interface(vec![0xEE, 0x00, 0x01, 0xFF, 0xFE, 0x80, 0x00], false, false);
    assert!(matches!(si.read_vec3_i16(0x33), Ok([1, -2, -32768])));
    assert_eq!(
        *log.borrow(),
        vec![Call::Low, Call::Transfer(vec![0xB3, 0, 0, 0, 0, 0, 0]), Call::High]
    );
}

#[test]
fn read_vec3_i16_reports_a_failed_transfer() {
    let (mut si, log) = interface(vec![0; 7], true, false);
    assert!(matches!(si.read_vec3_i16(0x2D), Err(Error::Comm(7))));
    assert_eq!(count(&log, Call::Low), 1);
    assert_eq!(count(&log, Call::High), 1);
}

struct Sensor {
    banks: [[u8; 128]; 4],
    bank: usize,
    selected: bool,
}

type Shared = Rc<RefCell<Sensor>>;

struct SensorBus {
    sensor: Shared,
}

struct SensorLine {
    sensor: Shared,
}

impl SpiBus for SensorBus {
    type Error = ();

    fn transfer(&mut self, words: &mut [u8]) -> Result<(), ()> {
        let sensor = self.sensor.borrow();
        if !sensor.selected || words[0] & 0x80 == 0 {
            return Err(());
        }
        let base = (words[0] & 0x7F) as usize;
        for i in 1..words.len() {
            words[i] = sensor.banks[sensor.bank][(base + i - 1) % 128];
        }
        Ok(())
    }

    fn write(&mut self, words: &[u8]) -> Result<(), ()> {
        let mut sensor = self.sensor.borrow_mut();
        if !sensor.selected || words[0] & 0x80 != 0 {
            return Err(());
        }
        if words[0] == 0x7F {
            sensor.bank = (words[1] & 0x03) as usize;
        } else {
            let bank = sensor.bank;
            sensor.banks[bank][words[0] as usize] = words[1];
        }
        Ok(())
    }
}

impl ChipSelect for SensorLine {
    type Error = ();

    fn set_low(&mut self) -> Result<(), ()> {
        self.sensor.borrow_mut().selected = true;
        Ok(())
    }

    fn set_high(&mut self) -> Result<(), ()> {
        self.sensor.borrow_mut().selected = false;
        Ok(())
    }
}

fn sensor() -> (SpiInterface<SensorBus, SensorLine>, Shared) {
    let shared: Shared =
        Rc::new(RefCell::new(Sensor { banks: [[0; 128]; 4], bank: 0, selected: true }));
    let si = match SpiInterface::new(
        SensorBus { sensor: shared.clone() },
        SensorLine { sensor: shared.clone() },
    ) {
        Ok(si) => si,
        Err(_) => panic!("the line could not be driven high"),
    };
    (si, shared)
}

#[test]
fn a_written_value_reads_back() {
    let (mut si, shared) = sensor();
    for (addr, val) in [(0x05u8, 0x30u8), (0x06, 0x41), (0x10, 0x00), (0x67, 0x1F), (0x7E, 0xFF)] {
        assert!(si.register_write(addr, val).is_ok());
        assert!(matches!(si.register_read(addr), Ok(v) if v == val));
    }
    assert!(!shared.borrow().selected);
}

#[test]
fn a_written_value_stays_in_its_bank() {
    let (mut si, _shared) = sensor();
    assert!(si.register_write(0x7F, 2).is_ok());
    assert!(si.register_write(0x14, 0x99).is_ok());
    assert!(si.register_write(0x7F, 0).is_ok());
    assert!(matches!(si.register_read(0x14), Ok(0)));
    assert!(si.register_write(0x7F, 2).is_ok());
    assert!(matches!(si.register_read(0x14), Ok(0x99)));
}

#[test]
fn a_sample_reads_back_high_byte_first() {
    let (mut si, shared) = sensor();
    {
        let mut s = shared.borrow_mut();
        s.banks[0][0x2D..0x33].copy_from_slice(&[0x01, 0x02, 0xFF, 0xFF, 0x80, 0x01]);
    }
    assert!(matches!(si.read_vec3_i16(0x2D), Ok([0x0102, -1, -32767])));
}
