use icm20948::bank::Bank;
use icm20948::error::Error;
use icm20948::frame::decode_axis;
use icm20948::frame::decode_vector;
use icm20948::frame::join;
use icm20948::frame::read_frame;
use icm20948::frame::vector_frame;
use icm20948::frame::write_frame;
use icm20948::frame::ByteOrder;
use icm20948::frame::DEVICE_ORDER;
use icm20948::interfaces::wire::settle;
use icm20948::registers;
use icm20948::reset::is_reset_done;

#[test]
fn bank_numbers_are_zero_to_three() {
    assert_eq!(Bank::Bank0.get_num(), 0);
    assert_eq!(Bank::Bank1.get_num(), 1);
    assert_eq!(Bank::Bank2.get_num(), 2);
    assert_eq!(Bank::Bank3.get_num(), 3);
}

#[test]
fn register_map_is_bit_exact() {
    assert_eq!(registers::REG_BANK_SEL, 0x7F);
    assert_eq!(registers::REG_WHO_AM_I, 0x00);
    assert_eq!(registers::WHO_AM_I, 0xEA);
    assert_eq!(registers::REG_PWR_MGMT_1, 0x06);
    assert_eq!(registers::PWR_RESET, 1 << 7);
    assert_eq!(registers::PWR_LOW_POWER, 1 << 6);
    assert_eq!(registers::PWR_CLK_AUTO, 1 << 0);
    assert_eq!(registers::PWR_LOW_POWER_CLK_AUTO, (1 << 6) | 0x01);
    assert_eq!(registers::REG_LP_CONFIG, 0x05);
    assert_eq!(registers::LP_DUTY_CYCLED, (1 << 5) | (1 << 4));
    assert_eq!(registers::REG_FIFO_EN_2, 0x67);
    assert_eq!(registers::FIFO_ALL, 0b11111);
    assert_eq!(registers::REG_INT_ENABLE, 0x10);
    assert_eq!(registers::REG_INT_ENABLE_1, 0x11);
    assert_eq!(registers::REG_INT_ENABLE_2, 0x12);
    assert_eq!(registers::REG_INT_ENABLE_3, 0x13);
    assert_eq!(registers::REG_GYRO, 0x33);
    assert_eq!(registers::REG_ACCEL, 0x2D);
    assert_eq!(registers::REG_TEMP_OUT_H, 0x39);
    assert_eq!(registers::REG_TEMP_OUT_L, 0x3A);
    assert_eq!(registers::DIR_READ, 0x80);
    assert_eq!(registers::ADDR_MAX, 0x7F);
    assert_eq!(registers::RESET_ATTEMPTS, 10);
    assert_eq!(registers::RESET_PAUSE_MS, 10);
}

#[test]
fn read_frame_sets_the_direction_bit_for_every_address() {
    for addr in 0u8..=0x7F {
        let frame = read_frame(addr);
        assert_eq!(frame[0] & 0x80, 0x80);
        assert_eq!(frame[0] & 0x7F, addr);
        assert_eq!(frame[1], 0);
    }
    assert_eq!(read_frame(0x06), [0x86, 0x00]);
}

#[test]
fn write_frame_leaves_the_direction_bit_clear_for_every_address() {
    for addr in 0u8..=0x7F {
        let frame = write_frame(addr, 0xFF);
        assert_eq!(frame[0] & 0x80, 0);
        assert_eq!(frame, [addr, 0xFF]);
    }
    assert_eq!(write_frame(0x7F, 0x02), [0x7F, 0x02]);
}

#[test]
fn write_frame_passes_an_address_through_as_it_stands() {
    assert_eq!(write_frame(0x85, 0x10), [0x85, 0x10]);
}

#[test]
fn vector_frame_asks_for_six_bytes() {
    assert_eq!(vector_frame(0x33), [0xB3, 0, 0, 0, 0, 0, 0]);
    assert_eq!(vector_frame(0x2D), [0xAD, 0, 0, 0, 0, 0, 0]);
}

#[test]
fn join_puts_the_high_byte_first() {
    assert_eq!(join(0x00, 0x00), 0);
    assert_eq!(join(0x01, 0x4D), 333);
    assert_eq!(join(0x12, 0x34), 0x1234);
    assert_eq!(join(0xFF, 0xFF), 0xFFFF);
}

#[test]
fn decode_axis_reads_twos_complement() {
    assert_eq!(decode_axis(0x00, 0x00, ByteOrder::BigEndian), 0);
    assert_eq!(decode_axis(0x00, 0x01, ByteOrder::BigEndian), 1);
    assert_eq!(decode_axis(0x7F, 0xFF, ByteOrder::BigEndian), 32767);
    assert_eq!(decode_axis(0x80, 0x00, ByteOrder::BigEndian), -32768);
    assert_eq!(decode_axis(0xFF, 0xFF, ByteOrder::BigEndian), -1);
    assert_eq!(decode_axis(0xFF, 0xFE, ByteOrder::BigEndian), -2);
    assert_eq!(decode_axis(0x12, 0x34, ByteOrder::BigEndian), 0x1234);
}

#[test]
fn decode_axis_honours_the_byte_order() {
    assert_eq!(decode_axis(0x34, 0x12, ByteOrder::LittleEndian), 0x1234);
    assert_eq!(decode_axis(0xFF, 0xFE, ByteOrder::LittleEndian), -257);
    assert_eq!(decode_axis(0x00, 0x80, ByteOrder::LittleEndian), -32768);
    assert_eq!(decode_axis(0x01, 0x00, ByteOrder::LittleEndian), 1);
}

#[test]
fn decode_axis_agrees_with_the_standard_conversions() {
    for first in 0u8..=255 {
        for second in [0u8, 1, 0x7F, 0x80, 0xFE, 0xFF] {
            assert_eq!(
                decode_axis(first, second, ByteOrder::BigEndian),
                i16::from_be_bytes([first, second])
            );
            assert_eq!(
                decode_axis(first, second, ByteOrder::LittleEndian),
                i16::from_le_bytes([first, second])
            );
        }
    }
}

#[test]
fn decode_vector_skips_the_first_byte() {
    let frame = [0xAA, 0x00, 0x01, 0xFF, 0xFF, 0x80, 0x00];
    assert_eq!(decode_vector(&frame, ByteOrder::BigEndian), [1, -1, -32768]);
    assert_eq!(decode_vector(&frame, ByteOrder::LittleEndian), [256, -1, 128]);
}

#[test]
fn the_device_delivers_the_high_byte_first() {
    assert_eq!(DEVICE_ORDER, ByteOrder::BigEndian);
}

#[test]
fn settle_reports_the_release_before_the_data() {
    let both: Result<u8, Error<&str, &str>> = settle(Err("bus"), Err("line"));
    assert!(matches!(both, Err(Error::Pin("line"))));
    let line: Result<u8, Error<&str, &str>> = settle(Ok(3), Err("line"));
    assert!(matches!(line, Err(Error::Pin("line"))));
    let bus: Result<u8, Error<&str, &str>> = settle(Err("bus"), Ok(()));
    assert!(matches!(bus, Err(Error::Comm("bus"))));
    let fine: Result<u8, Error<&str, &str>> = settle(Ok(3), Ok(()));
    assert!(matches!(fine, Ok(3)));
}

#[test]
fn reset_is_done_when_the_reset_bit_is_clear() {
    let clear: Result<u8, ()> = Ok(0x00);
    assert!(is_reset_done(&clear));
    let other_bits: Result<u8, ()> = Ok(0x7F);
    assert!(is_reset_done(&other_bits));
    let set: Result<u8, ()> = Ok(0x80);
    assert!(!is_reset_done(&set));
    let all: Result<u8, ()> = Ok(0xFF);
    assert!(!is_reset_done(&all));
    let failed: Result<u8, ()> = Err(());
    assert!(!is_reset_done(&failed));
}
