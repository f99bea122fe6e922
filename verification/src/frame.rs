//! The wire format of a register access.
//!
//! A transaction starts with an address byte.  Its low seven bits name the
//! register, its high bit the direction: set for a read, clear for a write.
//! In a write the value follows.  In a read the host clocks out one filler
//! byte for each byte it wants; the answer arrives in their place, from
//! offset 1 on.
use vstd::prelude::*;
use crate::registers::ADDR_MAX;
use crate::registers::DIR_READ;

verus! {

/// Does this address byte announce a read?
pub open spec fn announces_read(first: u8) -> bool {
    first & DIR_READ == DIR_READ
}

/// The register that an address byte names.
pub open spec fn register_of(first: u8) -> u8 {
    first & ADDR_MAX
}

/// The bytes that ask for `n` bytes starting at register `addr`.
pub open spec fn read_request(addr: u8, n: nat) -> Seq<u8> {
    seq![addr | DIR_READ] + Seq::new(n, |i: int| 0u8)
}

/// The bytes that store `val` in register `addr`.
pub open spec fn write_request(addr: u8, val: u8) -> Seq<u8> {
    seq![addr, val]
}

/// The address byte of a read carries the direction flag and still names the
/// register.
pub proof fn read_request_sets_flag(addr: u8, n: nat)
    ensures
        announces_read(read_request(addr, n)[0]),
        register_of(read_request(addr, n)[0]) == register_of(addr),
        addr <= ADDR_MAX ==> register_of(read_request(addr, n)[0]) == addr,
{
    assert((addr | 0x80u8) & 0x80u8 == 0x80u8) by (bit_vector);
    assert((addr | 0x80u8) & 0x7Fu8 == addr & 0x7Fu8) by (bit_vector);
    assert(addr <= 0x7Fu8 ==> addr & 0x7Fu8 == addr) by (bit_vector);
}

/// The address byte of a write to a valid register carries no direction
/// flag.
pub proof fn write_request_clears_flag(addr: u8, val: u8)
    requires
        addr <= ADDR_MAX,
    ensures
        !announces_read(write_request(addr, val)[0]),
        register_of(write_request(addr, val)[0]) == addr,
{
    assert(addr <= 0x7Fu8 ==> addr & 0x80u8 != 0x80u8) by (bit_vector);
    assert(addr <= 0x7Fu8 ==> addr & 0x7Fu8 == addr) by (bit_vector);
}

/// Builds the exchange buffer of a single-register read.
pub fn read_frame(addr: u8) -> (frame: [u8; 2])
    ensures
        frame@ == read_request(addr, 1),
        announces_read(frame[0]),
{
    let frame: [u8; 2] = [addr | DIR_READ, 0];
    proof {
        read_request_sets_flag(addr, 1);
        assert(frame@ =~= read_request(addr, 1));
    }
    frame
}

/// Builds the exchange buffer of a read of six consecutive registers.
pub fn vector_frame(addr: u8) -> (frame: [u8; 7])
    ensures
        frame@ == read_request(addr, 6),
        announces_read(frame[0]),
{
    let frame: [u8; 7] = [addr | DIR_READ, 0, 0, 0, 0, 0, 0];
    proof {
        read_request_sets_flag(addr, 6);
        assert(frame@ =~= read_request(addr, 6));
    }
    frame
}

/// Builds the bytes of a single-register write.
pub fn write_frame(addr: u8, val: u8) -> (frame: [u8; 2])
    ensures
        frame@ == write_request(addr, val),
        addr <= ADDR_MAX ==> !announces_read(frame[0]),
{
    let frame: [u8; 2] = [addr, val];
    proof {
        if addr <= ADDR_MAX {
            write_request_clears_flag(addr, val);
        }
        assert(frame@ =~= write_request(addr, val));
    }
    frame
}

/// Which byte of a 16-bit value comes first on the wire.
#[derive(Clone, Copy, Debug, PartialEq, Eq)]
pub enum ByteOrder {
    /// High byte first.
    BigEndian,
    /// Low byte first.
    LittleEndian,
}

/// The order in which the device delivers its 16-bit outputs.  It keeps each
/// with its high byte at the lower address, as the temperature pair shows,
/// so a block read brings the high byte first.
pub const DEVICE_ORDER: ByteOrder = ByteOrder::BigEndian;

/// The unsigned 16-bit value with the given high and low byte.
pub open spec fn word(high: u8, low: u8) -> int {
    high as int * 256 + low as int
}

/// A 16-bit pattern read as a two's complement number.
pub open spec fn signed(w: int) -> int {
    if w < 0x8000 {
        w
    } else {
        w - 0x1_0000
    }
}

/// The signed value of two bytes that arrived in the given order.
pub open spec fn axis_value(first: u8, second: u8, order: ByteOrder) -> int {
    match order {
        ByteOrder::BigEndian => signed(word(first, second)),
        ByteOrder::LittleEndian => signed(word(second, first)),
    }
}

/// The three axis values that an answer to a six-register read carries,
/// from offset 1 on.
pub open spec fn vector_values(frame: Seq<u8>, order: ByteOrder) -> Seq<int>
    recommends
        frame.len() == 7,
{
    seq![
        axis_value(frame[1], frame[2], order),
        axis_value(frame[3], frame[4], order),
        axis_value(frame[5], frame[6], order),
    ]
}

/// Assembles an unsigned 16-bit value from its two bytes.
pub fn join(high: u8, low: u8) -> (w: u16)
    ensures
        w == word(high, low),
{
    let h: u16 = high as u16;
    let l: u16 = low as u16;
    h * 256 + l
}

/// Decodes one signed 16-bit value from two bytes in wire order.
pub fn decode_axis(first: u8, second: u8, order: ByteOrder) -> (v: i16)
    ensures
        v == axis_value(first, second, order),
{
    let w: u16 = match order {
        ByteOrder::BigEndian => join(first, second),
        ByteOrder::LittleEndian => join(second, first),
    };
    if w < 0x8000 {
        w as i16
    } else {
        let below: i16 = (w - 0x8000) as i16;
        below + i16::MIN
    }
}

/// Decodes the answer to a six-register read: three signed 16-bit values
/// from offset 1 on.  Offset 0 arrived while the address went out and means
/// nothing.
pub fn decode_vector(frame: &[u8; 7], order: ByteOrder) -> (v: [i16; 3])
    ensures
        v@.map_values(|x: i16| x as int) == vector_values(frame@, order),
{
    let x: i16 = decode_axis(frame[1], frame[2], order);
    let y: i16 = decode_axis(frame[3], frame[4], order);
    let z: i16 = decode_axis(frame[5], frame[6], order);
    let v: [i16; 3] = [x, y, z];
    assert(v@.map_values(|x: i16| x as int) =~= vector_values(frame@, order));
    v
}

} // verus!
