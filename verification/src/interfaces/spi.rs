//! The sensor on a serial bus with a chip-select line.
use vstd::prelude::*;
use crate::error::reports;
use crate::error::Error;
use crate::frame::announces_read;
use crate::frame::decode_vector;
use crate::frame::read_frame;
use crate::frame::read_request;
use crate::frame::vector_frame;
use crate::frame::vector_values;
use crate::frame::write_frame;
use crate::frame::write_request;
use crate::frame::DEVICE_ORDER;
use crate::history::added;
use crate::history::extends;
use crate::interfaces::wire::deselects;
use crate::interfaces::wire::framed;
use crate::interfaces::wire::framed_toggles_once;
use crate::interfaces::wire::selects;
use crate::interfaces::wire::settle;
use crate::interfaces::wire::transaction_fault;
use crate::interfaces::wire::transfer_reply;
use crate::interfaces::wire::WireEvent;
use crate::interfaces::SensorInterface;
use crate::registers::ADDR_MAX;
use crate::registers::DIR_READ;
use crate::transport::ChipSelect;
use crate::transport::SpiBus;

verus! {

/// Register access over a serial bus, each access framed by the chip-select
/// line.
///
/// The interface owns its bus and its line.  `wire()` is the history of
/// every call it has made on either, with the answers.  Nothing but
/// `select`, `deselect`, `transfer` and `write` touches the bus or the line:
/// each makes one call and records it.
pub struct SpiInterface<SPI: SpiBus, CS: ChipSelect> {
    spi: SPI,
    cs: CS,
    wire: Ghost<Seq<WireEvent<SPI::Error, CS::Error>>>,
}

/// `events` is one read transaction that exchanged `request`, and `r` is
/// what the caller is told of it.
pub open spec fn read_transaction<T, CommE, PinE>(
    events: Seq<WireEvent<CommE, PinE>>,
    request: Seq<u8>,
    r: Result<T, Error<CommE, PinE>>,
) -> bool {
    &&& framed(events)
    &&& events.len() == 3 ==> events[1] is Transfer && events[1].sent() == request
    &&& reports(r, transaction_fault(events))
}

/// `events` is one write transaction that sent `request`, and `r` is what
/// the caller is told of it.
pub open spec fn write_transaction<CommE, PinE>(
    events: Seq<WireEvent<CommE, PinE>>,
    request: Seq<u8>,
    r: Result<(), Error<CommE, PinE>>,
) -> bool {
    &&& framed(events)
    &&& events.len() == 3 ==> events[1] is Write && events[1].sent() == request
    &&& reports(r, transaction_fault(events))
}

impl<SPI: SpiBus, CS: ChipSelect> SpiInterface<SPI, CS> {
    /// Every call made so far on the bus and on the chip-select line, oldest
    /// first.
    pub closed spec fn wire(&self) -> Seq<WireEvent<SPI::Error, CS::Error>> {
        self.wire@
    }

    /// Takes the bus and the line, and drives the line high so that the bus
    /// starts out idle.
    pub fn new(spi: SPI, cs: CS) -> (r: Result<Self, Error<SPI::Error, CS::Error>>)
        ensures
            match r {
                Ok(device) => {
                    &&& device.wire().len() == 1
                    &&& device.wire()[0] is Deselect
                    &&& device.wire()[0].fault() is None
                },
                Err(e) => e is Pin,
            },
    {
        let mut device = Self { spi: spi, cs: cs, wire: Ghost(Seq::empty()) };
        match device.deselect() {
            Ok(()) => Ok(device),
            Err(e) => Err(Error::Pin(e)),
        }
    }

    /// Drives the line low.
    fn select(&mut self) -> (r: Result<(), CS::Error>)
        ensures
            final(self).wire() == old(self).wire().push(WireEvent::Select(r)),
    {
        let r = self.cs.set_low();
        self.wire = Ghost(self.wire@.push(WireEvent::Select(r)));
        r
    }

    /// Drives the line high.
    fn deselect(&mut self) -> (r: Result<(), CS::Error>)
        ensures
            final(self).wire() == old(self).wire().push(WireEvent::Deselect(r)),
    {
        let r = self.cs.set_high();
        self.wire = Ghost(self.wire@.push(WireEvent::Deselect(r)));
        r
    }

    /// Exchanges `words` for what the bus answers.
    fn transfer(&mut self, words: &mut [u8]) -> (r: Result<(), SPI::Error>)
        ensures
            final(self).wire() == old(self).wire().push(
                WireEvent::Transfer { sent: old(words)@, reply: transfer_reply(r, final(words)@) },
            ),
    {
        let ghost sent = words@;
        let r = self.spi.transfer(words);
        self.wire = Ghost(
            self.wire@.push(WireEvent::Transfer { sent: sent, reply: transfer_reply(r, words@) }),
        );
        r
    }

    /// Sends `words`.
    fn write(&mut self, words: &[u8]) -> (r: Result<(), SPI::Error>)
        ensures
            final(self).wire() == old(self).wire().push(
                WireEvent::Write { sent: words@, outcome: r },
            ),
    {
        let r = self.spi.write(words);
        self.wire = Ghost(self.wire@.push(WireEvent::Write { sent: words@, outcome: r }));
        r
    }

    /// Reads a block of registers in one transaction.
    ///
    /// `buffer` is the exchange buffer: its first byte is overwritten with
    /// the address of the first register and the read flag, the rest goes
    /// out as it stands, and the whole is replaced by what the bus answers.
    /// The answer to the read starts at offset 1.
    pub fn read_block(&mut self, addr: u8, buffer: &mut [u8]) -> (r: Result<
        (),
        Error<SPI::Error, CS::Error>,
    >)
        requires
            old(buffer)@.len() >= 1,
        ensures
            extends(final(self).wire(), old(self).wire()),
            read_transaction(
                added(final(self).wire(), old(self).wire()),
                old(buffer)@.update(0, addr | DIR_READ),
                r,
            ),
            r is Ok ==> final(buffer)@ == added(final(self).wire(), old(self).wire())[1].received(),
    {
        buffer[0] = addr | DIR_READ;
        match self.select() {
            Err(e) => {
                let _ = self.deselect();
                Err(Error::Pin(e))
            },
            Ok(()) => {
                let data = self.transfer(buffer);
                let release = self.deselect();
                settle(data, release)
            },
        }
    }
    /// Writes a block of bytes in one transaction.  The first byte is the
    /// address byte and goes out as it stands.
    pub fn write_block(&mut self, buffer: &[u8]) -> (r: Result<(), Error<SPI::Error, CS::Error>>)
        ensures
            extends(final(self).wire(), old(self).wire()),
            write_transaction(added(final(self).wire(), old(self).wire()), buffer@, r),
    {
        match self.select() {
            Err(e) => {
                let _ = self.deselect();
                Err(Error::Pin(e))
            },
            Ok(()) => {
                let data = self.write(buffer);
                let release = self.deselect();
                settle(data, release)
            },
        }
    }
}

impl<SPI: SpiBus, CS: ChipSelect> SensorInterface for SpiInterface<SPI, CS> {
    type InterfaceError = Error<SPI::Error, CS::Error>;

    /// Reads one register: one transaction that exchanges the address byte,
    /// with the read flag set, and one filler byte.  The value is the second
    /// byte of the answer.
    fn register_read(&mut self, addr: u8) -> (r: Result<u8, Self::InterfaceError>)
        ensures
            extends(final(self).wire(), old(self).wire()),
            ({
                let events = added(final(self).wire(), old(self).wire());
                &&& read_transaction(events, read_request(addr, 1), r)
                &&& selects(events) == 1
                &&& deselects(events) == 1
                &&& events.len() == 3 ==> announces_read(events[1].sent()[0])
                &&& r matches Ok(v) ==> events[1].received().len() == 2 && v
                    == events[1].received()[1]
            }),
    {
        let mut buffer: [u8; 2] = read_frame(addr);
        let ghost request = buffer@;
        let outcome = self.read_block(addr, &mut buffer);
        proof {
            assert(request.update(0, addr | DIR_READ) =~= request);
            framed_toggles_once(added(self.wire(), old(self).wire()));
        }
        match outcome {
            Ok(()) => Ok(buffer[1]),
            Err(e) => Err(e),
        }
    }

    /// Writes one register: one transaction that sends the address byte and
    /// the value.  For a valid address the read flag is clear.
    fn register_write(&mut self, addr: u8, val: u8) -> (r: Result<(), Self::InterfaceError>)
        ensures
            extends(final(self).wire(), old(self).wire()),
            ({
                let events = added(final(self).wire(), old(self).wire());
                &&& write_transaction(events, write_request(addr, val), r)
                &&& selects(events) == 1
                &&& deselects(events) == 1
                &&& events.len() == 3 && addr <= ADDR_MAX ==> !announces_read(events[1].sent()[0])
            }),
    {
        let buffer: [u8; 2] = write_frame(addr, val);
        let outcome = self.write_block(&buffer);
        proof {
            framed_toggles_once(added(self.wire(), old(self).wire()));
        }
        outcome
    }

    /// Reads the six registers from `reg` on in one transaction, so that the
    /// three values belong to one sample, and decodes them in the order in
    /// which the device delivers them.
    fn read_vec3_i16(&mut self, reg: u8) -> (r: Result<[i16; 3], Self::InterfaceError>)
        ensures
            extends(final(self).wire(), old(self).wire()),
            ({
                let events = added(final(self).wire(), old(self).wire());
                &&& read_transaction(events, read_request(reg, 6), r)
                &&& selects(events) == 1
                &&& deselects(events) == 1
                &&& events.len() == 3 ==> announces_read(events[1].sent()[0])
                &&& r matches Ok(v) ==> events[1].received().len() == 7 && v@.map_values(
                    |x: i16| x as int,
                ) == vector_values(events[1].received(), DEVICE_ORDER)
            }),
    {
        let mut buffer: [u8; 7] = vector_frame(reg);
        let ghost request = buffer@;
        let outcome = self.read_block(reg, &mut buffer);
        proof {
            assert(request.update(0, reg | DIR_READ) =~= request);
            framed_toggles_once(added(self.wire(), old(self).wire()));
        }
        match outcome {
            Ok(()) => Ok(decode_vector(&buffer, DEVICE_ORDER)),
            Err(e) => Err(e),
        }
    }
}

} // verus!
