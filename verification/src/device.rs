//! The device handle: the bank selector and the named operations.
use vstd::prelude::*;
use crate::bank::Bank;
use crate::error::reports;
use crate::error::Error;
use crate::history::added;
use crate::history::added_chain;
use crate::history::added_push;
use crate::frame::join;
use crate::frame::word;
use crate::history::extends;
use crate::frame::write_request;
use crate::interfaces::spi::SpiInterface;
use crate::interfaces::wire::WireEvent;
use crate::interfaces::SensorInterface;
use crate::journal::follows;
use crate::journal::selected_bank;
use crate::journal::selected_bank_after;
use crate::journal::Access;
use crate::journal::Request;
use crate::registers::FIFO_ALL;
use crate::registers::LP_DUTY_CYCLED;
use crate::registers::PWR_CLK_AUTO;
use crate::registers::PWR_LOW_POWER_CLK_AUTO;
use crate::registers::PWR_RESET;
use crate::registers::REG_ACCEL;
use crate::registers::REG_BANK_SEL;
use crate::registers::REG_FIFO_EN_2;
use crate::registers::REG_GYRO;
use crate::registers::REG_INT_ENABLE;
use crate::registers::REG_INT_ENABLE_1;
use crate::registers::REG_INT_ENABLE_2;
use crate::registers::REG_INT_ENABLE_3;
use crate::registers::REG_LP_CONFIG;
use crate::registers::REG_PWR_MGMT_1;
use crate::registers::REG_WHO_AM_I;
use crate::registers::REG_TEMP_OUT_H;
use crate::registers::REG_TEMP_OUT_L;
use crate::registers::RESET_ATTEMPTS;
use crate::registers::RESET_PAUSE_MS;
use crate::registers::WHO_AM_I;
use crate::reset::is_reset_done;
use crate::reset::polling_from;
use crate::reset::reset_fault;
use crate::reset::reset_run;
use crate::reset::shows_reset_done;
use crate::transport::ChipSelect;
use crate::transport::DelayMs;
use crate::transport::SpiBus;

verus! {

/// Handle of one device.
///
/// The handle owns its sensor interface and remembers which bank it has
/// selected.  `journal()` is the history of every request it has made, with
/// the answers, beginning with the selection of bank 0 that every handle
/// starts from.  Once the handle exists, nothing but `read_register`,
/// `write_register`, `read_vector` and `pause` touches the interface or a
/// delay source: each makes one request and records it.
pub struct ICM20948<SI: SensorInterface> {
    si: SI,
    bank: Bank,
    journal: Ghost<Seq<Access<SI::InterfaceError>>>,
}

/// What `who_am_i` asks: bank 0, then the identity register.
pub open spec fn identity_plan() -> Seq<Request> {
    seq![Request::Write(REG_BANK_SEL, 0), Request::Read(REG_WHO_AM_I)]
}

/// What `setup` asks: duty-cycled sampling, every interrupt off, the sensor
/// outputs into the FIFO, and low power with the clock chosen
/// automatically.
pub open spec fn setup_plan() -> Seq<Request> {
    seq![
        Request::Write(REG_LP_CONFIG, LP_DUTY_CYCLED),
        Request::Write(REG_INT_ENABLE, 0),
        Request::Write(REG_INT_ENABLE_1, 0),
        Request::Write(REG_INT_ENABLE_2, 0),
        Request::Write(REG_INT_ENABLE_3, 0),
        Request::Write(REG_FIFO_EN_2, FIFO_ALL),
        Request::Write(REG_PWR_MGMT_1, PWR_LOW_POWER_CLK_AUTO),
    ]
}

/// What `get_temp_raw` asks: bank 0, then the low and the high byte of the
/// temperature.
pub open spec fn temperature_plan() -> Seq<Request> {
    seq![
        Request::Write(REG_BANK_SEL, 0),
        Request::Read(REG_TEMP_OUT_L),
        Request::Read(REG_TEMP_OUT_H),
    ]
}

/// What `new_setup` asks once the device is identified and reset: in bank
/// 0, the clock chosen automatically and the device awake, then duty-cycled
/// sampling.
pub open spec fn wake_plan() -> Seq<Request> {
    seq![
        Request::Write(REG_BANK_SEL, 0),
        Request::Write(REG_PWR_MGMT_1, PWR_CLK_AUTO),
        Request::Write(REG_BANK_SEL, 0),
        Request::Write(REG_LP_CONFIG, LP_DUTY_CYCLED),
    ]
}

/// The three stages of `new_setup`, one after the other.
pub open spec fn staged<E>(query: Seq<Access<E>>, reset: Seq<Access<E>>, wake: Seq<Access<E>>) -> Seq<
    Access<E>,
> {
    query + reset + wake
}

/// `query`, `reset` and `wake` are the stages of one `new_setup`, and `r` is
/// its result.  The identity is asked first.  A stage is entered only if
/// the one before it succeeded, and the reset only if the identity is the
/// expected one.
pub open spec fn bring_up_stages<CommE, PinE>(
    query: Seq<Access<Error<CommE, PinE>>>,
    reset: Seq<Access<Error<CommE, PinE>>>,
    wake: Seq<Access<Error<CommE, PinE>>>,
    r: Result<(), Error<CommE, PinE>>,
) -> bool {
    &&& follows(query, identity_plan())
    &&& if query.last().fault() is Some {
        &&& reset.len() == 0
        &&& wake.len() == 0
        &&& reports(r, query.last().fault())
    } else if query.last().value() != WHO_AM_I {
        &&& reset.len() == 0
        &&& wake.len() == 0
        &&& r == Err::<(), Error<CommE, PinE>>(Error::InvalidID)
    } else {
        &&& reset_run(reset)
        &&& if reset_fault(reset) is Some {
            &&& wake.len() == 0
            &&& reports(r, reset_fault(reset))
        } else {
            &&& follows(wake, wake_plan())
            &&& reports(r, wake.last().fault())
        }
    }
}

/// `ops` is one `new_setup`, and `r` is its result.
pub open spec fn bring_up<CommE, PinE>(
    ops: Seq<Access<Error<CommE, PinE>>>,
    r: Result<(), Error<CommE, PinE>>,
) -> bool {
    exists|
        query: Seq<Access<Error<CommE, PinE>>>,
        reset: Seq<Access<Error<CommE, PinE>>>,
        wake: Seq<Access<Error<CommE, PinE>>>,
    |
        ops == #[trigger] staged(query, reset, wake) && bring_up_stages(query, reset, wake, r)
}

impl<SI, CommE, PinE> ICM20948<SI> where SI: SensorInterface<InterfaceError = Error<CommE, PinE>> {
    /// Every request made so far, oldest first.
    pub closed spec fn journal(&self) -> Seq<Access<Error<CommE, PinE>>> {
        self.journal@
    }

    /// The bank that the handle holds to be selected.
    pub closed spec fn bank(&self) -> Bank {
        self.bank
    }

    /// The sensor interface that the handle owns.
    pub closed spec fn interface(&self) -> SI {
        self.si
    }

    /// The handle's idea of the selected bank is the number that it last
    /// stored in the bank selector.
    pub open spec fn wf(&self) -> bool {
        selected_bank(self.journal()) == Some(self.bank().num())
    }

    /// The bank that the handle holds to be selected.
    pub fn current_bank(&self) -> (bank: Bank)
        ensures
            bank == self.bank(),
    {
        self.bank
    }

    /// Stores `val` in the register at `addr`.
    fn write_register(&mut self, addr: u8, val: u8) -> (r: Result<(), Error<CommE, PinE>>)
        ensures
            final(self).journal() == old(self).journal().push(
                Access::Write { addr, val, outcome: r },
            ),
            final(self).bank() == old(self).bank(),
            selected_bank(final(self).journal()) == if addr == REG_BANK_SEL && r is Ok {
                Some(val)
            } else {
                selected_bank(old(self).journal())
            },
    {
        let r = self.si.register_write(addr, val);
        proof {
            selected_bank_after(self.journal@, Access::Write { addr, val, outcome: r });
        }
        self.journal = Ghost(self.journal@.push(Access::Write { addr, val, outcome: r }));
        r
    }

    /// Reads the register at `addr`.
    fn read_register(&mut self, addr: u8) -> (r: Result<u8, Error<CommE, PinE>>)
        ensures
            final(self).journal() == old(self).journal().push(Access::Read { addr, reply: r }),
            final(self).bank() == old(self).bank(),
            selected_bank(final(self).journal()) == selected_bank(old(self).journal()),
    {
        let r = self.si.register_read(addr);
        proof {
            selected_bank_after(self.journal@, Access::Read { addr, reply: r });
        }
        self.journal = Ghost(self.journal@.push(Access::Read { addr, reply: r }));
        r
    }

    /// Reads the six registers from `base` on as one sample.
    fn read_vector(&mut self, base: u8) -> (r: Result<[i16; 3], Error<CommE, PinE>>)
        ensures
            final(self).journal() == old(self).journal().push(
                Access::ReadVector { base, sample: r },
            ),
            final(self).bank() == old(self).bank(),
            selected_bank(final(self).journal()) == selected_bank(old(self).journal()),
    {
        let r = self.si.read_vec3_i16(base);
        proof {
            selected_bank_after(self.journal@, Access::ReadVector { base, sample: r });
        }
        self.journal = Ghost(self.journal@.push(Access::ReadVector { base, sample: r }));
        r
    }

    /// Waits for `ms` milliseconds.
    fn pause<D: DelayMs>(&mut self, delay_source: &mut D, ms: u8)
        ensures
            final(self).journal() == old(self).journal().push(Access::Pause { ms }),
            final(self).bank() == old(self).bank(),
            selected_bank(final(self).journal()) == selected_bank(old(self).journal()),
    {
        delay_source.delay_ms(ms);
        proof {
            selected_bank_after(self.journal@, Access::<Error<CommE, PinE>>::Pause { ms });
        }
        self.journal = Ghost(self.journal@.push(Access::Pause { ms }));
    }

    /// Configures the device: duty-cycled sampling, every interrupt off, the
    /// sensor outputs into the FIFO, low power with the clock chosen
    /// automatically.  The registers are written in that order and the first
    /// failure ends the sequence.  No bank is selected.
    pub fn setup(&mut self) -> (r: Result<(), Error<CommE, PinE>>)
        ensures
            extends(final(self).journal(), old(self).journal()),
            ({
                let ops = added(final(self).journal(), old(self).journal());
                &&& follows(ops, setup_plan())
                &&& reports(r, ops.last().fault())
            }),
            final(self).bank() == old(self).bank(),
            old(self).wf() ==> final(self).wf(),
    {
        self.write_register(REG_LP_CONFIG, LP_DUTY_CYCLED)?;
        self.write_register(REG_INT_ENABLE, 0)?;
        self.write_register(REG_INT_ENABLE_1, 0)?;
        self.write_register(REG_INT_ENABLE_2, 0)?;
        self.write_register(REG_INT_ENABLE_3, 0)?;
        self.write_register(REG_FIFO_EN_2, FIFO_ALL)?;
        self.write_register(REG_PWR_MGMT_1, PWR_LOW_POWER_CLK_AUTO)?;
        Ok(())
    }

    /// Selects `bank`: stores its number in the bank selector, and remembers
    /// it if the store succeeded.  The store is made even if the handle
    /// holds `bank` to be selected already, and is not read back.
    pub fn change_bank(&mut self, bank: Bank) -> (r: Result<(), Error<CommE, PinE>>)
        ensures
            final(self).journal() == old(self).journal().push(
                Access::Write { addr: REG_BANK_SEL, val: bank.num(), outcome: r },
            ),
            final(self).bank() == if r is Ok {
                bank
            } else {
                old(self).bank()
            },
            r is Ok ==> final(self).wf(),
            old(self).wf() ==> final(self).wf(),
    {
        let r = self.write_register(REG_BANK_SEL, bank.get_num());
        if r.is_ok() {
            self.bank = bank;
        }
        r
    }

    /// Makes the handle of an interface that was asked to select bank 0 and
    /// answered `selected`.  If it answered with a failure there is no
    /// handle, and that failure is the result.  Otherwise the handle owns the
    /// interface, holds bank 0 to be selected, and its journal starts with
    /// that one request.
    fn started(sensor_interface: SI, selected: Result<(), Error<CommE, PinE>>) -> (r: Result<
        Self,
        Error<CommE, PinE>,
    >)
        ensures
            match selected {
                Ok(()) => r matches Ok(device) && {
                    &&& device.interface() == sensor_interface
                    &&& device.journal() == seq![
                        Access::Write { addr: REG_BANK_SEL, val: 0u8, outcome: selected },
                    ]
                    &&& device.bank() == Bank::Bank0
                    &&& device.wf()
                },
                Err(e) => r == Err::<Self, Error<CommE, PinE>>(e),
            },
    {
        let ghost first = Access::Write { addr: REG_BANK_SEL, val: 0u8, outcome: selected };
        match selected {
            Err(e) => Err(e),
            Ok(()) => {
                proof {
                    selected_bank_after(Seq::empty(), first);
                    assert(Seq::empty().push(first) =~= seq![first]);
                }
                Ok(Self { si: sensor_interface, bank: Bank::Bank0, journal: Ghost(Seq::empty().push(first)) })
            },
        }
    }

    /// Takes the sensor interface and selects bank 0, before anything else
    /// is asked of the device.  Whether there is a handle is for the
    /// interface to say: its answer to that one request is the failure
    /// returned, or the handle is.
    pub fn new_with_interface(sensor_interface: SI) -> (r: Result<Self, Error<CommE, PinE>>)
        ensures
            r matches Ok(device) ==> {
                &&& device.journal().len() == 1
                &&& device.journal()[0].request() == Request::Write(REG_BANK_SEL, 0)
                &&& device.journal()[0].fault() is None
                &&& device.bank() == Bank::Bank0
                &&& device.wf()
            },
    {
        let mut sensor_interface = sensor_interface;
        let selected = sensor_interface.register_write(REG_BANK_SEL, Bank::Bank0.get_num());
        Self::started(sensor_interface, selected)
    }

    /// Reads the identity register.  Bank 0 is selected first, whatever the
    /// handle holds to be selected.
    pub fn who_am_i(&mut self) -> (r: Result<u8, Error<CommE, PinE>>)
        ensures
            extends(final(self).journal(), old(self).journal()),
            ({
                let ops = added(final(self).journal(), old(self).journal());
                &&& follows(ops, identity_plan())
                &&& reports(r, ops.last().fault())
                &&& r matches Ok(id) ==> ops.len() == 2 && id == ops[1].value()
                &&& final(self).bank() == if ops[0].fault() is None {
                    Bank::Bank0
                } else {
                    old(self).bank()
                }
            }),
            old(self).wf() ==> final(self).wf(),
    {
        match self.change_bank(Bank::Bank0) {
            Err(e) => Err(e),
            Ok(()) => {
                let r = self.read_register(REG_WHO_AM_I);
                r
            },
        }
    }

    /// Resets the device and waits until it is done.
    ///
    /// The reset bit of the power management register is set.  Then the
    /// register is read until a reading shows the bit clear, at most
    /// `RESET_ATTEMPTS` times, with a pause of `RESET_PAUSE_MS` after each
    /// reading that does not show it, the last one too.  A reading that
    /// fails is not reported; it counts as one that does not show the bit
    /// clear.  If no reading shows it, the reset fails with `Unresponsive`.
    /// No bank is selected.
    pub fn soft_reset<D: DelayMs>(&mut self, delay_source: &mut D) -> (r: Result<
        (),
        Error<CommE, PinE>,
    >)
        ensures
            extends(final(self).journal(), old(self).journal()),
            ({
                let ops = added(final(self).journal(), old(self).journal());
                &&& reset_run(ops)
                &&& reports(r, reset_fault(ops))
            }),
            final(self).bank() == old(self).bank(),
            old(self).wf() ==> final(self).wf(),
    {
        self.write_register(REG_PWR_MGMT_1, PWR_RESET)?;
        let ghost before = old(self).journal();
        let ghost bank = old(self).bank();
        let mut attempt: usize = 0;
        while attempt < RESET_ATTEMPTS
            invariant
                attempt <= RESET_ATTEMPTS,
                before == old(self).journal(),
                bank == old(self).bank(),
                self.bank() == bank,
                selected_bank(self.journal()) == selected_bank(before),
                extends(self.journal(), before),
                ({
                    let ops = added(self.journal(), before);
                    &&& ops.len() == 1 + 2 * attempt
                    &&& ops[0].request() == Request::Write(REG_PWR_MGMT_1, PWR_RESET)
                    &&& ops[0].fault() is None
                    &&& forall|i: int|
                        1 <= i < ops.len() && i % 2 == 1 ==> (#[trigger] ops[i]).request()
                            == Request::Read(REG_PWR_MGMT_1)
                    &&& forall|i: int|
                        1 <= i < ops.len() && i % 2 == 0 ==> (#[trigger] ops[i]).request()
                            == Request::Pause(RESET_PAUSE_MS)
                    &&& forall|i: int| 0 <= i < ops.len() ==> !shows_reset_done(#[trigger] ops[i])
                }),
            decreases RESET_ATTEMPTS - attempt,
        {
            let ghost tried = self.journal();
            let reading = self.read_register(REG_PWR_MGMT_1);
            proof {
                added_push(tried, before, Access::Read { addr: REG_PWR_MGMT_1, reply: reading });
            }
            if is_reset_done(&reading) {
                proof {
                    polling_from(added(self.journal(), before));
                }
                return Ok(());
            }
            let ghost read = self.journal();
            self.pause(delay_source, RESET_PAUSE_MS);
            proof {
                added_push(read, before, Access::Pause { ms: RESET_PAUSE_MS });
            }
            attempt += 1;
        }
        proof {
            polling_from(added(self.journal(), before));
        }
        Err(Error::Unresponsive)
    }

    /// Brings the device up from an unknown state.
    ///
    /// The identity register is read first.  If it does not hold `WHO_AM_I`
    /// the device is not touched again and the result is `InvalidID`.
    /// Otherwise the device is reset, then woken with its clock chosen
    /// automatically, then set to duty-cycled sampling, bank 0 being selected
    /// before each of the two writes.  The first failure ends the sequence
    /// and is the result.
    pub fn new_setup<D: DelayMs>(&mut self, delay_source: &mut D) -> (r: Result<
        (),
        Error<CommE, PinE>,
    >)
        ensures
            extends(final(self).journal(), old(self).journal()),
            ({
                let ops = added(final(self).journal(), old(self).journal());
                &&& bring_up(ops, r)
                &&& ops.len() >= 1
                &&& final(self).bank() == if ops[0].fault() is None {
                    Bank::Bank0
                } else {
                    old(self).bank()
                }
            }),
            old(self).wf() ==> final(self).wf(),
    {
        let ghost before = self.journal();
        let answer = self.who_am_i();
        let ghost asked = self.journal();
        let ghost query = added(asked, before);
        let id = match answer {
            Ok(id) => id,
            Err(e) => {
                proof {
                    assert(query =~= staged(query, Seq::empty(), Seq::empty()));
                }
                return Err(e);
            },
        };
        if id != WHO_AM_I {
            proof {
                assert(query =~= staged(query, Seq::empty(), Seq::empty()));
            }
            return Err(Error::InvalidID);
        }
        let restarted = self.soft_reset(delay_source);
        let ghost waited = self.journal();
        let ghost reset = added(waited, asked);
        proof {
            added_chain(waited, asked, before);
        }
        match restarted {
            Ok(()) => {},
            Err(e) => {
                proof {
                    assert(added(waited, before) =~= staged(query, reset, Seq::empty()));
                }
                return Err(e);
            },
        }
        let r = self.wake();
        proof {
            let wake = added(self.journal(), waited);
            added_chain(self.journal(), waited, before);
            assert(added(self.journal(), before) =~= staged(query, reset, wake));
        }
        r
    }

    /// Wakes the device with its clock chosen automatically and sets it to
    /// duty-cycled sampling, selecting bank 0 before each write.
    fn wake(&mut self) -> (r: Result<(), Error<CommE, PinE>>)
        ensures
            extends(final(self).journal(), old(self).journal()),
            ({
                let ops = added(final(self).journal(), old(self).journal());
                &&& follows(ops, wake_plan())
                &&& reports(r, ops.last().fault())
            }),
            old(self).bank() == Bank::Bank0 ==> final(self).bank() == Bank::Bank0,
            old(self).wf() ==> final(self).wf(),
    {
        self.change_bank(Bank::Bank0)?;
        self.write_register(REG_PWR_MGMT_1, PWR_CLK_AUTO)?;
        self.change_bank(Bank::Bank0)?;
        self.write_register(REG_LP_CONFIG, LP_DUTY_CYCLED)?;
        Ok(())
    }

    /// Reads the raw temperature: bank 0 is selected, then the low and the
    /// high byte are read, each in a transaction of its own, and joined.
    pub fn get_temp_raw(&mut self) -> (r: Result<u16, Error<CommE, PinE>>)
        ensures
            extends(final(self).journal(), old(self).journal()),
            ({
                let ops = added(final(self).journal(), old(self).journal());
                &&& follows(ops, temperature_plan())
                &&& reports(r, ops.last().fault())
                &&& r matches Ok(raw) ==> ops.len() == 3 && raw == word(
                    ops[2].value(),
                    ops[1].value(),
                )
                &&& final(self).bank() == if ops[0].fault() is None {
                    Bank::Bank0
                } else {
                    old(self).bank()
                }
            }),
            old(self).wf() ==> final(self).wf(),
    {
        self.change_bank(Bank::Bank0)?;
        let low = self.read_register(REG_TEMP_OUT_L)?;
        let high = self.read_register(REG_TEMP_OUT_H)?;
        Ok(join(high, low))
    }

    /// Reads the register at `addr` of whichever bank is selected.
    pub fn dev_read(&mut self, addr: u8) -> (r: Result<u8, Error<CommE, PinE>>)
        ensures
            final(self).journal() == old(self).journal().push(Access::Read { addr, reply: r }),
            final(self).bank() == old(self).bank(),
            old(self).wf() ==> final(self).wf(),
    {
        let r = self.read_register(addr);
        r
    }

    /// Reads one gyroscope sample: three raw axis values.
    pub fn get_raw_gyro(&mut self) -> (r: Result<[i16; 3], Error<CommE, PinE>>)
        ensures
            final(self).journal() == old(self).journal().push(
                Access::ReadVector { base: REG_GYRO, sample: r },
            ),
            final(self).bank() == old(self).bank(),
            old(self).wf() ==> final(self).wf(),
    {
        let r = self.read_vector(REG_GYRO);
        r
    }

    /// Reads one accelerometer sample: three raw axis values.
    pub fn get_raw_accel(&mut self) -> (r: Result<[i16; 3], Error<CommE, PinE>>)
        ensures
            final(self).journal() == old(self).journal().push(
                Access::ReadVector { base: REG_ACCEL, sample: r },
            ),
            final(self).bank() == old(self).bank(),
            old(self).wf() ==> final(self).wf(),
    {
        let r = self.read_vector(REG_ACCEL);
        r
    }
}

/// `wire` is what making a device on a bus puts on the wire when all goes
/// well: the line is driven high, then one transaction stores 0 in the bank
/// selector.
pub open spec fn spi_start<CommE, PinE>(wire: Seq<WireEvent<CommE, PinE>>) -> bool {
    &&& wire.len() == 4
    &&& wire[0] is Deselect
    &&& wire[1] is Select
    &&& wire[2] is Write
    &&& wire[2].sent() == write_request(REG_BANK_SEL, 0)
    &&& wire[3] is Deselect
    &&& forall|i: int| 0 <= i < 4 ==> (#[trigger] wire[i]).fault() is None
}

/// Makes a sensor interface of a bus and its chip-select line, and a device
/// handle of that.  The line is driven high, then bank 0 is selected in one
/// transaction.  A line that cannot be driven high ends the attempt before
/// the bus is used.  The attempt fails only with what the line or the bus
/// reported.
pub fn new_spi<SPI: SpiBus, CS: ChipSelect>(spi: SPI, cs: CS) -> (r: Result<
    ICM20948<SpiInterface<SPI, CS>>,
    Error<SPI::Error, CS::Error>,
>)
    ensures
        match r {
            Ok(device) => {
                &&& device.journal().len() == 1
                &&& device.journal()[0].request() == Request::Write(REG_BANK_SEL, 0)
                &&& device.journal()[0].fault() is None
                &&& device.bank() == Bank::Bank0
                &&& device.wf()
                &&& spi_start(device.interface().wire())
            },
            Err(e) => e is Pin || e is Comm,
        },
{
    let mut interface = SpiInterface::new(spi, cs)?;
    let ghost idle = interface.wire();
    let selected = interface.register_write(REG_BANK_SEL, Bank::Bank0.get_num());
    proof {
        let events = added(interface.wire(), idle);
        assert(interface.wire() =~= idle + events);
        if selected is Ok {
            assert(events.last() == events[2]);
        }
    }
    ICM20948::started(interface, selected)
}

/// Whatever was selected before, `who_am_i` reads the identity register with
/// bank 0 selected: the request just before the reading stores 0 in the
/// bank selector, and the reading is made only if that succeeded.
pub proof fn identity_read_in_bank_0<E>(before: Seq<Access<E>>, ops: Seq<Access<E>>)
    requires
        follows(ops, identity_plan()),
    ensures
        ops[0].request() == Request::Write(REG_BANK_SEL, Bank::Bank0.num()),
        ops.len() == 2 <==> ops[0].fault() is None,
        ops.len() == 2 ==> {
            &&& ops[1].request() == Request::Read(REG_WHO_AM_I)
            &&& selected_bank(before + ops.take(1)) == Some(Bank::Bank0.num())
        },
{
    if ops.len() == 2 {
        assert(before + ops.take(1) =~= before.push(ops[0]));
        selected_bank_after(before, ops[0]);
    } else {
        assert(ops.last() == ops[0]);
    }
}

/// A device whose identity register holds anything but the expected value
/// is not touched again by `new_setup` once that value is read: the run
/// ends there, with `InvalidID`.
pub proof fn wrong_identity_ends_bring_up<CommE, PinE>(
    ops: Seq<Access<Error<CommE, PinE>>>,
    r: Result<(), Error<CommE, PinE>>,
)
    requires
        bring_up(ops, r),
        ops.len() >= 2,
        ops[1].fault() is None,
        ops[1].value() != WHO_AM_I,
    ensures
        ops.len() == 2,
        ops[0].request() == Request::Write(REG_BANK_SEL, 0),
        ops[1].request() == Request::Read(REG_WHO_AM_I),
        r == Err::<(), Error<CommE, PinE>>(Error::InvalidID),
{
    let (query, reset, wake) = choose|
        query: Seq<Access<Error<CommE, PinE>>>,
        reset: Seq<Access<Error<CommE, PinE>>>,
        wake: Seq<Access<Error<CommE, PinE>>>,
    |
        ops == #[trigger] staged(query, reset, wake) && bring_up_stages(query, reset, wake, r);
    assert(ops[0] == query[0]);
    if query.len() == 1 {
        assert(query.last() == query[0]);
    } else {
        assert(ops[1] == query[1]);
        assert(query.last() == query[1]);
    }
}

/// `new_setup` goes on to reset the device exactly when its identity
/// register was read and holds the expected value, and it succeeds only
/// then.
pub proof fn right_identity_goes_on<CommE, PinE>(
    ops: Seq<Access<Error<CommE, PinE>>>,
    r: Result<(), Error<CommE, PinE>>,
)
    requires
        bring_up(ops, r),
    ensures
        ops.len() > 2 <==> ops.len() >= 2 && ops[1].fault() is None && ops[1].value() == WHO_AM_I,
        ops.len() > 2 ==> ops[2].request() == Request::Write(REG_PWR_MGMT_1, PWR_RESET),
        r is Ok ==> ops.len() > 2,
{
    let (query, reset, wake) = choose|
        query: Seq<Access<Error<CommE, PinE>>>,
        reset: Seq<Access<Error<CommE, PinE>>>,
        wake: Seq<Access<Error<CommE, PinE>>>,
    |
        ops == #[trigger] staged(query, reset, wake) && bring_up_stages(query, reset, wake, r);
    assert(ops[0] == query[0]);
    if query.len() == 1 {
        assert(query.last() == query[0]);
    } else {
        assert(ops[1] == query[1]);
        assert(query.last() == query[1]);
        if reset.len() > 0 {
            assert(ops[2] == reset[0]);
        }
    }
}

} // verus!
