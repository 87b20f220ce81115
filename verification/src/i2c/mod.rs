//! Inter-Integrated Circuit (I2C).
//!
//! [`I2c`] is the controller. It comes in a blocking and an asynchronous flavour, chosen by which
//! constructor is used; the asynchronous one needs its interrupt and parks the core rather than spinning.
//!
//! A transfer is one burst per direction, up to 4095 bytes, with the FIFO fed through it rather than being
//! the unit that moves. The controller stretches SCL while the transmit FIFO is empty or the receive FIFO
//! full, so a late refill costs bus time rather than bytes.
//!
//! # Cancelling an asynchronous transfer
//!
//! [`Transfer::cancel`] cannot finish the transfer on the way out, since a STOP on its own is illegal until
//! the transaction ends. It masks the interrupts and marks the peripheral dirty, and the next transfer pays:
//! it resets the controller first, which is the only thing that clears `BUSBSY`. A target still holding SDA
//! down survives that and is reported as [`Error::BusStuck`].
//!
//! # A bus that cannot clock
//!
//! A target holding SDA low is caught before anything waits on it, and comes back as [`Error::BusStuck`]. A
//! bus held low on SCL is the other failure: a controller stretching legitimately holds SCL low too. Nothing
//! bounds a transfer against it except [`Config::clock_low_timeout_us`].

mod burst;
mod config;
mod group;
pub mod low_level;
mod transfer;
mod wait;

pub use burst::{
    answered, begin_accesses, blocking_burst_moves_on, burst_begins_at_its_run, burst_disarms,
    burst_opens_as_planned, deliveries_keep_their_order, delivery_moves_on, every_start_is_the_planned_one,
    fail_accesses, failure_leaves_the_peripheral_usable, failures_are_cleaned_up_after, fill_is_what_fits,
    interrupt_burst_moves_on, interrupt_queues_what_it_counts, interrupt_write_sends_every_byte_once,
    launch_arms_before_it_starts, length_error, lengths_are_one_to_4095, may_start, only_the_launch_starts,
    phases_ask_for_what_they_need, poll_queues_what_it_counts, polled, polled_by_interrupt,
    read_keeps_every_byte_once, read_succeeds_only_when_full, received, recover_accesses, recovering, sent,
    sent_adds_up, single_plan, start_accesses, start_is_given_time_to_settle, starts_only_as_planned,
    waiting_bursts_are_in_flight, write_sends_every_byte_once, Burst, Phase, Plan, Progress, Resume,
};
pub use config::{
    ceil_div, clocks_and_speeds_are_what_they_are_named, configuration_resolves_to_its_own_clock,
    configurations_are_refused_for_a_reason, default_is_standard_mode, half_period, half_period_cycles,
    half_period_is_half_a_period, in_u16, nonzero, reachable, representable, resolved_clock_is_in_range, settle,
    settle_cycles, settling_covers_three_clocks, settling_is_not_overlong, solve_clock_low_timeout,
    solved_speed_is_close, solved_timeout, solved_timing_is_for_its_speed, solved_timing_is_taken_as_it_is,
    solving_ahead_changes_nothing, timeout_is_never_short, timeout_steps, BusSpeed, ClockDiv, ClockSel, Config,
    ConfigError, Resolved, Timing, MAX_TPR,
};
pub use group::{
    bytes_are_queued_in_order, cursor_starts_at_the_run, drain_rx_group, fewer, fewer_is_the_lesser, fill_tx_group,
    flat, flat_splits, next_group, next_run_is_unique, no_run_is_no_bytes, offset_and_rest_add_up,
    one_operation_is_its_own_bytes, one_way, queued, run_and_rest_are_everything, run_at, run_goes_one_way,
    runs_alternate, same_shape, shapes_have_lengths, something_left_is_a_run, stored, storing_leaves_the_rest,
    Group, GroupCursor, Operation,
};

pub use transfer::{
    decisions_lead_where_they_say, dropped_transfer_leaves_nothing_armed, only_a_burst_blocks_sleep,
    only_the_last_run_stops, operations_are_planned_in_turn, operations_come_one_by_one, run_bytes, runs,
    runs_are_planned_in_turn, runs_come_one_by_one, runs_take_turns, transaction_moves_everything,
    transfers_end_with_the_error_that_ended_them, Decision, Script, Stage, Style, Transfer,
};
pub use wait::{
    abandoned_transfer_resets_first, async_bus_wait_ends_as_the_bus_does, bus_wait_disarms,
    bus_wait_ends_as_the_bus_does, idle_wait_ends, idle_wait_lasts_four_half_periods, polls_left,
    stuck_means_the_whole_window, stuck_watch_lasts_twenty_half_periods, AsyncBusWait, BusWait, IdleWait,
    StuckWatch, Wait, STUCK_HALF_PERIODS,
};

use crate::bus::Bus;
use crate::gpio::{AnyPin, Pincm};
use crate::mode::{Async, Blocking, Mode};
use crate::sysctl::{Clocks, SleepLevel};
use core::marker::PhantomData;
use low_level::Access;
use vstd::prelude::*;
use vstd::std_specs::convert::FromSpecImpl;

verus! {

/// An I2C instance: what the device's metadata says of it.
pub trait Instance {
    /// Entries in each FIFO.
    const FIFO_SIZE: usize;
}

/// Most bytes one burst can carry, from the width of `CCTR.CBLEN`.
///
/// Nothing to do with the FIFO, which is a buffer the transfer is fed through rather than the unit it
/// moves in.
pub const MAX_TRANSFER_LEN: usize = 0xFFF;

/// SCL half-periods to give the controller to go idle before a FIFO flush.
///
/// A stop condition and the bus turnaround after it are why it is not idle the instant the STOP is asked
/// for. Four half-periods is twice what that needs.
pub const IDLE_HALF_PERIODS: u8 = 4;

/// What an I2C transfer can fail with.
#[derive(Debug, Eq, PartialEq, Copy, Clone, Structural)]
pub enum Error {
    /// Bus error
    Bus,
    /// Arbitration lost
    Arbitration,
    /// The bus is stuck with a target holding SDA low
    ///
    /// Nothing will complete until the line is released. Recover the stuck bus and retry.
    BusStuck,
    /// ACK not received, and the controller did not say to what
    Nack,
    /// The address was not acknowledged: nothing is answering on it
    NackAddress,
    /// A data byte was not acknowledged: the target is there but rejected the byte
    NackData,
    /// Timeout
    Timeout,
    /// Zero-length transfers are not allowed.
    ZeroLengthTransfer,
    /// Transfer length is over limit.
    ///
    /// A transfer is one burst, and `CCTR.CBLEN` counts it in 12 bits, so 4095 bytes is the most any
    /// one of them can carry.
    TransferLengthIsOverLimit,
    /// The address does not fit the addressing mode it was given in.
    InvalidAddress,
}

/// What went unacknowledged.
#[derive(Debug, Eq, PartialEq, Copy, Clone, Structural)]
pub enum NoAcknowledgeSource {
    /// The address.
    Address,
    /// A data byte.
    Data,
    /// The controller did not say.
    Unknown,
}

/// The kinds of failure drivers of all devices share.
#[derive(Debug, Eq, PartialEq, Copy, Clone, Structural)]
pub enum ErrorKind {
    /// Bus error.
    Bus,
    /// Arbitration lost.
    ArbitrationLoss,
    /// Not acknowledged.
    NoAcknowledge(NoAcknowledgeSource),
    /// Anything else.
    Other,
}

impl Error {
    /// What the failure reads as.
    pub open spec fn message_spec(self) -> Seq<char> {
        match self {
            Error::Bus => "Bus Error"@,
            Error::BusStuck => "Bus Stuck, SDA Held Low"@,
            Error::NackAddress => "Address Not Acknowledged"@,
            Error::NackData => "Data Not Acknowledged"@,
            Error::Arbitration => "Arbitration Lost"@,
            Error::Nack => "ACK Not Received"@,
            Error::Timeout => "Request Timed Out"@,
            Error::ZeroLengthTransfer => "Zero-Length Transfers are not allowed"@,
            Error::TransferLengthIsOverLimit => "Transfer length is over limit"@,
            Error::InvalidAddress => "Address too large for its addressing mode"@,
        }
    }

    /// What the failure reads as.
    pub fn message(self) -> (message: &'static str)
        ensures
            message@ == self.message_spec(),
    {
        match self {
            Error::Bus => "Bus Error",
            Error::BusStuck => "Bus Stuck, SDA Held Low",
            Error::NackAddress => "Address Not Acknowledged",
            Error::NackData => "Data Not Acknowledged",
            Error::Arbitration => "Arbitration Lost",
            Error::Nack => "ACK Not Received",
            Error::Timeout => "Request Timed Out",
            Error::ZeroLengthTransfer => "Zero-Length Transfers are not allowed",
            Error::TransferLengthIsOverLimit => "Transfer length is over limit",
            Error::InvalidAddress => "Address too large for its addressing mode",
        }
    }

    /// What kind of failure this is.
    pub open spec fn kind_spec(self) -> ErrorKind {
        match self {
            Error::Bus | Error::BusStuck => ErrorKind::Bus,
            Error::Arbitration => ErrorKind::ArbitrationLoss,
            Error::Nack => ErrorKind::NoAcknowledge(NoAcknowledgeSource::Unknown),
            Error::NackAddress => ErrorKind::NoAcknowledge(NoAcknowledgeSource::Address),
            Error::NackData => ErrorKind::NoAcknowledge(NoAcknowledgeSource::Data),
            Error::Timeout
            | Error::ZeroLengthTransfer
            | Error::TransferLengthIsOverLimit
            | Error::InvalidAddress => ErrorKind::Other,
        }
    }

    /// What kind of failure this is.
    pub fn kind(&self) -> (kind: ErrorKind)
        ensures
            kind == self.kind_spec(),
    {
        match *self {
            Error::Bus => ErrorKind::Bus,
            Error::BusStuck => ErrorKind::Bus,
            Error::Arbitration => ErrorKind::ArbitrationLoss,
            Error::Nack => ErrorKind::NoAcknowledge(NoAcknowledgeSource::Unknown),
            Error::NackAddress => ErrorKind::NoAcknowledge(NoAcknowledgeSource::Address),
            Error::NackData => ErrorKind::NoAcknowledge(NoAcknowledgeSource::Data),
            Error::Timeout => ErrorKind::Other,
            Error::ZeroLengthTransfer => ErrorKind::Other,
            Error::TransferLengthIsOverLimit => ErrorKind::Other,
            Error::InvalidAddress => ErrorKind::Other,
        }
    }
}

/// An I2C address, 7- or 10-bit.
///
/// A 10-bit address goes on the wire as a `11110xx` header byte followed by a second byte holding the
/// low eight bits. The peripheral sequences that itself, so the driver only selects the mode.
#[derive(Debug, Copy, Clone, PartialEq, Eq, Structural)]
pub enum Address {
    /// A 7-bit address.
    SevenBit(u8),
    /// A 10-bit address, in `0..=0x3ff`.
    TenBit(u16),
}

impl From<u8> for Address {
    /// A [`u8`] is a 7-bit address.
    fn from(value: u8) -> (address: Self) {
        Address::SevenBit(value)
    }
}

impl FromSpecImpl<u8> for Address {
    open spec fn obeys_from_spec() -> bool {
        true
    }

    open spec fn from_spec(value: u8) -> Self {
        Address::SevenBit(value)
    }
}

impl Address {
    /// A [`u16`] is a 10-bit address, and has to fit in ten bits.
    pub fn ten_bit(value: u16) -> (address: Self)
        requires
            value < 0x400,
        ensures
            address == Address::TenBit(value),
            address.valid(),
    {
        Address::TenBit(value)
    }

    /// The address itself, in either mode.
    pub open spec fn addr_spec(self) -> u16 {
        match self {
            Address::SevenBit(addr) => addr as u16,
            Address::TenBit(addr) => addr,
        }
    }

    /// Whether the address fits the mode it was given in.
    pub open spec fn valid(self) -> bool {
        match self {
            Address::SevenBit(addr) => addr < 0x80,
            Address::TenBit(addr) => addr < 0x400,
        }
    }

    /// The address itself, in either mode.
    pub fn addr(self) -> (addr: u16)
        ensures
            addr == self.addr_spec(),
    {
        match self {
            Address::SevenBit(addr) => addr as u16,
            Address::TenBit(addr) => addr,
        }
    }

    /// Whether the address fits the mode it was given in.
    ///
    /// Both variants are wider than the address they carry. Left unchecked the peripheral truncates to
    /// its field width, and answers to or addresses a different device.
    pub fn fits(self) -> (fits: bool)
        ensures
            fits == self.valid(),
    {
        match self {
            Address::SevenBit(addr) => addr < 0x80,
            Address::TenBit(addr) => addr < 0x400,
        }
    }

    /// The address, if it [fits](Self::fits) the mode it was given in.
    pub fn checked(address: Address) -> (checked: Result<Address, Error>)
        ensures
            checked == (if address.valid() {
                Ok(address)
            } else {
                Err::<Address, Error>(Error::InvalidAddress)
            }),
    {
        if address.fits() {
            Ok(address)
        } else {
            Err(Error::InvalidAddress)
        }
    }

    /// Whether the peripheral has to be in 10-bit mode for it.
    pub fn is_ten_bit(self) -> (ten_bit: bool)
        ensures
            ten_bit == self is TenBit,
    {
        match self {
            Address::SevenBit(_) => false,
            Address::TenBit(_) => true,
        }
    }
}

/// Interrupt handler.
pub struct InterruptHandler<T: Instance> {
    _i2c: PhantomData<T>,
}

impl<T: Instance> InterruptHandler<T> {
    /// Service the instance's interrupt: the waiting transfer is to be woken, and every interrupt left
    /// unmasked.
    ///
    /// The completing poll is what disarms them. That is sound because the controller pulses its events
    /// rather than holding them.
    pub fn on_interrupt() -> (wake: bool)
        ensures
            wake,
    {
        true
    }
}

/// I2C driver.
pub struct I2c<M: Mode> {
    /// The registers, the pins and the clock solution. Everything here adds a way to wait.
    pub inner: low_level::I2c,
    /// Blocking or asynchronous.
    pub mode: PhantomData<M>,
}

/// Whether an operation reads into a buffer that holds these bytes so far.
pub open spec fn is_read(op: Operation, bytes: Seq<u8>) -> bool {
    op is Read && op.bytes() == bytes
}

/// Whether an operation writes these bytes.
pub open spec fn is_write(op: Operation, bytes: Seq<u8>) -> bool {
    op is Write && op.bytes() == bytes
}

/// Whether a transfer was prepared for an address, or the address refused.
pub open spec fn prepared(transfer: Result<Transfer, Error>, address: Address, style: Style, stage: Stage) -> bool {
    match transfer {
        Ok(transfer) => {
            &&& address.valid()
            &&& transfer.wf()
            &&& transfer.script == (Script { address, style, next: 0, opened: false })
            &&& transfer.stage == stage
        },
        Err(error) => !address.valid() && error == Error::InvalidAddress,
    }
}

/// Whether a transfer was prepared that reads from an address, ending with a STOP.
pub open spec fn reads(transfer: Result<Transfer, Error>, address: Address, read: Seq<u8>, stage: Stage) -> bool {
    &&& prepared(transfer, address, Style::Single, stage)
    &&& transfer matches Ok(transfer) ==> transfer.ops@.len() == 1 && is_read(transfer.ops@[0], read)
}

/// Whether a transfer was prepared that writes to an address, ending with a STOP.
pub open spec fn writes(transfer: Result<Transfer, Error>, address: Address, write: Seq<u8>, stage: Stage) -> bool {
    &&& prepared(transfer, address, Style::Single, stage)
    &&& transfer matches Ok(transfer) ==> transfer.ops@.len() == 1 && is_write(transfer.ops@[0], write)
}

/// Whether a transfer was prepared that writes to an address and then reads from it, ending with a STOP.
pub open spec fn writes_then_reads(
    transfer: Result<Transfer, Error>,
    address: Address,
    write: Seq<u8>,
    read: Seq<u8>,
    stage: Stage,
) -> bool {
    &&& prepared(transfer, address, Style::Single, stage)
    &&& transfer matches Ok(transfer) ==> transfer.ops@.len() == 2 && is_write(transfer.ops@[0], write) && is_read(
        transfer.ops@[1],
        read,
    )
}

/// Whether a transfer was prepared that runs operations as a transaction.
pub open spec fn transacts(
    transfer: Result<Transfer, Error>,
    address: Address,
    ops: Vec<Operation>,
    stage: Stage,
) -> bool {
    &&& prepared(transfer, address, Style::Merged, stage)
    &&& transfer matches Ok(transfer) ==> transfer.ops == ops
}

/// Whether a transfer was prepared that runs operations one burst each.
pub open spec fn executes(
    transfer: Result<Transfer, Error>,
    address: Address,
    ops: Vec<Operation>,
    stage: Stage,
) -> bool {
    &&& prepared(transfer, address, Style::Separate, stage)
    &&& transfer matches Ok(transfer) ==> transfer.ops == ops
}

fn prepare(address: Address, style: Style, ops: Vec<Operation>, stage: Stage) -> (transfer: Result<Transfer, Error>)
    requires
        style == Style::Merged ==> flat(ops@, 0, ops@.len() as int).len() <= usize::MAX,
        !(stage is Moving),
    ensures
        prepared(transfer, address, style, stage),
        transfer matches Ok(transfer) ==> transfer.ops == ops,
{
    match Address::checked(address) {
        Ok(address) => Ok(Transfer::new(address, style, ops, stage)),
        Err(error) => Err(error),
    }
}

impl<M: Mode> I2c<M> {
    /// Reconfigure the driver. See [`low_level::I2c::set_config`].
    pub fn set_config<F: Fn(u32) -> Option<SleepLevel>>(
        &mut self,
        config: &Config,
        clocks: &Clocks,
        usemftick: bool,
        line_on: bool,
        sda_pincm: Pincm,
        scl_pincm: Pincm,
        floor_for: &F,
        bus: &mut Bus<Access>,
    ) -> (configured: Result<(), ConfigError>)
        requires
            config.resolved(clocks.mfclk, clocks.ulpclk, clocks.mclk, usemftick) is Ok ==> {
                &&& low_level::can_pull(old(self).inner.sda(), config.sda_pull)
                &&& low_level::can_pull(old(self).inner.scl(), config.scl_pull)
            },
            forall|hz: u32| floor_for.requires((hz,)),
        ensures
            low_level::reconfigured(
                old(self).inner,
                final(self).inner,
                *config,
                config.resolved(clocks.mfclk, clocks.ulpclk, clocks.mclk, usemftick),
                line_on,
                sda_pincm,
                scl_pincm,
                floor_for,
                configured,
                old(bus)@,
                final(bus)@,
            ),
    {
        self.inner.set_config(*config, clocks, usemftick, line_on, sda_pincm, scl_pincm, floor_for, bus)
    }

    /// Take the controller off the bus.
    pub fn release(self, bus: &mut Bus<Access>)
        ensures
            final(bus)@ == old(bus)@ + low_level::disconnect_accesses(self.inner.scl())
                + low_level::disconnect_accesses(self.inner.sda()),
    {
        self.inner.release(bus);
    }
}

impl I2c<Blocking> {
    /// Create a blocking controller. See [`low_level::I2c::new`].
    pub fn new_blocking<T: Instance, F: Fn(u32) -> Option<SleepLevel>>(
        scl: AnyPin,
        scl_pf: u8,
        sda: AnyPin,
        sda_pf: u8,
        config: Config,
        clocks: &Clocks,
        usemftick: bool,
        floor_for: &F,
        bus: &mut Bus<Access>,
    ) -> (i2c: Result<Self, ConfigError>)
        requires
            config.resolved(clocks.mfclk, clocks.ulpclk, clocks.mclk, usemftick) is Ok ==> {
                &&& scl.pad().can_pull(config.scl_pull)
                &&& sda.pad().can_pull(config.sda_pull)
            },
            forall|hz: u32| floor_for.requires((hz,)),
        ensures
            low_level::I2c::built::<T, F>(
                match i2c {
                    Ok(i2c) => Ok(i2c.inner),
                    Err(error) => Err(error),
                },
                config.resolved(clocks.mfclk, clocks.ulpclk, clocks.mclk, usemftick),
                scl,
                scl_pf,
                sda,
                sda_pf,
                config,
                floor_for,
                old(bus)@,
                final(bus)@,
            ),
    {
        match low_level::I2c::new::<T, F>(scl, scl_pf, sda, sda_pf, config, clocks, usemftick, floor_for, bus) {
            Ok(inner) => Ok(I2c { inner, mode: PhantomData }),
            Err(error) => Err(error),
        }
    }

    /// Blocking read, ending with a STOP.
    ///
    /// `read` may hold between one and 4095 bytes.
    pub fn blocking_read(&mut self, address: Address, read: Vec<u8>) -> (transfer: Result<Transfer, Error>)
        ensures
            *final(self) == *old(self),
            reads(transfer, address, read@, Stage::Bus(BusWait::Watching(StuckWatch::fresh()))),
    {
        let ops = vec![Operation::Read(read)];

        prepare(address, Style::Single, ops, Stage::Bus(BusWait::new()))
    }

    /// Blocking write, ending with a STOP.
    ///
    /// `write` may hold between one and 4095 bytes.
    pub fn blocking_write(&mut self, address: Address, write: Vec<u8>) -> (transfer: Result<Transfer, Error>)
        ensures
            *final(self) == *old(self),
            writes(transfer, address, write@, Stage::Bus(BusWait::Watching(StuckWatch::fresh()))),
    {
        let ops = vec![Operation::Write(write)];

        prepare(address, Style::Single, ops, Stage::Bus(BusWait::new()))
    }

    /// Blocking write, restart, read, ending with a STOP.
    ///
    /// Each buffer may hold between one and 4095 bytes.
    pub fn blocking_write_read(&mut self, address: Address, write: Vec<u8>, read: Vec<u8>) -> (transfer: Result<
        Transfer,
        Error,
    >)
        ensures
            *final(self) == *old(self),
            writes_then_reads(transfer, address, write@, read@, Stage::Bus(BusWait::Watching(StuckWatch::fresh()))),
    {
        let ops = vec![Operation::Write(write), Operation::Read(read)];

        prepare(address, Style::Single, ops, Stage::Bus(BusWait::new()))
    }

    /// Run a transaction: consecutive operations of the same type merge, and a change of direction is a
    /// repeated START.
    pub fn transaction(&mut self, address: Address, ops: Vec<Operation>) -> (transfer: Result<Transfer, Error>)
        requires
            flat(ops@, 0, ops@.len() as int).len() <= usize::MAX,
        ensures
            *final(self) == *old(self),
            transacts(transfer, address, ops, Stage::Bus(BusWait::Watching(StuckWatch::fresh()))),
    {
        prepare(address, Style::Merged, ops, Stage::Bus(BusWait::new()))
    }

    /// Run operations one burst each, and then send the STOP.
    pub fn exec(&mut self, address: Address, ops: Vec<Operation>) -> (transfer: Result<Transfer, Error>)
        ensures
            *final(self) == *old(self),
            executes(transfer, address, ops, Stage::Bus(BusWait::Watching(StuckWatch::fresh()))),
    {
        prepare(address, Style::Separate, ops, Stage::Bus(BusWait::new()))
    }
}

impl I2c<Async> {
    /// Create a controller whose interrupt is bound. See [`low_level::I2c::new`].
    pub fn new_async<T: Instance, F: Fn(u32) -> Option<SleepLevel>>(
        scl: AnyPin,
        scl_pf: u8,
        sda: AnyPin,
        sda_pf: u8,
        config: Config,
        clocks: &Clocks,
        usemftick: bool,
        floor_for: &F,
        bus: &mut Bus<Access>,
    ) -> (i2c: Result<Self, ConfigError>)
        requires
            config.resolved(clocks.mfclk, clocks.ulpclk, clocks.mclk, usemftick) is Ok ==> {
                &&& scl.pad().can_pull(config.scl_pull)
                &&& sda.pad().can_pull(config.sda_pull)
            },
            forall|hz: u32| floor_for.requires((hz,)),
        ensures
            match i2c {
                Ok(i2c) => {
                    &&& final(bus)@.len() >= old(bus)@.len() + 2
                    &&& final(bus)@[final(bus)@.len() - 2] == Access::LineUnpend
                    &&& final(bus)@.last() == Access::LineOn
                    &&& low_level::I2c::built::<T, F>(
                        Ok(i2c.inner),
                        config.resolved(clocks.mfclk, clocks.ulpclk, clocks.mclk, usemftick),
                        scl,
                        scl_pf,
                        sda,
                        sda_pf,
                        config,
                        floor_for,
                        old(bus)@,
                        final(bus)@.drop_last().drop_last(),
                    )
                },
                Err(error) => config.resolved(clocks.mfclk, clocks.ulpclk, clocks.mclk, usemftick) == Err::<
                    Resolved,
                    ConfigError,
                >(error) && final(bus)@ == old(bus)@,
            },
    {
        match low_level::I2c::new::<T, F>(scl, scl_pf, sda, sda_pf, config, clocks, usemftick, floor_for, bus) {
            Ok(inner) => {
                let ghost built = bus@;

                bus.push(Access::LineUnpend);
                bus.push(Access::LineOn);
                assert(bus@.drop_last().drop_last() =~= built);
                Ok(I2c { inner, mode: PhantomData })
            },
            Err(error) => Err(error),
        }
    }

    /// Write `write` to `address`, ending with a STOP.
    pub fn async_write(&mut self, address: Address, write: Vec<u8>) -> (transfer: Result<Transfer, Error>)
        ensures
            *final(self) == *old(self),
            writes(transfer, address, write@, Stage::AsyncBus(AsyncBusWait::Start)),
    {
        let ops = vec![Operation::Write(write)];

        prepare(address, Style::Single, ops, Stage::AsyncBus(AsyncBusWait::new()))
    }

    /// Read as many bytes from `address` as `read` holds, ending with a STOP.
    pub fn async_read(&mut self, address: Address, read: Vec<u8>) -> (transfer: Result<Transfer, Error>)
        ensures
            *final(self) == *old(self),
            reads(transfer, address, read@, Stage::AsyncBus(AsyncBusWait::Start)),
    {
        let ops = vec![Operation::Read(read)];

        prepare(address, Style::Single, ops, Stage::AsyncBus(AsyncBusWait::new()))
    }

    /// Write, restart, read, ending with a STOP.
    ///
    /// Each buffer may hold between one and 4095 bytes.
    pub fn async_write_read(&mut self, address: Address, write: Vec<u8>, read: Vec<u8>) -> (transfer: Result<
        Transfer,
        Error,
    >)
        ensures
            *final(self) == *old(self),
            writes_then_reads(transfer, address, write@, read@, Stage::AsyncBus(AsyncBusWait::Start)),
    {
        let ops = vec![Operation::Write(write), Operation::Read(read)];

        prepare(address, Style::Single, ops, Stage::AsyncBus(AsyncBusWait::new()))
    }

    /// Run a transaction: consecutive operations of the same type merge, and a change of direction is a
    /// repeated START.
    pub fn transaction(&mut self, address: Address, ops: Vec<Operation>) -> (transfer: Result<Transfer, Error>)
        requires
            flat(ops@, 0, ops@.len() as int).len() <= usize::MAX,
        ensures
            *final(self) == *old(self),
            transacts(transfer, address, ops, Stage::AsyncBus(AsyncBusWait::Start)),
    {
        prepare(address, Style::Merged, ops, Stage::AsyncBus(AsyncBusWait::new()))
    }
}

/// An address is good exactly where it fits the mode it was given in, and it is addressed as it is.
pub proof fn addresses_fit_their_modes(address: Address)
    ensures
        address matches Address::SevenBit(addr) ==> (address.valid() <==> addr <= 127) && address.addr_spec() == addr,
        address matches Address::TenBit(addr) ==> (address.valid() <==> addr <= 1023) && address.addr_spec() == addr,
{
}

/// A transfer is prepared exactly where its address is good, and begins with nothing dealt with; a bad address is
/// refused as one.
pub proof fn transfers_begin_at_the_beginning(
    transfer: Result<Transfer, Error>,
    address: Address,
    style: Style,
    stage: Stage,
)
    requires
        prepared(transfer, address, style, stage),
    ensures
        transfer is Ok <==> address.valid(),
        transfer matches Err(error) ==> error is InvalidAddress,
        transfer matches Ok(transfer) ==> {
            &&& transfer.script.address == address && transfer.script.style == style
            &&& transfer.script.next == 0 && !transfer.script.opened
            &&& transfer.stage == stage
            &&& transfer.wf()
        },
{
}

/// An operation reads or writes the bytes it was made with.
pub proof fn operations_carry_their_bytes(op: Operation, bytes: Seq<u8>)
    ensures
        is_read(op, bytes) <==> (op matches Operation::Read(buf) && buf@ == bytes),
        is_write(op, bytes) <==> (op matches Operation::Write(buf) && buf@ == bytes),
{
}

/// The kind each failure is of: what the bus did wrong is a bus error, a lost arbitration its own kind, and a missing
/// acknowledgement says what went unanswered. What the caller did wrong, and a timeout, is of no shared kind.
pub proof fn failures_are_of_their_kinds(error: Error)
    ensures
        error.kind_spec() is Bus <==> error is Bus || error is BusStuck,
        error.kind_spec() is ArbitrationLoss <==> error is Arbitration,
        error.kind_spec() matches ErrorKind::NoAcknowledge(source) ==> {
            &&& source is Address <==> error is NackAddress
            &&& source is Data <==> error is NackData
            &&& source is Unknown <==> error is Nack
        },
        error.kind_spec() is NoAcknowledge <==> error is Nack || error is NackAddress || error is NackData,
        error.kind_spec() is Other <==> error is Timeout || error is ZeroLengthTransfer || error
            is TransferLengthIsOverLimit || error is InvalidAddress,
{
}

/// A read is one burst: it starts the bus at the address, takes as many bytes as its buffer holds, and stops the bus;
/// after it there is nothing left to do. It is prepared exactly where the address is good.
pub proof fn read_is_one_burst(transfer: Result<Transfer, Error>, address: Address, read: Seq<u8>, stage: Stage)
    requires
        reads(transfer, address, read, stage),
        1 <= read.len() <= 4095,
    ensures
        transfer is Ok <==> address.valid(),
        transfer matches Ok(transfer) ==> {
            &&& transfer.stage == stage
            &&& transfer.script.decision(transfer.ops@) matches Decision::Start(burst) && {
                &&& burst.plan.address == address
                &&& !burst.plan.group.write && burst.plan.group.total == read.len()
                &&& !burst.plan.restart && burst.plan.send_stop
            }
            &&& transfer.script.after(transfer.ops@).decision(transfer.ops@) == Decision::Over(Ok::<(), Error>(()))
            &&& transfer.script.after(transfer.ops@).accesses(transfer.ops@).len() == 0
        },
{
}

/// A write is one burst: it starts the bus at the address, sends the bytes it was given, and stops the bus; after it
/// there is nothing left to do. It is prepared exactly where the address is good.
pub proof fn write_is_one_burst(transfer: Result<Transfer, Error>, address: Address, write: Seq<u8>, stage: Stage)
    requires
        writes(transfer, address, write, stage),
        1 <= write.len() <= 4095,
    ensures
        transfer is Ok <==> address.valid(),
        transfer matches Ok(transfer) ==> {
            &&& transfer.stage == stage
            &&& transfer.ops@[0].bytes() == write
            &&& transfer.script.decision(transfer.ops@) matches Decision::Start(burst) && {
                &&& burst.plan.address == address
                &&& burst.plan.group.write && burst.plan.group.total == write.len()
                &&& burst.plan.group.start == 0 && burst.plan.group.end == 1
                &&& !burst.plan.restart && burst.plan.send_stop
            }
            &&& transfer.script.after(transfer.ops@).decision(transfer.ops@) == Decision::Over(Ok::<(), Error>(()))
            &&& transfer.script.after(transfer.ops@).accesses(transfer.ops@).len() == 0
        },
{
}

/// A write and read keeps the bus between its two bursts: the write does not stop it, the read starts it again at the
/// same address, and only the read stops it.
pub proof fn write_read_keeps_the_bus(
    transfer: Result<Transfer, Error>,
    address: Address,
    write: Seq<u8>,
    read: Seq<u8>,
    stage: Stage,
)
    requires
        writes_then_reads(transfer, address, write, read, stage),
        1 <= write.len() <= 4095,
        1 <= read.len() <= 4095,
    ensures
        transfer is Ok <==> address.valid(),
        transfer matches Ok(transfer) ==> {
            let ops = transfer.ops@;
            let then = transfer.script.after(ops);

            &&& transfer.stage == stage
            &&& ops[0].bytes() == write
            &&& transfer.script.decision(ops) matches Decision::Start(burst) && {
                &&& burst.plan.address == address
                &&& burst.plan.group.write && burst.plan.group.total == write.len()
                &&& burst.plan.group.start == 0 && burst.plan.group.end == 1
                &&& !burst.plan.restart && !burst.plan.send_stop
            }
            &&& then.decision(ops) matches Decision::Start(burst) && {
                &&& burst.plan.address == address
                &&& !burst.plan.group.write && burst.plan.group.total == read.len()
                &&& burst.plan.restart && burst.plan.send_stop
            }
            &&& then.after(ops).decision(ops) == Decision::Over(Ok::<(), Error>(()))
            &&& then.after(ops).accesses(ops).len() == 0
        },
{
}

/// A transaction runs the operations it was given, to the address it was given: a burst for the first run of one
/// direction, which opens the bus and stops it only where it is the last.
pub proof fn transaction_merges_its_runs(
    transfer: Result<Transfer, Error>,
    address: Address,
    ops: Vec<Operation>,
    stage: Stage,
)
    requires
        transacts(transfer, address, ops, stage),
    ensures
        transfer is Ok <==> address.valid(),
        transfer matches Ok(transfer) ==> {
            &&& transfer.stage == stage
            &&& transfer.ops@ == ops@
            &&& run_at(ops@, 0) is None ==> transfer.script.decision(ops@) == Decision::Over(Ok::<(), Error>(()))
            &&& run_at(ops@, 0) matches Some(group) ==> group.total <= 4095 ==> (transfer.script.decision(
                ops@,
            ) matches Decision::Start(burst) && {
                &&& burst.plan.address == address && burst.plan.group == group
                &&& !burst.plan.restart
                &&& burst.plan.send_stop <==> run_at(ops@, group.end as int) is None
            })
        },
{
}

/// Operations that are run one burst each are all addressed alike, and none of them stops the bus or takes it up as a
/// repeated one: each starts it afresh, and the STOP comes once after the last.
pub proof fn separate_operations_stop_once(
    transfer: Result<Transfer, Error>,
    address: Address,
    ops: Vec<Operation>,
    stage: Stage,
    script: Script,
)
    requires
        executes(transfer, address, ops, stage),
    ensures
        transfer is Ok <==> address.valid(),
        transfer matches Ok(transfer) ==> {
            &&& transfer.stage == stage
            &&& transfer.ops@ == ops@ && transfer.script.next == 0
            &&& script.address == address && script.style == transfer.script.style ==> {
                &&& script.decision(ops@) matches Decision::Start(burst) ==> burst.plan.address == address
                    && !burst.plan.restart && !burst.plan.send_stop && burst.plan.group.start == script.next
                &&& script.next >= ops@.len() ==> (script.accesses(ops@).last() matches Access::Cctr(cctr) && cctr.stop
                    && !cctr.start)
                &&& script.next >= ops@.len() ==> script.decision(ops@) == Decision::Over(Ok::<(), Error>(()))
            }
        },
{
}

} // verus!
