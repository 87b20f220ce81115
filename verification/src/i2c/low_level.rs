//! Register-level I2C controller, for an application that services the interrupt itself.
//!
//! [`I2c`] here powers the instance up, claims the pins and programs a [`Config`], and then stops. It
//! runs no transfer and waits for nothing: what it adds over the raw registers is the clock solution, the
//! pin setup, the fault decoding and the recovery sequences.
//!
//! # What the caller takes on
//!
//! The interrupt: nothing here routes a vector or unmasks the NVIC line. The burst: [`I2c::start_write`]
//! and [`I2c::start_read`] arm one and return, and the FIFO is then the caller's to fill or drain.
//! Recovering: [`I2c::reset_peripheral`] is the only thing that reliably ends a burst nobody serviced.
//!
//! An erratum makes `CSR` meaningless until the address phase has settled: call
//! [`I2c::settle_after_start`] after a start, before `CSR` is read.

use super::{
    Address, BusWait, ClockDiv, ClockSel, Config, ConfigError, Error, IdleWait, Instance, Resolved, StuckWatch,
};
use crate::bits::{bit_set, read_bit};
use crate::bus::Bus;
use crate::gpio::{self, AnyPin, MaybeAnyPin, PfType, Pincm, PincmUpdate, Pull, GPIO_PF};
use crate::sysctl::{Clocks, SleepLevel};
use vstd::prelude::*;

verus! {

/// A set of interrupt sources of the controller.
#[derive(Clone, Copy, PartialEq, Eq, Debug, Structural)]
pub struct CpuInt {
    /// A transmit burst sent its last byte.
    pub ctxdone: bool,
    /// A receive burst took its last byte.
    pub crxdone: bool,
    /// The transmit FIFO fell to its trigger level.
    pub ctxfifotrg: bool,
    /// The receive FIFO reached its trigger level.
    pub crxfifotrg: bool,
    /// The transmit FIFO went empty.
    pub ctxempty: bool,
    /// The receive FIFO filled.
    pub crxfifofull: bool,
    /// A target did not acknowledge.
    pub cnack: bool,
    /// A START went out.
    pub cstart: bool,
    /// A STOP went out.
    pub cstop: bool,
    /// Arbitration was lost.
    pub carblost: bool,
    /// SCL was held low for too long.
    pub timeouta: bool,
}

impl CpuInt {
    /// No source.
    pub open spec fn empty() -> CpuInt {
        CpuInt {
            ctxdone: false,
            crxdone: false,
            ctxfifotrg: false,
            crxfifotrg: false,
            ctxempty: false,
            crxfifofull: false,
            cnack: false,
            cstart: false,
            cstop: false,
            carblost: false,
            timeouta: false,
        }
    }

    /// The sources in either set.
    pub open spec fn union(self, other: CpuInt) -> CpuInt {
        CpuInt {
            ctxdone: self.ctxdone || other.ctxdone,
            crxdone: self.crxdone || other.crxdone,
            ctxfifotrg: self.ctxfifotrg || other.ctxfifotrg,
            crxfifotrg: self.crxfifotrg || other.crxfifotrg,
            ctxempty: self.ctxempty || other.ctxempty,
            crxfifofull: self.crxfifofull || other.crxfifofull,
            cnack: self.cnack || other.cnack,
            cstart: self.cstart || other.cstart,
            cstop: self.cstop || other.cstop,
            carblost: self.carblost || other.carblost,
            timeouta: self.timeouta || other.timeouta,
        }
    }

    /// The sources in both sets.
    pub open spec fn intersection(self, other: CpuInt) -> CpuInt {
        CpuInt {
            ctxdone: self.ctxdone && other.ctxdone,
            crxdone: self.crxdone && other.crxdone,
            ctxfifotrg: self.ctxfifotrg && other.ctxfifotrg,
            crxfifotrg: self.crxfifotrg && other.crxfifotrg,
            ctxempty: self.ctxempty && other.ctxempty,
            crxfifofull: self.crxfifofull && other.crxfifofull,
            cnack: self.cnack && other.cnack,
            cstart: self.cstart && other.cstart,
            cstop: self.cstop && other.cstop,
            carblost: self.carblost && other.carblost,
            timeouta: self.timeouta && other.timeouta,
        }
    }

    /// The sources of this set that are not in the other.
    pub open spec fn difference(self, other: CpuInt) -> CpuInt {
        CpuInt {
            ctxdone: self.ctxdone && !other.ctxdone,
            crxdone: self.crxdone && !other.crxdone,
            ctxfifotrg: self.ctxfifotrg && !other.ctxfifotrg,
            crxfifotrg: self.crxfifotrg && !other.crxfifotrg,
            ctxempty: self.ctxempty && !other.ctxempty,
            crxfifofull: self.crxfifofull && !other.crxfifofull,
            cnack: self.cnack && !other.cnack,
            cstart: self.cstart && !other.cstart,
            cstop: self.cstop && !other.cstop,
            carblost: self.carblost && !other.carblost,
            timeouta: self.timeouta && !other.timeouta,
        }
    }

    /// No source.
    pub fn none() -> (set: CpuInt)
        ensures
            set == Self::empty(),
    {
        CpuInt {
            ctxdone: false,
            crxdone: false,
            ctxfifotrg: false,
            crxfifotrg: false,
            ctxempty: false,
            crxfifofull: false,
            cnack: false,
            cstart: false,
            cstop: false,
            carblost: false,
            timeouta: false,
        }
    }

    /// The sources in either set.
    pub fn with(self, other: CpuInt) -> (set: CpuInt)
        ensures
            set == self.union(other),
    {
        CpuInt {
            ctxdone: self.ctxdone || other.ctxdone,
            crxdone: self.crxdone || other.crxdone,
            ctxfifotrg: self.ctxfifotrg || other.ctxfifotrg,
            crxfifotrg: self.crxfifotrg || other.crxfifotrg,
            ctxempty: self.ctxempty || other.ctxempty,
            crxfifofull: self.crxfifofull || other.crxfifofull,
            cnack: self.cnack || other.cnack,
            cstart: self.cstart || other.cstart,
            cstop: self.cstop || other.cstop,
            carblost: self.carblost || other.carblost,
            timeouta: self.timeouta || other.timeouta,
        }
    }

    /// The sources in both sets.
    pub fn within(self, other: CpuInt) -> (set: CpuInt)
        ensures
            set == self.intersection(other),
    {
        CpuInt {
            ctxdone: self.ctxdone && other.ctxdone,
            crxdone: self.crxdone && other.crxdone,
            ctxfifotrg: self.ctxfifotrg && other.ctxfifotrg,
            crxfifotrg: self.crxfifotrg && other.crxfifotrg,
            ctxempty: self.ctxempty && other.ctxempty,
            crxfifofull: self.crxfifofull && other.crxfifofull,
            cnack: self.cnack && other.cnack,
            cstart: self.cstart && other.cstart,
            cstop: self.cstop && other.cstop,
            carblost: self.carblost && other.carblost,
            timeouta: self.timeouta && other.timeouta,
        }
    }
}

/// A condition the controller can raise its interrupt on.
///
/// One variant per source this driver's configuration can reach, all of them controller-side.
#[derive(Clone, Copy, PartialEq, Eq, Debug, Structural)]
pub enum Event {
    /// A transmit burst sent its last byte.
    TransmitDone,
    /// A receive burst took its last byte.
    ReceiveDone,
    /// The transmit FIFO fell to its trigger level, so there is room to queue more.
    TransmitTrigger,
    /// The receive FIFO reached its trigger level, so there is something to take.
    ReceiveTrigger,
    /// The transmit FIFO went empty.
    TransmitEmpty,
    /// The receive FIFO filled.
    ReceiveFull,
    /// A target did not acknowledge. [`nack_kind`] says which phase.
    Nack,
    /// A START went out.
    Start,
    /// A STOP went out, which is what releases the bus.
    Stop,
    /// Arbitration was lost to another controller.
    ArbitrationLost,
    /// A target held SCL low for longer than `Config::clock_low_timeout_us` allows.
    ClockLowTimeout,
    /// Anything that ends a burst without completing it: [`Nack`](Event::Nack),
    /// [`ArbitrationLost`](Event::ArbitrationLost) or [`ClockLowTimeout`](Event::ClockLowTimeout).
    AnyFault,
}

impl Event {
    /// The sources behind this.
    pub open spec fn sources(self) -> CpuInt {
        match self {
            Event::TransmitDone => CpuInt { ctxdone: true, ..CpuInt::empty() },
            Event::ReceiveDone => CpuInt { crxdone: true, ..CpuInt::empty() },
            Event::TransmitTrigger => CpuInt { ctxfifotrg: true, ..CpuInt::empty() },
            Event::ReceiveTrigger => CpuInt { crxfifotrg: true, ..CpuInt::empty() },
            Event::TransmitEmpty => CpuInt { ctxempty: true, ..CpuInt::empty() },
            Event::ReceiveFull => CpuInt { crxfifofull: true, ..CpuInt::empty() },
            Event::Nack => CpuInt { cnack: true, ..CpuInt::empty() },
            Event::Start => CpuInt { cstart: true, ..CpuInt::empty() },
            Event::Stop => CpuInt { cstop: true, ..CpuInt::empty() },
            Event::ArbitrationLost => CpuInt { carblost: true, ..CpuInt::empty() },
            Event::ClockLowTimeout => CpuInt { timeouta: true, ..CpuInt::empty() },
            Event::AnyFault => Self::faults(),
        }
    }

    /// The three sources that end a burst without completing it.
    pub open spec fn faults() -> CpuInt {
        CpuInt { cnack: true, carblost: true, timeouta: true, ..CpuInt::empty() }
    }

    /// The sources behind all of these.
    pub open spec fn all_sources(events: Seq<Event>) -> CpuInt
        decreases events.len(),
    {
        if events.len() == 0 {
            CpuInt::empty()
        } else {
            Self::all_sources(events.drop_last()).union(events.last().sources())
        }
    }

    /// The sources behind this.
    pub fn mask(self) -> (mask: CpuInt)
        ensures
            mask == self.sources(),
    {
        let none = CpuInt::none();

        match self {
            Event::TransmitDone => CpuInt { ctxdone: true, ..none },
            Event::ReceiveDone => CpuInt { crxdone: true, ..none },
            Event::TransmitTrigger => CpuInt { ctxfifotrg: true, ..none },
            Event::ReceiveTrigger => CpuInt { crxfifotrg: true, ..none },
            Event::TransmitEmpty => CpuInt { ctxempty: true, ..none },
            Event::ReceiveFull => CpuInt { crxfifofull: true, ..none },
            Event::Nack => CpuInt { cnack: true, ..none },
            Event::Start => CpuInt { cstart: true, ..none },
            Event::Stop => CpuInt { cstop: true, ..none },
            Event::ArbitrationLost => CpuInt { carblost: true, ..none },
            Event::ClockLowTimeout => CpuInt { timeouta: true, ..none },
            Event::AnyFault => fault_sources(),
        }
    }
}

/// Every event but [`Event::AnyFault`] is one source, and that one is the other three together.
pub proof fn any_fault_is_three_events()
    ensures
        Event::AnyFault.sources() == Event::Nack.sources().union(Event::ArbitrationLost.sources()).union(
            Event::ClockLowTimeout.sources(),
        ),
{
}

/// What `IIDX` reports.
#[derive(Clone, Copy, PartialEq, Eq, Debug, Structural)]
pub enum IidxStat {
    /// Nothing is pending.
    NoIntr,
    /// Transmit burst done.
    Ctxdonefg,
    /// Receive burst done.
    Crxdonefg,
    /// Transmit FIFO trigger.
    Ctxfifotrg,
    /// Receive FIFO trigger.
    Crxfifotrg,
    /// Transmit FIFO empty.
    CtxEmpty,
    /// Receive FIFO full.
    Crxfifofull,
    /// Not acknowledged.
    Cnackfg,
    /// START.
    Cstartfg,
    /// STOP.
    Cstopfg,
    /// Arbitration lost.
    Carblostfg,
    /// SCL held low.
    Timeouta,
    /// A source this driver never arms.
    Other,
}

impl IidxStat {
    /// The event a status stands for.
    pub open spec fn event(self) -> Option<Event> {
        match self {
            IidxStat::Ctxdonefg => Some(Event::TransmitDone),
            IidxStat::Crxdonefg => Some(Event::ReceiveDone),
            IidxStat::Ctxfifotrg => Some(Event::TransmitTrigger),
            IidxStat::Crxfifotrg => Some(Event::ReceiveTrigger),
            IidxStat::CtxEmpty => Some(Event::TransmitEmpty),
            IidxStat::Crxfifofull => Some(Event::ReceiveFull),
            IidxStat::Cnackfg => Some(Event::Nack),
            IidxStat::Cstartfg => Some(Event::Start),
            IidxStat::Cstopfg => Some(Event::Stop),
            IidxStat::Carblostfg => Some(Event::ArbitrationLost),
            IidxStat::Timeouta => Some(Event::ClockLowTimeout),
            IidxStat::NoIntr | IidxStat::Other => None,
        }
    }
}

/// A reading of `CSR`.
#[derive(Clone, Copy, PartialEq, Eq, Debug, Structural)]
pub struct Csr {
    /// The controller has finished everything it was given.
    pub idle: bool,
    /// A burst is still running.
    pub busy: bool,
    /// Another controller or an unfinished transaction holds the bus.
    pub busbsy: bool,
    /// Arbitration was lost.
    pub arblst: bool,
    /// Something was not acknowledged.
    pub err: bool,
    /// It was the address.
    pub adrack: bool,
    /// It was a data byte.
    pub datack: bool,
}

/// A reading of everything a transfer decides on.
#[derive(Clone, Copy, PartialEq, Eq, Debug, Structural)]
pub struct Status {
    /// `CSR`.
    pub csr: Csr,
    /// `RIS.TIMEOUTA`: the SCL-low timeout has fired.
    pub timeouta: bool,
    /// `CFIFOSR.TXFIFOCNT`: the space left in the transmit FIFO, not what is queued.
    pub tx_room: u8,
    /// `CFIFOSR.RXFIFOCNT`: what the receive FIFO holds.
    pub rx_count: u8,
}

/// A reading of `CBMON`: the levels of the two lines.
#[derive(Clone, Copy, PartialEq, Eq, Debug, Structural)]
pub struct Cbmon {
    /// SDA.
    pub sda: bool,
    /// SCL.
    pub scl: bool,
}

/// Which way a burst moves.
#[derive(Clone, Copy, PartialEq, Eq, Debug, Structural)]
pub enum Dir {
    /// To the target.
    Transmit,
    /// From the target.
    Receive,
}

/// What a read-modify-write of `CCTR` sets. Fields it leaves alone are [`None`].
#[derive(Clone, Copy, PartialEq, Eq, Debug, Structural)]
pub struct Cctr {
    /// Burst length.
    pub cblen: u16,
    /// Run a burst.
    pub burstrun: Option<bool>,
    /// Acknowledge the last byte.
    pub ack: Option<bool>,
    /// Leave acknowledging to software.
    pub cackoen: Option<bool>,
    /// Read once the transmit FIFO is empty.
    pub rd_on_txempty: Option<bool>,
    /// Send a START.
    pub start: bool,
    /// Send a STOP.
    pub stop: bool,
}

impl Cctr {
    /// Nothing running and nothing asked for, every field cleared.
    pub open spec fn cleared_spec() -> Cctr {
        Cctr {
            cblen: 0,
            burstrun: Some(false),
            ack: Some(false),
            cackoen: Some(false),
            rd_on_txempty: Some(false),
            start: false,
            stop: false,
        }
    }

    /// Nothing running and nothing asked for, every field cleared.
    #[verifier::when_used_as_spec(cleared_spec)]
    pub fn cleared() -> (cctr: Cctr)
        ensures
            cctr == Cctr::cleared(),
    {
        Cctr {
            cblen: 0,
            burstrun: Some(false),
            ack: Some(false),
            cackoen: Some(false),
            rd_on_txempty: Some(false),
            start: false,
            stop: false,
        }
    }

    /// A STOP on its own.
    pub open spec fn lone_stop_spec() -> Cctr {
        Cctr { cblen: 0, burstrun: None, ack: None, cackoen: None, rd_on_txempty: None, start: false, stop: true }
    }

    /// A STOP on its own.
    #[verifier::when_used_as_spec(lone_stop_spec)]
    pub fn lone_stop() -> (cctr: Cctr)
        ensures
            cctr == Cctr::lone_stop(),
    {
        Cctr { cblen: 0, burstrun: None, ack: None, cackoen: None, rd_on_txempty: None, start: false, stop: true }
    }

    /// A burst of this many bytes from a START on.
    pub open spec fn burst_spec(length: u16, ack: Option<bool>, stop: bool) -> Cctr {
        Cctr {
            cblen: length,
            burstrun: Some(true),
            ack,
            cackoen: None,
            rd_on_txempty: None,
            start: true,
            stop,
        }
    }

    /// A burst of this many bytes from a START on, which says what to acknowledge the last with or leaves
    /// that alone, and ends in a STOP or does not.
    #[verifier::when_used_as_spec(burst_spec)]
    pub fn burst(length: u16, ack: Option<bool>, stop: bool) -> (cctr: Cctr)
        ensures
            cctr == Cctr::burst(length, ack, stop),
    {
        Cctr {
            cblen: length,
            burstrun: Some(true),
            ack,
            cackoen: None,
            rd_on_txempty: None,
            start: true,
            stop,
        }
    }
}

/// `GFCTL.AGFSEL`: the pulses the analog filter suppresses.
#[derive(Clone, Copy, PartialEq, Eq, Debug, Structural)]
pub enum Agfsel {
    /// Up to 5 ns.
    Aglit5,
    /// Up to 10 ns.
    Aglit10,
    /// Up to 25 ns.
    Aglit25,
    /// Up to 50 ns.
    Aglit50,
}

/// `CFIFOCTL.TXTRIG`: what the transmit FIFO is down to when its trigger fires.
#[derive(Clone, Copy, PartialEq, Eq, Debug, Structural)]
pub enum Txtrig {
    /// Nothing.
    Empty,
    /// This many bytes or fewer.
    Level(u8),
}

/// `CFIFOCTL.RXTRIG`: what the receive FIFO holds when its trigger fires.
#[derive(Clone, Copy, PartialEq, Eq, Debug, Structural)]
pub enum Rxtrig {
    /// One byte.
    Level1,
    /// This many bytes or more.
    Level(u8),
}

/// One access to a controller.
#[derive(Clone, Copy, PartialEq, Eq, Debug, Structural)]
pub enum Access {
    /// An access to a pin.
    Pin(gpio::Access),
    /// Assert the reset and clear its sticky flag.
    Reset,
    /// Enable the power.
    Power,
    /// Spin for this many CPU cycles.
    Delay(u32),
    /// Write `CLKSEL`.
    Clksel {
        /// MFCLK is selected.
        mfclk_sel: bool,
        /// The bus clock is selected.
        busclk_sel: bool,
    },
    /// Write `CLKDIV`.
    Clkdiv {
        /// One less than the divider.
        ratio: u8,
    },
    /// Read-modify-write of `GFCTL`.
    Gfctl {
        /// The analog glitch filter is on.
        agfen: bool,
        /// What it suppresses.
        agfsel: Agfsel,
        /// The analog and the digital filter are chained.
        chain: bool,
    },
    /// Write `CTPR`.
    Tpr(u8),
    /// Read-modify-write of `TIMEOUT_CTL`.
    TimeoutCtl {
        /// Counter A is on.
        tcntaen: bool,
        /// Its load.
        tcntla: u8,
    },
    /// Write `CFIFOCTL`.
    Cfifoctl {
        /// When the transmit trigger fires.
        txtrig: Txtrig,
        /// When the receive trigger fires.
        rxtrig: Rxtrig,
    },
    /// Read-modify-write of `CCR`.
    Ccr {
        /// The controller honours clock stretching.
        clkstretch: bool,
        /// The controller is active.
        active: bool,
    },
    /// Mask the NVIC line.
    LineOff,
    /// Drop the NVIC line's pending state.
    LineUnpend,
    /// Unmask the NVIC line.
    LineOn,
    /// Read-modify-write of `IMASK` that adds these sources.
    Unmask(CpuInt),
    /// Read-modify-write of `IMASK` that takes these sources out.
    Mask(CpuInt),
    /// Write `IMASK`.
    StoreImask(CpuInt),
    /// Read-modify-write of `IMASK` that puts the four FIFO sources to what they are in this set.
    RestoreFifoSources(CpuInt),
    /// Write `ICLR`.
    Iclr(CpuInt),
    /// Read-modify-write of `CSA`: target address, whether it is a 10-bit one, and direction.
    Csa(u16, bool, Dir),
    /// Read-modify-write of `CCTR`.
    Cctr(Cctr),
    /// Write `CTXDATA`.
    Txdata(u8),
    /// Read-modify-write of `CFIFOCTL.TXFLUSH` and `CFIFOCTL.RXFLUSH`.
    Flush {
        /// Flush the transmit FIFO.
        txflush: bool,
        /// Flush the receive FIFO.
        rxflush: bool,
    },
    /// Spin until the transmit FIFO has this much room and the receive FIFO is empty.
    WaitFlushed(usize),
}

/// The three sources that end a burst without completing it.
pub fn fault_sources() -> (sources: CpuInt)
    ensures
        sources == Event::faults(),
{
    CpuInt { cnack: true, carblost: true, timeouta: true, ..CpuInt::none() }
}

/// A transmit burst: the faults, the completion, and, only where the FIFO could not take the whole
/// transfer, the trigger that tops it up.
pub open spec fn write_set(top_up: bool) -> CpuInt {
    CpuInt { ctxdone: true, ctxfifotrg: top_up, ..Event::faults() }
}

/// A receive burst: the faults, the completion, and the trigger that delivers each FIFO's worth.
pub open spec fn read_set() -> CpuInt {
    CpuInt { crxdone: true, crxfifotrg: true, ..Event::faults() }
}

/// Waiting for the bus: the STOP that releases it, and the timeout that is the way out.
pub open spec fn bus_free_set() -> CpuInt {
    CpuInt { cstop: true, timeouta: true, ..CpuInt::empty() }
}

/// The four sources the FIFOs raise.
pub open spec fn fifo_set() -> CpuInt {
    CpuInt { ctxfifotrg: true, crxfifotrg: true, ctxempty: true, crxfifofull: true, ..CpuInt::empty() }
}

/// A transmit burst: the faults, the completion, and, only where the FIFO could not take the whole
/// transfer, the trigger that tops it up.
pub fn write_sources(top_up: bool) -> (sources: CpuInt)
    ensures
        sources == write_set(top_up),
{
    CpuInt { ctxdone: true, ctxfifotrg: top_up, ..fault_sources() }
}

/// A receive burst: the faults, the completion, and the trigger that delivers each FIFO's worth.
pub fn read_sources() -> (sources: CpuInt)
    ensures
        sources == read_set(),
{
    CpuInt { crxdone: true, crxfifotrg: true, ..fault_sources() }
}

/// Waiting for the bus: the STOP that releases it, and the timeout that is the way out.
pub fn bus_free_sources() -> (sources: CpuInt)
    ensures
        sources == bus_free_set(),
{
    CpuInt { cstop: true, timeouta: true, ..CpuInt::none() }
}

/// The most bytes one burst can move: `CCTR.CBLEN` is twelve bits wide.
///
/// A length past this truncates rather than saturating, and a `CBLEN` of zero with START and STOP is
/// an address-only transaction.
pub const MAX_BURST_LEN: usize = 0xFFF;

/// What programming a resolved configuration asks for.
pub open spec fn init_accesses(resolved: Resolved) -> Seq<Access> {
    seq![
        Access::Clksel {
            mfclk_sel: resolved.clock_source == ClockSel::MfClk,
            busclk_sel: resolved.clock_source == ClockSel::BusClk,
        },
        Access::Clkdiv { ratio: (resolved.clock_div.divider_spec() - 1) as u8 },
        Access::Gfctl { agfen: false, agfsel: Agfsel::Aglit50, chain: true },
        Access::Cctr(Cctr::cleared()),
        Access::Tpr(resolved.tpr),
        Access::TimeoutCtl {
            tcntaen: resolved.clock_low_timeout is Some,
            tcntla: match resolved.clock_low_timeout {
                Some(load) => load,
                None => 0,
            },
        },
        Access::Cfifoctl { txtrig: Txtrig::Empty, rxtrig: Rxtrig::Level1 },
        Access::Ccr { clkstretch: true, active: true },
    ]
}

/// What powering an instance up asks for.
pub open spec fn power_up_accesses() -> Seq<Access> {
    seq![Access::Reset, Access::Power, Access::Delay(16)]
}

/// What a reset asks for: everything a power-up does, and the configuration again.
pub open spec fn reset_accesses(resolved: Resolved) -> Seq<Access> {
    power_up_accesses() + init_accesses(resolved)
}

/// What a STOP on its own asks for.
pub open spec fn stop_accesses() -> Seq<Access> {
    seq![
        Access::Delay(1000),
        Access::Cctr(Cctr::lone_stop()),
    ]
}

/// What flushing the FIFOs asks for once the controller is idle. `armed` is a reading of `IMASK`.
pub open spec fn flush_accesses(fifo_size: usize, armed: CpuInt) -> Seq<Access> {
    seq![
        Access::Mask(fifo_set()),
        Access::Flush { txflush: true, rxflush: true },
        Access::WaitFlushed(fifo_size),
        Access::Flush { txflush: false, rxflush: false },
        Access::Iclr(fifo_set()),
        Access::RestoreFifoSources(armed),
    ]
}

/// What starting a receive burst asks for.
pub open spec fn start_read_accesses(address: Address, length: u16, restart: bool, ack: bool, stop: bool) -> Seq<
    Access,
> {
    (if restart {
        seq![Access::Delay(1000)]
    } else {
        Seq::empty()
    }) + seq![
        Access::Csa(address.addr_spec(), address is TenBit, Dir::Receive),
        Access::Cctr(Cctr::burst(length, Some(ack), stop)),
    ]
}

/// What starting a transmit burst asks for.
pub open spec fn start_write_accesses(address: Address, length: u16, stop: bool) -> Seq<Access> {
    seq![
        Access::Csa(address.addr_spec(), address is TenBit, Dir::Transmit),
        Access::Cctr(Cctr::burst(length, None, stop)),
    ]
}

/// Which half of a transfer went unanswered, in a reading of `CSR`.
pub open spec fn nack_of(csr: Csr) -> Error {
    if csr.adrack {
        Error::NackAddress
    } else if csr.datack {
        Error::NackData
    } else {
        Error::Nack
    }
}

/// The error a status stands for, ordered by how fundamental the failure is. A timeout means the bus never
/// gave the transfer a chance, so it outranks a NACK that may just be the tail of it.
pub open spec fn error_of(status: Status) -> Result<(), Error> {
    if status.timeouta {
        Err(Error::Timeout)
    } else if status.csr.arblst {
        Err(Error::Arbitration)
    } else if status.csr.err {
        Err(nack_of(status.csr))
    } else {
        Ok(())
    }
}

/// Which half of the transfer went unanswered.
///
/// `ADRACK` and `DATACK` are the difference between nothing being at that address and the target being
/// there but rejecting a byte.
pub fn nack_kind(csr: Csr) -> (error: Error)
    ensures
        error == nack_of(csr),
{
    match (csr.adrack, csr.datack) {
        (true, _) => Error::NackAddress,
        (false, true) => Error::NackData,
        (false, false) => Error::Nack,
    }
}

/// Forget any timeout left over from an earlier transfer, so it is not blamed on the next one.
pub fn clear_timeout(bus: &mut Bus<Access>)
    ensures
        final(bus)@ == old(bus)@.push(Access::Iclr(Event::ClockLowTimeout.sources())),
{
    bus.push(Access::Iclr(Event::ClockLowTimeout.mask()));
}

/// What turning a status into an error asks for: a timeout is forgotten once reported.
pub open spec fn check_accesses(status: Status) -> Seq<Access> {
    if status.timeouta {
        seq![Access::Iclr(Event::ClockLowTimeout.sources())]
    } else {
        Seq::empty()
    }
}

/// Turn whatever the controller latched into an error for the caller.
pub fn check_error(status: Status, bus: &mut Bus<Access>) -> (checked: Result<(), Error>)
    ensures
        checked == error_of(status),
        final(bus)@ == old(bus)@ + check_accesses(status),
{
    assert(bus@ + Seq::<Access>::empty() =~= bus@);
    if status.timeouta {
        clear_timeout(bus);
        return Err(Error::Timeout);
    }
    if status.csr.arblst {
        return Err(Error::Arbitration);
    }
    if status.csr.err {
        return Err(nack_kind(status.csr));
    }
    Ok(())
}

/// Take the instance out of reset and power it, then wait out the bus-isolation update.
///
/// A register write immediately after `PWREN.ENABLE` is dropped while that update runs, so the wait is
/// the only thing standing between this and a configuration that silently did not land.
pub fn power_up(bus: &mut Bus<Access>)
    ensures
        final(bus)@ == old(bus)@ + power_up_accesses(),
{
    bus.push(Access::Reset);
    bus.push(Access::Power);
    bus.push(Access::Delay(16));
}

/// Push what fits into the transmit FIFO, returning how many bytes went in.
///
/// `room` is a reading of `TXFIFOCNT`, which counts the space left, not what is queued.
pub fn fill_tx(bytes: &[u8], room: u8, bus: &mut Bus<Access>) -> (sent: usize)
    ensures
        sent == super::fewer(room as int, bytes@.len() as int),
        final(bus)@ == old(bus)@ + super::queued(bytes@.take(sent as int)),
{
    let mut sent: usize = 0;

    assert(super::queued(bytes@.take(0)) =~= Seq::<Access>::empty());
    while sent < bytes.len() && sent < room as usize
        invariant
            sent <= bytes@.len(),
            sent <= room,
            bus@ == old(bus)@ + super::queued(bytes@.take(sent as int)),
        decreases bytes.len() - sent,
    {
        bus.push(Access::Txdata(bytes[sent]));
        sent += 1;
        assert(super::queued(bytes@.take(sent as int)) =~= super::queued(bytes@.take(sent - 1)).push(
            Access::Txdata(bytes@[sent - 1]),
        ));
    }
    sent
}

/// How many bytes to take from the receive FIFO into a buffer of this length.
///
/// `count` is a reading of `RXFIFOCNT`. That many readings of `CRXDATA` go into the buffer, in order.
pub fn drain_rx(length: usize, count: u8) -> (got: usize)
    ensures
        got == super::fewer(count as int, length as int),
{
    if (count as usize) < length {
        count as usize
    } else {
        length
    }
}

/// A powered, configured I2C controller that is running nothing.
pub struct I2c {
    scl: MaybeAnyPin,
    sda: MaybeAnyPin,
    wake_floor: Option<SleepLevel>,
    /// What the peripheral is configured to, kept so [`reset_peripheral`](Self::reset_peripheral) can
    /// restore it.
    resolved: Resolved,
    fifo_size: usize,
    /// A transfer was abandoned part-way, so the controller is still running a burst nobody is servicing.
    abandoned: bool,
}

/// The `PINCM` update that releases a line for the pull-up to take rather than driving it high.
pub open spec fn released_high() -> PincmUpdate {
    PincmUpdate { hiz1: Some(true), ..PincmUpdate::unchanged() }
}

/// What claiming a pin and programming a configuration ask for, for a new driver.
pub open spec fn new_accesses(
    scl: AnyPin,
    scl_pf: u8,
    scl_type: PfType,
    sda: AnyPin,
    sda_pf: u8,
    sda_type: PfType,
    resolved: Resolved,
) -> Seq<Access> {
    power_up_accesses() + seq![
        Access::Pin(gpio::Access::Pincm(scl.pin_cm(), scl_type.update(scl_pf))),
        Access::Pin(gpio::Access::Pincm(sda.pin_cm(), sda_type.update(sda_pf))),
        Access::Pin(gpio::Access::Pincm(scl.pin_cm(), released_high())),
        Access::Pin(gpio::Access::Pincm(sda.pin_cm(), released_high())),
    ] + init_accesses(resolved)
}

/// What updating an optional pin asks for.
pub open spec fn repad_accesses(pin: Option<AnyPin>, pincm: Pincm, ty: PfType) -> Seq<Access> {
    match pin {
        Some(pin) => seq![Access::Pin(gpio::Access::Pincm(pin.pin_cm(), ty.update(pincm.pf)))],
        None => Seq::empty(),
    }
}

/// Whether an optional pin's pad has a pull.
pub open spec fn can_pull(pin: Option<AnyPin>, pull: Pull) -> bool {
    match pin {
        Some(pin) => pin.pad().can_pull(pull),
        None => true,
    }
}

/// What reconfiguring a driver asks for.
pub open spec fn reconfigure_accesses(
    driver: I2c,
    sda_pincm: Pincm,
    sda_type: PfType,
    scl_pincm: Pincm,
    scl_type: PfType,
    resolved: Resolved,
    line_on: bool,
) -> Seq<Access> {
    seq![Access::LineOff] + repad_accesses(driver.sda(), sda_pincm, sda_type) + repad_accesses(
        driver.scl(),
        scl_pincm,
        scl_type,
    ) + init_accesses(resolved) + (if line_on {
        seq![Access::LineUnpend, Access::LineOn]
    } else {
        Seq::empty()
    })
}

/// Whether a driver took a configuration on, or the configuration's own error was reported with nothing
/// touched.
pub open spec fn reconfigured<F: Fn(u32) -> Option<SleepLevel>>(
    before: I2c,
    after: I2c,
    config: Config,
    resolved: Result<Resolved, ConfigError>,
    line_on: bool,
    sda_pincm: Pincm,
    scl_pincm: Pincm,
    floor_for: &F,
    configured: Result<(), ConfigError>,
    asked: Seq<Access>,
    asked_after: Seq<Access>,
) -> bool {
    match resolved {
        Ok(resolved) => {
            &&& configured is Ok
            &&& after.scl() == before.scl()
            &&& after.sda() == before.sda()
            &&& after.resolved() == resolved
            &&& after.fifo() == before.fifo()
            &&& after.is_abandoned() == before.is_abandoned()
            &&& floor_for.ensures((resolved.source_hz,), after.floor())
            &&& exists|sda_type: PfType, scl_type: PfType|
                #![trigger reconfigure_accesses(before, sda_pincm, sda_type, scl_pincm, scl_type, resolved, line_on)]
                {
                    &&& sda_type.pull() == config.sda_pull && sda_type.reads() && sda_type.inverts()
                        == config.invert_sda
                    &&& scl_type.pull() == config.scl_pull && scl_type.reads() && scl_type.inverts()
                        == config.invert_scl
                    &&& asked_after == asked + reconfigure_accesses(
                        before,
                        sda_pincm,
                        sda_type,
                        scl_pincm,
                        scl_type,
                        resolved,
                        line_on,
                    )
                }
        },
        Err(error) => configured == Err::<(), ConfigError>(error) && after == before && asked_after == asked,
    }
}

impl I2c {
    /// The SCL pin.
    pub closed spec fn scl(&self) -> Option<AnyPin> {
        self.scl.held()
    }

    /// The SDA pin.
    pub closed spec fn sda(&self) -> Option<AnyPin> {
        self.sda.held()
    }

    /// Shallowest sleep level to block while a transfer runs.
    pub closed spec fn floor(&self) -> Option<SleepLevel> {
        self.wake_floor
    }

    /// What the peripheral is configured to.
    pub closed spec fn resolved(&self) -> Resolved {
        self.resolved
    }

    /// How many entries each FIFO holds.
    pub closed spec fn fifo(&self) -> usize {
        self.fifo_size
    }

    /// Whether a transfer was abandoned part-way.
    pub closed spec fn is_abandoned(&self) -> bool {
        self.abandoned
    }

    /// Whether two drivers differ in nothing but the record of an abandoned transfer.
    pub open spec fn same_but_abandoned(&self, other: &I2c) -> bool {
        &&& self.scl() == other.scl()
        &&& self.sda() == other.sda()
        &&& self.floor() == other.floor()
        &&& self.resolved() == other.resolved()
        &&& self.fifo() == other.fifo()
    }

    /// Power up an instance, claim the pins and apply `config`, leaving the bus idle.
    ///
    /// Nothing is armed and no vector is routed. `usemftick` is a reading of `SYSCTL.MCLKCFG.USEMFTICK`,
    /// and `floor_for` the shallowest sleep level that stops a clock of the given rate.
    pub fn new<T: Instance, F: Fn(u32) -> Option<SleepLevel>>(
        scl: AnyPin,
        scl_pf: u8,
        sda: AnyPin,
        sda_pf: u8,
        config: Config,
        clocks: &Clocks,
        usemftick: bool,
        floor_for: &F,
        bus: &mut Bus<Access>,
    ) -> (i2c: Result<Self, ConfigError>)
        requires
            config.resolved(clocks.mfclk, clocks.ulpclk, clocks.mclk, usemftick) is Ok ==> {
                &&& scl.pad().can_pull(config.scl_pull)
                &&& sda.pad().can_pull(config.sda_pull)
            },
            forall|hz: u32| floor_for.requires((hz,)),
        ensures
            Self::built::<T, F>(
                i2c,
                config.resolved(clocks.mfclk, clocks.ulpclk, clocks.mclk, usemftick),
                scl,
                scl_pf,
                sda,
                sda_pf,
                config,
                floor_for,
                old(bus)@,
                final(bus)@,
            ),
    {
        match config.resolve(clocks, usemftick) {
            Ok(resolved) => Ok(
                Self::new_inner::<T, F>(scl, scl_pf, sda, sda_pf, config, resolved, floor_for, bus),
            ),
            Err(error) => Err(error),
        }
    }

    /// Whether a driver was built from a resolved configuration, or the configuration's own error reported
    /// with nothing touched.
    pub open spec fn built<T: Instance, F: Fn(u32) -> Option<SleepLevel>>(
        i2c: Result<I2c, ConfigError>,
        resolved: Result<Resolved, ConfigError>,
        scl: AnyPin,
        scl_pf: u8,
        sda: AnyPin,
        sda_pf: u8,
        config: Config,
        floor_for: &F,
        before: Seq<Access>,
        after: Seq<Access>,
    ) -> bool {
        match resolved {
            Ok(resolved) => i2c matches Ok(i2c) && i2c.set_up::<T, F>(
                scl,
                scl_pf,
                sda,
                sda_pf,
                config,
                resolved,
                floor_for,
                before,
                after,
            ),
            Err(error) => i2c == Err::<I2c, ConfigError>(error) && after == before,
        }
    }

    /// Whether this driver holds these pins and this configuration, and the pads and the peripheral were
    /// programmed for them.
    pub open spec fn set_up<T: Instance, F: Fn(u32) -> Option<SleepLevel>>(
        self,
        scl: AnyPin,
        scl_pf: u8,
        sda: AnyPin,
        sda_pf: u8,
        config: Config,
        resolved: Resolved,
        floor_for: &F,
        before: Seq<Access>,
        after: Seq<Access>,
    ) -> bool {
        &&& self.scl() == Some(scl)
        &&& self.sda() == Some(sda)
        &&& self.resolved() == resolved
        &&& self.fifo() == T::FIFO_SIZE
        &&& !self.is_abandoned()
        &&& floor_for.ensures((resolved.source_hz,), self.floor())
        &&& exists|scl_type: PfType, sda_type: PfType|
            #![trigger new_accesses(scl, scl_pf, scl_type, sda, sda_pf, sda_type, resolved)]
            {
                &&& scl_type.pull() == config.scl_pull && scl_type.reads() && scl_type.inverts() == config.invert_scl
                &&& sda_type.pull() == config.sda_pull && sda_type.reads() && sda_type.inverts() == config.invert_sda
                &&& after == before + new_accesses(scl, scl_pf, scl_type, sda, sda_pf, sda_type, resolved)
            }
    }

    /// Power up an instance, claim the pins and apply a configuration that is resolved already.
    pub fn new_inner<T: Instance, F: Fn(u32) -> Option<SleepLevel>>(
        scl: AnyPin,
        scl_pf: u8,
        sda: AnyPin,
        sda_pf: u8,
        config: Config,
        resolved: Resolved,
        floor_for: &F,
        bus: &mut Bus<Access>,
    ) -> (i2c: Self)
        requires
            scl.pad().can_pull(config.scl_pull),
            sda.pad().can_pull(config.sda_pull),
            forall|hz: u32| floor_for.requires((hz,)),
        ensures
            i2c.set_up::<T, F>(scl, scl_pf, sda, sda_pf, config, resolved, floor_for, old(bus)@, final(bus)@),
    {
        let scl_type = config.scl_pf();
        let sda_type = config.sda_pf();

        power_up(bus);
        bus.push(Access::Pin(scl.set_as_pf(scl_pf, scl_type)));
        bus.push(Access::Pin(sda.set_as_pf(sda_pf, sda_type)));

        let open_drain = PincmUpdate { hiz1: Some(true), ..PincmUpdate::unchanged() };

        bus.push(Access::Pin(gpio::Access::Pincm(scl.pin_cm(), open_drain)));
        bus.push(Access::Pin(gpio::Access::Pincm(sda.pin_cm(), open_drain)));

        let mut i2c = I2c {
            scl: MaybeAnyPin::new(Some(scl)),
            sda: MaybeAnyPin::new(Some(sda)),
            wake_floor: None,
            resolved,
            fifo_size: T::FIFO_SIZE,
            abandoned: false,
        };

        i2c.init(floor_for, bus);
        assert(bus@ =~= old(bus)@ + new_accesses(scl, scl_pf, scl_type, sda, sda_pf, sda_type, resolved));
        i2c
    }

    /// Program the configuration held, and work the sleep floor out again.
    pub fn init<F: Fn(u32) -> Option<SleepLevel>>(&mut self, floor_for: &F, bus: &mut Bus<Access>)
        requires
            floor_for.requires((old(self).resolved().source_hz,)),
        ensures
            final(self).scl() == old(self).scl(),
            final(self).sda() == old(self).sda(),
            final(self).resolved() == old(self).resolved(),
            final(self).fifo() == old(self).fifo(),
            final(self).is_abandoned() == old(self).is_abandoned(),
            floor_for.ensures((old(self).resolved().source_hz,), final(self).floor()),
            final(bus)@ == old(bus)@ + init_accesses(old(self).resolved()),
    {
        self.wake_floor = self.resolved.wake_floor(floor_for);
        self.program(bus);
    }

    fn program(&self, bus: &mut Bus<Access>)
        ensures
            final(bus)@ == old(bus)@ + init_accesses(self.resolved()),
    {
        let resolved = self.resolved;

        bus.push(
            match resolved.clock_source {
                ClockSel::BusClk => Access::Clksel { mfclk_sel: false, busclk_sel: true },
                ClockSel::MfClk => Access::Clksel { mfclk_sel: true, busclk_sel: false },
            },
        );
        bus.push(Access::Clkdiv { ratio: resolved.clock_div.ratio() });
        bus.push(Access::Gfctl { agfen: false, agfsel: Agfsel::Aglit50, chain: true });
        bus.push(Access::Cctr(Cctr::cleared()));
        bus.push(Access::Tpr(resolved.tpr));
        // The low timeout is to be configured at initialisation and not while active. Counter A is the
        // SCL-low one; B, which watches SCL high, is left alone.
        bus.push(
            match resolved.clock_low_timeout {
                Some(load) => Access::TimeoutCtl { tcntaen: true, tcntla: load },
                None => Access::TimeoutCtl { tcntaen: false, tcntla: 0 },
            },
        );
        bus.push(Access::Cfifoctl { txtrig: Txtrig::Empty, rxtrig: Rxtrig::Level1 });
        bus.push(Access::Ccr { clkstretch: true, active: true });
    }

    /// Reconfigure the driver.
    ///
    /// `line_on` says whether the NVIC line is enabled, and `sda_pincm` and `scl_pincm` are readings of the
    /// pads' registers. The line is off across the reprogramming and back on afterwards, but only if it was
    /// on to begin with.
    #[verifier::rlimit(40)]
    pub fn set_config<F: Fn(u32) -> Option<SleepLevel>>(
        &mut self,
        config: Config,
        clocks: &Clocks,
        usemftick: bool,
        line_on: bool,
        sda_pincm: Pincm,
        scl_pincm: Pincm,
        floor_for: &F,
        bus: &mut Bus<Access>,
    ) -> (configured: Result<(), ConfigError>)
        requires
            config.resolved(clocks.mfclk, clocks.ulpclk, clocks.mclk, usemftick) is Ok ==> {
                &&& can_pull(old(self).sda(), config.sda_pull)
                &&& can_pull(old(self).scl(), config.scl_pull)
            },
            forall|hz: u32| floor_for.requires((hz,)),
        ensures
            reconfigured(
                *old(self),
                *final(self),
                config,
                config.resolved(clocks.mfclk, clocks.ulpclk, clocks.mclk, usemftick),
                line_on,
                sda_pincm,
                scl_pincm,
                floor_for,
                configured,
                old(bus)@,
                final(bus)@,
            ),
    {
        let resolved = match config.resolve(clocks, usemftick) {
            Ok(resolved) => resolved,
            Err(error) => return Err(error),
        };

        // Kept so a later reset restores this config rather than the one the driver was built with.
        self.resolved = resolved;
        bus.push(Access::LineOff);

        let sda_type = config.sda_pf();
        let scl_type = config.scl_pf();

        if let Some(sda) = self.sda.pin() {
            bus.push(Access::Pin(sda.update_pf(sda_pincm, sda_type)));
        }
        if let Some(scl) = self.scl.pin() {
            bus.push(Access::Pin(scl.update_pf(scl_pincm, scl_type)));
        }
        assert(bus@ =~= old(bus)@ + seq![Access::LineOff] + repad_accesses(old(self).sda(), sda_pincm, sda_type)
            + repad_accesses(old(self).scl(), scl_pincm, scl_type));
        self.init(floor_for, bus);
        if line_on {
            bus.push(Access::LineUnpend);
            bus.push(Access::LineOn);
        }
        assert(bus@ =~= old(bus)@ + reconfigure_accesses(
            *old(self),
            sda_pincm,
            sda_type,
            scl_pincm,
            scl_type,
            resolved,
            line_on,
        ));
        Ok(())
    }

    /// Whether the controller has finished everything it was given.
    pub fn is_idle(&self, csr: Csr) -> (idle: bool)
        ensures
            idle == csr.idle,
    {
        csr.idle
    }

    /// Whether a burst is still running.
    pub fn is_busy(&self, csr: Csr) -> (busy: bool)
        ensures
            busy == csr.busy,
    {
        csr.busy
    }

    /// How many bytes are waiting in the receive FIFO.
    pub fn rx_fifo_count(&self, status: Status) -> (count: u8)
        ensures
            count == status.rx_count,
    {
        status.rx_count
    }

    /// Whether another controller or an unfinished transaction still holds the bus.
    pub fn bus_is_busy(&self, csr: Csr) -> (busy: bool)
        ensures
            busy == csr.busbsy,
    {
        csr.busbsy
    }

    /// Has the SCL-low timeout fired? Always false unless `Config::clock_low_timeout_us` enabled it.
    pub fn timed_out(&self, status: Status) -> (timed_out: bool)
        ensures
            timed_out == status.timeouta,
    {
        status.timeouta
    }

    /// The event a reading of `IIDX` stands for: the highest-priority latched source, which the reading
    /// cleared.
    ///
    /// `None` means nothing was pending, or that what was pending is a source [`Event`] does not
    /// model, which this driver never arms.
    pub fn take_next(&mut self, stat: IidxStat) -> (event: Option<Event>)
        ensures
            *final(self) == *old(self),
            event == stat.event(),
    {
        match stat {
            IidxStat::Ctxdonefg => Some(Event::TransmitDone),
            IidxStat::Crxdonefg => Some(Event::ReceiveDone),
            IidxStat::Ctxfifotrg => Some(Event::TransmitTrigger),
            IidxStat::Crxfifotrg => Some(Event::ReceiveTrigger),
            IidxStat::CtxEmpty => Some(Event::TransmitEmpty),
            IidxStat::Crxfifofull => Some(Event::ReceiveFull),
            IidxStat::Cnackfg => Some(Event::Nack),
            IidxStat::Cstartfg => Some(Event::Start),
            IidxStat::Cstopfg => Some(Event::Stop),
            IidxStat::Carblostfg => Some(Event::ArbitrationLost),
            IidxStat::Timeouta => Some(Event::ClockLowTimeout),
            IidxStat::NoIntr | IidxStat::Other => None,
        }
    }

    /// How many entries each FIFO holds on this instance.
    pub fn fifo_size(&self) -> (size: usize)
        ensures
            size == self.fifo(),
    {
        self.fifo_size
    }

    /// Shallowest sleep level to block so that a transfer keeps running, if one needs blocking at all.
    pub fn transfer_floor(&self) -> (floor: Option<SleepLevel>)
        ensures
            floor == self.floor(),
    {
        self.wake_floor
    }

    /// Let `event` reach the CPU, or stop it.
    ///
    /// A read-modify-write on `IMASK`, which an interrupt handler writes as well. Use
    /// [`arm_only`](Self::arm_only) where the whole mask is being set.
    pub fn enable_interrupt(&mut self, event: Event, enable: bool, bus: &mut Bus<Access>)
        ensures
            *final(self) == *old(self),
            final(bus)@ == old(bus)@.push(
                if enable {
                    Access::Unmask(event.sources())
                } else {
                    Access::Mask(event.sources())
                },
            ),
    {
        bus.push(
            if enable {
                Access::Unmask(event.mask())
            } else {
                Access::Mask(event.mask())
            },
        );
    }

    /// Let all of `events` reach the CPU, or stop them, leaving the rest of the mask as it is.
    ///
    /// One read-modify-write for the whole set, which is what arming a burst wants: three faults plus
    /// whichever completion it waits on.
    pub fn enable_interrupts<const N: usize>(&mut self, events: [Event; N], enable: bool, bus: &mut Bus<Access>)
        ensures
            *final(self) == *old(self),
            final(bus)@ == old(bus)@.push(
                if enable {
                    Access::Unmask(Event::all_sources(events@))
                } else {
                    Access::Mask(Event::all_sources(events@))
                },
            ),
    {
        let mask = combined(events);

        bus.push(
            if enable {
                Access::Unmask(mask)
            } else {
                Access::Mask(mask)
            },
        );
    }

    /// Let exactly `events` reach the CPU and nothing else, in one write.
    ///
    /// What a burst wants: the three faults plus whichever completion it is waiting for, with
    /// everything the last burst armed gone.
    pub fn arm_only<const N: usize>(&mut self, events: [Event; N], bus: &mut Bus<Access>)
        ensures
            *final(self) == *old(self),
            final(bus)@ == old(bus)@.push(Access::StoreImask(Event::all_sources(events@))),
    {
        bus.push(Access::StoreImask(combined(events)));
    }

    /// Mask every source, leaving nothing armed.
    ///
    /// What a cancelled transfer does first: an armed source with no future left to consume it fires
    /// into a handler that only wakes, and re-enters until something masks it.
    pub fn disarm(&mut self, bus: &mut Bus<Access>)
        ensures
            *final(self) == *old(self),
            final(bus)@ == old(bus)@.push(Access::StoreImask(CpuInt::empty())),
    {
        bus.push(Access::StoreImask(CpuInt::none()));
    }

    /// Whether `event` is latched in `ris`, whether or not it is unmasked.
    pub fn is_pending(&self, event: Event, ris: CpuInt) -> (pending: bool)
        ensures
            pending == (ris.intersection(event.sources()) != CpuInt::empty()),
    {
        ris.within(event.mask()) != CpuInt::none()
    }

    /// Drop `event`'s latched flag.
    pub fn clear_pending(&mut self, event: Event, bus: &mut Bus<Access>)
        ensures
            *final(self) == *old(self),
            final(bus)@ == old(bus)@.push(Access::Iclr(event.sources())),
    {
        bus.push(Access::Iclr(event.mask()));
    }

    /// Whether `event` is in `mis`, latched and unmasked, clearing the part of it that is.
    ///
    /// What raised the line. [`Event::AnyFault`] makes it the three burst-ending faults at once.
    pub fn take_active(&mut self, event: Event, mis: CpuInt, bus: &mut Bus<Access>) -> (active: bool)
        ensures
            *final(self) == *old(self),
            active == (mis.intersection(event.sources()) != CpuInt::empty()),
            final(bus)@ == (if active {
                old(bus)@.push(Access::Iclr(mis.intersection(event.sources())))
            } else {
                old(bus)@
            }),
    {
        let active = mis.within(event.mask());

        if active != CpuInt::none() {
            bus.push(Access::Iclr(active));
            true
        } else {
            false
        }
    }

    /// Record that a transfer was abandoned part-way, so the next one resets before it starts.
    ///
    /// Cannot be derived from the registers: `CCTR` reads the same after a completed burst as after
    /// an abandoned one. [`take_abandoned`](Self::take_abandoned) is the other half.
    pub fn mark_abandoned(&mut self)
        ensures
            final(self).same_but_abandoned(old(self)),
            final(self).is_abandoned(),
    {
        self.abandoned = true;
    }

    /// Whether a transfer was abandoned since this was last asked, clearing the record.
    pub fn take_abandoned(&mut self) -> (abandoned: bool)
        ensures
            final(self).same_but_abandoned(old(self)),
            abandoned == old(self).is_abandoned(),
            !final(self).is_abandoned(),
    {
        let abandoned = self.abandoned;

        if abandoned {
            self.abandoned = false;
        }
        abandoned
    }

    /// Discard whatever an abandoned transfer left queued, once the controller has been given the time to go
    /// idle.
    ///
    /// Left there, the next transfer transmits the previous one's byte and reads back the previous one's
    /// data. The FIFO interrupts are masked first, and their flags dealt with after: emptying the transmit
    /// FIFO raises exactly the events a finished transfer would. `armed` is a reading of `IMASK`.
    pub fn flush_fifos(&mut self, armed: CpuInt, bus: &mut Bus<Access>)
        ensures
            *final(self) == *old(self),
            final(bus)@ == old(bus)@ + flush_accesses(old(self).fifo(), armed),
    {
        let sources = CpuInt {
            ctxfifotrg: true,
            crxfifotrg: true,
            ctxempty: true,
            crxfifofull: true,
            ..CpuInt::none()
        };

        bus.push(Access::Mask(sources));
        bus.push(Access::Flush { txflush: true, rxflush: true });
        // Waits on the FIFO emptying itself with the flush bits held, which is the peripheral's own doing
        // and does not depend on the bus.
        bus.push(Access::WaitFlushed(self.fifo_size));
        bus.push(Access::Flush { txflush: false, rxflush: false });
        bus.push(Access::Iclr(sources));
        // Restored one field at a time rather than rewritten whole, so a change to any other bit
        // survives it.
        bus.push(Access::RestoreFifoSources(armed));
    }

    /// Reset the peripheral and put its configuration back.
    ///
    /// The escape hatch for a controller that cannot be talked round. It ends whatever burst was running
    /// at once, empties the FIFOs, releases SCL and SDA, and is the only thing that clears `BUSBSY` after a
    /// clock-low timeout.
    pub fn reset_peripheral(&mut self, bus: &mut Bus<Access>)
        ensures
            *final(self) == *old(self),
            final(bus)@ == old(bus)@ + reset_accesses(old(self).resolved()),
    {
        power_up(bus);
        self.program(bus);
    }

    /// Send a STOP on its own, ending a transfer whose last burst did not carry one.
    pub fn stop(&mut self, bus: &mut Bus<Access>)
        ensures
            *final(self) == *old(self),
            final(bus)@ == old(bus)@ + stop_accesses(),
    {
        // not the first transaction, delay 1000 cycles
        bus.push(Access::Delay(1000));
        bus.push(Access::Cctr(Cctr::lone_stop()));
    }

    /// Start a receiving burst of `length` bytes.
    ///
    /// `restart` sends a repeated START rather than a START, and `send_stop` ends the transfer.
    /// `Err` if `length` is past [`MAX_BURST_LEN`].
    pub fn start_read(
        &mut self,
        address: Address,
        length: usize,
        restart: bool,
        send_ack_nack: bool,
        send_stop: bool,
        bus: &mut Bus<Access>,
    ) -> (started: Result<(), Error>)
        ensures
            *final(self) == *old(self),
            length > MAX_BURST_LEN ==> started == Err::<(), Error>(Error::TransferLengthIsOverLimit) && final(bus)@
                == old(bus)@,
            length <= MAX_BURST_LEN ==> started is Ok && final(bus)@ == old(bus)@ + start_read_accesses(
                address,
                length as u16,
                restart,
                send_ack_nack,
                send_stop,
            ),
    {
        if length > MAX_BURST_LEN {
            return Err(Error::TransferLengthIsOverLimit);
        }
        if restart {
            // not the first transaction, delay 1000 cycles
            bus.push(Access::Delay(1000));
        }
        // START may be set even while the bus is busy or the peripheral is in target mode.
        bus.push(Access::Csa(address.addr(), address.is_ten_bit(), Dir::Receive));
        bus.push(Access::Cctr(Cctr::burst(length as u16, Some(send_ack_nack), send_stop)));
        assert(bus@ =~= old(bus)@ + start_read_accesses(address, length as u16, restart, send_ack_nack, send_stop));
        Ok(())
    }

    /// Start a transmitting burst of `length` bytes, whose bytes come from the transmit FIFO.
    ///
    /// `Err` if `length` is past [`MAX_BURST_LEN`].
    pub fn start_write(&mut self, address: Address, length: usize, send_stop: bool, bus: &mut Bus<Access>) -> (started:
        Result<(), Error>)
        ensures
            *final(self) == *old(self),
            length > MAX_BURST_LEN ==> started == Err::<(), Error>(Error::TransferLengthIsOverLimit) && final(bus)@
                == old(bus)@,
            length <= MAX_BURST_LEN ==> started is Ok && final(bus)@ == old(bus)@ + start_write_accesses(
                address,
                length as u16,
                send_stop,
            ),
    {
        if length > MAX_BURST_LEN {
            return Err(Error::TransferLengthIsOverLimit);
        }
        bus.push(Access::Csa(address.addr(), address.is_ten_bit(), Dir::Transmit));
        bus.push(Access::Cctr(Cctr::burst(length as u16, None, send_stop)));
        Ok(())
    }

    /// Wait out the erratum before `CSR` is read after starting a transfer.
    ///
    /// Polling `BUSY` any sooner reads it before the controller has raised it, so the wait falls straight
    /// through and a NACK goes unnoticed.
    pub fn settle_after_start(&self, bus: &mut Bus<Access>)
        ensures
            final(bus)@ == old(bus)@.push(Access::Delay(self.resolved().settle_cycles as u32)),
    {
        bus.push(Access::Delay(self.resolved.settle_cycles as u32));
    }

    /// CPU cycles in half an SCL period.
    pub fn half_period(&self) -> (cycles: u32)
        ensures
            cycles == self.resolved().half_period_cycles,
    {
        self.resolved.half_period_cycles as u32
    }

    /// Begin to wait for the controller to report itself idle, for a few SCL half-periods and no longer.
    pub fn wait_for_idle(&self) -> (wait: IdleWait)
        ensures
            wait == IdleWait::fresh(),
    {
        IdleWait::new()
    }

    /// Begin to watch whether the bus is stuck with a target holding SDA low.
    ///
    /// This is what [`Error::BusStuck`] reports and what [`recover_stuck_bus`](Self::recover_stuck_bus) acts
    /// on, so the two cannot disagree about whether there is anything to do.
    pub fn bus_is_stuck(&self) -> (watch: StuckWatch)
        ensures
            watch == StuckWatch::fresh(),
    {
        StuckWatch::new()
    }

    /// Begin to wait for whoever holds the bus to release it, giving up on the SCL-low timeout.
    pub fn blocking_wait_bus_free(&mut self) -> (wait: BusWait)
        ensures
            *final(self) == *old(self),
            wait == BusWait::Watching(StuckWatch::fresh()),
    {
        BusWait::new()
    }

    /// Put the peripheral back in a state the next transfer can use, after `error` ended one.
    ///
    /// A timeout is the one failure a STOP cannot clear, so it takes the reset. Anything else only needs
    /// the bus released and the queued bytes dropped: wait for idle, and then flush the FIFOs.
    pub fn recover_after(&mut self, error: Error, bus: &mut Bus<Access>) -> (wait: Option<IdleWait>)
        ensures
            *final(self) == *old(self),
            wait == (if error == Error::Timeout {
                None
            } else {
                Some(IdleWait::fresh())
            }),
            final(bus)@ == old(bus)@ + (if error == Error::Timeout {
                reset_accesses(old(self).resolved())
            } else {
                stop_accesses()
            }),
    {
        if error == Error::Timeout {
            self.reset_peripheral(bus);
            None
        } else {
            self.stop(bus);
            Some(self.wait_for_idle())
        }
    }

    /// Take this instance off the bus: only the pins. A controller has no legal way to stand down
    /// mid-burst, so releasing the pads is what takes it off, and the next driver on this instance resets
    /// it before configuring.
    pub fn release(self, bus: &mut Bus<Access>)
        ensures
            final(bus)@ == old(bus)@ + disconnect_accesses(self.scl()) + disconnect_accesses(self.sda()),
    {
        if let Some(pin) = self.scl.pin() {
            bus.push(Access::Pin(pin.set_as_disconnected()));
        }
        if let Some(pin) = self.sda.pin() {
            bus.push(Access::Pin(pin.set_as_disconnected()));
        }
        assert(bus@ =~= old(bus)@ + disconnect_accesses(self.scl()) + disconnect_accesses(self.sda()));
    }

    /// Clock a target off the bus when it is holding SDA low.
    ///
    /// Nine SCL pulses let a target that lost sync finish the byte it is stuck part-way through, eight
    /// bits and the ACK. `stuck` is what watching the lines came to, and `scl_pincm` and `sda_pincm` are
    /// readings of the pads' registers. [`Recovery::outcome`] is the result, if that is all there is to it, and
    /// [`end_recovery`](Self::end_recovery) finishes what is clocked.
    ///
    /// Only sound when nothing else is using the bus: it drives SCL without arbitration.
    pub fn recover_stuck_bus(&mut self, stuck: bool, scl_pincm: Pincm, sda_pincm: Pincm, bus: &mut Bus<Access>) -> (
    recovery: Recovery)
        requires
            stuck && old(self).scl() is Some && old(self).sda() is Some ==> {
                &&& can_pull(old(self).scl(), pull_of(scl_pincm))
                &&& can_pull(old(self).sda(), pull_of(sda_pincm))
            },
        ensures
            *final(self) == *old(self),
            recovery.tried(*old(self), stuck, scl_pincm, sda_pincm, old(bus)@, final(bus)@),
    {
        if !stuck {
            return Recovery::NotStuck;
        }
        let half: u32 = self.half_period();
        let (scl, sda) = match (self.scl.pin(), self.sda.pin()) {
            (Some(scl), Some(sda)) => (scl, sda),
            _ => return Recovery::NoPins,
        };
        let scl_type = PfType::input(current_pull(scl_pincm), scl_pincm.inv);
        let sda_type = PfType::input(current_pull(sda_pincm), sda_pincm.inv);

        // The pads release high rather than driving it, so a GPIO output is open-drain: low is driven, high
        // is released for the pull-up to take.
        drive(scl, scl_type, bus);
        drive(sda, sda_type, bus);

        let ghost driven = bus@;
        let mut clocked: usize = 0;

        assert(driven + pulses(scl, half, 0) =~= driven);
        // All nine, without breaking at the first high sample: SDA goes high on any `1` bit of the byte the
        // target is still shifting out, so breaking there leaves it mid-byte.
        while clocked < 9
            invariant
                clocked <= 9,
                bus@ == driven + pulses(scl, half, clocked as int),
            decreases 9 - clocked,
        {
            bus.push(Access::Pin(gpio::Access::DoutClear(scl.block(), scl.bit_index())));
            bus.push(Access::Delay(half));
            bus.push(Access::Pin(gpio::Access::DoutSet(scl.block(), scl.bit_index())));
            bus.push(Access::Delay(half));
            clocked += 1;
            assert(bus@ =~= driven + pulses(scl, half, clocked as int));
        }
        Recovery::Clocked
    }

    /// Send the STOP that follows nine clocks, put the pads back and reset the controller, which watched
    /// none of it.
    ///
    /// `din` is a reading of `DIN31_0` of SDA's port, taken after the ninth clock with the pad still a GPIO.
    /// `Err(Error::Bus)` means nine clocks did not free SDA, which is either a target holding it for good or a
    /// short to ground.
    pub fn end_recovery(
        &mut self,
        din: u32,
        scl_pincm: Pincm,
        sda_pincm: Pincm,
        bus: &mut Bus<Access>,
    ) -> (recovered: Result<(), Error>)
        requires
            old(self).scl() is Some,
            old(self).sda() is Some,
        ensures
            *final(self) == *old(self),
            recovered == freed(old(self).sda()->Some_0, din),
            final(bus)@ == old(bus)@ + end_accesses(
                old(self).scl()->Some_0,
                old(self).sda()->Some_0,
                old(self).resolved(),
                scl_pincm,
                sda_pincm,
            ),
    {
        let half: u32 = self.half_period();
        let mut freed = false;

        if let Some(scl) = self.scl.pin() {
            if let Some(sda) = self.sda.pin() {
                freed = read_bit(din, sda.bit_index());
                // STOP is SDA rising while SCL is high, so both have to be driven low first to set it up.
                bus.push(Access::Pin(gpio::Access::DoutClear(scl.block(), scl.bit_index())));
                bus.push(Access::Pin(gpio::Access::DoutClear(sda.block(), sda.bit_index())));
                bus.push(Access::Delay(half));
                bus.push(Access::Pin(gpio::Access::DoutSet(scl.block(), scl.bit_index())));
                bus.push(Access::Delay(half));
                bus.push(Access::Pin(gpio::Access::DoutSet(sda.block(), sda.bit_index())));
                bus.push(Access::Delay(half));
                bus.push(Access::Pin(gpio::Access::StorePincm(scl.pin_cm(), scl_pincm)));
                bus.push(Access::Pin(gpio::Access::StorePincm(sda.pin_cm(), sda_pincm)));
                assert(bus@ =~= old(bus)@ + manual_stop(scl, sda, half) + seq![
                    Access::Pin(gpio::Access::StorePincm(scl.pin_cm(), scl_pincm)),
                    Access::Pin(gpio::Access::StorePincm(sda.pin_cm(), sda_pincm)),
                ]);
            }
        }
        self.reset_peripheral(bus);
        assert(bus@ =~= old(bus)@ + end_accesses(
            old(self).scl()->Some_0,
            old(self).sda()->Some_0,
            old(self).resolved(),
            scl_pincm,
            sda_pincm,
        ));
        if freed {
            Ok(())
        } else {
            Err(Error::Bus)
        }
    }
}

/// What a try at clocking a target off the bus came to.
#[derive(Clone, Copy, PartialEq, Eq, Debug, Structural)]
pub enum Recovery {
    /// There was nothing to do.
    NotStuck,
    /// There is nothing to clock with, which is a bus error.
    NoPins,
    /// Nine clocks have gone out: read SDA and end the recovery.
    Clocked,
}

impl Recovery {
    /// The result of the recovery, if there is one already.
    pub open spec fn result(self) -> Option<Result<(), Error>> {
        match self {
            Recovery::NotStuck => Some(Ok(())),
            Recovery::NoPins => Some(Err(Error::Bus)),
            Recovery::Clocked => None,
        }
    }

    /// Whether this is what a try on a driver came to: nothing was to be done, or could be, and nothing was asked
    /// for; or both lines were driven by hand, each as its pad was, and SCL clocked nine times.
    pub open spec fn tried(
        self,
        i2c: I2c,
        stuck: bool,
        scl_pincm: Pincm,
        sda_pincm: Pincm,
        before: Seq<Access>,
        after: Seq<Access>,
    ) -> bool {
        &&& self.result() == (if !stuck {
            Some(Ok::<(), Error>(()))
        } else if i2c.scl() is None || i2c.sda() is None {
            Some(Err(Error::Bus))
        } else {
            None
        })
        &&& match self {
            Recovery::NotStuck => !stuck && after == before,
            Recovery::NoPins => stuck && (i2c.scl() is None || i2c.sda() is None) && after == before,
            Recovery::Clocked => {
                &&& stuck
                &&& i2c.scl() matches Some(scl) && i2c.sda() matches Some(sda) && exists|
                    scl_type: PfType,
                    sda_type: PfType,
                |
                    #![trigger drive_accesses(scl, scl_type), drive_accesses(sda, sda_type)]
                    {
                        &&& scl_type.pull() == pull_of(scl_pincm) && scl_type.reads() && scl_type.inverts()
                            == scl_pincm.inv
                        &&& sda_type.pull() == pull_of(sda_pincm) && sda_type.reads() && sda_type.inverts()
                            == sda_pincm.inv
                        &&& after == before + drive_accesses(scl, scl_type) + drive_accesses(sda, sda_type) + pulses(
                            scl,
                            i2c.resolved().half_period_cycles as u32,
                            9,
                        )
                    }
            },
        }
    }

    /// The result of the recovery, if there is one already: nothing to do is a success, and nothing to clock
    /// with is a bus error. What was clocked has its result from [`I2c::end_recovery`].
    pub fn outcome(self) -> (result: Option<Result<(), Error>>)
        ensures
            result == self.result(),
    {
        match self {
            Recovery::NotStuck => Some(Ok(())),
            Recovery::NoPins => Some(Err(Error::Bus)),
            Recovery::Clocked => None,
        }
    }
}

/// What releasing an optional pin asks for.
pub open spec fn disconnect_accesses(pin: Option<AnyPin>) -> Seq<Access> {
    match pin {
        Some(pin) => seq![Access::Pin(gpio::Access::StorePincm(pin.pin_cm(), Pincm::zero()))],
        None => Seq::empty(),
    }
}

/// The pull a pad's register has on.
pub open spec fn pull_of(pincm: Pincm) -> Pull {
    if pincm.pipu {
        Pull::Up
    } else if pincm.pipd {
        Pull::Down
    } else {
        Pull::NoPull
    }
}

/// What turning a line into a released GPIO output asks for.
pub open spec fn drive_accesses(pin: AnyPin, ty: PfType) -> Seq<Access> {
    seq![
        Access::Pin(gpio::Access::Pincm(pin.pin_cm(), ty.update(GPIO_PF))),
        Access::Pin(gpio::Access::DoutSet(pin.block(), pin.bit_index())),
        Access::Pin(gpio::Access::DoeSet(pin.block(), pin.bit_index())),
    ]
}

/// What clocking SCL this many times asks for.
pub open spec fn pulses(scl: AnyPin, half: u32, times: int) -> Seq<Access>
    decreases times,
{
    if times <= 0 {
        Seq::empty()
    } else {
        pulses(scl, half, times - 1) + seq![
            Access::Pin(gpio::Access::DoutClear(scl.block(), scl.bit_index())),
            Access::Delay(half),
            Access::Pin(gpio::Access::DoutSet(scl.block(), scl.bit_index())),
            Access::Delay(half),
        ]
    }
}

/// What a STOP by hand asks for.
pub open spec fn manual_stop(scl: AnyPin, sda: AnyPin, half: u32) -> Seq<Access> {
    seq![
        Access::Pin(gpio::Access::DoutClear(scl.block(), scl.bit_index())),
        Access::Pin(gpio::Access::DoutClear(sda.block(), sda.bit_index())),
        Access::Delay(half),
        Access::Pin(gpio::Access::DoutSet(scl.block(), scl.bit_index())),
        Access::Delay(half),
        Access::Pin(gpio::Access::DoutSet(sda.block(), sda.bit_index())),
        Access::Delay(half),
    ]
}

/// What ending a recovery asks for: the STOP by hand, the pads as they were, and a reset.
pub open spec fn end_accesses(
    scl: AnyPin,
    sda: AnyPin,
    resolved: Resolved,
    scl_pincm: Pincm,
    sda_pincm: Pincm,
) -> Seq<Access> {
    manual_stop(scl, sda, resolved.half_period_cycles as u32) + seq![
        Access::Pin(gpio::Access::StorePincm(scl.pin_cm(), scl_pincm)),
        Access::Pin(gpio::Access::StorePincm(sda.pin_cm(), sda_pincm)),
    ] + reset_accesses(resolved)
}

/// What a recovery came to, by the line the target was holding.
pub open spec fn freed(sda: AnyPin, din: u32) -> Result<(), Error> {
    if bit_set(din, sda.bit_index()) {
        Ok(())
    } else {
        Err(Error::Bus)
    }
}

/// The pull a pad's register has on.
pub fn current_pull(pincm: Pincm) -> (pull: Pull)
    ensures
        pull == pull_of(pincm),
{
    if pincm.pipu {
        Pull::Up
    } else if pincm.pipd {
        Pull::Down
    } else {
        Pull::NoPull
    }
}

/// Turn a line into a released GPIO output, keeping its pull and its inversion.
///
/// Synthesising them would switch off an internal pull-up, and an open-drain line whose pull-up is the
/// internal one then has nothing to raise it.
fn drive(pin: AnyPin, ty: PfType, bus: &mut Bus<Access>)
    requires
        pin.pad().can_pull(ty.pull()),
    ensures
        final(bus)@ == old(bus)@ + drive_accesses(pin, ty),
{
    bus.push(Access::Pin(pin.set_as_pf(GPIO_PF, ty)));
    bus.push(Access::Pin(gpio::Access::DoutSet(pin.block(), pin.bit_index())));
    bus.push(Access::Pin(gpio::Access::DoeSet(pin.block(), pin.bit_index())));
}

/// The sources behind all of these events.
fn combined<const N: usize>(events: [Event; N]) -> (mask: CpuInt)
    ensures
        mask == Event::all_sources(events@),
{
    let mut mask = CpuInt::none();
    let mut i: usize = 0;

    assert(events@.take(0) =~= Seq::<Event>::empty());
    while i < N
        invariant
            i <= N,
            events@.len() == N,
            mask == Event::all_sources(events@.take(i as int)),
        decreases N - i,
    {
        assert(events@.take(i + 1).drop_last() =~= events@.take(i as int));
        mask = mask.with(events[i].mask());
        i += 1;
    }
    assert(events@.take(N as int) =~= events@);
    mask
}

/// What an access does to `IMASK`.
pub open spec fn masked_after(imask: CpuInt, access: Access) -> CpuInt {
    match access {
        Access::Unmask(sources) => imask.union(sources),
        Access::Mask(sources) => imask.difference(sources),
        Access::StoreImask(sources) => sources,
        Access::RestoreFifoSources(armed) => CpuInt {
            ctxfifotrg: armed.ctxfifotrg,
            crxfifotrg: armed.crxfifotrg,
            ctxempty: armed.ctxempty,
            crxfifofull: armed.crxfifofull,
            ..imask
        },
        _ => imask,
    }
}

/// `IMASK` after a sequence of accesses.
pub open spec fn imask_after(imask: CpuInt, accesses: Seq<Access>) -> CpuInt
    decreases accesses.len(),
{
    if accesses.len() == 0 {
        imask
    } else {
        masked_after(imask_after(imask, accesses.drop_last()), accesses.last())
    }
}

/// Flushing the FIFOs leaves armed exactly what was armed, and nothing the FIFOs raise gets through while it
/// runs.
pub proof fn flush_keeps_the_mask(imask: CpuInt, fifo_size: usize)
    ensures
        imask_after(imask, flush_accesses(fifo_size, imask)) == imask,
        forall|i: int|
            1 <= i <= 5 ==> (#[trigger] imask_after(imask, flush_accesses(fifo_size, imask).take(i))).intersection(
                fifo_set(),
            ) == CpuInt::empty(),
{
    let all = flush_accesses(fifo_size, imask);
    reveal_with_fuel(imask_after, 8);
    assert(all.drop_last() =~= all.take(5));
    assert forall|i: int| 1 <= i <= 5 implies (#[trigger] imask_after(imask, all.take(i))).intersection(fifo_set())
        == CpuInt::empty() by {
        assert(all.take(i).drop_last() =~= all.take(i - 1));
        assert(all.take(5).drop_last() =~= all.take(4));
        assert(all.take(4).drop_last() =~= all.take(3));
        assert(all.take(3).drop_last() =~= all.take(2));
        assert(all.take(2).drop_last() =~= all.take(1));
        assert(all.take(1).drop_last() =~= all.take(0));
        assert(imask_after(imask, all.take(1)) == imask.difference(fifo_set()));
    }
    assert(imask_after(imask, all.take(5)) == imask.difference(fifo_set())) by {
        assert(all.take(5).drop_last() =~= all.take(4));
        assert(all.take(4).drop_last() =~= all.take(3));
        assert(all.take(3).drop_last() =~= all.take(2));
        assert(all.take(2).drop_last() =~= all.take(1));
        assert(all.take(1).drop_last() =~= all.take(0));
    }
}

/// How many times SCL is pulled low.
pub open spec fn falls(accesses: Seq<Access>, scl: AnyPin) -> int
    decreases accesses.len(),
{
    if accesses.len() == 0 {
        0
    } else {
        falls(accesses.drop_last(), scl) + (if accesses.last() == Access::Pin(
            gpio::Access::DoutClear(scl.block(), scl.bit_index()),
        ) {
            1int
        } else {
            0
        })
    }
}

/// Clocking a number of times pulls SCL low exactly that often, and leaves it released.
pub proof fn clocks_are_counted(scl: AnyPin, half: u32, times: int)
    requires
        0 <= times,
    ensures
        falls(pulses(scl, half, times), scl) == times,
        times > 0 ==> pulses(scl, half, times)[pulses(scl, half, times).len() - 2] == Access::Pin(
            gpio::Access::DoutSet(scl.block(), scl.bit_index()),
        ),
    decreases times,
{
    if times > 0 {
        clocks_are_counted(scl, half, times - 1);
        let before = pulses(scl, half, times - 1);
        let all = pulses(scl, half, times);
        let a = all.drop_last();
        let b = a.drop_last();
        let c = b.drop_last();
        assert(c.drop_last() =~= before);
        reveal_with_fuel(falls, 5);
    }
}

/// Whether an access sets up what a resolved configuration asks for.
pub open spec fn sets_up(access: Access, resolved: Resolved) -> bool {
    match access {
        Access::Clksel { mfclk_sel, busclk_sel } => {
            &&& mfclk_sel <==> resolved.clock_source is MfClk
            &&& busclk_sel <==> resolved.clock_source is BusClk
        },
        Access::Clkdiv { ratio } => {
            &&& resolved.clock_div is DivBy1 ==> ratio == 0
            &&& resolved.clock_div is DivBy2 ==> ratio == 1
            &&& resolved.clock_div is DivBy3 ==> ratio == 2
            &&& resolved.clock_div is DivBy4 ==> ratio == 3
            &&& resolved.clock_div is DivBy5 ==> ratio == 4
            &&& resolved.clock_div is DivBy6 ==> ratio == 5
            &&& resolved.clock_div is DivBy7 ==> ratio == 6
            &&& resolved.clock_div is DivBy8 ==> ratio == 7
        },
        Access::Tpr(tpr) => tpr == resolved.tpr,
        Access::TimeoutCtl { tcntaen, tcntla } => {
            &&& tcntaen <==> resolved.clock_low_timeout is Some
            &&& resolved.clock_low_timeout matches Some(load) ==> tcntla == load
            &&& resolved.clock_low_timeout is None ==> tcntla == 0
        },
        Access::Gfctl { agfen, agfsel, chain } => !agfen && agfsel is Aglit50 && chain,
        Access::Cctr(cctr) => {
            &&& !cctr.start && !cctr.stop && cctr.cblen == 0
            &&& cctr.burstrun == Some(false) && cctr.ack == Some(false)
            &&& cctr.cackoen == Some(false) && cctr.rd_on_txempty == Some(false)
        },
        Access::Cfifoctl { txtrig, rxtrig } => txtrig is Empty && rxtrig is Level1,
        Access::Ccr { clkstretch, active } => clkstretch && active,
        _ => false,
    }
}

/// A resolved configuration reaches the registers as it is: its source, its divider, its period, its timeout, and
/// everything else the controller needs, with nothing asked of the bus. The controller is active last.
pub proof fn controller_is_set_up_as_resolved(resolved: Resolved)
    ensures
        ({
            let asked = init_accesses(resolved);

            &&& forall|i: int| 0 <= i < asked.len() ==> sets_up(#[trigger] asked[i], resolved)
            &&& exists|i: int| 0 <= i < asked.len() && (#[trigger] asked[i]) is Clksel
            &&& exists|i: int| 0 <= i < asked.len() && (#[trigger] asked[i]) is Clkdiv
            &&& exists|i: int| 0 <= i < asked.len() && (#[trigger] asked[i]) is Gfctl
            &&& exists|i: int| 0 <= i < asked.len() && (#[trigger] asked[i]) is Cctr
            &&& exists|i: int| 0 <= i < asked.len() && (#[trigger] asked[i]) is Tpr
            &&& exists|i: int| 0 <= i < asked.len() && (#[trigger] asked[i]) is TimeoutCtl
            &&& exists|i: int| 0 <= i < asked.len() && (#[trigger] asked[i]) is Cfifoctl
            &&& asked.last() is Ccr
            &&& forall|i: int| 0 <= i < asked.len() - 1 ==> !((#[trigger] asked[i]) is Ccr)
        }),
{
    let asked = init_accesses(resolved);
    assert(asked[0] is Clksel);
    assert(asked[1] is Clkdiv);
    assert(asked[2] is Gfctl);
    assert(asked[3] is Cctr);
    assert(asked[4] is Tpr);
    assert(asked[5] is TimeoutCtl);
    assert(asked[6] is Cfifoctl);
}

/// The bus runs at the speed it was asked for: the accesses that program a configuration write the divider and the
/// period once each, the selected source's rate through that divider is the rate that was resolved, and ten ticks
/// of it the period plus one times over make an SCL period at the requested speed, the longest that is not slower.
pub proof fn programmed_speed_is_the_requested_one(
    config: Config,
    mfclk: u32,
    ulpclk: u32,
    mclk: u32,
    usemftick: bool,
)
    requires
        config.timing is None,
        config.resolved(mfclk, ulpclk, mclk, usemftick) is Ok,
    ensures
        ({
            let resolved = config.resolved(mfclk, ulpclk, mclk, usemftick)->Ok_0;
            let asked = init_accesses(resolved);
            let speed: int = match config.bus_speed {
                super::BusSpeed::Standard => 100_000,
                super::BusSpeed::FastMode => 400_000,
                super::BusSpeed::FastModePlus => 1_000_000,
                super::BusSpeed::Custom(hz) => hz as int,
            };

            &&& exists|i: int| 0 <= i < asked.len() && (#[trigger] asked[i]) is Clkdiv
            &&& exists|i: int| 0 <= i < asked.len() && (#[trigger] asked[i]) is Tpr
            &&& forall|i: int, j: int|
                0 <= i < j < asked.len() ==> !((#[trigger] asked[i]) is Clkdiv && (#[trigger] asked[j]) is Clkdiv)
            &&& forall|i: int, j: int|
                0 <= i < j < asked.len() ==> !((#[trigger] asked[i]) is Tpr && (#[trigger] asked[j]) is Tpr)
            &&& forall|i: int|
                0 <= i < asked.len() ==> ((#[trigger] asked[i]) matches Access::Clksel { mfclk_sel, busclk_sel } ==> {
                    &&& mfclk_sel != busclk_sel
                    &&& mfclk_sel ==> resolved.source_hz == mfclk
                    &&& busclk_sel ==> resolved.source_hz == ulpclk
                })
            &&& forall|i: int|
                0 <= i < asked.len() ==> ((#[trigger] asked[i]) matches Access::Clkdiv { ratio }
                    ==> resolved.source_hz as int / (ratio + 1) == resolved.clock_hz)
            &&& forall|i: int|
                0 <= i < asked.len() ==> ((#[trigger] asked[i]) matches Access::Tpr(tpr) ==> {
                    &&& 1 <= tpr <= 127
                    &&& 10 * (tpr + 1) * speed <= resolved.clock_hz
                    &&& resolved.clock_hz < 10 * (tpr + 2) * speed
                })
        }),
{
    let resolved = config.resolved(mfclk, ulpclk, mclk, usemftick)->Ok_0;
    let asked = init_accesses(resolved);
    let speed = config.bus_speed.hertz_spec() as int;
    let hz = resolved.clock_hz as int;
    let ticks = resolved.tpr + 1;
    super::resolved_clock_is_in_range(config, mfclk, ulpclk, mclk, usemftick);
    super::configuration_resolves_to_its_own_clock(config, mfclk, ulpclk, mclk, usemftick);
    vstd::arithmetic::div_mod::lemma_fundamental_div_mod(hz, 10 * speed);
    assert(10 * ticks * speed == (10 * speed) * ticks && 10 * (ticks + 1) * speed == (10 * speed) * ticks + 10 * speed)
        by (nonlinear_arith);
    controller_is_set_up_as_resolved(resolved);
}

/// An instance is out of reset and powered, for longer than the bus isolation takes to follow, before anything else is
/// asked of it.
pub proof fn power_up_waits_out_the_isolation()
    ensures
        power_up_accesses().len() == 3,
        power_up_accesses()[0] is Reset,
        power_up_accesses()[1] is Power,
        power_up_accesses()[2] == Access::Delay(16),
{
}

/// A reset is a power-up and then the whole configuration again, so that what the controller does afterwards is what it
/// did before.
pub proof fn reset_puts_the_configuration_back(resolved: Resolved)
    ensures
        ({
            let asked = reset_accesses(resolved);

            &&& asked.len() == 11
            &&& asked[0] is Reset && asked[1] is Power && asked[2] is Delay
            &&& forall|i: int| 3 <= i < asked.len() ==> sets_up(#[trigger] asked[i], resolved)
            &&& asked[3] is Clksel && asked[4] is Clkdiv && asked[7] is Tpr && asked[8] is TimeoutCtl
            &&& asked.last() is Ccr
        }),
{
    controller_is_set_up_as_resolved(resolved);
}

/// A STOP on its own starts nothing and changes nothing else, and is not asked for sooner than the controller takes it
/// after a burst.
pub proof fn lone_stop_only_stops()
    ensures
        stop_accesses().len() == 2,
        stop_accesses()[0] == Access::Delay(1000),
        stop_accesses()[1] matches Access::Cctr(cctr) && {
            &&& cctr.stop && !cctr.start && cctr.cblen == 0
            &&& cctr.burstrun is None && cctr.ack is None && cctr.cackoen is None && cctr.rd_on_txempty is None
        },
{
}

/// A flush empties both FIFOs and waits until they are, with the flush bits held for as long, and then forgets what
/// the FIFOs raised and no other source.
pub proof fn flush_empties_both_fifos(fifo_size: usize, armed: CpuInt)
    ensures
        ({
            let asked = flush_accesses(fifo_size, armed);

            &&& asked.len() == 6
            &&& asked[0] matches Access::Mask(sources) && sources == fifo_set()
            &&& asked[1] matches Access::Flush { txflush, rxflush } && txflush && rxflush
            &&& asked[2] matches Access::WaitFlushed(room) && room == fifo_size
            &&& asked[3] matches Access::Flush { txflush, rxflush } && !txflush && !rxflush
            &&& asked[4] matches Access::Iclr(sources) && sources == fifo_set()
            &&& asked[5] matches Access::RestoreFifoSources(sources) && sources == armed
        }),
{
}

/// The sources each set holds: the four of the FIFOs; those of a transmit burst, with the top-up only where it is
/// wanted; those of a receive burst; and those of a wait for the bus. Both bursts hear of all three faults.
pub proof fn sets_hold_what_they_are_for(top_up: bool)
    ensures
        ({
            let set = fifo_set();

            &&& set.ctxfifotrg && set.crxfifotrg && set.ctxempty && set.crxfifofull
            &&& !set.ctxdone && !set.crxdone && !set.cnack && !set.cstart && !set.cstop && !set.carblost
            &&& !set.timeouta
        }),
        ({
            let set = write_set(top_up);

            &&& set.ctxdone && set.cnack && set.carblost && set.timeouta
            &&& set.ctxfifotrg == top_up
            &&& !set.crxdone && !set.crxfifotrg && !set.ctxempty && !set.crxfifofull && !set.cstart && !set.cstop
        }),
        ({
            let set = read_set();

            &&& set.crxdone && set.crxfifotrg && set.cnack && set.carblost && set.timeouta
            &&& !set.ctxdone && !set.ctxfifotrg && !set.ctxempty && !set.crxfifofull && !set.cstart && !set.cstop
        }),
        ({
            let set = bus_free_set();

            &&& set.cstop && set.timeouta
            &&& !set.ctxdone && !set.crxdone && !set.ctxfifotrg && !set.crxfifotrg && !set.ctxempty
            &&& !set.crxfifofull && !set.cnack && !set.cstart && !set.carblost
        }),
{
}

/// Each event is behind its own source, and [`Event::AnyFault`] behind the three faults.
pub proof fn events_have_their_own_sources(event: Event)
    ensures
        ({
            let set = event.sources();

            &&& set.ctxdone <==> event is TransmitDone
            &&& set.crxdone <==> event is ReceiveDone
            &&& set.ctxfifotrg <==> event is TransmitTrigger
            &&& set.crxfifotrg <==> event is ReceiveTrigger
            &&& set.ctxempty <==> event is TransmitEmpty
            &&& set.crxfifofull <==> event is ReceiveFull
            &&& set.cnack <==> event is Nack || event is AnyFault
            &&& set.cstart <==> event is Start
            &&& set.cstop <==> event is Stop
            &&& set.carblost <==> event is ArbitrationLost || event is AnyFault
            &&& set.timeouta <==> event is ClockLowTimeout || event is AnyFault
        }),
{
}

/// Each interrupt status is the event it is named for, and no event where nothing this driver arms is pending.
pub proof fn statuses_are_their_events(stat: IidxStat)
    ensures
        stat.event() is None <==> stat is NoIntr || stat is Other,
        stat.event() matches Some(event) ==> {
            &&& event is TransmitDone <==> stat is Ctxdonefg
            &&& event is ReceiveDone <==> stat is Crxdonefg
            &&& event is TransmitTrigger <==> stat is Ctxfifotrg
            &&& event is ReceiveTrigger <==> stat is Crxfifotrg
            &&& event is TransmitEmpty <==> stat is CtxEmpty
            &&& event is ReceiveFull <==> stat is Crxfifofull
            &&& event is Nack <==> stat is Cnackfg
            &&& event is Start <==> stat is Cstartfg
            &&& event is Stop <==> stat is Cstopfg
            &&& event is ArbitrationLost <==> stat is Carblostfg
            &&& event is ClockLowTimeout <==> stat is Timeouta
            &&& !(event is AnyFault)
        },
{
}

/// Sets of sources behave as sets do.
pub proof fn sources_are_sets(a: CpuInt, b: CpuInt, c: CpuInt)
    ensures
        a.union(CpuInt::empty()) == a,
        a.union(a) == a,
        a.union(b) == b.union(a),
        a.union(b).union(c) == a.union(b.union(c)),
        a.intersection(CpuInt::empty()) == CpuInt::empty(),
        a.intersection(a) == a,
        a.intersection(b) == b.intersection(a),
        a.intersection(b.union(c)) == a.intersection(b).union(a.intersection(c)),
        a.intersection(a.union(b)) == a,
        a.difference(b).intersection(b) == CpuInt::empty(),
        a.difference(b).union(a.intersection(b)) == a,
        Event::all_sources(Seq::<Event>::empty()) == CpuInt::empty(),
{
}

/// A source is behind a list of events exactly where it is behind one of them: here, whether any of them is pending.
pub proof fn lists_of_events_are_all_of_them(events: Seq<Event>, i: int)
    requires
        0 <= i < events.len(),
    ensures
        Event::all_sources(events).intersection(events[i].sources()) == events[i].sources(),
    decreases events.len(),
{
    let before = Event::all_sources(events.drop_last());
    let last = events.last().sources();
    if i < events.len() - 1 {
        lists_of_events_are_all_of_them(events.drop_last(), i);
        let one = events[i].sources();
        assert(events.drop_last()[i] == events[i]);
        assert(before.union(last).intersection(one) == before.intersection(one).union(last.intersection(one)));
        assert(one.union(last.intersection(one)) == one);
    }
}

/// What a status is reported as: a timeout before a lost arbitration, and that before a missing acknowledgement,
/// which is told apart by what went unanswered. Nothing else is an error.
pub proof fn statuses_are_reported_by_rank(status: Status)
    ensures
        error_of(status) is Ok <==> !status.timeouta && !status.csr.arblst && !status.csr.err,
        status.timeouta <==> error_of(status) == Err::<(), Error>(Error::Timeout),
        !status.timeouta && status.csr.arblst <==> error_of(status) == Err::<(), Error>(Error::Arbitration),
        !status.timeouta && !status.csr.arblst && status.csr.err ==> {
            &&& status.csr.adrack ==> error_of(status) == Err::<(), Error>(Error::NackAddress)
            &&& !status.csr.adrack && status.csr.datack ==> error_of(status) == Err::<(), Error>(Error::NackData)
            &&& !status.csr.adrack && !status.csr.datack ==> error_of(status) == Err::<(), Error>(Error::Nack)
        },
        nack_of(status.csr) is NackAddress <==> status.csr.adrack,
        nack_of(status.csr) is NackData <==> !status.csr.adrack && status.csr.datack,
        nack_of(status.csr) is Nack <==> !status.csr.adrack && !status.csr.datack,
{
}

/// A timeout that is reported is forgotten, and nothing else is.
pub proof fn reported_timeout_is_forgotten(status: Status)
    ensures
        status.timeouta ==> check_accesses(status).len() == 1 && (check_accesses(status)[0] matches Access::Iclr(set)
            && set.timeouta && set == Event::ClockLowTimeout.sources()),
        !status.timeouta ==> check_accesses(status).len() == 0,
{
}

/// The level a line is left at by one access: driven low, released high, or as it was.
pub open spec fn level_after(level: bool, access: Access, line: AnyPin) -> bool {
    match access {
        Access::Pin(gpio::Access::DoutClear(port, bit)) => level && !(port == line.block() && bit == line.bit_index()),
        Access::Pin(gpio::Access::DoutSet(port, bit)) => level || (port == line.block() && bit == line.bit_index()),
        _ => level,
    }
}

/// The level a line is left at by a list of accesses.
pub open spec fn levels_after(level: bool, accesses: Seq<Access>, line: AnyPin) -> bool
    decreases accesses.len(),
{
    if accesses.len() == 0 {
        level
    } else {
        level_after(levels_after(level, accesses.drop_last(), line), accesses.last(), line)
    }
}

/// A STOP by hand is a STOP: SDA rises while SCL is high, having been low with SCL low before it, and both lines are
/// left released. Each step is held for half a period.
pub proof fn manual_stop_is_a_stop(scl: AnyPin, sda: AnyPin, half: u32, scl_level: bool, sda_level: bool)
    requires
        scl.block() != sda.block() || scl.bit_index() != sda.bit_index(),
    ensures
        ({
            let asked = manual_stop(scl, sda, half);

            &&& asked.len() == 7
            &&& !levels_after(scl_level, asked.take(2), scl) && !levels_after(sda_level, asked.take(2), sda)
            &&& levels_after(scl_level, asked.take(4), scl) && !levels_after(sda_level, asked.take(4), sda)
            &&& levels_after(scl_level, asked, scl) && levels_after(sda_level, asked, sda)
            &&& asked[2] == Access::Delay(half) && asked[4] == Access::Delay(half) && asked[6] == Access::Delay(half)
        }),
{
    let asked = manual_stop(scl, sda, half);
    reveal_with_fuel(levels_after, 8);
    assert(asked.take(2).drop_last() =~= asked.take(1));
    assert(asked.take(1).drop_last() =~= asked.take(0));
    assert(asked.take(3).drop_last() =~= asked.take(2));
    assert(asked.take(4).drop_last() =~= asked.take(3));
    assert(asked.take(5).drop_last() =~= asked.take(4));
    assert(asked.take(6).drop_last() =~= asked.take(5));
    assert(asked.drop_last() =~= asked.take(6));
}

/// A clock by hand is low for half a period and released for half a period, and touches no other line.
pub proof fn pulse_is_a_whole_clock(scl: AnyPin, half: u32, times: int)
    requires
        times > 0,
    ensures
        ({
            let asked = pulses(scl, half, times);
            let n = asked.len() as int;

            &&& n == 4 * times
            &&& asked[n - 4] == Access::Pin(gpio::Access::DoutClear(scl.block(), scl.bit_index()))
            &&& asked[n - 3] == Access::Delay(half)
            &&& asked[n - 2] == Access::Pin(gpio::Access::DoutSet(scl.block(), scl.bit_index()))
            &&& asked[n - 1] == Access::Delay(half)
            &&& asked.take(n - 4) == pulses(scl, half, times - 1)
        }),
    decreases times,
{
    if times > 1 {
        pulse_is_a_whole_clock(scl, half, times - 1);
    } else {
        reveal_with_fuel(pulses, 2);
    }
    let asked = pulses(scl, half, times);
    assert(asked.take(asked.len() - 4) =~= pulses(scl, half, times - 1));
}

/// A line driven by hand is a GPIO that keeps its pull and its inversion, is released before it is an output, and is
/// still read.
pub proof fn driven_line_starts_released(pin: AnyPin, ty: PfType, reg: Pincm)
    requires
        ty.reads(),
    ensures
        ({
            let asked = drive_accesses(pin, ty);

            &&& asked.len() == 3
            &&& asked[0] matches Access::Pin(gpio::Access::Pincm(index, update)) && {
                let after = update.applied_to(reg);

                &&& index == pin.pin_cm()
                &&& after.pf == 1 && after.pc && after.inena && after.hiz1 == reg.hiz1
                &&& after.inv == ty.inverts()
                &&& after.pipu <==> ty.pull() is Up
                &&& after.pipd <==> ty.pull() is Down
            }
            &&& asked[1] == Access::Pin(gpio::Access::DoutSet(pin.block(), pin.bit_index()))
            &&& asked[2] == Access::Pin(gpio::Access::DoeSet(pin.block(), pin.bit_index()))
        }),
{
}

/// The pull a pad has on is the one its register enables, the pull-up before the pull-down.
pub proof fn pull_is_the_one_enabled(pincm: Pincm)
    ensures
        pull_of(pincm) is Up <==> pincm.pipu,
        pull_of(pincm) is Down <==> !pincm.pipu && pincm.pipd,
        pull_of(pincm) is NoPull <==> !pincm.pipu && !pincm.pipd,
{
}

/// A pin that is let go is connected to nothing and pulled nowhere, and a driver without the pin touches nothing.
pub proof fn released_pin_is_connected_to_nothing(pin: Option<AnyPin>)
    ensures
        pin is None ==> disconnect_accesses(pin).len() == 0,
        pin matches Some(pin) ==> ({
            let asked = disconnect_accesses(Some(pin));

            &&& asked.len() == 1
            &&& asked[0] matches Access::Pin(gpio::Access::StorePincm(index, value)) && {
                &&& index == pin.pin_cm()
                &&& value.pf == 0 && !value.pc && !value.inena && !value.inv && !value.hiz1
                &&& !value.pipu && !value.pipd && !value.drv && !value.hysten && !value.wuen && !value.wcomp
            }
        }),
{
}

/// Whether an access hands a line's pad to the controller: to this function, open-drain, read, and with this pull and
/// inversion.
pub open spec fn hands_over(access: Access, pin: AnyPin, pf: u8, pull: Pull, invert: bool) -> bool {
    access matches Access::Pin(gpio::Access::Pincm(index, update)) && {
        &&& index == pin.pin_cm()
        &&& update.pf == Some(pf) && update.pc == Some(true) && update.inena == Some(true)
        &&& update.inv == Some(invert)
        &&& update.pipu == Some(pull is Up) && update.pipd == Some(pull is Down)
        &&& update.hiz1 is None && update.drv is None && update.hysten is None && update.wuen is None
        &&& update.wcomp is None
    }
}

/// Whether an access makes a line release high rather than drive it, and changes nothing else about its pad.
pub open spec fn opens_drain(access: Access, pin: AnyPin) -> bool {
    access matches Access::Pin(gpio::Access::Pincm(index, update)) && {
        &&& index == pin.pin_cm()
        &&& update.hiz1 == Some(true)
        &&& update.pf is None && update.pc is None && update.inena is None && update.inv is None
        &&& update.pipu is None && update.pipd is None && update.drv is None && update.hysten is None
        &&& update.wuen is None && update.wcomp is None
    }
}

/// A driver is built exactly where its configuration resolves, and otherwise the configuration's own error comes back
/// with nothing touched. One that is built holds its pins and its configuration; its instance was powered up first,
/// both lines were handed to it with the pulls and inversions asked for and made open-drain, and then the
/// controller was set up.
pub proof fn driver_is_built_as_asked<T: Instance, F: Fn(u32) -> Option<SleepLevel>>(
    i2c: Result<I2c, ConfigError>,
    resolved: Result<Resolved, ConfigError>,
    scl: AnyPin,
    scl_pf: u8,
    sda: AnyPin,
    sda_pf: u8,
    config: Config,
    floor_for: &F,
    before: Seq<Access>,
    after: Seq<Access>,
)
    requires
        I2c::built::<T, F>(i2c, resolved, scl, scl_pf, sda, sda_pf, config, floor_for, before, after),
    ensures
        resolved matches Err(error) ==> i2c == Err::<I2c, ConfigError>(error) && after == before,
        resolved matches Ok(resolved) ==> i2c matches Ok(i2c) && ({
            let asked = after.skip(before.len() as int);

            &&& i2c.scl() == Some(scl) && i2c.sda() == Some(sda) && i2c.resolved() == resolved
            &&& i2c.fifo() == T::FIFO_SIZE && !i2c.is_abandoned()
            &&& floor_for.ensures((resolved.source_hz,), i2c.floor())
            &&& before.len() <= after.len() && after.take(before.len() as int) == before
            &&& asked.len() == 15
            &&& asked[0] is Reset && asked[1] is Power && asked[2] is Delay
            &&& hands_over(asked[3], scl, scl_pf, config.scl_pull, config.invert_scl)
            &&& hands_over(asked[4], sda, sda_pf, config.sda_pull, config.invert_sda)
            &&& opens_drain(asked[5], scl)
            &&& opens_drain(asked[6], sda)
            &&& forall|i: int| 7 <= i < asked.len() ==> sets_up(#[trigger] asked[i], resolved)
            &&& asked.last() is Ccr
        }),
{
    if let Ok(resolved) = resolved {
        let i2c = i2c->Ok_0;
        let (scl_type, sda_type) = choose|scl_type: PfType, sda_type: PfType|
            #![trigger new_accesses(scl, scl_pf, scl_type, sda, sda_pf, sda_type, resolved)]
            {
                &&& scl_type.pull() == config.scl_pull && scl_type.reads() && scl_type.inverts() == config.invert_scl
                &&& sda_type.pull() == config.sda_pull && sda_type.reads() && sda_type.inverts() == config.invert_sda
                &&& after == before + new_accesses(scl, scl_pf, scl_type, sda, sda_pf, sda_type, resolved)
            };
        let asked = after.skip(before.len() as int);
        let init = init_accesses(resolved);
        assert(asked =~= new_accesses(scl, scl_pf, scl_type, sda, sda_pf, sda_type, resolved));
        assert(after.take(before.len() as int) =~= before);
        controller_is_set_up_as_resolved(resolved);
        assert forall|i: int| 7 <= i < asked.len() implies sets_up(#[trigger] asked[i], resolved) by {
            assert(asked[i] == init[i - 7]);
        }
    }
}

/// A driver is reconfigured with its line off, from the pads it holds to the controller itself, and the line is back
/// on afterwards only where it was on, with what was pending dropped. Its pins keep the functions they have.
pub proof fn driver_is_reconfigured_as_asked<F: Fn(u32) -> Option<SleepLevel>>(
    before: I2c,
    after: I2c,
    config: Config,
    resolved: Result<Resolved, ConfigError>,
    line_on: bool,
    sda_pincm: Pincm,
    scl_pincm: Pincm,
    floor_for: &F,
    configured: Result<(), ConfigError>,
    asked: Seq<Access>,
    asked_after: Seq<Access>,
)
    requires
        reconfigured(
            before,
            after,
            config,
            resolved,
            line_on,
            sda_pincm,
            scl_pincm,
            floor_for,
            configured,
            asked,
            asked_after,
        ),
    ensures
        resolved matches Err(error) ==> configured == Err::<(), ConfigError>(error) && after == before && asked_after
            == asked,
        resolved matches Ok(resolved) ==> ({
            let new = asked_after.skip(asked.len() as int);
            let pins = (if before.sda() is Some {
                1int
            } else {
                0
            }) + (if before.scl() is Some {
                1int
            } else {
                0
            });

            &&& configured is Ok
            &&& after.resolved() == resolved && after.scl() == before.scl() && after.sda() == before.sda()
            &&& after.fifo() == before.fifo() && after.is_abandoned() == before.is_abandoned()
            &&& floor_for.ensures((resolved.source_hz,), after.floor())
            &&& asked.len() <= asked_after.len() && asked_after.take(asked.len() as int) == asked
            &&& new[0] is LineOff
            &&& before.sda() matches Some(sda) ==> hands_over(
                new[1],
                sda,
                sda_pincm.pf,
                config.sda_pull,
                config.invert_sda,
            )
            &&& before.scl() matches Some(scl) ==> hands_over(
                new[pins],
                scl,
                scl_pincm.pf,
                config.scl_pull,
                config.invert_scl,
            )
            &&& forall|i: int| pins + 1 <= i < pins + 9 ==> sets_up(#[trigger] new[i], resolved)
            &&& new[pins + 8] is Ccr
            &&& !line_on ==> new.len() == pins + 9
            &&& line_on ==> new.len() == pins + 11 && new[pins + 9] is LineUnpend && new[pins + 10] is LineOn
        }),
{
    if let Ok(resolved) = resolved {
        let (sda_type, scl_type) = choose|sda_type: PfType, scl_type: PfType|
            #![trigger reconfigure_accesses(before, sda_pincm, sda_type, scl_pincm, scl_type, resolved, line_on)]
            {
                &&& sda_type.pull() == config.sda_pull && sda_type.reads() && sda_type.inverts() == config.invert_sda
                &&& scl_type.pull() == config.scl_pull && scl_type.reads() && scl_type.inverts() == config.invert_scl
                &&& asked_after == asked + reconfigure_accesses(
                    before,
                    sda_pincm,
                    sda_type,
                    scl_pincm,
                    scl_type,
                    resolved,
                    line_on,
                )
            };
        let new = asked_after.skip(asked.len() as int);
        let init = init_accesses(resolved);
        let all = reconfigure_accesses(before, sda_pincm, sda_type, scl_pincm, scl_type, resolved, line_on);
        assert(new =~= all);
        assert(asked_after.take(asked.len() as int) =~= asked);
        let pins = (if before.sda() is Some {
            1int
        } else {
            0
        }) + (if before.scl() is Some {
            1int
        } else {
            0
        });
        controller_is_set_up_as_resolved(resolved);
        assert forall|i: int| pins + 1 <= i < pins + 9 implies sets_up(#[trigger] new[i], resolved) by {
            assert(new[i] == init[i - pins - 1]);
        }
        assert(new[pins + 8] == init[7]);
    }
}

/// A bus that is not stuck needs no recovery, one that cannot be clocked is a bus error, and one that was clocked has
/// its result to come.
pub proof fn recovery_has_a_result_unless_it_clocked(recovery: Recovery)
    ensures
        recovery is NotStuck <==> recovery.result() == Some(Ok::<(), Error>(())),
        recovery is NoPins <==> recovery.result() == Some(Err::<(), Error>(Error::Bus)),
        recovery is Clocked <==> recovery.result() is None,
{
}

/// Without a pin, there is no pull it could not have; a pad without a pull-up has the other two settings.
pub proof fn only_a_pull_up_can_be_missing(pin: Option<AnyPin>, pull: Pull)
    ensures
        can_pull(pin, pull) <==> pin is None || !(pull is Up) || pin->Some_0.pad().pullup,
{
}

/// Whether an access opens a burst of this many bytes: the target's own address, in its own mode and in this direction,
/// and then a START that says what the last byte is acknowledged with and whether a STOP follows.
pub open spec fn opens_burst(
    access: Access,
    address: Address,
    write: bool,
    length: int,
    ack: Option<bool>,
    stop: bool,
) -> bool {
    match access {
        Access::Csa(addr, ten_bit, dir) => {
            &&& address matches Address::SevenBit(wanted) ==> !ten_bit && addr == wanted
            &&& address matches Address::TenBit(wanted) ==> ten_bit && addr == wanted
            &&& dir is Transmit <==> write
            &&& dir is Receive <==> !write
        },
        Access::Cctr(cctr) => {
            &&& cctr.start && cctr.burstrun == Some(true)
            &&& cctr.cblen == length
            &&& cctr.ack == ack
            &&& cctr.stop == stop
            &&& cctr.cackoen is None && cctr.rd_on_txempty is None
        },
        Access::Delay(cycles) => cycles >= 1000,
        _ => false,
    }
}

/// A burst is opened as it was asked for: the address first and then the START, and a repeated START of a receiving
/// burst not sooner than the controller takes it. A transmitting burst leaves what bytes are acknowledged with
/// alone.
pub proof fn burst_opens_as_asked(address: Address, length: u16, restart: bool, ack: bool, stop: bool)
    ensures
        ({
            let asked = start_read_accesses(address, length, restart, ack, stop);
            let n = asked.len() as int;

            &&& n == if restart {
                3int
            } else {
                2
            }
            &&& restart ==> asked[0] is Delay
            &&& asked[n - 2] is Csa && asked[n - 1] is Cctr
            &&& forall|i: int|
                0 <= i < n ==> opens_burst(#[trigger] asked[i], address, false, length as int, Some(ack), stop)
        }),
        ({
            let asked = start_write_accesses(address, length, stop);

            &&& asked.len() == 2
            &&& asked[0] is Csa && asked[1] is Cctr
            &&& forall|i: int| 0 <= i < 2 ==> opens_burst(#[trigger] asked[i], address, true, length as int, None, stop)
        }),
{
}

/// A stuck bus is clocked exactly where there are pins to clock it with: both lines are driven by hand, keeping their
/// pulls and inversions, and SCL falls nine times and is left released. Otherwise nothing is touched.
pub proof fn stuck_bus_is_clocked_nine_times(
    recovery: Recovery,
    i2c: I2c,
    stuck: bool,
    scl_pincm: Pincm,
    sda_pincm: Pincm,
    before: Seq<Access>,
    after: Seq<Access>,
)
    requires
        recovery.tried(i2c, stuck, scl_pincm, sda_pincm, before, after),
    ensures
        recovery is NotStuck <==> !stuck,
        recovery is NoPins <==> stuck && (i2c.scl() is None || i2c.sda() is None),
        recovery is Clocked <==> stuck && i2c.scl() is Some && i2c.sda() is Some,
        !(recovery is Clocked) ==> after == before,
        recovery is Clocked ==> ({
            let scl = i2c.scl()->Some_0;
            let sda = i2c.sda()->Some_0;
            let asked = after.skip(before.len() as int);

            &&& before.len() <= after.len() && after.take(before.len() as int) == before
            &&& asked.len() == 42
            &&& hands_over(asked[0], scl, 1, pull_of(scl_pincm), scl_pincm.inv)
            &&& asked[1] == Access::Pin(gpio::Access::DoutSet(scl.block(), scl.bit_index()))
            &&& asked[2] == Access::Pin(gpio::Access::DoeSet(scl.block(), scl.bit_index()))
            &&& hands_over(asked[3], sda, 1, pull_of(sda_pincm), sda_pincm.inv)
            &&& asked[4] == Access::Pin(gpio::Access::DoutSet(sda.block(), sda.bit_index()))
            &&& asked[5] == Access::Pin(gpio::Access::DoeSet(sda.block(), sda.bit_index()))
            &&& falls(asked.skip(6), scl) == 9
            &&& asked[40] == Access::Pin(gpio::Access::DoutSet(scl.block(), scl.bit_index()))
        }),
{
    if recovery is Clocked {
        let scl = i2c.scl()->Some_0;
        let sda = i2c.sda()->Some_0;
        let half = i2c.resolved().half_period_cycles as u32;
        let (scl_type, sda_type) = choose|scl_type: PfType, sda_type: PfType|
            #![trigger drive_accesses(scl, scl_type), drive_accesses(sda, sda_type)]
            {
                &&& scl_type.pull() == pull_of(scl_pincm) && scl_type.reads() && scl_type.inverts() == scl_pincm.inv
                &&& sda_type.pull() == pull_of(sda_pincm) && sda_type.reads() && sda_type.inverts() == sda_pincm.inv
                &&& after == before + drive_accesses(scl, scl_type) + drive_accesses(sda, sda_type) + pulses(
                    scl,
                    half,
                    9,
                )
            };
        let asked = after.skip(before.len() as int);
        let driven = drive_accesses(scl, scl_type) + drive_accesses(sda, sda_type);
        pulse_is_a_whole_clock(scl, half, 9);
        clocks_are_counted(scl, half, 9);
        assert(asked =~= driven + pulses(scl, half, 9));
        assert(asked.skip(6) =~= pulses(scl, half, 9));
        assert(after.take(before.len() as int) =~= before);
    }
}

/// A recovery succeeds exactly where SDA reads high after the clocks. Either way a STOP is sent by hand, both pads are
/// put back as they were, and the controller is reset to its configuration, in that order.
pub proof fn recovery_ends_with_everything_put_back(
    scl: AnyPin,
    sda: AnyPin,
    resolved: Resolved,
    scl_pincm: Pincm,
    sda_pincm: Pincm,
    din: u32,
)
    ensures
        freed(sda, din) is Ok <==> bit_set(din, sda.bit_index()),
        freed(sda, din) matches Err(error) ==> error is Bus,
        ({
            let asked = end_accesses(scl, sda, resolved, scl_pincm, sda_pincm);

            &&& asked.len() == 20
            &&& asked.take(7) == manual_stop(scl, sda, resolved.half_period_cycles as u32)
            &&& asked[7] == Access::Pin(gpio::Access::StorePincm(scl.pin_cm(), scl_pincm))
            &&& asked[8] == Access::Pin(gpio::Access::StorePincm(sda.pin_cm(), sda_pincm))
            &&& asked[9] is Reset && asked[10] is Power
            &&& forall|i: int| 12 <= i < 20 ==> sets_up(#[trigger] asked[i], resolved)
        }),
{
    let asked = end_accesses(scl, sda, resolved, scl_pincm, sda_pincm);
    let reset = reset_accesses(resolved);
    reset_puts_the_configuration_back(resolved);
    assert(asked.take(7) =~= manual_stop(scl, sda, resolved.half_period_cycles as u32));
    assert forall|i: int| 12 <= i < 20 implies sets_up(#[trigger] asked[i], resolved) by {
        assert(asked[i] == reset[i - 9]);
    }
    assert(asked[9] == reset[0] && asked[10] == reset[1]);
}

} // verus!
