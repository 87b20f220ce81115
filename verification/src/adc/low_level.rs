//! Register-level ADC, for an application that services the interrupt itself.
//!
//! [`Adc`] here powers the instance up, programs a [`Config`] and stops. It starts no conversion and
//! waits for nothing: what it adds over the raw registers is the clock selection, the sample-time
//! comparators, and the sleep floor a conversion has to be guarded against.
//!
//! # What the caller takes on
//!
//! The interrupt: nothing here routes a vector or unmasks the NVIC line. Starting, and knowing when it
//! finished: [`Adc::start`] converts and returns immediately. Not sleeping through it:
//! [`Adc::conversion_floor`] is the shallowest level that stops the clock a conversion runs on.

use super::{
    adc_clock_regs, can_clock, clocked_by, countable, is_clockable, Averaging, BorrowedAdcChannel, ClockRegs,
    Config, Conversion, Frange, Instance, Resolution, SampleClock, SampleTimeComparator, Sclkdiv, Vrsel,
};
use crate::bits::{bit_set, lemma_and, lemma_low_mask, lemma_no_bits_is_zero, lemma_one_bit, read_bit};
use crate::bus::Bus;
use crate::gpio;
use crate::sysctl::{Clocks, SleepLevel};
use core::marker::PhantomData;
use vstd::prelude::*;

verus! {

/// `GPRCM.CLKCFG.SAMPCLK`.
#[derive(Clone, Copy, PartialEq, Eq, Debug, Structural)]
pub enum Sampclk {
    /// ULPCLK.
    Ulpclk,
    /// SYSOSC.
    Sysosc,
    /// HFCLK.
    Hfclk,
}

/// `CTL1.AVGN`.
#[derive(Clone, Copy, PartialEq, Eq, Debug, Structural)]
pub enum Avgn {
    /// No averaging.
    Disable,
    /// Accumulate 2 conversions.
    Avg2,
    /// Accumulate 4 conversions.
    Avg4,
    /// Accumulate 8 conversions.
    Avg8,
    /// Accumulate 16 conversions.
    Avg16,
    /// Accumulate 32 conversions.
    Avg32,
    /// Accumulate 64 conversions.
    Avg64,
    /// Accumulate 128 conversions.
    Avg128,
}

impl Avgn {
    /// The encoding.
    pub open spec fn bits_spec(self) -> u8 {
        match self {
            Avgn::Disable => 0,
            Avgn::Avg2 => 1,
            Avgn::Avg4 => 2,
            Avgn::Avg8 => 3,
            Avgn::Avg16 => 4,
            Avgn::Avg32 => 5,
            Avgn::Avg64 => 6,
            Avgn::Avg128 => 7,
        }
    }

    /// The encoding.
    pub fn to_bits(self) -> (bits: u8)
        ensures
            bits == self.bits_spec(),
    {
        match self {
            Avgn::Disable => 0,
            Avgn::Avg2 => 1,
            Avgn::Avg4 => 2,
            Avgn::Avg8 => 3,
            Avgn::Avg16 => 4,
            Avgn::Avg32 => 5,
            Avgn::Avg64 => 6,
            Avgn::Avg128 => 7,
        }
    }
}

/// `CTL2.RES`, as far as this driver programs it.
#[derive(Clone, Copy, PartialEq, Eq, Debug, Structural)]
pub enum Res {
    /// 12 bits.
    Bit12,
    /// 10 bits.
    Bit10,
    /// 8 bits.
    Bit8,
}

/// `MEMCTL.STIME`.
#[derive(Clone, Copy, PartialEq, Eq, Debug, Structural)]
pub enum Stime {
    /// Comparator 0.
    SelScomp0,
    /// Comparator 1.
    SelScomp1,
}

/// `MEMCTL.VRSEL`.
#[derive(Clone, Copy, PartialEq, Eq, Debug, Structural)]
pub enum VrselField {
    /// VDDA and VSSA.
    VddaVssa,
    /// External reference and VREFM.
    ExtrefVrefm,
    /// Internal reference and VSSA.
    IntrefVssa,
    /// VDDA and VREFM.
    VddaVrefm,
    /// Internal reference and VREFM.
    IntrefVrefm,
}

/// One `MEMCTL` entry.
#[derive(Clone, Copy, PartialEq, Eq, Debug, Structural)]
pub struct Memctl {
    /// Channel.
    pub chansel: u8,
    /// Reference.
    pub vrsel: VrselField,
    /// Comparator.
    pub stime: Stime,
    /// Averaging.
    pub avgen: bool,
    /// Burn-out current source.
    pub bcsen: bool,
    /// What moves a sequence on to the next entry.
    pub trig: Trig,
    /// Window comparison.
    pub wincomp: bool,
}

/// `MEMCTL.TRIG`.
#[derive(Clone, Copy, PartialEq, Eq, Debug, Structural)]
pub enum Trig {
    /// The next entry follows by itself.
    AutoNext,
    /// The next entry waits for a trigger.
    TriggerNext,
}

/// `CTL0.PWRDN`.
#[derive(Clone, Copy, PartialEq, Eq, Debug, Structural)]
pub enum Pwrdn {
    /// Powered down once a conversion is done.
    Auto,
    /// Powered until conversion is disabled.
    Manual,
}

/// `CTL0`.
#[derive(Clone, Copy, PartialEq, Eq, Debug, Structural)]
pub struct Ctl0 {
    /// Conversion enable.
    pub enc: bool,
    /// Power down mode.
    pub pwrdn: Pwrdn,
    /// Divider of the sample clock.
    pub sclkdiv: Sclkdiv,
}

/// `CTL1.TRIGSRC`.
#[derive(Clone, Copy, PartialEq, Eq, Debug, Structural)]
pub enum Trigsrc {
    /// Software starts a conversion.
    Software,
    /// An event starts it.
    Event,
}

/// `CTL1.CONSEQ`.
#[derive(Clone, Copy, PartialEq, Eq, Debug, Structural)]
pub enum Conseq {
    /// One channel, once.
    Single,
    /// A sequence of channels, once.
    Sequence,
    /// One channel, over and over.
    RepeatSingle,
    /// A sequence of channels, over and over.
    RepeatSequence,
}

/// `CTL1.SAMPMODE`.
#[derive(Clone, Copy, PartialEq, Eq, Debug, Structural)]
pub enum Sampmode {
    /// The comparators time the sample window.
    Auto,
    /// Software does.
    Manual,
}

/// `CTL1`.
#[derive(Clone, Copy, PartialEq, Eq, Debug, Structural)]
pub struct Ctl1 {
    /// What starts a conversion.
    pub trigsrc: Trigsrc,
    /// Start of conversion.
    pub sc: bool,
    /// What a conversion covers.
    pub conseq: Conseq,
    /// What times the sample window.
    pub sampmode: Sampmode,
    /// How many conversions are averaged.
    pub avgn: Avgn,
    /// The shift that divides their sum.
    pub avgd: u8,
}

/// `CTL2`.
#[derive(Clone, Copy, PartialEq, Eq, Debug, Structural)]
pub struct Ctl2 {
    /// Signed results rather than unsigned binary.
    pub df: bool,
    /// Resolution.
    pub res: Res,
    /// Reset of the sampling capacitor.
    pub rstsampcapen: bool,
    /// DMA trigger.
    pub dmaen: bool,
    /// FIFO mode.
    pub fifoen: bool,
    /// Conversions a DMA trigger takes.
    pub sampcnt: u8,
    /// First entry of the window.
    pub startadd: u8,
    /// Last entry of the window.
    pub endadd: u8,
}

/// A condition the instance can raise its interrupt on.
#[derive(Clone, Copy, PartialEq, Eq, Debug, Structural)]
pub enum Event {
    /// A conversion result landed in `MEMRES[n]`, where the instance has that result.
    Result(u8),
    /// A result was overwritten before anything read it.
    Overflow,
    /// A result register was read before a conversion had filled it.
    Underflow,
    /// A sequence did not finish inside its timeout.
    SequenceTimeout,
    /// A result was above the window comparator's high threshold.
    WindowHigh,
    /// A result was below the window comparator's low threshold.
    WindowLow,
}

impl Event {
    /// Whether the interrupt registers have a bit for this.
    pub open spec fn in_register(self) -> bool {
        self matches Event::Result(n) ==> n < 32
    }

    /// Whether an instance can raise this: a result has to be one it has.
    pub open spec fn of<T: Instance>(self) -> bool {
        self.in_register() && (self matches Event::Result(n) ==> n < T::MEMCTL)
    }

    /// Whether this is a result of an instance.
    pub open spec fn is_result<T: Instance>(self) -> bool {
        self matches Event::Result(n) && n < T::MEMCTL
    }

    /// Exactly this source.
    ///
    /// A result has to be one the instance has.
    pub fn mask(self) -> (mask: CpuInt)
        requires
            self.in_register(),
        ensures
            mask.is_only(self),
    {
        let none = CpuInt::none();

        proof {
            assert forall|bit: u8| bit < 32 implies !bit_set(0u32, bit) by {
                lemma_no_bits_is_zero(0);
            }
        }
        match self {
            Event::Result(n) => {
                proof {
                    assert forall|bit: u8| bit < 32 implies (bit_set(1u32 << n, bit) <==> bit == n) by {
                        lemma_one_bit(n, bit);
                    }
                }
                CpuInt { results: 1u32 << n, ..none }
            },
            Event::Overflow => CpuInt { overflow: true, ..none },
            Event::Underflow => CpuInt { underflow: true, ..none },
            Event::SequenceTimeout => CpuInt { sequence_timeout: true, ..none },
            Event::WindowHigh => CpuInt { window_high: true, ..none },
            Event::WindowLow => CpuInt { window_low: true, ..none },
        }
    }
}

/// A set of interrupt sources. Bit `n` of `results` is the result in `MEMRES[n]`.
#[derive(Clone, Copy, PartialEq, Eq, Debug, Structural)]
pub struct CpuInt {
    /// Results, one bit each.
    pub results: u32,
    /// Overflow.
    pub overflow: bool,
    /// Underflow.
    pub underflow: bool,
    /// Sequence timeout.
    pub sequence_timeout: bool,
    /// Window comparator, high.
    pub window_high: bool,
    /// Window comparator, low.
    pub window_low: bool,
}

impl CpuInt {
    /// Whether a source is in the set.
    pub open spec fn has(self, event: Event) -> bool {
        match event {
            Event::Result(n) => bit_set(self.results, n),
            Event::Overflow => self.overflow,
            Event::Underflow => self.underflow,
            Event::SequenceTimeout => self.sequence_timeout,
            Event::WindowHigh => self.window_high,
            Event::WindowLow => self.window_low,
        }
    }

    /// Whether the set holds one source and no other.
    pub open spec fn is_only(self, event: Event) -> bool {
        forall|other: Event| other.in_register() ==> (#[trigger] self.has(other) <==> other == event)
    }

    /// No source.
    pub fn none() -> (set: CpuInt)
        ensures
            set == (CpuInt {
                results: 0,
                overflow: false,
                underflow: false,
                sequence_timeout: false,
                window_high: false,
                window_low: false,
            }),
    {
        CpuInt {
            results: 0,
            overflow: false,
            underflow: false,
            sequence_timeout: false,
            window_high: false,
            window_low: false,
        }
    }
}

/// Every result flag an instance has, and no other source: testing the results as a group cannot pick up
/// an overflow or a window comparison.
pub fn result_sources<T: Instance>() -> (sources: CpuInt)
    requires
        T::MEMCTL < 32,
    ensures
        forall|event: Event| event.in_register() ==> (#[trigger] sources.has(event) <==> event.is_result::<T>()),
{
    let count: u8 = T::MEMCTL;

    assert((1u32 << count) >= 1) by (bit_vector)
        requires
            count < 32,
    ;
    let results: u32 = (1u32 << count) - 1;

    proof {
        assert forall|bit: u8| bit < 32 implies (bit_set(results, bit) <==> bit < count) by {
            lemma_low_mask(count, bit);
        }
    }
    CpuInt { results, ..CpuInt::none() }
}

/// One access to an ADC.
#[derive(Clone, Copy, PartialEq, Eq, Debug, Structural)]
pub enum Access {
    /// An access to a pin.
    Pin(gpio::Access),
    /// Assert the reset and clear its sticky flag.
    Reset,
    /// Read-modify-write of the power enable.
    Power(bool),
    /// Spin for this many CPU cycles.
    Delay(u32),
    /// Write `CLKCFG`.
    Clkcfg(Sampclk),
    /// Write `CTL0`.
    Ctl0(Ctl0),
    /// Write `CLKFREQ`.
    Clkfreq(Frange),
    /// Write `CTL1`.
    Ctl1(Ctl1),
    /// Write `CTL2`.
    Ctl2(Ctl2),
    /// Write a comparator's period.
    Scomp(SampleTimeComparator, u16),
    /// Read-modify-write of `CTL2.RES`.
    Resolution(Res),
    /// Write one `MEMCTL` entry.
    Memctl(u8, Memctl),
    /// Read-modify-write of `CTL2.STARTADD` and `CTL2.ENDADD`.
    Window {
        /// First entry.
        startadd: u8,
        /// Last entry.
        endadd: u8,
    },
    /// Read-modify-write of `CTL0.ENC` that enables conversion.
    EnableConversion,
    /// Read-modify-write of `CTL1.SC` that starts it.
    StartConversion,
    /// Spin while `CTL0.ENC` is set.
    WaitIdle,
    /// Read-modify-write of `IMASK` that adds these sources.
    Unmask(CpuInt),
    /// Read-modify-write of `IMASK` that takes these sources out.
    Mask(CpuInt),
    /// Write `IMASK`.
    StoreImask(CpuInt),
    /// Write `ICLR`.
    Iclr(CpuInt),
}

/// The `GPRCM.CLKCFG.SAMPCLK` encoding.
pub open spec fn sampclk_of(source: SampleClock) -> Sampclk {
    match source {
        SampleClock::Ulpclk => Sampclk::Ulpclk,
        SampleClock::Sysosc => Sampclk::Sysosc,
        SampleClock::Hfclk => Sampclk::Hfclk,
    }
}

/// The `GPRCM.CLKCFG.SAMPCLK` encoding.
pub fn sampclk(source: SampleClock) -> (field: Sampclk)
    ensures
        field == sampclk_of(source),
{
    match source {
        SampleClock::Ulpclk => Sampclk::Ulpclk,
        SampleClock::Sysosc => Sampclk::Sysosc,
        SampleClock::Hfclk => Sampclk::Hfclk,
    }
}

/// The `MEMCTL.VRSEL` encoding.
pub open spec fn vrsel_of(selection: Vrsel) -> VrselField {
    match selection {
        Vrsel::VddaVssa => VrselField::VddaVssa,
        Vrsel::ExtrefVrefm => VrselField::ExtrefVrefm,
        Vrsel::IntrefVssa => VrselField::IntrefVssa,
        Vrsel::VddaVrefm => VrselField::VddaVrefm,
        Vrsel::IntrefVrefm => VrselField::IntrefVrefm,
    }
}

/// The `MEMCTL.VRSEL` encoding.
pub fn vrsel(selection: Vrsel) -> (field: VrselField)
    ensures
        field == vrsel_of(selection),
{
    match selection {
        Vrsel::VddaVssa => VrselField::VddaVssa,
        Vrsel::ExtrefVrefm => VrselField::ExtrefVrefm,
        Vrsel::IntrefVssa => VrselField::IntrefVssa,
        Vrsel::VddaVrefm => VrselField::VddaVrefm,
        Vrsel::IntrefVrefm => VrselField::IntrefVrefm,
    }
}

/// The accumulate count and the matching right shift.
pub fn averaging_regs(averaging: Averaging) -> (regs: (Avgn, u8))
    ensures
        regs == averaging.regs(),
{
    averaging.to_regs()
}

/// The `CTL2.RES` encoding.
pub open spec fn res_of(resolution: Resolution) -> Res {
    match resolution {
        Resolution::Bits12 => Res::Bit12,
        Resolution::Bits10 => Res::Bit10,
        Resolution::Bits8 => Res::Bit8,
    }
}

/// The `CTL2.RES` encoding.
pub fn to_res(resolution: Resolution) -> (res: Res)
    ensures
        res == res_of(resolution),
{
    match resolution {
        Resolution::Bits12 => Res::Bit12,
        Resolution::Bits10 => Res::Bit10,
        Resolution::Bits8 => Res::Bit8,
    }
}

/// The resolution a `CTL2.RES` encoding stands for.
pub fn from_res(res: Res) -> (resolution: Resolution)
    ensures
        res_of(resolution) == res,
{
    match res {
        Res::Bit12 => Resolution::Bits12,
        Res::Bit10 => Resolution::Bits10,
        Res::Bit8 => Resolution::Bits8,
    }
}

/// The `MEMCTL.STIME` encoding.
pub open spec fn stime_of(stime: SampleTimeComparator) -> Stime {
    match stime {
        SampleTimeComparator::Scomp0 => Stime::SelScomp0,
        SampleTimeComparator::Scomp1 => Stime::SelScomp1,
    }
}

/// The `MEMCTL.STIME` encoding.
pub fn convert_stime(stime: SampleTimeComparator) -> (field: Stime)
    ensures
        field == stime_of(stime),
{
    match stime {
        SampleTimeComparator::Scomp0 => Stime::SelScomp0,
        SampleTimeComparator::Scomp1 => Stime::SelScomp1,
    }
}

/// Whether a configuration can be programmed: both periods fit their comparators, and the sample clock
/// runs in the device's range.
pub open spec fn configurable<T: Instance>(config: Config, clocks: Clocks) -> bool {
    &&& countable(config.sample_period_0)
    &&& countable(config.sample_period_1)
    &&& can_clock::<T>(config.sample_clk, clocks)
}

/// Whether a configuration can be programmed.
pub fn is_configurable<T: Instance>(config: Config, clocks: &Clocks) -> (can: bool)
    ensures
        can == configurable::<T>(config, *clocks),
{
    let periods = 1 <= config.sample_period_0 && config.sample_period_0 <= Config::MAX_SAMPLE_PERIOD && 1
        <= config.sample_period_1 && config.sample_period_1 <= Config::MAX_SAMPLE_PERIOD;

    periods && is_clockable::<T>(config.sample_clk, clocks)
}

/// `CTL1` at this count and shift of averaging: software starts a sequence, the comparators time its samples,
/// and nothing is started yet.
pub open spec fn ctl1_for(averaging: (Avgn, u8)) -> Ctl1 {
    Ctl1 {
        trigsrc: Trigsrc::Software,
        sc: false,
        conseq: Conseq::Sequence,
        sampmode: Sampmode::Auto,
        avgn: averaging.0,
        avgd: averaging.1,
    }
}

/// `CTL2` at this resolution: unsigned binary, no DMA, no FIFO, and a window of entry 0 alone.
pub open spec fn ctl2_for(res: Res) -> Ctl2 {
    Ctl2 {
        df: false,
        res,
        rstsampcapen: false,
        dmaen: false,
        fifoen: false,
        sampcnt: 0,
        startadd: 0,
        endadd: 0,
    }
}

/// What programming a configuration asks for, given its clock registers.
pub open spec fn configure_accesses(config: Config, regs: ClockRegs) -> Seq<Access> {
    let averaging = match config.averaging {
        Some(averaging) => averaging.regs(),
        None => (Avgn::Disable, 0u8),
    };

    seq![
        Access::Reset,
        Access::Power(true),
        Access::Delay(16),
        Access::Clkcfg(sampclk_of(regs.source)),
        Access::Ctl0(Ctl0 { enc: false, pwrdn: Pwrdn::Manual, sclkdiv: regs.sclkdiv }),
        Access::Clkfreq(regs.frange),
        Access::Ctl1(ctl1_for(averaging)),
        Access::Ctl2(ctl2_for(res_of(config.resolution))),
        Access::Scomp(SampleTimeComparator::Scomp0, config.sample_period_0),
        Access::Scomp(SampleTimeComparator::Scomp1, config.sample_period_1),
    ]
}

/// Whether programming a configuration made these accesses, and settled on this sleep floor.
pub open spec fn configured<T: Instance, F: FnOnce(u32) -> Option<SleepLevel>>(
    config: Config,
    clocks: Clocks,
    before: Seq<Access>,
    after: Seq<Access>,
    floor_for: F,
    floor: Option<SleepLevel>,
) -> bool {
    exists|regs: ClockRegs|
        #![trigger configure_accesses(config, regs)]
        {
            &&& clocked_by::<T>(regs, config.sample_clk, clocks)
            &&& after == before + configure_accesses(config, regs)
            &&& floor_for.ensures((regs.adcclk_hz,), floor)
        }
}

/// Program the peripheral, and return the shallowest sleep a conversion on it cannot tolerate.
///
/// `floor_for` is the shallowest sleep level that stops a clock of the given rate.
pub fn configure<T: Instance, F: FnOnce(u32) -> Option<SleepLevel>>(
    config: Config,
    clocks: &Clocks,
    floor_for: F,
    bus: &mut Bus<Access>,
) -> (floor: Option<SleepLevel>)
    requires
        configurable::<T>(config, *clocks),
        forall|hz: u32| floor_for.requires((hz,)),
    ensures
        configured::<T, F>(config, *clocks, old(bus)@, final(bus)@, floor_for, floor),
{
    let regs = adc_clock_regs::<T>(config.sample_clk, clocks);

    bus.push(Access::Reset);
    bus.push(Access::Power(true));
    // Wait for power up
    bus.push(Access::Delay(16));
    bus.push(Access::Clkcfg(sampclk(regs.source)));
    bus.push(Access::Ctl0(Ctl0 { enc: false, pwrdn: Pwrdn::Manual, sclkdiv: regs.sclkdiv }));
    bus.push(Access::Clkfreq(regs.frange));

    // One rate for the peripheral; `Conversion::average` picks which conversions use it.
    let (avgn, avgd) = match config.averaging {
        Some(averaging) => averaging_regs(averaging),
        None => (Avgn::Disable, 0),
    };

    bus.push(
        Access::Ctl1(
            Ctl1 {
                trigsrc: Trigsrc::Software,
                // Configured, not converting; a read starts it.
                sc: false,
                conseq: Conseq::Sequence,
                sampmode: Sampmode::Auto,
                avgn,
                avgd,
            },
        ),
    );
    bus.push(
        Access::Ctl2(
            Ctl2 {
                df: false,
                res: to_res(config.resolution),
                rstsampcapen: false,
                dmaen: false,
                fifoen: false,
                sampcnt: 0,
                startadd: 0,
                endadd: 0,
            },
        ),
    );
    bus.push(Access::Scomp(SampleTimeComparator::Scomp0, config.sample_period_0));
    bus.push(Access::Scomp(SampleTimeComparator::Scomp1, config.sample_period_1));

    assert(bus@ =~= old(bus)@ + configure_accesses(config, regs));
    floor_for(regs.adcclk_hz)
}

/// One `MEMCTL` entry for a conversion of a channel. Burn-out current and the window comparator are off, and the
/// next entry follows by itself.
pub open spec fn memctl_for(ch: u8, conversion: Conversion) -> Memctl {
    Memctl {
        chansel: ch,
        vrsel: vrsel_of(conversion.vrsel),
        stime: stime_of(conversion.stime),
        avgen: conversion.average,
        bcsen: false,
        trig: Trig::AutoNext,
        wincomp: false,
    }
}

/// Whether the averaging a sequence asks for is there, in a reading of `CTL1.AVGN`.
pub open spec fn averages(sequence: Seq<(u8, Conversion)>, avgn: Avgn) -> bool {
    forall|i: int| 0 <= i < sequence.len() && (#[trigger] sequence[i]).1.average ==> avgn != Avgn::Disable
}

/// What aiming at a sequence of channels asks for: an entry each, and then the window over them.
pub open spec fn aim_sequence(sequence: Seq<(u8, Conversion)>) -> Seq<Access> {
    Seq::new(sequence.len(), |i: int| Access::Memctl(i as u8, memctl_for(sequence[i].0, sequence[i].1))).push(
        Access::Window { startadd: 0, endadd: (sequence.len() - 1) as u8 },
    )
}

/// What aiming at one channel asks for.
pub open spec fn aim_one(ch: u8, conversion: Conversion) -> Seq<Access> {
    seq![Access::Memctl(0, memctl_for(ch, conversion)), Access::Window { startadd: 0, endadd: 0 }]
}

/// What starting a conversion asks for.
pub open spec fn start_accesses() -> Seq<Access> {
    seq![Access::EnableConversion, Access::StartConversion]
}

/// Program one `MEMCTL` entry.
///
/// `avgn` is a reading of `CTL1.AVGN`: a conversion that averages needs [`Config::averaging`] set.
pub fn write_memctl(i: u8, ch: u8, conversion: Conversion, avgn: Avgn, bus: &mut Bus<Access>)
    requires
        conversion.average ==> avgn != Avgn::Disable,
    ensures
        final(bus)@ == old(bus)@.push(Access::Memctl(i, memctl_for(ch, conversion))),
{
    bus.push(
        Access::Memctl(
            i,
            Memctl {
                chansel: ch,
                vrsel: vrsel(conversion.vrsel),
                stime: convert_stime(conversion.stime),
                avgen: conversion.average,
                bcsen: false,
                trig: Trig::AutoNext,
                wincomp: false,
            },
        ),
    );
}

/// Set the conversion window to `MEMCTL[0..=last]`.
pub fn set_window(last: u8, bus: &mut Bus<Access>)
    ensures
        final(bus)@ == old(bus)@.push(Access::Window { startadd: 0, endadd: last }),
{
    bus.push(Access::Window { startadd: 0, endadd: last });
}

/// Aim at one channel.
pub fn setup_one(ch: u8, conversion: Conversion, avgn: Avgn, bus: &mut Bus<Access>)
    requires
        conversion.average ==> avgn != Avgn::Disable,
    ensures
        final(bus)@ == old(bus)@ + aim_one(ch, conversion),
{
    write_memctl(0, ch, conversion, avgn, bus);
    set_window(0, bus);
}

/// Aim at a sequence of channels, in order.
pub fn setup_sequence(sequence: &[(u8, Conversion)], avgn: Avgn, bus: &mut Bus<Access>)
    requires
        1 <= sequence@.len() <= 256,
        averages(sequence@, avgn),
    ensures
        final(bus)@ == old(bus)@ + aim_sequence(sequence@),
{
    let len: usize = sequence.len();
    let mut i: usize = 0;
    let ghost entries = Seq::new(
        sequence@.len(),
        |i: int| Access::Memctl(i as u8, memctl_for(sequence@[i].0, sequence@[i].1)),
    );

    while i < len
        invariant
            i <= len,
            len == sequence@.len(),
            len <= 256,
            averages(sequence@, avgn),
            entries.len() == len,
            forall|j: int|
                0 <= j < len ==> #[trigger] entries[j] == Access::Memctl(
                    j as u8,
                    memctl_for(sequence@[j].0, sequence@[j].1),
                ),
            bus@ == old(bus)@ + entries.take(i as int),
        decreases len - i,
    {
        let (ch, conversion) = sequence[i];

        assert(sequence@[i as int].1.average ==> avgn != Avgn::Disable);
        write_memctl(i as u8, ch, conversion, avgn, bus);
        i += 1;
        assert(entries.take(i as int) =~= entries.take(i - 1).push(entries[i - 1]));
    }
    set_window((len - 1) as u8, bus);
    assert(entries.take(len as int) =~= entries);
}

/// Convert what the `MEMCTL` window currently names.
pub fn start(bus: &mut Bus<Access>)
    ensures
        final(bus)@ == old(bus)@ + start_accesses(),
{
    bus.push(Access::EnableConversion);
    bus.push(Access::StartConversion);
}

/// Let `event` reach the CPU, or stop it.
pub fn enable_interrupt(event: Event, enable: bool, bus: &mut Bus<Access>)
    requires
        event.in_register(),
    ensures
        final(bus)@.len() == old(bus)@.len() + 1,
        final(bus)@.drop_last() == old(bus)@,
        match final(bus)@.last() {
            Access::Unmask(mask) => enable && mask.is_only(event),
            Access::Mask(mask) => !enable && mask.is_only(event),
            _ => false,
        },
{
    let mask = event.mask();

    bus.push(
        if enable {
            Access::Unmask(mask)
        } else {
            Access::Mask(mask)
        },
    );
}

/// Unmask `event` and mask everything else, in one write.
pub fn arm_only(event: Event, bus: &mut Bus<Access>)
    requires
        event.in_register(),
    ensures
        final(bus)@.len() == old(bus)@.len() + 1,
        final(bus)@.drop_last() == old(bus)@,
        final(bus)@.last() matches Access::StoreImask(mask) && mask.is_only(event),
{
    bus.push(Access::StoreImask(event.mask()));
}

/// Whether `event` is latched in `ris`, whether or not it is unmasked.
pub fn is_pending(event: Event, ris: CpuInt) -> (pending: bool)
    requires
        event.in_register(),
    ensures
        pending == ris.has(event),
{
    match event {
        Event::Result(n) => read_bit(ris.results, n),
        Event::Overflow => ris.overflow,
        Event::Underflow => ris.underflow,
        Event::SequenceTimeout => ris.sequence_timeout,
        Event::WindowHigh => ris.window_high,
        Event::WindowLow => ris.window_low,
    }
}

/// Drop `event`'s latched flag.
pub fn clear_pending(event: Event, bus: &mut Bus<Access>)
    requires
        event.in_register(),
    ensures
        final(bus)@.len() == old(bus)@.len() + 1,
        final(bus)@.drop_last() == old(bus)@,
        final(bus)@.last() matches Access::Iclr(cleared) && cleared.is_only(event),
{
    bus.push(Access::Iclr(event.mask()));
}

/// Whether any of an instance's results is in `mis`, clearing those that are.
pub fn take_results<T: Instance>(mis: CpuInt, bus: &mut Bus<Access>) -> (active: bool)
    requires
        T::MEMCTL < 32,
    ensures
        active == (exists|n: u8| n < T::MEMCTL && #[trigger] mis.has(Event::Result(n))),
        !active ==> final(bus)@ == old(bus)@,
        active ==> {
            &&& final(bus)@.len() == old(bus)@.len() + 1
            &&& final(bus)@.drop_last() == old(bus)@
            &&& final(bus)@.last() matches Access::Iclr(cleared) && forall|event: Event|
                event.in_register() ==> (#[trigger] cleared.has(event) <==> mis.has(event) && event.is_result::<T>())
        },
{
    let sources = result_sources::<T>();
    let raised: u32 = mis.results & sources.results;

    proof {
        assert forall|bit: u8| bit < 32 implies (#[trigger] bit_set(raised, bit) <==> bit_set(mis.results, bit) && bit
            < T::MEMCTL) by {
            lemma_and(mis.results, sources.results, bit);
            assert(sources.has(Event::Result(bit)) <==> Event::Result(bit).is_result::<T>());
        }
        lemma_no_bits_is_zero(raised);
        lemma_no_bits_is_zero(0);
    }
    if raised == 0 {
        assert forall|n: u8| n < T::MEMCTL implies !#[trigger] mis.has(Event::Result(n)) by {
            assert(!bit_set(raised, n));
        }
        return false;
    }
    let cleared = CpuInt { results: raised, ..CpuInt::none() };

    bus.push(Access::Iclr(cleared));
    proof {
        let bit = choose|bit: u8| bit < 32 && bit_set(raised, bit);
        assert(mis.has(Event::Result(bit)) && bit < T::MEMCTL);
        assert forall|event: Event| event.in_register() implies (#[trigger] cleared.has(event) <==> mis.has(event)
            && event.is_result::<T>()) by {
            match event {
                Event::Result(n) => {
                    assert(bit_set(raised, n) <==> bit_set(mis.results, n) && n < T::MEMCTL);
                },
                _ => {},
            }
        }
    }
    true
}

/// A powered, configured ADC that converts nothing until told to.
pub struct Adc<T: Instance> {
    /// Shallowest sleep to block while a conversion runs, or [`None`] if none needs blocking.
    sleep_floor: Option<SleepLevel>,
    _phantom: PhantomData<T>,
}

impl<T: Instance> Adc<T> {
    /// Shallowest sleep to block while a conversion runs, or [`None`] if none needs blocking.
    pub closed spec fn floor(&self) -> Option<SleepLevel> {
        self.sleep_floor
    }

    /// Power up an instance and apply `config`, leaving it converting nothing.
    pub fn new<F: FnOnce(u32) -> Option<SleepLevel>>(
        config: Config,
        clocks: &Clocks,
        floor_for: F,
        bus: &mut Bus<Access>,
    ) -> (adc: Self)
        requires
            configurable::<T>(config, *clocks),
            forall|hz: u32| floor_for.requires((hz,)),
        ensures
            configured::<T, F>(config, *clocks, old(bus)@, final(bus)@, floor_for, adc.floor()),
    {
        Adc { sleep_floor: configure::<T, F>(config, clocks, floor_for, bus), _phantom: PhantomData }
    }

    /// Shallowest sleep level to block so that a conversion keeps running, if one needs blocking at all.
    pub fn conversion_floor(&self) -> (floor: Option<SleepLevel>)
        ensures
            floor == self.floor(),
    {
        self.sleep_floor
    }

    /// Resolution conversions are taken at, in a reading of `CTL2.RES`.
    pub fn resolution(&self, res: Res) -> (resolution: Resolution)
        ensures
            res_of(resolution) == res,
    {
        from_res(res)
    }

    /// Set the resolution for conversions from here on.
    pub fn set_resolution(&mut self, resolution: Resolution, bus: &mut Bus<Access>)
        ensures
            *final(self) == *old(self),
            final(bus)@ == old(bus)@.push(Access::Resolution(res_of(resolution))),
    {
        bus.push(Access::Resolution(to_res(resolution)));
    }

    /// Set one comparator's sample period, in ADC sample clock cycles.
    pub fn set_sample_period(&mut self, comparator: SampleTimeComparator, period: u16, bus: &mut Bus<Access>)
        requires
            countable(period),
        ensures
            *final(self) == *old(self),
            final(bus)@ == old(bus)@.push(Access::Scomp(comparator, period)),
    {
        bus.push(Access::Scomp(comparator, period));
    }

    /// One comparator's sample period, in ADC sample clock cycles. `scomp` reads `SCOMP[n]`.
    pub fn sample_period<F: FnOnce(usize) -> u16>(&self, comparator: SampleTimeComparator, scomp: F) -> (period: u16)
        requires
            scomp.requires((comparator.index_spec(),)),
        ensures
            scomp.ensures((comparator.index_spec(),), period),
    {
        scomp(comparator.index())
    }

    /// Aim the next conversion at one channel, and set the window to it alone.
    ///
    /// The result lands in `MEMRES[0]`. `avgn` is a reading of `CTL1.AVGN`.
    pub fn set_conversion(
        &mut self,
        channel: &BorrowedAdcChannel<T>,
        conversion: Conversion,
        avgn: Avgn,
        bus: &mut Bus<Access>,
    )
        requires
            conversion.average ==> avgn != Avgn::Disable,
        ensures
            *final(self) == *old(self),
            final(bus)@ == old(bus)@ + aim_one(channel.channel(), conversion),
    {
        setup_one(channel.get_hw_channel(), conversion, avgn, bus);
    }

    /// Aim the next conversion at a sequence of channels, in order.
    ///
    /// Result `n` lands in `MEMRES[n]`. The sequence has at least one element, and no more than the
    /// instance has results.
    pub fn set_sequence(&mut self, sequence: &[(u8, Conversion)], avgn: Avgn, bus: &mut Bus<Access>)
        requires
            1 <= sequence@.len() <= T::MEMCTL,
            averages(sequence@, avgn),
        ensures
            *final(self) == *old(self),
            final(bus)@ == old(bus)@ + aim_sequence(sequence@),
    {
        setup_sequence(sequence, avgn, bus);
    }

    /// Start converting what [`set_conversion`](Self::set_conversion) or
    /// [`set_sequence`](Self::set_sequence) last aimed at, and return.
    ///
    /// Starting while [`is_converting`](Self::is_converting) is true is a caller error: the running
    /// conversion is using the `MEMCTL` entries this would be starting against.
    pub fn start(&mut self, bus: &mut Bus<Access>)
        ensures
            *final(self) == *old(self),
            final(bus)@ == old(bus)@ + start_accesses(),
    {
        start(bus);
    }

    /// Whether a conversion is in flight, in a reading of `CTL0.ENC`.
    pub fn is_converting(&self, enc: bool) -> (converting: bool)
        ensures
            converting == enc,
    {
        enc
    }

    /// The result in `MEMRES[index]`. `memres` reads `MEMRES[n]`, which clears that result's flag.
    pub fn result<F: FnOnce(usize) -> u16>(&self, index: usize, memres: F) -> (result: u16)
        requires
            memres.requires((index,)),
        ensures
            memres.ensures((index,), result),
    {
        memres(index)
    }

    /// Let `event` reach the CPU, or stop it.
    ///
    /// A read-modify-write on `IMASK`, which an interrupt handler writes as well. Use
    /// [`arm_only`](Self::arm_only) where the whole mask is being set.
    pub fn enable_interrupt(&mut self, event: Event, enable: bool, bus: &mut Bus<Access>)
        requires
            event.of::<T>(),
        ensures
            *final(self) == *old(self),
            final(bus)@.len() == old(bus)@.len() + 1,
            final(bus)@.drop_last() == old(bus)@,
            match final(bus)@.last() {
                Access::Unmask(mask) => enable && mask.is_only(event),
                Access::Mask(mask) => !enable && mask.is_only(event),
                _ => false,
            },
    {
        enable_interrupt(event, enable, bus);
    }

    /// Let `event` reach the CPU and mask every other source, in one write.
    ///
    /// What a sequence wants: only its last result should raise the line, and the earlier ones each
    /// set a flag as they land.
    pub fn arm_only(&mut self, event: Event, bus: &mut Bus<Access>)
        requires
            event.of::<T>(),
        ensures
            *final(self) == *old(self),
            final(bus)@.len() == old(bus)@.len() + 1,
            final(bus)@.drop_last() == old(bus)@,
            final(bus)@.last() matches Access::StoreImask(mask) && mask.is_only(event),
    {
        arm_only(event, bus);
    }

    /// Whether `event` is latched in `ris`, whether or not it is unmasked.
    pub fn is_pending(&self, event: Event, ris: CpuInt) -> (pending: bool)
        requires
            event.of::<T>(),
        ensures
            pending == ris.has(event),
    {
        is_pending(event, ris)
    }

    /// Drop `event`'s latched flag.
    pub fn clear_pending(&mut self, event: Event, bus: &mut Bus<Access>)
        requires
            event.of::<T>(),
        ensures
            *final(self) == *old(self),
            final(bus)@.len() == old(bus)@.len() + 1,
            final(bus)@.drop_last() == old(bus)@,
            final(bus)@.last() matches Access::Iclr(cleared) && cleared.is_only(event),
    {
        clear_pending(event, bus);
    }
}

/// A resolution survives the trip through the register, and no two share an encoding.
pub proof fn resolution_round_trips(a: Resolution, b: Resolution)
    ensures
        res_of(a) == res_of(b) ==> a == b,
{
}

/// Aiming at a sequence of one is aiming at one channel.
pub proof fn one_is_a_sequence(ch: u8, conversion: Conversion)
    ensures
        aim_sequence(seq![(ch, conversion)]) == aim_one(ch, conversion),
{
    assert(aim_sequence(seq![(ch, conversion)]) =~= aim_one(ch, conversion));
}

/// Everything is programmed before the converter is first enabled: a configuration never enables or starts a
/// conversion.
pub proof fn configuring_converts_nothing(config: Config, regs: ClockRegs)
    ensures
        forall|i: int|
            0 <= i < configure_accesses(config, regs).len() ==> (#[trigger] configure_accesses(config, regs)[i])
                != Access::EnableConversion && configure_accesses(config, regs)[i] != Access::StartConversion,
        forall|i: int|
            0 <= i < configure_accesses(config, regs).len() ==> ((#[trigger] configure_accesses(config, regs)[i])
                matches Access::Ctl0(ctl0) ==> !ctl0.enc),
        forall|i: int|
            0 <= i < configure_accesses(config, regs).len() ==> ((#[trigger] configure_accesses(config, regs)[i])
                matches Access::Ctl1(ctl1) ==> !ctl1.sc),
{
}

/// Two sets that hold one source each are the same set exactly when it is the same source, so no event's
/// mask touches another's.
pub proof fn events_do_not_overlap(a: CpuInt, b: CpuInt, x: Event, y: Event)
    requires
        a.is_only(x),
        b.is_only(y),
        x.in_register(),
        y.in_register(),
        x != y,
    ensures
        !a.has(y),
        !b.has(x),
{
}

/// Whether an access sets up what a configuration asks for. `source`, `sclkdiv` and `frange` are the sample clock's.
pub open spec fn sets_up(
    access: Access,
    config: Config,
    source: SampleClock,
    sclkdiv: Sclkdiv,
    frange: Frange,
) -> bool {
    match access {
        Access::Reset => true,
        Access::Power(on) => on,
        Access::Delay(cycles) => cycles == 16,
        Access::Clkcfg(clock) => {
            &&& clock is Ulpclk <==> source is Ulpclk
            &&& clock is Sysosc <==> source is Sysosc
            &&& clock is Hfclk <==> source is Hfclk
        },
        Access::Ctl0(ctl0) => !ctl0.enc && ctl0.pwrdn is Manual && ctl0.sclkdiv == sclkdiv,
        Access::Clkfreq(band) => band == frange,
        Access::Ctl1(ctl1) => {
            &&& !ctl1.sc && ctl1.trigsrc is Software && ctl1.conseq is Sequence && ctl1.sampmode is Auto
            &&& ctl1.avgn is Disable <==> config.averaging is None
            &&& config.averaging is None ==> ctl1.avgd == 0
            &&& config.averaging matches Some(averaging) ==> {
                &&& averaging is X2 ==> ctl1.avgn is Avg2 && ctl1.avgd == 1
                &&& averaging is X4 ==> ctl1.avgn is Avg4 && ctl1.avgd == 2
                &&& averaging is X8 ==> ctl1.avgn is Avg8 && ctl1.avgd == 3
                &&& averaging is X16 ==> ctl1.avgn is Avg16 && ctl1.avgd == 4
                &&& averaging is X32 ==> ctl1.avgn is Avg32 && ctl1.avgd == 5
                &&& averaging is X64 ==> ctl1.avgn is Avg64 && ctl1.avgd == 6
                &&& averaging is X128 ==> ctl1.avgn is Avg128 && ctl1.avgd == 7
            }
        },
        Access::Ctl2(ctl2) => {
            &&& !ctl2.df && !ctl2.rstsampcapen && !ctl2.dmaen && !ctl2.fifoen && ctl2.sampcnt == 0
            &&& ctl2.startadd == 0 && ctl2.endadd == 0
            &&& ctl2.res is Bit12 <==> config.resolution is Bits12
            &&& ctl2.res is Bit10 <==> config.resolution is Bits10
            &&& ctl2.res is Bit8 <==> config.resolution is Bits8
        },
        Access::Scomp(comparator, period) => {
            &&& comparator is Scomp0 ==> period == config.sample_period_0
            &&& comparator is Scomp1 ==> period == config.sample_period_1
        },
        _ => false,
    }
}

/// A configuration reaches the registers as it was asked for: the source, its divider and its band, the averaging,
/// the resolution and both sample periods, after a reset and with the converter powered. The sleep floor is the
/// one of the rate the sample clock runs at.
pub proof fn converter_is_set_up_as_asked<T: Instance, F: FnOnce(u32) -> Option<SleepLevel>>(
    config: Config,
    clocks: Clocks,
    before: Seq<Access>,
    after: Seq<Access>,
    floor_for: F,
    floor: Option<SleepLevel>,
)
    requires
        configured::<T, F>(config, clocks, before, after, floor_for, floor),
    ensures
        before.len() <= after.len(),
        after.take(before.len() as int) == before,
        exists|regs: ClockRegs|
            #![trigger clocked_by::<T>(regs, config.sample_clk, clocks)]
            {
                let asked = after.skip(before.len() as int);

                &&& clocked_by::<T>(regs, config.sample_clk, clocks)
                &&& floor_for.ensures((regs.adcclk_hz,), floor)
                &&& forall|i: int|
                    0 <= i < asked.len() ==> sets_up(
                        #[trigger] asked[i],
                        config,
                        regs.source,
                        regs.sclkdiv,
                        regs.frange,
                    )
            },
        ({
            let asked = after.skip(before.len() as int);

            &&& asked.len() > 2 && asked[0] is Reset && asked[1] is Power && asked[2] is Delay
            &&& exists|i: int| 0 <= i < asked.len() && (#[trigger] asked[i]) is Clkcfg
            &&& exists|i: int| 0 <= i < asked.len() && (#[trigger] asked[i]) is Ctl0
            &&& exists|i: int| 0 <= i < asked.len() && (#[trigger] asked[i]) is Clkfreq
            &&& exists|i: int| 0 <= i < asked.len() && (#[trigger] asked[i]) is Ctl1
            &&& exists|i: int| 0 <= i < asked.len() && (#[trigger] asked[i]) is Ctl2
            &&& exists|i: int|
                0 <= i < asked.len() && (#[trigger] asked[i] matches Access::Scomp(which, _) && which is Scomp0)
            &&& exists|i: int|
                0 <= i < asked.len() && (#[trigger] asked[i] matches Access::Scomp(which, _) && which is Scomp1)
        }),
{
    let regs = choose|regs: ClockRegs|
        #![trigger configure_accesses(config, regs)]
        {
            &&& clocked_by::<T>(regs, config.sample_clk, clocks)
            &&& after == before + configure_accesses(config, regs)
            &&& floor_for.ensures((regs.adcclk_hz,), floor)
        };
    let asked = after.skip(before.len() as int);
    assert(asked =~= configure_accesses(config, regs));
    assert(after.take(before.len() as int) =~= before);
    assert(clocked_by::<T>(regs, config.sample_clk, clocks));
    assert(asked[3] is Clkcfg);
    assert(asked[4] is Ctl0);
    assert(asked[5] is Clkfreq);
    assert(asked[6] is Ctl1);
    assert(asked[7] is Ctl2);
    assert(asked[8] is Scomp);
    assert(asked[9] is Scomp);
}

/// Whether an entry converts a channel the way a conversion asks: against its reference, through its comparator, and
/// averaged where it is to be.
pub open spec fn converts(entry: Memctl, ch: u8, conversion: Conversion) -> bool {
    &&& entry.chansel == ch
    &&& entry.avgen == conversion.average
    &&& entry.stime is SelScomp0 <==> conversion.stime is Scomp0
    &&& entry.stime is SelScomp1 <==> conversion.stime is Scomp1
    &&& entry.vrsel is VddaVssa <==> conversion.vrsel is VddaVssa
    &&& entry.vrsel is ExtrefVrefm <==> conversion.vrsel is ExtrefVrefm
    &&& entry.vrsel is IntrefVssa <==> conversion.vrsel is IntrefVssa
    &&& entry.vrsel is VddaVrefm <==> conversion.vrsel is VddaVrefm
    &&& entry.vrsel is IntrefVrefm <==> conversion.vrsel is IntrefVrefm
    &&& entry.trig is AutoNext && !entry.bcsen && !entry.wincomp
}

/// A sequence is converted in order: entry `n` converts channel `n` the way it asks, so that result `n` is its, and
/// the window covers every entry and none beyond them.
pub proof fn sequence_is_converted_in_order(sequence: Seq<(u8, Conversion)>)
    requires
        1 <= sequence.len() <= 256,
    ensures
        ({
            let asked = aim_sequence(sequence);

            &&& asked.len() == sequence.len() + 1
            &&& forall|n: int|
                0 <= n < sequence.len() ==> (#[trigger] asked[n] matches Access::Memctl(i, entry) && i == n && converts(
                    entry,
                    sequence[n].0,
                    sequence[n].1,
                ))
            &&& asked.last() matches Access::Window { startadd, endadd } && startadd == 0 && endadd + 1
                == sequence.len()
        }),
{
}

/// One channel is converted into result 0, and nothing else is.
pub proof fn one_channel_lands_in_result_0(ch: u8, conversion: Conversion)
    ensures
        ({
            let asked = aim_one(ch, conversion);

            &&& asked.len() == 2
            &&& asked[0] matches Access::Memctl(i, entry) && i == 0 && converts(entry, ch, conversion)
            &&& asked[1] matches Access::Window { startadd, endadd } && startadd == 0 && endadd == 0
        }),
{
}

/// Conversion is enabled and then started, and nothing else is touched.
pub proof fn start_follows_the_enable()
    ensures
        start_accesses().len() == 2,
        start_accesses()[0] is EnableConversion,
        start_accesses()[1] is StartConversion,
{
}

/// Each source has one flag of its own, and a set of that source alone holds no other flag.
pub proof fn events_have_their_own_flags(set: CpuInt, event: Event)
    requires
        set.is_only(event),
        event.in_register(),
    ensures
        set.overflow <==> event is Overflow,
        set.underflow <==> event is Underflow,
        set.sequence_timeout <==> event is SequenceTimeout,
        set.window_high <==> event is WindowHigh,
        set.window_low <==> event is WindowLow,
        forall|n: u8| n < 32 ==> (#[trigger] bit_set(set.results, n) <==> event == Event::Result(n)),
{
    assert(set.has(Event::Overflow) <==> event == Event::Overflow);
    assert(set.has(Event::Underflow) <==> event == Event::Underflow);
    assert(set.has(Event::SequenceTimeout) <==> event == Event::SequenceTimeout);
    assert(set.has(Event::WindowHigh) <==> event == Event::WindowHigh);
    assert(set.has(Event::WindowLow) <==> event == Event::WindowLow);
    assert forall|n: u8| n < 32 implies (#[trigger] bit_set(set.results, n) <==> event == Event::Result(n)) by {
        assert(set.has(Event::Result(n)) <==> event == Event::Result(n));
    }
}

/// An instance raises its own results and every other source, and the registers hold as many results as they have
/// bits.
pub proof fn instance_raises_its_own_results<T: Instance>(event: Event)
    ensures
        event.in_register() <==> (event matches Event::Result(n) ==> n < 32),
        event.of::<T>() <==> (event matches Event::Result(n) ==> n < 32 && n < T::MEMCTL),
        event.is_result::<T>() <==> (event matches Event::Result(n) && n < T::MEMCTL),
{
}

/// A configuration can be programmed exactly where both periods are one to 1023 cycles and the sample clock is one the
/// device can run.
pub proof fn periods_fit_their_comparators<T: Instance>(config: Config, clocks: Clocks)
    ensures
        configurable::<T>(config, clocks) <==> {
            &&& 1 <= config.sample_period_0 <= 1023
            &&& 1 <= config.sample_period_1 <= 1023
            &&& can_clock::<T>(config.sample_clk, clocks)
        },
{
}

/// A sequence can be averaged exactly where averaging is on or none of its conversions asks for it.
pub proof fn averaging_has_to_be_on(sequence: Seq<(u8, Conversion)>, avgn: Avgn, i: int)
    requires
        averages(sequence, avgn),
        0 <= i < sequence.len(),
        sequence[i].1.average,
    ensures
        !(avgn is Disable),
{
}

/// Each resolution is programmed as itself.
pub proof fn resolutions_are_programmed_as_named(resolution: Resolution)
    ensures
        res_of(resolution) is Bit12 <==> resolution is Bits12,
        res_of(resolution) is Bit10 <==> resolution is Bits10,
        res_of(resolution) is Bit8 <==> resolution is Bits8,
        resolution is Bits12 ==> resolution.bits_spec() == 12,
        resolution is Bits10 ==> resolution.bits_spec() == 10,
        resolution is Bits8 ==> resolution.bits_spec() == 8,
{
}

} // verus!
