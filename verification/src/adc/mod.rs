//! Analog to Digital Converter (ADC)
//!
//! [`Adc`] waits for its conversions, blocking or by interrupt. [`low_level::Adc`] underneath it powers
//! the instance up, programs a [`Config`] and stops.

mod clock;
pub mod low_level;
mod temp;

pub use clock::{
    adc_clock_hz, adc_clock_regs, band_holds_its_rate, band_of, bands_span_their_names, can_clock, clock_range,
    clocked_by, dividers_divide_by_their_names, in_clock_range, is_clockable, ladder_skips_no_divider, ladders_agree,
    no_smaller_divider_would_do, registers_are_solved_for_the_running_rate, sample_clock_div, sample_clock_div_to,
    sampclk_is_at_most_the_target, solve_clock_regs, solved_clock_is_taken_as_it_is, solved_clock_matches_the_tree,
    source_hz, ClockRegs, Frange, SampleClock, SampleClockSel, Sclkdiv, SolvedSampleClock, FRANGE_MAX_HZ,
    FRANGE_MIN_HZ, TARGET_SAMPCLK_HZ,
};
pub use temp::{
    calibration_point_reads_its_temperature, code_is_its_share_of_the_reference, code_to_microvolts, codes_fit,
    exact_delta, farthest, fine_enough, fits, held, hotter_reads_hotter, microvolts, millidegrees,
    prepare_temp_calibration, reading_is_within_40_millidegrees, reciprocal_q12, recommended_window_satisfies_both,
    resolutions_agree, temp_calibration_code, FactoryAccess, TempSensor, MAX_REFERENCE_MV,
};

use crate::bus::Bus;
use crate::gpio::{self, AnyPin};
use crate::mode::{Async, Blocking, Mode};
use crate::sysctl::{Clocks, SleepLevel};
use core::marker::PhantomData;
use low_level::{Access, Avgn, CpuInt, Event};
use vstd::prelude::*;

verus! {

/// An ADC instance: what the device's metadata says of it.
pub trait Instance {
    /// `MEMCTL` entries, which is also how many results there are.
    const MEMCTL: u8;

    /// Bottom of `fADCCLK`, the range this device's datasheet specifies for the selected sample clock.
    const CLK_MIN_HZ: u32;

    /// Top of `fADCCLK`.
    const CLK_MAX_HZ: u32;

    /// Base frequency of SYSOSC.
    const SYSOSC_BASE_HZ: u32;
}

/// Conversion resolution of the ADC results.
#[derive(Clone, Copy, PartialEq, Eq, Debug, Structural)]
pub enum Resolution {
    /// 12-bits resolution
    Bits12,
    /// 10-bits resolution
    Bits10,
    /// 8-bits resolution
    Bits8,
}

impl Resolution {
    /// Number of bits of the resolution.
    pub open spec fn bits_spec(&self) -> u8 {
        match self {
            Resolution::Bits12 => 12,
            Resolution::Bits10 => 10,
            Resolution::Bits8 => 8,
        }
    }

    /// The maximum reading value for this resolution.
    pub open spec fn max_count_spec(&self) -> int {
        vstd::arithmetic::power2::pow2(self.bits_spec() as nat) - 1
    }

    /// Number of bits of the resolution.
    pub fn bits(&self) -> (bits: u8)
        ensures
            bits == self.bits_spec(),
    {
        match self {
            Resolution::Bits12 => 12,
            Resolution::Bits10 => 10,
            Resolution::Bits8 => 8,
        }
    }

    /// Get the maximum reading value for this resolution.
    ///
    /// This is `2**n - 1`.
    pub fn max_count(&self) -> (max: u32)
        ensures
            max == self.max_count_spec(),
    {
        let bits: u8 = self.bits();

        proof {
            vstd::arithmetic::power2::lemma2_to64();
            assert(1u32 << 12 == 4096 && 1u32 << 10 == 1024 && 1u32 << 8 == 256) by (bit_vector);
        }
        (1u32 << bits) - 1
    }
}

/// Hardware sample time comparator.
#[derive(Clone, Copy, PartialEq, Eq, Debug, Structural)]
pub enum SampleTimeComparator {
    /// Use simple time comparator 0.
    Scomp0,
    /// Use sample time comparator 1.
    Scomp1,
}

impl SampleTimeComparator {
    /// Every comparator, in index order.
    pub const ALL: [SampleTimeComparator; 2] = [SampleTimeComparator::Scomp0, SampleTimeComparator::Scomp1];

    /// Index of this comparator in the `SCOMP` registers.
    pub open spec fn index_spec(self) -> usize {
        match self {
            SampleTimeComparator::Scomp0 => 0,
            SampleTimeComparator::Scomp1 => 1,
        }
    }

    /// Index of this comparator in the `SCOMP` registers.
    pub fn index(self) -> (index: usize)
        ensures
            index == self.index_spec(),
    {
        match self {
            SampleTimeComparator::Scomp0 => 0,
            SampleTimeComparator::Scomp1 => 1,
        }
    }
}

/// Reference voltage (Vref) selection for the ADC channels.
#[derive(Clone, Copy, PartialEq, Eq, Debug, Structural)]
pub enum Vrsel {
    /// VDDA reference
    VddaVssa,
    /// External reference from pin
    ExtrefVrefm,
    /// Internal reference
    ///
    /// A conversion taken before the reference buffer has started returns an unreliable value rather
    /// than reporting anything, so the reference has to be held up across it.
    IntrefVssa,
    /// VDDA and VREFM connected to VREF+ and VREF- of ADC, where `MEMCTL.VRSEL` is wide enough.
    VddaVrefm,
    /// INTREF and VREFM connected to VREF+ and VREF- of ADC, where `MEMCTL.VRSEL` is wide enough.
    ///
    /// Carries the same startup requirement as [`IntrefVssa`](Self::IntrefVssa).
    IntrefVrefm,
}

/// How many conversions the hardware averages into one result.
///
/// Each setting divides by what it accumulated, so the result stays on the same scale as an
/// unaveraged one and only the noise changes.
#[derive(Clone, Copy, PartialEq, Eq, Debug, Structural)]
pub enum Averaging {
    /// Average 2 conversions.
    X2,
    /// Average 4 conversions.
    X4,
    /// Average 8 conversions.
    X8,
    /// Average 16 conversions.
    X16,
    /// Average 32 conversions.
    X32,
    /// Average 64 conversions.
    X64,
    /// Average 128 conversions.
    X128,
}

impl Averaging {
    /// How many conversions make one result.
    pub open spec fn count(self) -> int {
        match self {
            Averaging::X2 => 2,
            Averaging::X4 => 4,
            Averaging::X8 => 8,
            Averaging::X16 => 16,
            Averaging::X32 => 32,
            Averaging::X64 => 64,
            Averaging::X128 => 128,
        }
    }

    /// The accumulate count and the matching right shift.
    pub open spec fn regs(self) -> (Avgn, u8) {
        match self {
            Averaging::X2 => (Avgn::Avg2, 1),
            Averaging::X4 => (Avgn::Avg4, 2),
            Averaging::X8 => (Avgn::Avg8, 3),
            Averaging::X16 => (Avgn::Avg16, 4),
            Averaging::X32 => (Avgn::Avg32, 5),
            Averaging::X64 => (Avgn::Avg64, 6),
            Averaging::X128 => (Avgn::Avg128, 7),
        }
    }

    /// The accumulate count and the matching right shift.
    pub fn to_regs(self) -> (regs: (Avgn, u8))
        ensures
            regs == self.regs(),
    {
        match self {
            Averaging::X2 => (Avgn::Avg2, 1),
            Averaging::X4 => (Avgn::Avg4, 2),
            Averaging::X8 => (Avgn::Avg8, 3),
            Averaging::X16 => (Avgn::Avg16, 4),
            Averaging::X32 => (Avgn::Avg32, 5),
            Averaging::X64 => (Avgn::Avg64, 6),
            Averaging::X128 => (Avgn::Avg128, 7),
        }
    }
}

/// The shift divides by exactly the count that was accumulated, so an averaged result stays on the scale of
/// an unaveraged one, and the count's encoding is that shift.
pub proof fn averaging_keeps_the_scale(averaging: Averaging)
    ensures
        vstd::arithmetic::power2::pow2(averaging.regs().1 as nat) == averaging.count(),
        averaging.regs().0.bits_spec() == averaging.regs().1,
{
    vstd::arithmetic::power2::lemma2_to64();
}

/// Sample conversion parameters.
#[derive(Clone, Copy, PartialEq, Eq, Debug, Structural)]
pub struct Conversion {
    /// Voltage reference selection.
    pub vrsel: Vrsel,
    /// Sample time period.
    pub stime: SampleTimeComparator,
    /// Average this conversion, at the rate [`Config::averaging`] sets.
    ///
    /// Setting this with no [`Config::averaging`] is a caller error.
    pub average: bool,
}

impl Conversion {
    /// The default conversion.
    pub open spec fn default_spec() -> Conversion {
        Conversion { vrsel: Vrsel::VddaVssa, stime: SampleTimeComparator::Scomp0, average: false }
    }

    /// The default conversion.
    pub fn new() -> (conversion: Self)
        ensures
            conversion == Self::default_spec(),
    {
        Conversion { vrsel: Vrsel::VddaVssa, stime: SampleTimeComparator::Scomp0, average: false }
    }
}

impl Default for Conversion {
    fn default() -> (conversion: Self)
        ensures
            conversion == Self::default_spec(),
    {
        Self::new()
    }
}

/// ADC configuration.
#[derive(Copy, Clone, PartialEq, Eq, Debug, Structural)]
pub struct Config {
    /// Resolution of the ADC conversion. The number of bits used to represent an ADC measurement.
    pub resolution: Resolution,
    /// Sample clock source, either to solve for on the device or already solved.
    pub sample_clk: SampleClockSel,
    /// Length of [`SampleTimeComparator::Scomp0`]'s sample period, in ADC sample clock cycles.
    ///
    /// The window has to charge the sampling capacitor through whatever the source impedance is, so
    /// how long it needs is a property of what is being measured rather than of the ADC. Not zero.
    pub sample_period_0: u16,
    /// Length of [`SampleTimeComparator::Scomp1`]'s sample period, in ADC sample clock cycles. Not zero.
    pub sample_period_1: u16,
    /// How many conversions to average, for conversions that ask for it.
    ///
    /// One rate for the whole peripheral. Which conversions use it is [`Conversion::average`].
    pub averaging: Option<Averaging>,
}

/// Whether a comparator can count this period.
pub open spec fn countable(period: u16) -> bool {
    1 <= period <= Config::MAX_SAMPLE_PERIOD
}

/// The figure a table of gains and windows publishes for `gain`: that of its first row for it.
pub open spec fn published(table: Seq<(u8, u32)>, gain: u8) -> Option<u32>
    decreases table.len(),
{
    if table.len() == 0 {
        None
    } else if table[0].0 == gain {
        Some(table[0].1)
    } else {
        published(table.drop_first(), gain)
    }
}

impl Config {
    /// Maximum number of sample clocks that may be performed when sampling: `SCOMPx.VAL` is ten bits.
    pub const MAX_SAMPLE_PERIOD: u16 = 1023;

    /// The default configuration.
    pub open spec fn default_spec() -> Config {
        Config {
            resolution: Resolution::Bits12,
            sample_clk: SampleClockSel::Source(SampleClock::Sysosc),
            sample_period_0: 50,
            sample_period_1: 50,
            averaging: None,
        }
    }

    /// The shortest window for reading an OPA output at `gain`, in nanoseconds.
    ///
    /// `table` is what the device's datasheet publishes, by gain. [`None`] for a gain it does not
    /// publish, and that is not interpolatable.
    pub fn pga_sample_min_ns(table: &[(u8, u32)], gain: u8) -> (ns: Option<u32>)
        ensures
            ns == published(table@, gain),
    {
        let mut i: usize = 0;

        assert(table@.skip(0) =~= table@);
        while i < table.len()
            invariant
                i <= table@.len(),
                published(table@, gain) == published(table@.skip(i as int), gain),
            decreases table.len() - i,
        {
            assert(table@.skip(i as int).drop_first() =~= table@.skip(i + 1));
            if table[i].0 == gain {
                return Some(table[i].1);
            }
            i += 1;
        }
        None
    }

    /// Take the sample clock from a [`SolvedSampleClock`].
    pub fn with_sample_clk(self, solved: SolvedSampleClock) -> (config: Self)
        ensures
            config == (Config { sample_clk: SampleClockSel::Solved(solved), ..self }),
    {
        Config { sample_clk: SampleClockSel::Solved(solved), ..self }
    }

    /// The reset-ish default: fifty sample clocks, which is 6.25 us at the SAMPCLK the divider aims for.
    pub fn new() -> (config: Self)
        ensures
            config == Self::default_spec(),
    {
        Config {
            resolution: Resolution::Bits12,
            sample_clk: SampleClockSel::Source(SampleClock::Sysosc),
            sample_period_0: 50,
            sample_period_1: 50,
            averaging: None,
        }
    }
}

impl Default for Config {
    fn default() -> (config: Self)
        ensures
            config == Self::default_spec(),
    {
        Self::new()
    }
}

/// A type-erased borrowed channel for the given ADC instance.
pub struct BorrowedAdcChannel<T: Instance> {
    channel: u8,
    _marker: PhantomData<T>,
}

impl<T: Instance> BorrowedAdcChannel<T> {
    /// The hardware number.
    pub closed spec fn channel(&self) -> u8 {
        self.channel
    }

    /// The hardware number.
    pub fn get_hw_channel(&self) -> (channel: u8)
        ensures
            channel == self.channel(),
    {
        self.channel
    }

    /// Name a channel by its hardware number, without holding the pin that reaches it.
    ///
    /// Nothing is configured on the way through: a channel that is only a pad must already be in analog
    /// mode, and not be driven as an output while it is converted.
    pub fn steal(channel: u8) -> (borrowed: Self)
        ensures
            borrowed.channel() == channel,
    {
        BorrowedAdcChannel { channel, _marker: PhantomData }
    }
}

/// A pin that reaches an ADC, and the channel it does so on.
#[derive(Clone, Copy, PartialEq, Eq, Debug, Structural)]
pub struct AdcPin {
    /// The pin.
    pub pin: AnyPin,
    /// The channel it is wired to.
    pub channel: u8,
}

impl AdcPin {
    /// Put the pad into analog mode, and name its channel.
    pub fn reborrow_adc<T: Instance>(&mut self, bus: &mut Bus<Access>) -> (borrowed: BorrowedAdcChannel<T>)
        ensures
            *final(self) == *old(self),
            borrowed.channel() == old(self).channel,
            final(bus)@ == old(bus)@.push(
                Access::Pin(gpio::Access::StorePincm(old(self).pin.pin_cm(), gpio::Pincm::zero())),
            ),
    {
        bus.push(Access::Pin(self.pin.set_as_analog()));
        BorrowedAdcChannel { channel: self.channel, _marker: PhantomData }
    }
}

/// Interrupt handler.
pub struct InterruptHandler<T: Instance> {
    _phantom: PhantomData<T>,
}

impl<T: Instance> InterruptHandler<T> {
    /// Service the instance's interrupt: whether the waiting task is to be woken.
    ///
    /// Only the last result of a sequence is armed, so this asks about the results as a group and clears
    /// whichever of them raised the line. `mis` is every source that is both latched and unmasked.
    pub fn on_interrupt(mis: CpuInt, bus: &mut Bus<Access>) -> (wake: bool)
        requires
            T::MEMCTL < 32,
        ensures
            wake == (exists|n: u8| n < T::MEMCTL && #[trigger] mis.has(Event::Result(n))),
            !wake ==> final(bus)@ == old(bus)@,
            wake ==> {
                &&& final(bus)@.len() == old(bus)@.len() + 1
                &&& final(bus)@.drop_last() == old(bus)@
                &&& final(bus)@.last() matches Access::Iclr(cleared) && forall|event: Event|
                    event.in_register() ==> (#[trigger] cleared.has(event) <==> mis.has(event)
                        && event.is_result::<T>())
            },
    {
        low_level::take_results::<T>(mis, bus)
    }
}

/// Analog to Digital driver.
pub struct Adc<T: Instance, M: Mode> {
    /// The registers, the clock selection and the sleep floor. Everything here adds a way to wait.
    inner: low_level::Adc<T>,
    _mode: PhantomData<M>,
}

impl<T: Instance> Adc<T, Blocking> {
    /// Create a blocking ADC driver.
    ///
    /// `floor_for` is the shallowest sleep level that stops a clock of the given rate.
    pub fn new_blocking<F: FnOnce(u32) -> Option<SleepLevel>>(
        config: Config,
        clocks: &Clocks,
        floor_for: F,
        bus: &mut Bus<Access>,
    ) -> (adc: Self)
        requires
            low_level::configurable::<T>(config, *clocks),
            forall|hz: u32| floor_for.requires((hz,)),
        ensures
            low_level::configured::<T, F>(config, *clocks, old(bus)@, final(bus)@, floor_for, adc.floor()),
    {
        Adc { inner: low_level::Adc::new(config, clocks, floor_for, bus), _mode: PhantomData }
    }
}

/// What a blocking read of a channel asks for.
pub open spec fn read_accesses(ch: u8, conversion: Conversion) -> Seq<Access> {
    seq![Access::WaitIdle] + low_level::aim_one(ch, conversion) + low_level::start_accesses() + seq![Access::WaitIdle]
}

impl<T: Instance, M: Mode> Adc<T, M> {
    /// Shallowest sleep to block while a conversion runs, or [`None`] if none needs blocking.
    pub closed spec fn floor(&self) -> Option<SleepLevel> {
        self.inner.floor()
    }

    /// Read an ADC pin: wait out a conversion that is still running, aim at the channel, convert, and wait
    /// for the result.
    ///
    /// `avgn` is a reading of `CTL1.AVGN`. What comes back is the result register that holds the reading once
    /// these accesses have been made, which is what to hand to [`result`](Self::result): `MEMRES[0]`.
    pub fn blocking_read(
        &mut self,
        channel: &BorrowedAdcChannel<T>,
        conversion: Conversion,
        avgn: Avgn,
        bus: &mut Bus<Access>,
    ) -> (register: usize)
        requires
            conversion.average ==> avgn != Avgn::Disable,
        ensures
            register == 0,
            *final(self) == *old(self),
            final(bus)@ == old(bus)@ + read_accesses(channel.channel(), conversion),
    {
        // A sampling future dropped half way through leaves a conversion running.
        bus.push(Access::WaitIdle);
        low_level::setup_one(channel.get_hw_channel(), conversion, avgn, bus);
        low_level::start(bus);
        bus.push(Access::WaitIdle);
        assert(bus@ =~= old(bus)@ + read_accesses(channel.channel(), conversion));
        0
    }

    /// The result in `MEMRES[index]`. `memres` reads `MEMRES[n]`.
    pub fn result<F: FnOnce(usize) -> u16>(&self, index: usize, memres: F) -> (result: u16)
        requires
            memres.requires((index,)),
        ensures
            memres.ensures((index,), result),
    {
        self.inner.result(index, memres)
    }

    /// Resolution conversions are taken at, in a reading of `CTL2.RES`.
    pub fn resolution(&self, res: low_level::Res) -> (resolution: Resolution)
        ensures
            res == low_level::res_of(resolution),
    {
        self.inner.resolution(res)
    }

    /// Set the resolution for conversions from here on.
    pub fn set_resolution(&mut self, resolution: Resolution, bus: &mut Bus<Access>)
        ensures
            *final(self) == *old(self),
            final(bus)@ == old(bus)@.push(Access::Resolution(low_level::res_of(resolution))),
    {
        self.inner.set_resolution(resolution, bus);
    }

    /// Set one comparator's sample period, in ADC sample clock cycles.
    pub fn set_sample_period(&mut self, comparator: SampleTimeComparator, period: u16, bus: &mut Bus<Access>)
        requires
            countable(period),
        ensures
            *final(self) == *old(self),
            final(bus)@ == old(bus)@.push(Access::Scomp(comparator, period)),
    {
        self.inner.set_sample_period(comparator, period, bus);
    }

    /// One comparator's sample period, in ADC sample clock cycles. `scomp` reads `SCOMP[n]`.
    pub fn sample_period<F: FnOnce(usize) -> u16>(&self, comparator: SampleTimeComparator, scomp: F) -> (period: u16)
        requires
            scomp.requires((comparator.index_spec(),)),
        ensures
            scomp.ensures((comparator.index_spec(),), period),
    {
        self.inner.sample_period(comparator, scomp)
    }
}

impl<T: Instance> Adc<T, Async> {
    /// Create an ADC driver whose interrupt is bound. The interrupt's NVIC line is let through next.
    pub fn new_async<F: FnOnce(u32) -> Option<SleepLevel>>(
        config: Config,
        clocks: &Clocks,
        floor_for: F,
        bus: &mut Bus<Access>,
    ) -> (adc: Self)
        requires
            low_level::configurable::<T>(config, *clocks),
            forall|hz: u32| floor_for.requires((hz,)),
        ensures
            low_level::configured::<T, F>(config, *clocks, old(bus)@, final(bus)@, floor_for, adc.floor()),
    {
        Adc { inner: low_level::Adc::new(config, clocks, floor_for, bus), _mode: PhantomData }
    }

    /// Shallowest sleep level to block while a conversion is in flight.
    pub fn conversion_guard(&self) -> (floor: Option<SleepLevel>)
        ensures
            floor == self.floor(),
    {
        self.inner.conversion_floor()
    }

    /// Read an ADC pin by interrupt. The result is in `MEMRES[0]` once the read is over.
    pub fn irq_read(&mut self, channel: &BorrowedAdcChannel<T>, conversion: Conversion) -> (read: Read)
        ensures
            *final(self) == *old(self),
            read.sequence() == seq![(channel.channel(), conversion)],
            read.phase() == Phase::Queued,
    {
        let mut sequence: Vec<(u8, Conversion)> = Vec::new();

        sequence.push((channel.get_hw_channel(), conversion));
        assert(sequence@ =~= seq![(channel.channel(), conversion)]);
        Read { sequence, phase: Phase::Queued }
    }

    /// Read one or multiple ADC channels by interrupt, in order. Result `n` is in `MEMRES[n]` once the
    /// read is over.
    ///
    /// `sequence` has to have as many elements as there are `readings` to fill, at least one, and no more
    /// than the instance has results.
    pub fn irq_read_sequence(&mut self, sequence: Vec<(u8, Conversion)>, readings: usize) -> (read: Read)
        requires
            1 <= sequence@.len() <= T::MEMCTL,
            T::MEMCTL <= 32,
            sequence@.len() == readings,
        ensures
            *final(self) == *old(self),
            read.sequence() == sequence@,
            read.phase() == Phase::Queued,
    {
        Read { sequence, phase: Phase::Queued }
    }
}

/// How far a read by interrupt has come.
#[derive(Clone, Copy, PartialEq, Eq, Debug, Structural)]
pub enum Phase {
    /// Waiting for a conversion that a cancelled read left running.
    Queued,
    /// Its own conversions are running.
    Converting,
    /// Over.
    Done,
}

/// What a poll of a read asks for.
#[derive(Clone, Copy, PartialEq, Eq, Debug, Structural)]
pub enum Progress {
    /// The conversion is still running: the interrupt wakes the task.
    Pending,
    /// The conversions have been started: poll again.
    Started,
    /// The results are there.
    Ready,
}

/// A read by interrupt.
pub struct Read {
    sequence: Vec<(u8, Conversion)>,
    phase: Phase,
}

impl Read {
    #[verifier::type_invariant]
    spec fn has_something_to_read(self) -> bool {
        1 <= self.sequence@.len() <= 32
    }

    /// The channels and how each is converted, in order.
    pub closed spec fn sequence(&self) -> Seq<(u8, Conversion)> {
        self.sequence@
    }

    /// How far it has come.
    pub closed spec fn phase(&self) -> Phase {
        self.phase
    }

    /// What a poll that finds `CTL0.ENC` as given makes of a phase.
    pub open spec fn next_phase(phase: Phase, enc: bool) -> (Phase, Progress) {
        match phase {
            Phase::Queued => if enc {
                (Phase::Queued, Progress::Pending)
            } else {
                (Phase::Converting, Progress::Started)
            },
            Phase::Converting => if enc {
                (Phase::Converting, Progress::Pending)
            } else {
                (Phase::Done, Progress::Ready)
            },
            Phase::Done => (Phase::Done, Progress::Ready),
        }
    }

    /// Whether the conversions of a sequence were started, with its last result armed alone.
    pub open spec fn started(sequence: Seq<(u8, Conversion)>, before: Seq<Access>, after: Seq<Access>) -> bool {
        let n = sequence.len();

        &&& after.len() == before.len() + n + 4
        &&& after.take((before.len() + n + 1) as int) == before + low_level::aim_sequence(sequence)
        &&& after[(before.len() + n + 1) as int] matches Access::StoreImask(mask) && mask.is_only(
            Event::Result((n - 1) as u8),
        )
        &&& after.skip((before.len() + n + 2) as int) == low_level::start_accesses()
    }

    /// Poll the read, with the waker registered and then `CTL0.ENC` and `CTL1.AVGN` read.
    ///
    /// Only the last result is armed, alone: the earlier ones set their flags as they land, and nothing
    /// else in the mask is left over to wake this.
    pub fn poll(&mut self, enc: bool, avgn: Avgn, bus: &mut Bus<Access>) -> (progress: Progress)
        requires
            low_level::averages(old(self).sequence(), avgn),
        ensures
            final(self).sequence() == old(self).sequence(),
            (final(self).phase(), progress) == Self::next_phase(old(self).phase(), enc),
            progress != Progress::Started ==> final(bus)@ == old(bus)@,
            progress == Progress::Started ==> Self::started(old(self).sequence(), old(bus)@, final(bus)@),
    {
        proof {
            use_type_invariant(&*self);
        }
        match self.phase {
            Phase::Queued => {
                if enc {
                    return Progress::Pending;
                }
                low_level::setup_sequence(self.sequence.as_slice(), avgn, bus);
                let last: u8 = (self.sequence.len() - 1) as u8;

                low_level::arm_only(Event::Result(last), bus);
                low_level::start(bus);
                proof {
                    let n = self.sequence@.len();
                    let aim = low_level::aim_sequence(self.sequence@);

                    assert(bus@.take((old(bus)@.len() + n + 1) as int) =~= old(bus)@ + aim);
                    assert(bus@.skip((old(bus)@.len() + n + 2) as int) =~= low_level::start_accesses());
                }
                self.phase = Phase::Converting;
                Progress::Started
            },
            Phase::Converting => {
                if enc {
                    return Progress::Pending;
                }
                self.phase = Phase::Done;
                Progress::Ready
            },
            Phase::Done => Progress::Ready,
        }
    }

    /// Fill `readings` with the results of a read that is over. `memres` reads `MEMRES[n]`.
    pub fn take<F: Fn(usize) -> u16>(&self, memres: F, readings: &mut [u16])
        requires
            self.phase() == Phase::Done,
            old(readings)@.len() == self.sequence().len(),
            forall|n: usize| memres.requires((n,)),
        ensures
            final(readings)@.len() == old(readings)@.len(),
            forall|n: usize| n < final(readings)@.len() ==> memres.ensures((n,), #[trigger] final(readings)@[n as int]),
    {
        let len: usize = readings.len();
        let mut n: usize = 0;

        while n < len
            invariant
                n <= len,
                len == readings@.len(),
                forall|n: usize| memres.requires((n,)),
                forall|i: usize| i < n ==> memres.ensures((i,), #[trigger] readings@[i as int]),
            decreases len - n,
        {
            let result: u16 = memres(n);

            readings[n] = result;
            n += 1;
        }
    }
}

/// A read never starts converting while a conversion is running, and is not over before its own has run.
pub proof fn read_waits_its_turn(phase: Phase, enc: bool)
    ensures
        enc ==> Read::next_phase(phase, enc).0 == phase,
        phase == Phase::Queued ==> Read::next_phase(phase, enc).1 != Progress::Ready,
        phase == Phase::Queued && !enc ==> Read::next_phase(Read::next_phase(phase, enc).0, false).1 == Progress::Ready,
{
}

/// A read moves on in one direction: it starts its conversions once the converter is idle, is pending for as long as
/// the converter is busy, and is ready once its own conversions have run, for good.
pub proof fn read_moves_on(phase: Phase, enc: bool)
    ensures
        Read::next_phase(phase, enc).1 is Started <==> phase is Queued && !enc,
        Read::next_phase(phase, enc).1 is Pending <==> enc && !(phase is Done),
        Read::next_phase(phase, enc).1 is Ready <==> phase is Done || (phase is Converting && !enc),
        Read::next_phase(phase, enc).1 is Started ==> Read::next_phase(phase, enc).0 is Converting,
        Read::next_phase(phase, enc).1 is Pending ==> Read::next_phase(phase, enc).0 == phase,
        Read::next_phase(phase, enc).1 is Ready ==> Read::next_phase(phase, enc).0 is Done,
{
}

/// Each setting averages as many conversions as it is named for, which is what it accumulates.
pub proof fn averaging_counts_its_conversions(averaging: Averaging)
    ensures
        averaging is X2 ==> averaging.count() == 2 && averaging.regs().0 is Avg2,
        averaging is X4 ==> averaging.count() == 4 && averaging.regs().0 is Avg4,
        averaging is X8 ==> averaging.count() == 8 && averaging.regs().0 is Avg8,
        averaging is X16 ==> averaging.count() == 16 && averaging.regs().0 is Avg16,
        averaging is X32 ==> averaging.count() == 32 && averaging.regs().0 is Avg32,
        averaging is X64 ==> averaging.count() == 64 && averaging.regs().0 is Avg64,
        averaging is X128 ==> averaging.count() == 128 && averaging.regs().0 is Avg128,
{
}

/// The figure published for a gain is that of a row for it, with no earlier row for it; a gain has none exactly where
/// no row is for it.
pub proof fn published_figure_is_the_first_row_for_its_gain(table: Seq<(u8, u32)>, gain: u8)
    ensures
        published(table, gain) is None <==> forall|i: int| 0 <= i < table.len() ==> (#[trigger] table[i]).0 != gain,
        published(table, gain) matches Some(ns) ==> exists|i: int|
            #![trigger table[i]]
            {
                &&& 0 <= i < table.len()
                &&& table[i] == (gain, ns)
                &&& forall|j: int| 0 <= j < i ==> (#[trigger] table[j]).0 != gain
            },
    decreases table.len(),
{
    if table.len() > 0 && table[0].0 != gain {
        let rest = table.drop_first();
        published_figure_is_the_first_row_for_its_gain(rest, gain);
        assert forall|i: int| 0 <= i < rest.len() implies #[trigger] rest[i] == table[i + 1] by {}
        if published(table, gain) is None {
            assert forall|i: int| 0 <= i < table.len() implies (#[trigger] table[i]).0 != gain by {
                if i > 0 {
                    assert(rest[i - 1].0 != gain);
                }
            }
        } else {
            let ns = published(table, gain)->Some_0;
            let i = choose|i: int|
                #![trigger rest[i]]
                {
                    &&& 0 <= i < rest.len()
                    &&& rest[i] == (gain, ns)
                    &&& forall|j: int| 0 <= j < i ==> (#[trigger] rest[j]).0 != gain
                };
            assert(table[i + 1] == (gain, ns));
            assert forall|j: int| 0 <= j < i + 1 implies (#[trigger] table[j]).0 != gain by {
                if j > 0 {
                    assert(rest[j - 1].0 != gain);
                }
            }
        }
    } else if table.len() > 0 {
        assert(table[0] == (gain, table[0].1));
    }
}

/// The default configuration converts at full resolution from SYSOSC, without averaging, and samples for 6.25 us at the
/// SAMPCLK the divider aims for. Its periods are ones the comparators can count.
pub proof fn default_samples_for_6250_ns()
    ensures
        Config::default_spec().resolution is Bits12,
        Config::default_spec().sample_clk matches SampleClockSel::Source(source) && source is Sysosc,
        Config::default_spec().averaging is None,
        countable(Config::default_spec().sample_period_0) && countable(Config::default_spec().sample_period_1),
        Config::default_spec().sample_period_0 * 1_000_000_000 == 6_250 * 8_000_000,
        Config::default_spec().sample_period_1 == Config::default_spec().sample_period_0,
        Conversion::default_spec().vrsel is VddaVssa,
        Conversion::default_spec().stime is Scomp0,
        !Conversion::default_spec().average,
{
}

/// Each comparator is the register of its number.
pub proof fn comparators_are_their_registers(comparator: SampleTimeComparator)
    ensures
        comparator is Scomp0 ==> comparator.index_spec() == 0,
        comparator is Scomp1 ==> comparator.index_spec() == 1,
{
}

/// A blocking read waits for the converter to be idle before it aims it and after it starts it, and what it converts
/// in between is its own channel, into result 0.
pub proof fn blocking_read_converts_its_own_channel(ch: u8, conversion: Conversion)
    ensures
        ({
            let asked = read_accesses(ch, conversion);

            &&& asked.len() == 6
            &&& asked[0] is WaitIdle
            &&& asked[1] matches Access::Memctl(i, entry) && i == 0 && low_level::converts(entry, ch, conversion)
            &&& asked[2] matches Access::Window { startadd, endadd } && startadd == 0 && endadd == 0
            &&& asked[3] is EnableConversion && asked[4] is StartConversion
            &&& asked[5] is WaitIdle
        }),
{
    low_level::one_channel_lands_in_result_0(ch, conversion);
}

/// A read by interrupt is woken by its last result alone, armed once every channel has been aimed at and before the
/// conversions start.
pub proof fn read_is_woken_by_its_last_result(
    sequence: Seq<(u8, Conversion)>,
    before: Seq<Access>,
    after: Seq<Access>,
)
    requires
        Read::started(sequence, before, after),
        1 <= sequence.len() <= 32,
    ensures
        ({
            let n = sequence.len() as int;
            let asked = after.skip(before.len() as int);

            &&& asked.len() == n + 4
            &&& after.take(before.len() as int) == before
            &&& forall|i: int|
                0 <= i < n ==> (#[trigger] asked[i] matches Access::Memctl(at, entry) && at == i && low_level::converts(
                    entry,
                    sequence[i].0,
                    sequence[i].1,
                ))
            &&& asked[n] matches Access::Window { startadd, endadd } && startadd == 0 && endadd == n - 1
            &&& asked[n + 1] matches Access::StoreImask(mask) && forall|event: Event|
                event.in_register() ==> (#[trigger] mask.has(event) <==> event == Event::Result((n - 1) as u8))
            &&& asked[n + 2] is EnableConversion && asked[n + 3] is StartConversion
        }),
{
    let n = sequence.len() as int;
    let m = before.len() as int;
    let asked = after.skip(m);
    let aim = low_level::aim_sequence(sequence);
    low_level::sequence_is_converted_in_order(sequence);
    assert(after.take(m + n + 1) =~= before + aim);
    assert forall|i: int| 0 <= i <= n implies #[trigger] asked[i] == aim[i] by {
        assert(after.take(m + n + 1)[m + i] == (before + aim)[m + i]);
    }
    assert(after.take(m) =~= before) by {
        assert forall|i: int| 0 <= i < m implies after[i] == before[i] by {
            assert(after.take(m + n + 1)[i] == (before + aim)[i]);
        }
    }
    assert(after.skip(m + n + 2)[0] == asked[n + 2]);
    assert(after.skip(m + n + 2)[1] == asked[n + 3]);
}

} // verus!
