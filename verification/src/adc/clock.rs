//! The sample clock: its divider, and the band its rate falls in.

use super::Instance;
use crate::sysctl::Clocks;
use vstd::prelude::*;

verus! {

/// Sample clock source for ADC, which becomes ADCCLK.
///
/// The source has to run inside the device's `fADCCLK` range, which is per device rather than per family.
#[derive(Debug, Clone, Copy, PartialEq, Eq, Structural)]
pub enum SampleClock {
    /// ULPCLK, the PD0 bus clock, which follows MCLK.
    ///
    /// Useful for a deterministic start of sampling, and the only source that lets several ADC
    /// instances sample simultaneously.
    Ulpclk,
    /// SYSOSC, at whatever operating point the clock tree left it.
    ///
    /// Unlike the others this cannot fail to be present: an ADC trigger with SYSOSC switched off
    /// makes the ADC request it back at its base frequency for the conversion.
    Sysosc,
    /// HFCLK, which has to be configured.
    ///
    /// The lowest-jitter option, for when the sampling instant has to be accurate. Only on a device
    /// with a crystal driver.
    Hfclk,
}

/// `CTL0.SCLKDIV`: what SAMPCLK is divided from ADCCLK by.
#[derive(Debug, Clone, Copy, PartialEq, Eq, Structural)]
pub enum Sclkdiv {
    /// Divide by 1.
    DivBy1,
    /// Divide by 2.
    DivBy2,
    /// Divide by 4.
    DivBy4,
    /// Divide by 8.
    DivBy8,
    /// Divide by 16.
    DivBy16,
    /// Divide by 24.
    DivBy24,
    /// Divide by 32.
    DivBy32,
    /// Divide by 48.
    DivBy48,
}

impl Sclkdiv {
    /// The divisor.
    pub open spec fn divisor_spec(self) -> u32 {
        match self {
            Sclkdiv::DivBy1 => 1,
            Sclkdiv::DivBy2 => 2,
            Sclkdiv::DivBy4 => 4,
            Sclkdiv::DivBy8 => 8,
            Sclkdiv::DivBy16 => 16,
            Sclkdiv::DivBy24 => 24,
            Sclkdiv::DivBy32 => 32,
            Sclkdiv::DivBy48 => 48,
        }
    }

    /// The divisor.
    pub fn divisor(self) -> (divisor: u32)
        ensures
            divisor == self.divisor_spec(),
    {
        match self {
            Sclkdiv::DivBy1 => 1,
            Sclkdiv::DivBy2 => 2,
            Sclkdiv::DivBy4 => 4,
            Sclkdiv::DivBy8 => 8,
            Sclkdiv::DivBy16 => 16,
            Sclkdiv::DivBy24 => 24,
            Sclkdiv::DivBy32 => 32,
            Sclkdiv::DivBy48 => 48,
        }
    }

    /// The next larger divisor, if there is one.
    pub open spec fn next_spec(self) -> Option<Sclkdiv> {
        match self {
            Sclkdiv::DivBy1 => Some(Sclkdiv::DivBy2),
            Sclkdiv::DivBy2 => Some(Sclkdiv::DivBy4),
            Sclkdiv::DivBy4 => Some(Sclkdiv::DivBy8),
            Sclkdiv::DivBy8 => Some(Sclkdiv::DivBy16),
            Sclkdiv::DivBy16 => Some(Sclkdiv::DivBy24),
            Sclkdiv::DivBy24 => Some(Sclkdiv::DivBy32),
            Sclkdiv::DivBy32 => Some(Sclkdiv::DivBy48),
            Sclkdiv::DivBy48 => None,
        }
    }

    fn next(self) -> (next: Option<Sclkdiv>)
        ensures
            next == self.next_spec(),
    {
        match self {
            Sclkdiv::DivBy1 => Some(Sclkdiv::DivBy2),
            Sclkdiv::DivBy2 => Some(Sclkdiv::DivBy4),
            Sclkdiv::DivBy4 => Some(Sclkdiv::DivBy8),
            Sclkdiv::DivBy8 => Some(Sclkdiv::DivBy16),
            Sclkdiv::DivBy16 => Some(Sclkdiv::DivBy24),
            Sclkdiv::DivBy24 => Some(Sclkdiv::DivBy32),
            Sclkdiv::DivBy32 => Some(Sclkdiv::DivBy48),
            Sclkdiv::DivBy48 => None,
        }
    }

    /// Whether dividing `adcclk_hz` by this gives `target_hz` or below.
    pub open spec fn reaches(self, adcclk_hz: u32, target_hz: u32) -> bool {
        adcclk_hz <= target_hz * self.divisor_spec()
    }

    /// Whether this is the smallest divisor up to `largest` that brings `adcclk_hz` to `target_hz` or
    /// below, or `largest` itself where none does.
    pub open spec fn is_smallest_for(self, adcclk_hz: u32, target_hz: u32, largest: Sclkdiv) -> bool {
        &&& self.divisor_spec() <= largest.divisor_spec()
        &&& self.reaches(adcclk_hz, target_hz) || self == largest
        &&& forall|smaller: Sclkdiv|
            smaller.divisor_spec() < self.divisor_spec() ==> !#[trigger] smaller.reaches(adcclk_hz, target_hz)
    }
}

/// `CLKFREQ.FRANGE`: the band ADCCLK runs in, in megahertz.
#[derive(Debug, Clone, Copy, PartialEq, Eq, Structural)]
pub enum Frange {
    /// 1 to 4 MHz.
    Range1to4,
    /// 4 to 8 MHz.
    Range4to8,
    /// 8 to 16 MHz.
    Range8to16,
    /// 16 to 20 MHz.
    Range16to20,
    /// 20 to 24 MHz.
    Range20to24,
    /// 24 to 32 MHz.
    Range24to32,
    /// 32 to 40 MHz.
    Range32to40,
    /// 40 to 48 MHz.
    Range40to48,
}

impl Frange {
    /// The bottom of the band, which belongs to the band below.
    pub open spec fn floor_hz(self) -> int {
        match self {
            Frange::Range1to4 => 1_000_000,
            Frange::Range4to8 => 4_000_000,
            Frange::Range8to16 => 8_000_000,
            Frange::Range16to20 => 16_000_000,
            Frange::Range20to24 => 20_000_000,
            Frange::Range24to32 => 24_000_000,
            Frange::Range32to40 => 32_000_000,
            Frange::Range40to48 => 40_000_000,
        }
    }

    /// The top of the band, which belongs to it.
    pub open spec fn ceiling_hz(self) -> int {
        match self {
            Frange::Range1to4 => 4_000_000,
            Frange::Range4to8 => 8_000_000,
            Frange::Range8to16 => 16_000_000,
            Frange::Range16to20 => 20_000_000,
            Frange::Range20to24 => 24_000_000,
            Frange::Range24to32 => 32_000_000,
            Frange::Range32to40 => 40_000_000,
            Frange::Range40to48 => 48_000_000,
        }
    }

    fn from_bits(bits: usize) -> (frange: Frange)
        requires
            bits < 8,
        ensures
            frange.index() == bits,
    {
        match bits {
            0 => Frange::Range1to4,
            1 => Frange::Range4to8,
            2 => Frange::Range8to16,
            3 => Frange::Range16to20,
            4 => Frange::Range20to24,
            5 => Frange::Range24to32,
            6 => Frange::Range32to40,
            _ => Frange::Range40to48,
        }
    }

    /// The encoding.
    pub open spec fn index(self) -> int {
        match self {
            Frange::Range1to4 => 0,
            Frange::Range4to8 => 1,
            Frange::Range8to16 => 2,
            Frange::Range16to20 => 3,
            Frange::Range20to24 => 4,
            Frange::Range24to32 => 5,
            Frange::Range32to40 => 6,
            Frange::Range40to48 => 7,
        }
    }
}

/// Span of ADCCLK the `CLKFREQ.FRANGE` bands cover, from band 0's floor to band 7's ceiling: the bottom.
pub const FRANGE_MIN_HZ: u32 = 1_000_000;

/// The top of the span.
pub const FRANGE_MAX_HZ: u32 = 48_000_000;

/// Rate this driver aims to run SAMPCLK at.
///
/// `SCOMPx` counts the sample window in SAMPCLK cycles, so holding SAMPCLK steady is what keeps a sample
/// period a fixed duration across clock trees.
pub const TARGET_SAMPCLK_HZ: u32 = 8_000_000;

/// Unit the `FRANGE` band ceilings are all multiples of.
const FRANGE_STEP_HZ: u32 = 4_000_000;

/// Each `FRANGE` band's ceiling in [`FRANGE_STEP_HZ`] units, in band order.
const FRANGE_CEILINGS: [u8; 8] = [1, 2, 4, 5, 6, 8, 10, 12];

/// Smallest `CTL0.SCLKDIV`, up to a division by eight, that brings `adcclk_hz` down to
/// [`TARGET_SAMPCLK_HZ`] or below.
pub fn sample_clock_div(adcclk_hz: u32) -> (sclkdiv: Sclkdiv)
    ensures
        sclkdiv.is_smallest_for(adcclk_hz, TARGET_SAMPCLK_HZ, Sclkdiv::DivBy8),
{
    if adcclk_hz <= TARGET_SAMPCLK_HZ {
        Sclkdiv::DivBy1
    } else if adcclk_hz <= TARGET_SAMPCLK_HZ << 1 {
        assert(8_000_000u32 << 1 == 16_000_000u32) by (bit_vector);
        Sclkdiv::DivBy2
    } else if adcclk_hz <= TARGET_SAMPCLK_HZ << 2 {
        assert(8_000_000u32 << 1 == 16_000_000u32 && 8_000_000u32 << 2 == 32_000_000u32) by (bit_vector);
        Sclkdiv::DivBy4
    } else {
        assert(8_000_000u32 << 1 == 16_000_000u32 && 8_000_000u32 << 2 == 32_000_000u32) by (bit_vector);
        Sclkdiv::DivBy8
    }
}

/// Smallest `CTL0.SCLKDIV` that brings `adcclk_hz` down to `target_hz` or below.
pub fn sample_clock_div_to(adcclk_hz: u32, target_hz: u32) -> (sclkdiv: Sclkdiv)
    ensures
        sclkdiv.is_smallest_for(adcclk_hz, target_hz, Sclkdiv::DivBy48),
{
    let mut sclkdiv = Sclkdiv::DivBy1;

    loop
        invariant
            forall|smaller: Sclkdiv|
                smaller.divisor_spec() < sclkdiv.divisor_spec() ==> !#[trigger] smaller.reaches(adcclk_hz, target_hz),
        ensures
            sclkdiv.is_smallest_for(adcclk_hz, target_hz, Sclkdiv::DivBy48),
        decreases 48 - sclkdiv.divisor_spec(),
    {
        assert(target_hz * sclkdiv.divisor_spec() <= u32::MAX * 48) by (nonlinear_arith)
            requires
                target_hz <= u32::MAX,
                sclkdiv.divisor_spec() <= 48,
        ;
        if adcclk_hz as u64 <= target_hz as u64 * sclkdiv.divisor() as u64 {
            break;
        }
        assert(!sclkdiv.reaches(adcclk_hz, target_hz));
        match sclkdiv.next() {
            Some(next) => {
                sclkdiv = next;
            },
            None => {
                break;
            },
        }
    }
    sclkdiv
}

/// The band a rate falls in: the lowest whose ceiling the rate does not exceed, or the highest.
pub open spec fn band_of(adcclk_hz: u32) -> Frange {
    if adcclk_hz <= 4_000_000 {
        Frange::Range1to4
    } else if adcclk_hz <= 8_000_000 {
        Frange::Range4to8
    } else if adcclk_hz <= 16_000_000 {
        Frange::Range8to16
    } else if adcclk_hz <= 20_000_000 {
        Frange::Range16to20
    } else if adcclk_hz <= 24_000_000 {
        Frange::Range20to24
    } else if adcclk_hz <= 32_000_000 {
        Frange::Range24to32
    } else if adcclk_hz <= 40_000_000 {
        Frange::Range32to40
    } else {
        Frange::Range40to48
    }
}

/// The `CLKFREQ.FRANGE` band `adcclk_hz` falls in.
///
/// Describes ADCCLK itself, before `SCLKDIV`. Bands are open at the bottom and closed at the top, so
/// a rate on a boundary belongs to the lower one.
pub fn clock_range(adcclk_hz: u32) -> (frange: Frange)
    ensures
        frange == band_of(adcclk_hz),
{
    let mut i: usize = 0;

    while i < 7 && adcclk_hz > FRANGE_CEILINGS[i] as u32 * FRANGE_STEP_HZ
        invariant
            i <= 7,
            i >= 1 ==> adcclk_hz > 4_000_000,
            i >= 2 ==> adcclk_hz > 8_000_000,
            i >= 3 ==> adcclk_hz > 16_000_000,
            i >= 4 ==> adcclk_hz > 20_000_000,
            i >= 5 ==> adcclk_hz > 24_000_000,
            i >= 6 ==> adcclk_hz > 32_000_000,
            i >= 7 ==> adcclk_hz > 40_000_000,
        decreases 7 - i,
    {
        i += 1;
    }
    Frange::from_bits(i)
}

/// Every rate the bands span falls in the band that names it, above its floor and up to its ceiling.
pub proof fn band_holds_its_rate(adcclk_hz: u32)
    requires
        FRANGE_MIN_HZ < adcclk_hz <= FRANGE_MAX_HZ,
    ensures
        band_of(adcclk_hz).floor_hz() < adcclk_hz <= band_of(adcclk_hz).ceiling_hz(),
{
}

/// Wherever some divisor reaches the target, the one picked does: SAMPCLK is at most `target_hz`.
pub proof fn sampclk_is_at_most_the_target(sclkdiv: Sclkdiv, adcclk_hz: u32, target_hz: u32)
    requires
        sclkdiv.is_smallest_for(adcclk_hz, target_hz, Sclkdiv::DivBy48),
        adcclk_hz <= target_hz * 48,
    ensures
        adcclk_hz as int / sclkdiv.divisor_spec() as int <= target_hz,
        sclkdiv.reaches(adcclk_hz, target_hz),
{
    let divisor = sclkdiv.divisor_spec() as int;
    assert(adcclk_hz as int / divisor <= target_hz) by (nonlinear_arith)
        requires
            adcclk_hz <= target_hz * divisor,
            divisor > 0,
    ;
}

/// The two ladders agree on every rate a device can run ADCCLK at.
pub proof fn ladders_agree(sclkdiv: Sclkdiv, other: Sclkdiv, adcclk_hz: u32)
    requires
        sclkdiv.is_smallest_for(adcclk_hz, TARGET_SAMPCLK_HZ, Sclkdiv::DivBy8),
        other.is_smallest_for(adcclk_hz, TARGET_SAMPCLK_HZ, Sclkdiv::DivBy48),
        adcclk_hz <= FRANGE_MAX_HZ,
    ensures
        sclkdiv == other,
{
    assert(TARGET_SAMPCLK_HZ * Sclkdiv::DivBy8.divisor_spec() == 64_000_000) by (nonlinear_arith);
    assert(Sclkdiv::DivBy8.reaches(adcclk_hz, TARGET_SAMPCLK_HZ));
    assert(!(other.divisor_spec() > 8));
    assert(sclkdiv.reaches(adcclk_hz, TARGET_SAMPCLK_HZ));
    assert(other.reaches(adcclk_hz, TARGET_SAMPCLK_HZ));
    assert(sclkdiv.divisor_spec() == other.divisor_spec());
}

/// How the sample clock reaches the hardware.
#[derive(Clone, Copy, PartialEq, Eq, Debug, Structural)]
pub enum SampleClockSel {
    /// Read the clock tree and work the divider and band out from it.
    Source(SampleClock),
    /// Apply a divider and band solved ahead of time.
    Solved(SolvedSampleClock),
}

impl From<SampleClock> for SampleClockSel {
    fn from(source: SampleClock) -> (sel: Self) {
        Self::Source(source)
    }
}

impl vstd::std_specs::convert::FromSpecImpl<SampleClock> for SampleClockSel {
    open spec fn obeys_from_spec() -> bool {
        true
    }

    open spec fn from_spec(source: SampleClock) -> Self {
        Self::Source(source)
    }
}

impl From<SolvedSampleClock> for SampleClockSel {
    fn from(solved: SolvedSampleClock) -> (sel: Self) {
        Self::Solved(solved)
    }
}

impl vstd::std_specs::convert::FromSpecImpl<SolvedSampleClock> for SampleClockSel {
    open spec fn obeys_from_spec() -> bool {
        true
    }

    open spec fn from_spec(solved: SolvedSampleClock) -> Self {
        Self::Solved(solved)
    }
}

/// A sample clock with its `CTL0.SCLKDIV` and `CLKFREQ.FRANGE` already worked out.
///
/// The fields are private because they have to agree with each other and with the rate they were solved
/// for.
#[derive(Clone, Copy, PartialEq, Eq, Debug, Structural)]
pub struct SolvedSampleClock {
    source: SampleClock,
    /// What ADCCLK runs at, kept for the sleep guard rather than for the registers.
    adcclk_hz: u32,
    sclkdiv: Sclkdiv,
    frange: Frange,
}

/// Whether a rate is inside the device's `fADCCLK`.
pub open spec fn in_clock_range<T: Instance>(adcclk_hz: u32) -> bool {
    T::CLK_MIN_HZ <= adcclk_hz <= T::CLK_MAX_HZ
}

impl SolvedSampleClock {
    /// The source.
    pub closed spec fn source(self) -> SampleClock {
        self.source
    }

    /// The rate of ADCCLK.
    pub closed spec fn adcclk_hz(self) -> u32 {
        self.adcclk_hz
    }

    /// The divider.
    pub closed spec fn sclkdiv(self) -> Sclkdiv {
        self.sclkdiv
    }

    /// The band.
    pub closed spec fn frange(self) -> Frange {
        self.frange
    }

    /// Solve the divider and band for `source` running at `adcclk_hz`, or [`None`] if that rate is
    /// outside this device's `fADCCLK`.
    ///
    /// `adcclk_hz` must be the rate `source` actually runs at.
    pub fn solve<T: Instance>(source: SampleClock, adcclk_hz: u32) -> (solved: Option<Self>)
        ensures
            solved is Some <==> in_clock_range::<T>(adcclk_hz),
            solved matches Some(solved) ==> {
                &&& solved.source() == source
                &&& solved.adcclk_hz() == adcclk_hz
                &&& solved.sclkdiv().is_smallest_for(adcclk_hz, TARGET_SAMPCLK_HZ, Sclkdiv::DivBy48)
                &&& solved.frange() == band_of(adcclk_hz)
            },
    {
        if adcclk_hz < T::CLK_MIN_HZ || adcclk_hz > T::CLK_MAX_HZ {
            return None;
        }
        Self::solve_at::<T>(source, adcclk_hz, TARGET_SAMPCLK_HZ)
    }

    /// Solve for a SAMPCLK of `target_hz` rather than the driver's default.
    ///
    /// Picks the smallest `SCLKDIV` that brings `adcclk_hz` to `target_hz` or below. [`None`] if
    /// `adcclk_hz` is outside this device's `fADCCLK`.
    ///
    /// `SCOMPx` counts the sample window in SAMPCLK cycles, so a slower SAMPCLK buys a longer reachable
    /// window. The successive-approximation stage is clocked from it too, so a faster SAMPCLK shortens
    /// every conversion. The minimum sample window is not checked: only the caller knows what is driving
    /// the input.
    pub fn solve_at<T: Instance>(source: SampleClock, adcclk_hz: u32, target_hz: u32) -> (solved: Option<Self>)
        ensures
            solved is Some <==> in_clock_range::<T>(adcclk_hz),
            solved matches Some(solved) ==> {
                &&& solved.source() == source
                &&& solved.adcclk_hz() == adcclk_hz
                &&& solved.sclkdiv().is_smallest_for(adcclk_hz, target_hz, Sclkdiv::DivBy48)
                &&& solved.frange() == band_of(adcclk_hz)
            },
    {
        if adcclk_hz < T::CLK_MIN_HZ || adcclk_hz > T::CLK_MAX_HZ {
            return None;
        }
        Some(
            SolvedSampleClock {
                source,
                adcclk_hz,
                sclkdiv: sample_clock_div_to(adcclk_hz, target_hz),
                frange: clock_range(adcclk_hz),
            },
        )
    }
}

/// What ADCCLK runs at with `source` selected as the sample clock.
///
/// Switching SYSOSC off does not take the ADC with it: the ADC requests SYSOSC back at its base frequency
/// for the duration of a conversion.
pub open spec fn source_hz<T: Instance>(source: SampleClock, clocks: Clocks) -> u32 {
    match source {
        SampleClock::Ulpclk => clocks.ulpclk,
        SampleClock::Sysosc => if clocks.sysosc == 0 {
            T::SYSOSC_BASE_HZ
        } else {
            clocks.sysosc
        },
        SampleClock::Hfclk => clocks.hfclk,
    }
}

/// The rate of a source of the sample clock.
fn rate_of<T: Instance>(source: SampleClock, clocks: &Clocks) -> (hz: u32)
    ensures
        hz == source_hz::<T>(source, *clocks),
{
    match source {
        SampleClock::Ulpclk => clocks.ulpclk,
        SampleClock::Sysosc => if clocks.sysosc == 0 {
            T::SYSOSC_BASE_HZ
        } else {
            clocks.sysosc
        },
        SampleClock::Hfclk => clocks.hfclk,
    }
}

/// What ADCCLK runs at with `source` selected as the sample clock.
///
/// The rate has to be inside `fADCCLK`: a clock that is stopped, or outside the range, is a caller error.
pub fn adc_clock_hz<T: Instance>(source: SampleClock, clocks: &Clocks) -> (hz: u32)
    requires
        in_clock_range::<T>(source_hz::<T>(source, *clocks)),
    ensures
        hz == source_hz::<T>(source, *clocks),
{
    rate_of::<T>(source, clocks)
}

/// The source, the rate, and the `CTL0.SCLKDIV`/`CLKFREQ.FRANGE` pair a selection implies.
#[derive(Clone, Copy, PartialEq, Eq, Debug, Structural)]
pub struct ClockRegs {
    /// Source.
    pub source: SampleClock,
    /// Rate of ADCCLK.
    pub adcclk_hz: u32,
    /// Divider.
    pub sclkdiv: Sclkdiv,
    /// Band.
    pub frange: Frange,
}

/// Whether a selection is one the device can run: a source has to be inside `fADCCLK`, and a solved
/// clock was checked when it was solved.
pub open spec fn can_clock<T: Instance>(sel: SampleClockSel, clocks: Clocks) -> bool {
    sel matches SampleClockSel::Source(source) ==> in_clock_range::<T>(source_hz::<T>(source, clocks))
}

/// Whether a selection is one the device can run.
pub fn is_clockable<T: Instance>(sel: SampleClockSel, clocks: &Clocks) -> (can: bool)
    ensures
        can == can_clock::<T>(sel, *clocks),
{
    match sel {
        SampleClockSel::Solved(_) => true,
        SampleClockSel::Source(source) => {
            let hz: u32 = rate_of::<T>(source, clocks);

            T::CLK_MIN_HZ <= hz && hz <= T::CLK_MAX_HZ
        },
    }
}

/// Whether these are the clock registers a selection implies.
pub open spec fn clocked_by<T: Instance>(regs: ClockRegs, sel: SampleClockSel, clocks: Clocks) -> bool {
    match sel {
        SampleClockSel::Solved(solved) => {
            &&& regs.source == solved.source()
            &&& regs.adcclk_hz == solved.adcclk_hz()
            &&& regs.sclkdiv == solved.sclkdiv()
            &&& regs.frange == solved.frange()
        },
        SampleClockSel::Source(source) => {
            &&& regs.source == source
            &&& regs.adcclk_hz == source_hz::<T>(source, clocks)
            &&& regs.sclkdiv.is_smallest_for(regs.adcclk_hz, TARGET_SAMPCLK_HZ, Sclkdiv::DivBy8)
            &&& regs.frange == band_of(regs.adcclk_hz)
        },
    }
}

/// The clock registers a selection implies.
pub fn adc_clock_regs<T: Instance>(sel: SampleClockSel, clocks: &Clocks) -> (regs: ClockRegs)
    requires
        can_clock::<T>(sel, *clocks),
    ensures
        clocked_by::<T>(regs, sel, *clocks),
{
    match sel {
        SampleClockSel::Solved(solved) => ClockRegs {
            source: solved.source,
            adcclk_hz: solved.adcclk_hz,
            sclkdiv: solved.sclkdiv,
            frange: solved.frange,
        },
        SampleClockSel::Source(source) => solve_clock_regs::<T>(source, clocks),
    }
}

/// Work the rate, divider and band out from the clock tree.
pub fn solve_clock_regs<T: Instance>(source: SampleClock, clocks: &Clocks) -> (regs: ClockRegs)
    requires
        in_clock_range::<T>(source_hz::<T>(source, *clocks)),
    ensures
        clocked_by::<T>(regs, SampleClockSel::Source(source), *clocks),
{
    let adcclk_hz: u32 = adc_clock_hz::<T>(source, clocks);

    ClockRegs { source, adcclk_hz, sclkdiv: sample_clock_div(adcclk_hz), frange: clock_range(adcclk_hz) }
}

/// A clock solved ahead of time, for the rate the tree really gives its source, programs the registers
/// that reading the tree programs.
pub proof fn solved_clock_matches_the_tree<T: Instance>(
    solved: SolvedSampleClock,
    clocks: Clocks,
    regs: ClockRegs,
    read: ClockRegs,
)
    requires
        T::CLK_MAX_HZ <= FRANGE_MAX_HZ,
        in_clock_range::<T>(solved.adcclk_hz()),
        solved.adcclk_hz() == source_hz::<T>(solved.source(), clocks),
        solved.sclkdiv().is_smallest_for(solved.adcclk_hz(), TARGET_SAMPCLK_HZ, Sclkdiv::DivBy48),
        solved.frange() == band_of(solved.adcclk_hz()),
        clocked_by::<T>(regs, SampleClockSel::Solved(solved), clocks),
        clocked_by::<T>(read, SampleClockSel::Source(solved.source()), clocks),
    ensures
        regs == read,
{
    ladders_agree(read.sclkdiv, regs.sclkdiv, solved.adcclk_hz());
}

/// Each divider divides by the number it is named for.
pub proof fn dividers_divide_by_their_names(sclkdiv: Sclkdiv)
    ensures
        sclkdiv is DivBy1 ==> sclkdiv.divisor_spec() == 1,
        sclkdiv is DivBy2 ==> sclkdiv.divisor_spec() == 2,
        sclkdiv is DivBy4 ==> sclkdiv.divisor_spec() == 4,
        sclkdiv is DivBy8 ==> sclkdiv.divisor_spec() == 8,
        sclkdiv is DivBy16 ==> sclkdiv.divisor_spec() == 16,
        sclkdiv is DivBy24 ==> sclkdiv.divisor_spec() == 24,
        sclkdiv is DivBy32 ==> sclkdiv.divisor_spec() == 32,
        sclkdiv is DivBy48 ==> sclkdiv.divisor_spec() == 48,
{
}

/// The ladder of dividers climbs, and leaves none out.
pub proof fn ladder_skips_no_divider(sclkdiv: Sclkdiv, other: Sclkdiv)
    ensures
        sclkdiv.next_spec() matches Some(next) ==> {
            &&& sclkdiv.divisor_spec() < next.divisor_spec()
            &&& other.divisor_spec() <= sclkdiv.divisor_spec() || next.divisor_spec() <= other.divisor_spec()
        },
        sclkdiv.next_spec() is None ==> other.divisor_spec() <= sclkdiv.divisor_spec(),
{
}

/// The divider picked is not larger than it has to be: with any smaller one, SAMPCLK would exceed the target.
pub proof fn no_smaller_divider_would_do(
    sclkdiv: Sclkdiv,
    smaller: Sclkdiv,
    adcclk_hz: u32,
    target_hz: u32,
    largest: Sclkdiv,
)
    requires
        sclkdiv.is_smallest_for(adcclk_hz, target_hz, largest),
        smaller.divisor_spec() < sclkdiv.divisor_spec(),
    ensures
        adcclk_hz > target_hz * smaller.divisor_spec(),
        sclkdiv.divisor_spec() <= largest.divisor_spec(),
        sclkdiv != largest ==> adcclk_hz <= target_hz * sclkdiv.divisor_spec(),
{
    assert(!smaller.reaches(adcclk_hz, target_hz));
}

/// Each band spans the megahertz it is named for, and its encoding counts the bands below it.
pub proof fn bands_span_their_names(band: Frange)
    ensures
        band is Range1to4 ==> band.floor_hz() == 1_000_000 && band.ceiling_hz() == 4_000_000 && band.index() == 0,
        band is Range4to8 ==> band.floor_hz() == 4_000_000 && band.ceiling_hz() == 8_000_000 && band.index() == 1,
        band is Range8to16 ==> band.floor_hz() == 8_000_000 && band.ceiling_hz() == 16_000_000 && band.index() == 2,
        band is Range16to20 ==> band.floor_hz() == 16_000_000 && band.ceiling_hz() == 20_000_000 && band.index() == 3,
        band is Range20to24 ==> band.floor_hz() == 20_000_000 && band.ceiling_hz() == 24_000_000 && band.index() == 4,
        band is Range24to32 ==> band.floor_hz() == 24_000_000 && band.ceiling_hz() == 32_000_000 && band.index() == 5,
        band is Range32to40 ==> band.floor_hz() == 32_000_000 && band.ceiling_hz() == 40_000_000 && band.index() == 6,
        band is Range40to48 ==> band.floor_hz() == 40_000_000 && band.ceiling_hz() == 48_000_000 && band.index() == 7,
{
}

/// The registers are solved for the rate the selected clock really runs at: that of ULPCLK or HFCLK in the tree, and
/// that of SYSOSC unless it is switched off, when the ADC requests it back at its base frequency. That rate is
/// what has to be inside the device's range, what the divider brings down to the target, and what the band
/// holds.
pub proof fn registers_are_solved_for_the_running_rate<T: Instance>(
    source: SampleClock,
    clocks: Clocks,
    regs: ClockRegs,
)
    requires
        clocked_by::<T>(regs, SampleClockSel::Source(source), clocks),
    ensures
        regs.source == source,
        source is Ulpclk ==> regs.adcclk_hz == clocks.ulpclk,
        source is Hfclk ==> regs.adcclk_hz == clocks.hfclk,
        source is Sysosc && clocks.sysosc != 0 ==> regs.adcclk_hz == clocks.sysosc,
        source is Sysosc && clocks.sysosc == 0 ==> regs.adcclk_hz == T::SYSOSC_BASE_HZ,
        source_hz::<T>(source, clocks) == regs.adcclk_hz,
        can_clock::<T>(SampleClockSel::Source(source), clocks) <==> T::CLK_MIN_HZ <= regs.adcclk_hz <= T::CLK_MAX_HZ,
        regs.adcclk_hz <= 64_000_000 ==> regs.adcclk_hz <= 8_000_000 * regs.sclkdiv.divisor_spec(),
        FRANGE_MIN_HZ < regs.adcclk_hz <= FRANGE_MAX_HZ ==> regs.frange.floor_hz() < regs.adcclk_hz
            <= regs.frange.ceiling_hz(),
{
    if regs.adcclk_hz <= 64_000_000 {
        assert(TARGET_SAMPCLK_HZ * Sclkdiv::DivBy8.divisor_spec() == 64_000_000) by (nonlinear_arith);
        assert(Sclkdiv::DivBy8.reaches(regs.adcclk_hz, TARGET_SAMPCLK_HZ));
        assert(regs.sclkdiv.reaches(regs.adcclk_hz, TARGET_SAMPCLK_HZ));
    }
}

/// A clock solved ahead of time is programmed as it was solved, whatever the tree holds.
pub proof fn solved_clock_is_taken_as_it_is<T: Instance>(
    solved: SolvedSampleClock,
    clocks: Clocks,
    other: Clocks,
    regs: ClockRegs,
)
    requires
        clocked_by::<T>(regs, SampleClockSel::Solved(solved), clocks),
    ensures
        can_clock::<T>(SampleClockSel::Solved(solved), other),
        clocked_by::<T>(regs, SampleClockSel::Solved(solved), other),
        regs.source == solved.source(),
        regs.adcclk_hz == solved.adcclk_hz(),
        regs.sclkdiv == solved.sclkdiv(),
        regs.frange == solved.frange(),
{
}

} // verus!
