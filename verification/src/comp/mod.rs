//! Analog comparator (COMP).
//!
//! Two things share this block: a comparator, and an 8-bit reference DAC that feeds it. The DAC is
//! worth having on its own, being wired to the amplifier's input mux as well as to the comparator. See
//! [`Comp::new_reference_only`].
//!
//! The comparator compares its positive and negative terminals and reports which is higher. Each
//! terminal takes either a pin or the reference, and [`Comp::wait_for_edge`] parks on a transition.
//!
//! # Errata this driver acts on
//!
//! - `COMP_ERR_05`: enabling the comparator raises both edge interrupts, so the first wait would return
//!   without an edge. The flags are cleared after enabling.
//! - `COMP_ERR_03`: hysteresis is unstable with the inputs exchanged. The pair is rejected.
//! - `COMP_ERR_01`: a comparator whose negative terminal is on channel 0 toggles on its own in
//!   STANDBY0. The sleep floor is raised to keep the device out of it.

mod settle;

pub use settle::{
    bounded_quotient, code_is_the_nearest, code_is_within_half_an_lsb, code_round_trips, covering_cycles, distance,
    div_ceil_no_builtin, div_up, divmod_no_builtin, enable_ns, nearest_code, nearest_count, wait_cycles,
    wait_is_never_short, wait_is_not_overlong, waits_are_for_their_figures, DacCode, Settling, SettlingCycles,
    MAX_MHZ, MAX_US,
};

use crate::bus::Bus;
use crate::gpio::{self, AnyPin, MaybeAnyPin, PfType, Pincm, Pull};
use crate::mode::{Async, Blocking, Mode};
use crate::sysctl::{Clocks, SleepLevel};
use core::marker::PhantomData;
use vstd::prelude::*;

verus! {

/// Speed and current of the comparator itself.
#[derive(Clone, Copy, PartialEq, Eq, Debug, Structural)]
pub enum Speed {
    /// Faster response, higher current.
    ///
    /// Cannot run on LFCLK: SYSCTL raises a clock error, so the driver rejects the combination.
    Fast,
    /// Lower current, slower response. Runs on any bus clock.
    UltraLowPower,
}

impl Speed {
    /// The default.
    pub const DEFAULT: Self = Self::Fast;
}

impl Default for Speed {
    fn default() -> (speed: Self)
        ensures
            speed == Speed::Fast,
    {
        Self::DEFAULT
    }
}

/// Built-in hysteresis, in millivolts of separation between the two switching thresholds.
#[derive(Clone, Copy, PartialEq, Eq, Debug, Structural)]
pub enum Hysteresis {
    /// No hysteresis: one threshold, and a slow input crosses it repeatedly on noise.
    Off,
    /// About 10 mV.
    Mv10,
    /// About 20 mV.
    Mv20,
    /// About 30 mV.
    Mv30,
}

/// `CTL1.HYST`.
#[derive(Clone, Copy, PartialEq, Eq, Debug, Structural)]
pub enum Hyst {
    /// No hysteresis.
    NoHys,
    /// Low hysteresis.
    LowHys,
    /// Medium hysteresis.
    MedHys,
    /// High hysteresis.
    HighHys,
}

impl Hysteresis {
    /// The default.
    pub const DEFAULT: Self = Self::Off;

    /// The register encoding.
    pub open spec fn vals(self) -> Hyst {
        match self {
            Hysteresis::Off => Hyst::NoHys,
            Hysteresis::Mv10 => Hyst::LowHys,
            Hysteresis::Mv20 => Hyst::MedHys,
            Hysteresis::Mv30 => Hyst::HighHys,
        }
    }

    /// The register encoding.
    pub fn to_vals(self) -> (vals: Hyst)
        ensures
            vals == self.vals(),
    {
        match self {
            Hysteresis::Off => Hyst::NoHys,
            Hysteresis::Mv10 => Hyst::LowHys,
            Hysteresis::Mv20 => Hyst::MedHys,
            Hysteresis::Mv30 => Hyst::HighHys,
        }
    }
}

impl Default for Hysteresis {
    fn default() -> (hysteresis: Self)
        ensures
            hysteresis == Hysteresis::Off,
    {
        Self::DEFAULT
    }
}

/// Output glitch filter delay.
#[derive(Clone, Copy, PartialEq, Eq, Debug, Structural)]
pub enum FilterDelay {
    /// The shortest delay the block offers.
    Short,
    /// Twice [`FilterDelay::Short`].
    Medium,
    /// Four times [`FilterDelay::Short`].
    Long,
    /// Eight times [`FilterDelay::Short`].
    Longest,
}

/// `CTL1.FLTDLY`.
#[derive(Clone, Copy, PartialEq, Eq, Debug, Structural)]
pub enum Fltdly {
    /// Shortest.
    Dly0,
    /// Second.
    Dly1,
    /// Third.
    Dly2,
    /// Longest.
    Dly3,
}

impl FilterDelay {
    /// The register encoding.
    pub open spec fn vals(self) -> Fltdly {
        match self {
            FilterDelay::Short => Fltdly::Dly0,
            FilterDelay::Medium => Fltdly::Dly1,
            FilterDelay::Long => Fltdly::Dly2,
            FilterDelay::Longest => Fltdly::Dly3,
        }
    }

    /// The register encoding.
    pub fn to_vals(self) -> (vals: Fltdly)
        ensures
            vals == self.vals(),
    {
        match self {
            FilterDelay::Short => Fltdly::Dly0,
            FilterDelay::Medium => Fltdly::Dly1,
            FilterDelay::Long => Fltdly::Dly2,
            FilterDelay::Longest => Fltdly::Dly3,
        }
    }
}

/// Which way round the output is reported.
#[derive(Clone, Copy, PartialEq, Eq, Debug, Structural)]
pub enum OutputPolarity {
    /// Output is high while the positive terminal is above the negative one.
    NonInverted,
    /// Output is inverted, and reads high while the comparator is disabled.
    Inverted,
}

impl OutputPolarity {
    /// The default.
    pub const DEFAULT: Self = Self::NonInverted;
}

impl Default for OutputPolarity {
    fn default() -> (polarity: Self)
        ensures
            polarity == OutputPolarity::NonInverted,
    {
        Self::DEFAULT
    }
}

/// What feeds the reference generator.
///
/// A bare name runs the DAC and takes its output as the reference; a `Direct` name bypasses the DAC
/// and uses the source itself.
///
/// The three internal-reference sources do not exist everywhere. Where a device lacks them they select
/// no reference at all rather than failing, so the driver rejects them there with
/// [`ConfigError::NoInternalReference`].
#[derive(Clone, Copy, PartialEq, Eq, Debug, Structural)]
pub enum ReferenceSource {
    /// The analog supply feeds the DAC, and the DAC's output is the reference.
    Vdda,
    /// The VREF module feeds the DAC, and the DAC's output is the reference.
    VrefModule,
    /// The VREF module is the reference directly, with the DAC switched off.
    ///
    /// Ignored while [`Reference::sampled`] is set, where the input is connected to the DAC whatever
    /// this says.
    VrefModuleDirect,
    /// The analog supply is the reference directly, with the DAC switched off. Not on every device.
    VddaDirect,
    /// A dedicated internal reference feeds the DAC, and the DAC's output is the reference. Not on
    /// every device.
    Internal,
    /// The dedicated internal reference directly, with the DAC switched off. Not on every device.
    InternalDirect,
}

/// `CTL2.REFSRC`.
#[derive(Clone, Copy, PartialEq, Eq, Debug, Structural)]
pub enum Refsrc {
    /// The generator is off.
    Off,
    /// VDDA through the DAC.
    VddaDac,
    /// VREF through the DAC.
    VrefDac,
    /// VREF.
    Vref,
    /// VDDA.
    Vdda,
    /// The internal reference through the DAC.
    IntvrefDac,
    /// The internal reference.
    Intvref,
}

impl ReferenceSource {
    /// The register encoding.
    pub open spec fn vals(self) -> Refsrc {
        match self {
            ReferenceSource::Vdda => Refsrc::VddaDac,
            ReferenceSource::VrefModule => Refsrc::VrefDac,
            ReferenceSource::VrefModuleDirect => Refsrc::Vref,
            ReferenceSource::VddaDirect => Refsrc::Vdda,
            ReferenceSource::Internal => Refsrc::IntvrefDac,
            ReferenceSource::InternalDirect => Refsrc::Intvref,
        }
    }

    /// The register encoding.
    pub fn to_vals(self) -> (vals: Refsrc)
        ensures
            vals == self.vals(),
    {
        match self {
            ReferenceSource::Vdda => Refsrc::VddaDac,
            ReferenceSource::VrefModule => Refsrc::VrefDac,
            ReferenceSource::VrefModuleDirect => Refsrc::Vref,
            ReferenceSource::VddaDirect => Refsrc::Vdda,
            ReferenceSource::Internal => Refsrc::IntvrefDac,
            ReferenceSource::InternalDirect => Refsrc::Intvref,
        }
    }

    /// Whether this is one of the positions only some devices implement.
    pub open spec fn is_internal(self) -> bool {
        self == ReferenceSource::VddaDirect || self == ReferenceSource::Internal || self
            == ReferenceSource::InternalDirect
    }

    /// Whether this is one of the positions only some devices implement.
    pub fn needs_internal_reference(self) -> (needs: bool)
        ensures
            needs == self.is_internal(),
    {
        matches!(self, ReferenceSource::VddaDirect | ReferenceSource::Internal | ReferenceSource::InternalDirect)
    }
}

/// Which terminal the reference is applied to.
#[derive(Clone, Copy, PartialEq, Eq, Debug, Structural)]
pub enum ReferenceTerminal {
    /// The reference is the threshold a rising input crosses from below.
    Negative,
    /// The reference is the threshold a falling input crosses from above.
    Positive,
}

impl ReferenceTerminal {
    /// The default.
    pub const DEFAULT: Self = Self::Negative;
}

impl Default for ReferenceTerminal {
    fn default() -> (terminal: Self)
        ensures
            terminal == ReferenceTerminal::Negative,
    {
        Self::DEFAULT
    }
}

/// The reference generator's configuration.
#[derive(Clone, Copy, PartialEq, Eq, Debug, Structural)]
pub struct Reference {
    /// What feeds the generator.
    pub source: ReferenceSource,
    /// Which comparator terminal it drives.
    ///
    /// Ignored where that terminal also has a pin: the channel selection takes precedence.
    pub terminal: ReferenceTerminal,
    /// The DAC code, where [`Self::source`] runs the DAC.
    pub code: DacCode,
    /// Run the bandgap, the buffer and the DAC in the low-power sampled mode.
    ///
    /// The DAC cannot be bypassed while this is set: the comparator input connects to it whatever
    /// [`Self::source`] says.
    pub sampled: bool,
}

impl Reference {
    /// The reset-ish default.
    pub fn new() -> (reference: Self)
        ensures
            reference.source == ReferenceSource::Vdda,
            reference.terminal == ReferenceTerminal::Negative,
            reference.code.bits() == 0,
            !reference.sampled,
    {
        Reference {
            source: ReferenceSource::Vdda,
            terminal: ReferenceTerminal::DEFAULT,
            code: DacCode::zero(),
            sampled: false,
        }
    }
}

impl Default for Reference {
    fn default() -> (reference: Self)
        ensures
            reference.source == ReferenceSource::Vdda,
            reference.terminal == ReferenceTerminal::Negative,
            reference.code.bits() == 0,
            !reference.sampled,
    {
        Self::new()
    }
}

/// Comparator configuration.
#[derive(Clone, Copy, PartialEq, Eq, Debug, Structural)]
pub struct Config {
    /// Speed and current of the comparator.
    pub speed: Speed,
    /// Separation between the rising and falling thresholds.
    pub hysteresis: Hysteresis,
    /// Which way round the output is reported.
    pub output_polarity: OutputPolarity,
    /// Glitch filter on the output, or [`None`] to report every transition.
    pub filter: Option<FilterDelay>,
    /// Swap the two terminals, which also inverts the output.
    ///
    /// Rejected together with hysteresis where `COMP_ERR_03` applies.
    pub exchange_inputs: bool,
    /// Where the two settling waits get their cycle counts.
    pub settling: Settling,
    /// The reference generator, or [`None`] to leave it off.
    ///
    /// An enabled generator holds VREF on and draws current whether or not anything reads it.
    pub reference: Option<Reference>,
}

impl Config {
    /// The default configuration.
    pub open spec fn default_spec() -> Config {
        Config {
            speed: Speed::Fast,
            hysteresis: Hysteresis::Off,
            output_polarity: OutputPolarity::NonInverted,
            filter: None,
            exchange_inputs: false,
            settling: Settling::FromClockTree,
            reference: None,
        }
    }

    /// The default configuration.
    pub fn new() -> (config: Self)
        ensures
            config == Self::default_spec(),
    {
        Config {
            speed: Speed::DEFAULT,
            hysteresis: Hysteresis::DEFAULT,
            output_polarity: OutputPolarity::DEFAULT,
            filter: None,
            exchange_inputs: false,
            settling: Settling::DEFAULT,
            reference: None,
        }
    }
}

impl Default for Config {
    fn default() -> (config: Self)
        ensures
            config == Self::default_spec(),
    {
        Self::new()
    }
}

/// Why a [`Comp`] could not be configured.
#[derive(Clone, Copy, PartialEq, Eq, Debug, Structural)]
pub enum ConfigError {
    /// [`Speed::Fast`] was asked for while the bus clock is LFCLK, which SYSCTL faults.
    FastModeOnLfclk,
    /// Hysteresis was combined with [`Config::exchange_inputs`], which `COMP_ERR_03` makes unstable.
    HysteresisWithExchangedInputs,
    /// A [`ReferenceSource`] this device does not implement, which would select no reference at all.
    NoInternalReference,
}

/// `CTL0`: which channel each terminal takes, and whether it takes one.
#[derive(Clone, Copy, PartialEq, Eq, Debug, Structural)]
pub struct Ctl0 {
    /// Positive channel.
    pub ipsel: u8,
    /// Positive channel enable.
    pub ipen: bool,
    /// Negative channel.
    pub imsel: u8,
    /// Negative channel enable.
    pub imen: bool,
}

/// `CTL1`, with every field this driver does not name left zero.
#[derive(Clone, Copy, PartialEq, Eq, Debug, Structural)]
pub struct Ctl1 {
    /// Speed of the comparator.
    pub mode: Speed,
    /// Hysteresis.
    pub hyst: Hyst,
    /// Output polarity.
    pub outpol: OutputPolarity,
    /// Exchange of the inputs.
    pub exch: bool,
    /// Filter enable.
    pub flten: bool,
    /// Filter delay.
    pub fltdly: Fltdly,
    /// Edge `COMPIFG` stands for: the falling one, or the rising one.
    pub ies: bool,
    /// Enable.
    pub enable: bool,
}

/// `CTL2`. The code comes from one `DACCODE` register under software control: the comparator's own output
/// switching between two of them is what `COMP_ERR_02` breaks, so it is not offered.
#[derive(Clone, Copy, PartialEq, Eq, Debug, Structural)]
pub struct Ctl2 {
    /// Reference source.
    pub refsrc: Refsrc,
    /// Terminal the reference drives.
    pub refsel: ReferenceTerminal,
    /// Sampled rather than static mode.
    pub sampled: bool,
    /// `DACCTL`: whether software selects the code.
    pub dacsw_selects: bool,
    /// `DACSW`: which `DACCODE` register is selected.
    pub dacsw: u8,
}

/// Bits of the comparator's interrupt registers.
#[derive(Clone, Copy, PartialEq, Eq, Debug, Structural)]
pub struct Flags {
    /// Rising edge of the output.
    pub compifg: bool,
    /// Falling edge of the output.
    pub compinvifg: bool,
    /// Output ready.
    pub outrdyifg: bool,
}

impl Flags {
    /// The two edges, and nothing else.
    pub open spec fn edges(rising: bool, falling: bool) -> Flags {
        Flags { compifg: rising, compinvifg: falling, outrdyifg: false }
    }
}

/// One access to a comparator.
#[derive(Clone, Copy, PartialEq, Eq, Debug, Structural)]
pub enum Access {
    /// An access to a pin.
    Pin(gpio::Access),
    /// Assert the reset and clear its sticky flag.
    Reset,
    /// Switch the power enable.
    Power(bool),
    /// Spin for this many CPU cycles.
    Delay(u32),
    /// Write `CTL0`.
    Ctl0(Ctl0),
    /// Write `CTL1`.
    Ctl1(Ctl1),
    /// Write `CTL2`.
    Ctl2(Ctl2),
    /// Write `CTL3` with this code in one `DACCODE` field, by number.
    DacCode(u8, u8),
    /// Read-modify-write of `CTL1.ENABLE`.
    Enable(bool),
    /// Read-modify-write of `CTL2.REFSRC` to [`Refsrc::Off`].
    ReferenceOff,
    /// Write `IMASK`.
    Imask(Flags),
    /// Write `ICLR`.
    Iclr(Flags),
    /// Wake the task that waits for the instance's interrupt.
    Wake,
}

/// Which of the two `DACCODE` registers this driver programs.
///
/// The pair exists so the comparator's own output can switch between them for asymmetric
/// hysteresis, which `COMP_ERR_02` breaks, so only one is ever used and `DACSW` is left pointing
/// at it.
pub const DACCODE: u8 = 0;

/// Which edge of the comparator output to wait for.
#[derive(Clone, Copy, PartialEq, Eq, Debug, Structural)]
pub enum Edge {
    /// The output going high.
    Rising,
    /// The output going low.
    Falling,
    /// Either transition.
    Any,
}

impl Edge {
    /// The flags that report this edge.
    pub open spec fn flags(self) -> Flags {
        Flags::edges(self != Edge::Falling, self != Edge::Rising)
    }

    /// Whether this edge is among the flags raised.
    pub open spec fn seen_in(self, ris: Flags) -> bool {
        match self {
            Edge::Rising => ris.compifg,
            Edge::Falling => ris.compinvifg,
            Edge::Any => ris.compifg || ris.compinvifg,
        }
    }
}

/// A comparator instance: what the device's metadata says of it.
pub trait Instance {
    /// Whether `COMP_ERR_03` applies: hysteresis is unstable with the inputs exchanged.
    const HYSTERESIS_BREAKS_ON_EXCHANGE: bool;

    /// Whether `COMP_ERR_01` applies: the output toggles in STANDBY0 with `IMSEL` at 0.
    const TOGGLES_IN_STANDBY0_ON_CHANNEL_0: bool;

    /// Whether `CTL2.REFSRC` positions 5, 6 and 7 select a source on this instance.
    const HAS_INTERNAL_REFERENCE: bool;

    /// Enable time in [`Speed::Fast`], nanoseconds, or 0 where the datasheet has no such row.
    const ENABLE_FAST_NS: u32;

    /// Enable time in [`Speed::UltraLowPower`], nanoseconds, or 0 where there is no such row.
    const ENABLE_ULP_NS: u32;

    /// Reference DAC settling after a code change, nanoseconds, or 0 where there is no such row.
    const DAC_SETTLE_NS: u32;

    /// Shallowest sleep level in which the comparator is no longer usable.
    const USABLE_FLOOR: Option<SleepLevel>;
}

/// Interrupt handler.
pub struct InterruptHandler<T: Instance> {
    _phantom: PhantomData<T>,
}

impl<T: Instance> InterruptHandler<T> {
    /// Mask rather than clear: the flag is what tells the waiting future the edge happened, and the
    /// handler has no way to hand a value over. The waiting task is woken next.
    pub fn handle(bus: &mut Bus<Access>)
        ensures
            final(bus)@ == old(bus)@ + seq![Access::Imask(Flags::edges(false, false)), Access::Wake],
    {
        bus.push(Access::Imask(Flags { compifg: false, compinvifg: false, outrdyifg: false }));
        bus.push(Access::Wake);
    }
}

/// A pin that can drive one of the comparator's terminals, and the channel it does so on.
#[derive(Clone, Copy, PartialEq, Eq, Debug, Structural)]
pub struct TerminalPin {
    /// The pin.
    pub pin: AnyPin,
    /// The input channel it is wired to.
    pub channel: u8,
}

/// What setting up an optional terminal pin asks for.
pub open spec fn terminal_setup(pin: Option<TerminalPin>) -> Seq<Access> {
    match pin {
        Some(terminal) => seq![Access::Pin(gpio::Access::StorePincm(terminal.pin.pin_cm(), Pincm::zero()))],
        None => Seq::empty(),
    }
}

/// The channel of an optional terminal pin.
pub open spec fn channel_of(pin: Option<TerminalPin>) -> Option<u8> {
    match pin {
        Some(terminal) => Some(terminal.channel),
        None => None,
    }
}

/// Configure a terminal pin and take its channel.
fn erase(terminal: Option<TerminalPin>, bus: &mut Bus<Access>) -> (erased: Option<(AnyPin, u8)>)
    ensures
        erased == (match terminal {
            Some(terminal) => Some((terminal.pin, terminal.channel)),
            None => None,
        }),
        final(bus)@ == old(bus)@ + terminal_setup(terminal),
{
    match terminal {
        Some(terminal) => {
            bus.push(Access::Pin(terminal.pin.set_as_analog()));
            Some((terminal.pin, terminal.channel))
        },
        None => None,
    }
}

/// Why a configuration is refused, if it is.
///
/// SYSCTL faults a fast comparator on LFCLK rather than merely running it slowly. An absent reference
/// position selects no reference rather than faulting, so the comparator would report against a
/// threshold that was never applied.
pub open spec fn rejection<T: Instance>(config: Config, clocks: Clocks) -> Option<ConfigError> {
    if config.speed == Speed::Fast && clocks.ulpclk == clocks.lfclk {
        Some(ConfigError::FastModeOnLfclk)
    } else if config.exchange_inputs && config.hysteresis != Hysteresis::Off && T::HYSTERESIS_BREAKS_ON_EXCHANGE {
        Some(ConfigError::HysteresisWithExchangedInputs)
    } else if config.reference is Some && config.reference->0.source.is_internal() && !T::HAS_INTERNAL_REFERENCE {
        Some(ConfigError::NoInternalReference)
    } else {
        None
    }
}

/// `CTL0` for a choice of channels.
pub open spec fn ctl0_for(positive: Option<u8>, negative: Option<u8>) -> Ctl0 {
    Ctl0 {
        ipsel: positive.unwrap_or(0),
        ipen: positive is Some,
        imsel: negative.unwrap_or(0),
        imen: negative is Some,
    }
}

/// `CTL1` for a configuration.
pub open spec fn ctl1_for(config: Config) -> Ctl1 {
    Ctl1 {
        mode: config.speed,
        hyst: config.hysteresis.vals(),
        outpol: config.output_polarity,
        exch: config.exchange_inputs,
        flten: config.filter is Some,
        fltdly: config.filter.unwrap_or(FilterDelay::Short).vals(),
        ies: false,
        enable: false,
    }
}

/// `CTL2` for a reference.
pub open spec fn ctl2_for(reference: Reference) -> Ctl2 {
    Ctl2 {
        refsrc: reference.source.vals(),
        refsel: reference.terminal,
        sampled: reference.sampled,
        dacsw_selects: true,
        dacsw: DACCODE,
    }
}

/// What bringing up the reference generator asks for.
pub open spec fn reference_setup(reference: Option<Reference>) -> Seq<Access> {
    match reference {
        Some(reference) => seq![
            Access::DacCode(DACCODE, reference.code.bits()),
            Access::Ctl2(ctl2_for(reference)),
        ],
        None => Seq::empty(),
    }
}

/// What bringing up the comparator asks for: reset and power, the terminals, the reference, the
/// configuration, then the enable, the wait for it, and the flags it raised.
pub open spec fn bring_up(
    positive: Option<u8>,
    negative: Option<u8>,
    config: Config,
    enable_cycles: u32,
) -> Seq<Access> {
    seq![Access::Reset, Access::Power(true), Access::Delay(16), Access::Ctl0(ctl0_for(positive, negative))]
        + reference_setup(config.reference) + seq![
        Access::Ctl1(ctl1_for(config)),
        Access::Enable(true),
        Access::Delay(enable_cycles),
        Access::Iclr(Flags { compifg: true, compinvifg: true, outrdyifg: true }),
    ]
}

/// What a change of the DAC's code asks for, where it takes this long.
pub open spec fn recode_accesses(code: DacCode, settle_cycles: u32) -> Seq<Access> {
    seq![Access::DacCode(DACCODE, code.bits()), Access::Delay(settle_cycles)]
}

/// Analog comparator driver.
pub struct Comp<T: Instance, M: Mode> {
    positive: MaybeAnyPin,
    negative: MaybeAnyPin,
    output: MaybeAnyPin,
    /// Resolved once here rather than per [`Comp::set_dac_code`].
    dac_settle_cycles: u32,
    floor: Option<SleepLevel>,
    _phantom: PhantomData<(T, M)>,
}

impl<T: Instance, M: Mode> Comp<T, M> {
    /// The pins the driver owns: positive, negative and output.
    pub closed spec fn pins(&self) -> (Option<AnyPin>, Option<AnyPin>, Option<AnyPin>) {
        (self.positive.held(), self.negative.held(), self.output.held())
    }

    /// Cycles a change of code waits.
    pub closed spec fn dac_settle(&self) -> u32 {
        self.dac_settle_cycles
    }

    /// The sleep level the driver blocks, while it lives.
    pub closed spec fn floor(&self) -> Option<SleepLevel> {
        self.floor
    }

    /// The driver built on a configuration that is not refused, and what it asks of the block.
    pub open spec fn built(
        self,
        pins: (Option<AnyPin>, Option<AnyPin>),
        negative: Option<u8>,
        config: Config,
        clocks: Clocks,
    ) -> bool {
        &&& self.pins() == (pins.0, pins.1, None::<AnyPin>)
        &&& self.floor() == Self::floor_for(negative)
        &&& match config.settling {
            Settling::Solved(cycles) => self.dac_settle() == cycles.dac(),
            Settling::FromClockTree => self.dac_settle() == covering_cycles(clocks.mclk, T::DAC_SETTLE_NS),
        }
    }

    /// Cycles the comparator's enable waits.
    pub open spec fn enable_wait(config: Config, clocks: Clocks) -> u32 {
        match config.settling {
            Settling::Solved(cycles) => cycles.enable(),
            Settling::FromClockTree => covering_cycles(clocks.mclk, enable_ns::<T>(config.speed)),
        }
    }

    /// The sleep floor a choice of negative channel needs.
    ///
    /// `COMP_ERR_01` is judged on the configuration: a comparator on another channel, or one driven only
    /// by the reference, is unaffected.
    pub open spec fn floor_for(negative: Option<u8>) -> Option<SleepLevel> {
        SleepLevel::stricter_spec(
            T::USABLE_FLOOR,
            if T::TOGGLES_IN_STANDBY0_ON_CHANNEL_0 && negative == Some(0u8) {
                Some(SleepLevel::Standby0)
            } else {
                None
            },
        )
    }

    /// Build the driver, given each terminal's channel and, where the driver is to own it, its pin.
    ///
    /// The positive terminal's pin is optional separately from its channel so that
    /// [`CompSharedPositive`] can program the channel while keeping the pin itself.
    fn build(
        positive: Option<(Option<AnyPin>, u8)>,
        negative: Option<(AnyPin, u8)>,
        clocks: &Clocks,
        config: Config,
        bus: &mut Bus<Access>,
    ) -> (built: Result<Self, ConfigError>)
        ensures
            match rejection::<T>(config, *clocks) {
                Some(error) => built == Err::<Self, ConfigError>(error) && final(bus)@ == old(bus)@,
                None => {
                    let ip = match positive {
                        Some((_, channel)) => Some(channel),
                        None => None,
                    };
                    let im = match negative {
                        Some((_, channel)) => Some(channel),
                        None => None,
                    };
                    &&& built is Ok
                    &&& built->Ok_0.built(
                        (
                            match positive {
                                Some((pin, _)) => pin,
                                None => None,
                            },
                            match negative {
                                Some((pin, _)) => Some(pin),
                                None => None,
                            },
                        ),
                        im,
                        config,
                        *clocks,
                    )
                    &&& final(bus)@ == old(bus)@ + bring_up(ip, im, config, Self::enable_wait(config, *clocks))
                },
            },
    {
        if matches!(config.speed, Speed::Fast) && clocks.ulpclk == clocks.lfclk {
            return Err(ConfigError::FastModeOnLfclk);
        }
        if config.exchange_inputs && !matches!(config.hysteresis, Hysteresis::Off) && T::HYSTERESIS_BREAKS_ON_EXCHANGE {
            return Err(ConfigError::HysteresisWithExchangedInputs);
        }
        if let Some(reference) = config.reference {
            if reference.source.needs_internal_reference() && !T::HAS_INTERNAL_REFERENCE {
                return Err(ConfigError::NoInternalReference);
            }
        }
        bus.push(Access::Reset);
        bus.push(Access::Power(true));
        // The registers behind `PWREN` stay isolated for a few ULPCLK cycles and a write that lands in
        // that window is dropped.
        bus.push(Access::Delay(16));

        let positive_channel: Option<u8> = match positive {
            Some((_, channel)) => Some(channel),
            None => None,
        };
        let negative_channel: Option<u8> = match negative {
            Some((_, channel)) => Some(channel),
            None => None,
        };
        let mut ctl0 = Ctl0 { ipsel: 0, ipen: false, imsel: 0, imen: false };

        if let Some(channel) = positive_channel {
            ctl0.ipsel = channel;
            ctl0.ipen = true;
        }
        if let Some(channel) = negative_channel {
            ctl0.imsel = channel;
            ctl0.imen = true;
        }
        bus.push(Access::Ctl0(ctl0));

        if let Some(reference) = config.reference {
            bus.push(Access::DacCode(DACCODE, reference.code.to_bits()));
            bus.push(
                Access::Ctl2(
                    Ctl2 {
                        refsrc: reference.source.to_vals(),
                        refsel: reference.terminal,
                        sampled: reference.sampled,
                        dacsw_selects: true,
                        dacsw: DACCODE,
                    },
                ),
            );
        }
        let mut ctl1 = Ctl1 {
            mode: config.speed,
            hyst: config.hysteresis.to_vals(),
            outpol: config.output_polarity,
            exch: config.exchange_inputs,
            flten: false,
            fltdly: Fltdly::Dly0,
            ies: false,
            enable: false,
        };

        if let Some(delay) = config.filter {
            ctl1.flten = true;
            ctl1.fltdly = delay.to_vals();
        }
        bus.push(Access::Ctl1(ctl1));
        bus.push(Access::Enable(true));

        // Nothing reports when the comparator is ready, so the datasheet figure is waited out instead.
        let settling = config.settling.resolve::<T>(clocks, config.speed);

        bus.push(Access::Delay(settling.enable_cycles()));
        // `COMP_ERR_05`: enabling raises both edge flags, so without this the first wait returns
        // immediately on an edge that never happened.
        bus.push(Access::Iclr(Flags { compifg: true, compinvifg: true, outrdyifg: true }));

        Ok(
            Comp {
                positive: MaybeAnyPin::new(
                    match positive {
                        Some((pin, _)) => pin,
                        None => None,
                    },
                ),
                negative: MaybeAnyPin::new(
                    match negative {
                        Some((pin, _)) => Some(pin),
                        None => None,
                    },
                ),
                output: MaybeAnyPin::none(),
                dac_settle_cycles: settling.dac_cycles(),
                floor: Self::sleep_floor(negative_channel),
                _phantom: PhantomData,
            },
        )
    }

    /// Shallowest sleep level this configuration has to block.
    pub fn sleep_floor(negative_channel: Option<u8>) -> (floor: Option<SleepLevel>)
        ensures
            floor == Self::floor_for(negative_channel),
    {
        let on_channel_0 = match negative_channel {
            Some(channel) => channel == 0,
            None => false,
        };
        let erratum = if T::TOGGLES_IN_STANDBY0_ON_CHANNEL_0 && on_channel_0 {
            Some(SleepLevel::Standby0)
        } else {
            None
        };

        SleepLevel::stricter(T::USABLE_FLOOR, erratum)
    }

    /// Whether the comparator's output is high, in a reading of `STAT.OUT`.
    ///
    /// Reads through [`Config::output_polarity`] and any filter, so it answers the same question the
    /// interrupt does.
    pub fn is_high(&self, out: bool) -> (high: bool)
        ensures
            high == out,
    {
        out
    }

    /// Whether the comparator's output is low, in a reading of `STAT.OUT`.
    pub fn is_low(&self, out: bool) -> (low: bool)
        ensures
            low == !out,
    {
        !self.is_high(out)
    }

    /// Change the reference DAC's code.
    ///
    /// Waits out the DAC's settling time, so the threshold is at the new code afterwards. Writes the
    /// register either way; the code simply drives nothing where the configured source bypasses the DAC.
    pub fn set_dac_code(&mut self, code: DacCode, bus: &mut Bus<Access>)
        ensures
            *final(self) == *old(self),
            final(bus)@ == old(bus)@ + recode_accesses(code, old(self).dac_settle()),
    {
        bus.push(Access::DacCode(DACCODE, code.to_bits()));
        bus.push(Access::Delay(self.dac_settle_cycles));
    }

    /// The code the reference DAC is programmed with, in a reading of its `DACCODE` field.
    pub fn dac_code(&self, daccode: u8) -> (code: DacCode)
        ensures
            code.bits() == daccode,
    {
        DacCode::new(daccode)
    }

    /// Drive the comparator's output onto a pin, by the function number that reaches it there.
    pub fn set_output_pin(&mut self, pin: AnyPin, pf: u8, bus: &mut Bus<Access>)
        ensures
            final(self).pins() == (old(self).pins().0, old(self).pins().1, Some(pin)),
            final(self).dac_settle() == old(self).dac_settle(),
            final(self).floor() == old(self).floor(),
            final(bus)@.len() == old(bus)@.len() + 1,
            final(bus)@.drop_last() == old(bus)@,
            final(bus)@.last() matches Access::Pin(gpio::Access::Pincm(index, update)) && index == pin.pin_cm()
                && update == (gpio::PincmUpdate {
                pf: Some(pf),
                pc: Some(true),
                pipu: Some(false),
                pipd: Some(false),
                inena: Some(false),
                inv: Some(false),
                ..gpio::PincmUpdate::unchanged()
            }),
    {
        bus.push(Access::Pin(pin.set_as_pf(pf, PfType::output(Pull::NoPull, false))));
        self.output = MaybeAnyPin::new(Some(pin));
    }

    /// What giving the driver up asks for.
    pub open spec fn release_accesses(&self) -> Seq<Access> {
        seq![
            Access::Imask(Flags::edges(false, false)),
            Access::Enable(false),
            Access::ReferenceOff,
            Access::Power(false),
        ] + disconnect(self.pins().0) + disconnect(self.pins().1) + disconnect(self.pins().2)
    }

    /// Give the driver up.
    ///
    /// A reference generator left on holds VREF up and draws current with nothing reading it, so it is
    /// switched off.
    pub fn release(self, bus: &mut Bus<Access>)
        ensures
            final(bus)@ == old(bus)@ + self.release_accesses(),
    {
        bus.push(Access::Imask(Flags { compifg: false, compinvifg: false, outrdyifg: false }));
        bus.push(Access::Enable(false));
        bus.push(Access::ReferenceOff);
        bus.push(Access::Power(false));
        disconnect_pin(&self.positive, bus);
        disconnect_pin(&self.negative, bus);
        disconnect_pin(&self.output, bus);
    }
}

/// What disconnecting an optional pin asks for.
pub open spec fn disconnect(pin: Option<AnyPin>) -> Seq<Access> {
    match pin {
        Some(pin) => seq![Access::Pin(gpio::Access::StorePincm(pin.pin_cm(), Pincm::zero()))],
        None => Seq::empty(),
    }
}

fn disconnect_pin(pin: &MaybeAnyPin, bus: &mut Bus<Access>)
    ensures
        final(bus)@ == old(bus)@ + disconnect(pin.held()),
{
    if let Some(pin) = pin.pin() {
        bus.push(Access::Pin(pin.set_as_disconnected()));
    }
}

/// What building a comparator on two optional terminal pins comes to: the pins are set up, and then
/// either the configuration is refused or the block is brought up.
pub open spec fn built_on<T: Instance, M: Mode>(
    built: Result<Comp<T, M>, ConfigError>,
    owned: (Option<AnyPin>, Option<AnyPin>),
    positive: Option<TerminalPin>,
    negative: Option<TerminalPin>,
    config: Config,
    clocks: Clocks,
    before: Seq<Access>,
    after: Seq<Access>,
) -> bool {
    let set_up = before + terminal_setup(positive) + terminal_setup(negative);

    match rejection::<T>(config, clocks) {
        Some(error) => built == Err::<Comp<T, M>, ConfigError>(error) && after == set_up,
        None => {
            &&& built is Ok
            &&& built->Ok_0.built(owned, channel_of(negative), config, clocks)
            &&& after == set_up + bring_up(
                channel_of(positive),
                channel_of(negative),
                config,
                Comp::<T, M>::enable_wait(config, clocks),
            )
        },
    }
}

/// The pin of an optional terminal pin.
pub open spec fn pin_of(pin: Option<TerminalPin>) -> Option<AnyPin> {
    match pin {
        Some(terminal) => Some(terminal.pin),
        None => None,
    }
}

impl<T: Instance> Comp<T, Blocking> {
    /// Configure the comparator, without an interrupt behind it.
    ///
    /// Either terminal may be left without a pin, in which case [`Config::reference`] is what drives
    /// it. Giving neither a pin nor a reference compares two undriven nodes.
    pub fn new(
        positive: Option<TerminalPin>,
        negative: Option<TerminalPin>,
        clocks: &Clocks,
        config: Config,
        bus: &mut Bus<Access>,
    ) -> (built: Result<Self, ConfigError>)
        ensures
            built_on(
                built,
                (pin_of(positive), pin_of(negative)),
                positive,
                negative,
                config,
                *clocks,
                old(bus)@,
                final(bus)@,
            ),
    {
        let positive = match erase(positive, bus) {
            Some((pin, channel)) => Some((Some(pin), channel)),
            None => None,
        };
        let negative = erase(negative, bus);

        Self::build(positive, negative, clocks, config, bus)
    }

    /// Configure the comparator, keeping the positive pad apart so it can be lent back.
    ///
    /// The comparator behaves exactly as [`new`](Self::new) builds it. What differs is who owns the
    /// positive terminal's pin.
    pub fn new_sharing_positive(
        positive: TerminalPin,
        negative: Option<TerminalPin>,
        clocks: &Clocks,
        config: Config,
        bus: &mut Bus<Access>,
    ) -> (built: Result<CompSharedPositive<T, Blocking>, ConfigError>)
        ensures
            built is Ok ==> built->Ok_0.pad() == positive.pin,
            built_on(
                match built {
                    Ok(shared) => Ok(shared.comp()),
                    Err(error) => Err(error),
                },
                (None, pin_of(negative)),
                Some(positive),
                negative,
                config,
                *clocks,
                old(bus)@,
                final(bus)@,
            ),
    {
        bus.push(Access::Pin(positive.pin.set_as_analog()));
        assert(bus@ =~= old(bus)@ + terminal_setup(Some(positive)));

        let negative = erase(negative, bus);

        match Self::build(Some((None, positive.channel)), negative, clocks, config, bus) {
            Ok(comp) => Ok(CompSharedPositive { comp, pad: positive.pin }),
            Err(error) => Err(error),
        }
    }

    /// Turn on the reference generator and its DAC, with no comparator inputs.
    ///
    /// The comparator is enabled, because nothing published says the DAC runs without it. Its output is
    /// not meaningful here and neither terminal is driven.
    pub fn new_reference_only(
        reference: Reference,
        clocks: &Clocks,
        config: Config,
        bus: &mut Bus<Access>,
    ) -> (built: Result<Self, ConfigError>)
        ensures
            built_on(
                built,
                (None, None),
                None,
                None,
                (Config { reference: Some(reference), ..config }),
                *clocks,
                old(bus)@,
                final(bus)@,
            ),
    {
        Self::build(None, None, clocks, Config { reference: Some(reference), ..config }, bus)
    }

    /// Arm the comparator's interrupt on `edge`, to be serviced by a handler the application owns.
    ///
    /// The raised flags are sticky, and arming an edge does not clear the other one: alternating edges
    /// wants [`clear_interrupt`](Self::clear_interrupt) first. Clearing is left to the caller, because
    /// doing it here would discard an edge that arrived while the handler was running.
    pub fn enable_edge_interrupt(&mut self, edge: Edge, bus: &mut Bus<Access>)
        ensures
            *final(self) == *old(self),
            final(bus)@ == old(bus)@.push(Access::Imask(edge.flags())),
    {
        bus.push(
            Access::Imask(
                Flags {
                    compifg: matches!(edge, Edge::Rising | Edge::Any),
                    compinvifg: matches!(edge, Edge::Falling | Edge::Any),
                    outrdyifg: false,
                },
            ),
        );
    }

    /// Stop the comparator's interrupt reaching the CPU, leaving the flags as they are.
    pub fn disable_edge_interrupt(&mut self, bus: &mut Bus<Access>)
        ensures
            *final(self) == *old(self),
            final(bus)@ == old(bus)@.push(Access::Imask(Flags::edges(false, false))),
    {
        bus.push(Access::Imask(Flags { compifg: false, compinvifg: false, outrdyifg: false }));
    }

    /// Which edge the comparator has seen since the flags were last cleared, armed or not.
    ///
    /// `ris` is a reading of the raw flags rather than the masked ones. [`Edge::Any`] means both are
    /// set, which a transition faster than the handler can produce.
    pub fn pending_edge(&self, ris: Flags) -> (edge: Option<Edge>)
        ensures
            match edge {
                Some(edge) => edge.flags() == (Flags { outrdyifg: false, ..ris }),
                None => !ris.compifg && !ris.compinvifg,
            },
    {
        match (ris.compifg, ris.compinvifg) {
            (true, true) => Some(Edge::Any),
            (true, false) => Some(Edge::Rising),
            (false, true) => Some(Edge::Falling),
            (false, false) => None,
        }
    }

    /// Clear both edge flags.
    pub fn clear_interrupt(&mut self, bus: &mut Bus<Access>)
        ensures
            *final(self) == *old(self),
            final(bus)@ == old(bus)@.push(Access::Iclr(Flags::edges(true, true))),
    {
        bus.push(Access::Iclr(Flags { compifg: true, compinvifg: true, outrdyifg: false }));
    }
}

impl<T: Instance> Comp<T, Async> {
    /// Configure the comparator with its interrupt bound, so its output can be awaited.
    pub fn new_async(
        positive: Option<TerminalPin>,
        negative: Option<TerminalPin>,
        clocks: &Clocks,
        config: Config,
        bus: &mut Bus<Access>,
    ) -> (built: Result<Self, ConfigError>)
        ensures
            built_on(
                built,
                (pin_of(positive), pin_of(negative)),
                positive,
                negative,
                config,
                *clocks,
                old(bus)@,
                final(bus)@,
            ),
    {
        let positive = match erase(positive, bus) {
            Some((pin, channel)) => Some((Some(pin), channel)),
            None => None,
        };
        let negative = erase(negative, bus);

        Self::build(positive, negative, clocks, config, bus)
    }

    /// Wait for the comparator's output to make a transition.
    ///
    /// A transition that already happened is not remembered: this returns on the next one after it
    /// is called.
    pub fn wait_for_edge(&mut self, edge: Edge, bus: &mut Bus<Access>) -> (wait: EdgeWait)
        ensures
            *final(self) == *old(self),
            wait.edge() == edge,
            !wait.armed(),
            final(bus)@ == old(bus)@.push(Access::Iclr(Flags::edges(true, true))),
    {
        // Cleared before the mask goes on, so an edge from this point is reported rather than one
        // that arrived while nothing was waiting.
        bus.push(Access::Iclr(Flags { compifg: true, compinvifg: true, outrdyifg: false }));
        EdgeWait { edge, armed: false }
    }
}

/// A wait for a transition of the comparator's output.
pub struct EdgeWait {
    edge: Edge,
    armed: bool,
}

impl EdgeWait {
    /// The transition waited for.
    pub closed spec fn edge(&self) -> Edge {
        self.edge
    }

    /// Whether the interrupt has been armed.
    pub closed spec fn armed(&self) -> bool {
        self.armed
    }

    /// Whether a poll that reads these flags finds the wait over.
    pub open spec fn over(&self, ris: Flags) -> bool {
        self.armed() && self.edge().seen_in(ris)
    }

    /// What a poll that reads these flags asks for.
    pub open spec fn poll_access(&self, ris: Flags) -> Access {
        if self.over(ris) {
            Access::Iclr(Flags::edges(true, true))
        } else {
            Access::Imask(self.edge().flags())
        }
    }

    /// Poll the wait, with the waker registered and then the raw flags read. Whether it is over.
    ///
    /// The first poll arms the interrupt whatever the flags say.
    pub fn poll(&mut self, ris: Flags, bus: &mut Bus<Access>) -> (ready: bool)
        ensures
            ready == old(self).over(ris),
            final(self).edge() == old(self).edge(),
            final(self).armed(),
            final(bus)@ == old(bus)@.push(old(self).poll_access(ris)),
    {
        let seen = match self.edge {
            Edge::Rising => ris.compifg,
            Edge::Falling => ris.compinvifg,
            Edge::Any => ris.compifg || ris.compinvifg,
        };

        if self.armed && seen {
            bus.push(Access::Iclr(Flags { compifg: true, compinvifg: true, outrdyifg: false }));
            return true;
        }
        self.armed = true;
        bus.push(
            Access::Imask(
                Flags {
                    compifg: matches!(self.edge, Edge::Rising | Edge::Any),
                    compinvifg: matches!(self.edge, Edge::Falling | Edge::Any),
                    outrdyifg: false,
                },
            ),
        );
        false
    }
}

/// A [`Comp`] that kept its positive-terminal pad apart, so it can lend it back.
///
/// The comparator and an ADC each select the pad from their own side, so both can be connected at once
/// and nothing is reconfigured when the pad is lent out. The comparator keeps running and keeps its
/// terminal selected throughout.
pub struct CompSharedPositive<T: Instance, M: Mode> {
    comp: Comp<T, M>,
    pad: AnyPin,
}

impl<T: Instance, M: Mode> CompSharedPositive<T, M> {
    /// The comparator.
    pub closed spec fn comp(&self) -> Comp<T, M> {
        self.comp
    }

    /// The positive terminal's pad.
    pub closed spec fn pad(&self) -> AnyPin {
        self.pad
    }

    /// Run `f` with the positive terminal's pad, then take it back.
    ///
    /// Nothing is reconfigured on the way in or out.
    pub fn with_positive_pin<R, F: FnOnce(AnyPin) -> R>(&mut self, f: F) -> (result: R)
        requires
            f.requires((old(self).pad(),)),
        ensures
            *final(self) == *old(self),
            f.ensures((old(self).pad(),), result),
    {
        f(self.pad)
    }

    /// The comparator.
    pub fn comp_ref(&self) -> (comp: &Comp<T, M>)
        ensures
            *comp == self.comp(),
    {
        &self.comp
    }

    /// The comparator.
    pub fn comp_mut(&mut self) -> (comp: &mut Comp<T, M>)
        ensures
            *comp == old(self).comp(),
            final(self).comp() == *final(comp),
            final(self).pad() == old(self).pad(),
    {
        &mut self.comp
    }

    /// Give the driver up: the pad, and then the comparator and the pins it owns.
    pub fn release(self, bus: &mut Bus<Access>)
        ensures
            final(bus)@ == old(bus)@ + disconnect(Some(self.pad())) + self.comp().release_accesses(),
    {
        bus.push(Access::Pin(self.pad.set_as_disconnected()));
        self.comp.release(bus);
    }
}

/// The comparator is enabled only once everything it depends on has been programmed, and the flags that
/// enabling raises are cleared after the enable has been waited out, last of all.
pub proof fn enable_follows_configuration(
    positive: Option<u8>,
    negative: Option<u8>,
    config: Config,
    enable_cycles: u32,
)
    ensures
        ({
            let accesses = bring_up(positive, negative, config, enable_cycles);
            let n = accesses.len() as int;

            &&& accesses[n - 3] == Access::Enable(true)
            &&& accesses[n - 2] == Access::Delay(enable_cycles)
            &&& accesses[n - 1] == Access::Iclr(Flags { compifg: true, compinvifg: true, outrdyifg: true })
            &&& accesses.contains(Access::Ctl1(ctl1_for(config)))
            &&& accesses.contains(Access::Ctl0(ctl0_for(positive, negative)))
            &&& forall|i: int| 0 <= i < n ==> ((#[trigger] accesses[i]) is Ctl0 || accesses[i] is Ctl1
                || accesses[i] is Ctl2 || accesses[i] is DacCode) ==> 3 <= i < n - 3
            &&& accesses.take(3) == seq![Access::Reset, Access::Power(true), Access::Delay(16)]
        }),
{
    let accesses = bring_up(positive, negative, config, enable_cycles);
    let n = accesses.len() as int;
    assert(accesses[n - 4] == Access::Ctl1(ctl1_for(config)));
    assert(accesses[3] == Access::Ctl0(ctl0_for(positive, negative)));
}

/// A comparator whose output `COMP_ERR_01` would toggle keeps the device out of STANDBY0, and one that it
/// does not touch blocks no more than the block's own floor.
pub proof fn erratum_keeps_out_of_standby0<T: Instance, M: Mode>(negative: Option<u8>, level: SleepLevel)
    ensures
        T::TOGGLES_IN_STANDBY0_ON_CHANNEL_0 && negative == Some(0u8) ==> SleepLevel::blocks(
            Comp::<T, M>::floor_for(negative),
            SleepLevel::Standby0,
        ),
        negative != Some(0u8) ==> Comp::<T, M>::floor_for(negative) == T::USABLE_FLOOR,
        SleepLevel::blocks(T::USABLE_FLOOR, level) ==> SleepLevel::blocks(Comp::<T, M>::floor_for(negative), level),
{
}

/// A slow comparator without exchanged inputs and without an internal reference is never refused.
pub proof fn plain_configuration_is_accepted<T: Instance>(config: Config, clocks: Clocks)
    requires
        config.speed == Speed::UltraLowPower,
        !config.exchange_inputs,
        config.reference is Some ==> !config.reference->0.source.is_internal(),
    ensures
        rejection::<T>(config, clocks) is None,
{
}

/// Whether an access sets up what a comparator on these channels and this configuration needs. `enable_cycles` is how
/// long its enable takes.
pub open spec fn sets_up(
    access: Access,
    positive: Option<u8>,
    negative: Option<u8>,
    config: Config,
    enable_cycles: u32,
) -> bool {
    match access {
        Access::Reset => true,
        Access::Power(on) => on,
        Access::Delay(cycles) => cycles == 16 || cycles == enable_cycles,
        Access::Ctl0(ctl0) => {
            &&& ctl0.ipen <==> positive is Some
            &&& ctl0.imen <==> negative is Some
            &&& positive matches Some(channel) ==> ctl0.ipsel == channel
            &&& negative matches Some(channel) ==> ctl0.imsel == channel
        },
        Access::DacCode(register, code) => register == 0 && (config.reference matches Some(reference) && code
            == reference.code.bits()),
        Access::Ctl2(ctl2) => config.reference matches Some(reference) && {
            &&& ctl2.refsrc is VddaDac <==> reference.source is Vdda
            &&& ctl2.refsrc is VrefDac <==> reference.source is VrefModule
            &&& ctl2.refsrc is Vref <==> reference.source is VrefModuleDirect
            &&& ctl2.refsrc is Vdda <==> reference.source is VddaDirect
            &&& ctl2.refsrc is IntvrefDac <==> reference.source is Internal
            &&& ctl2.refsrc is Intvref <==> reference.source is InternalDirect
            &&& !(ctl2.refsrc is Off)
            &&& ctl2.refsel is Negative <==> reference.terminal is Negative
            &&& ctl2.refsel is Positive <==> reference.terminal is Positive
            &&& ctl2.sampled == reference.sampled
            &&& ctl2.dacsw_selects && ctl2.dacsw == 0
        },
        Access::Ctl1(ctl1) => {
            &&& ctl1.mode is Fast <==> config.speed is Fast
            &&& ctl1.mode is UltraLowPower <==> config.speed is UltraLowPower
            &&& ctl1.hyst is NoHys <==> config.hysteresis is Off
            &&& ctl1.hyst is LowHys <==> config.hysteresis is Mv10
            &&& ctl1.hyst is MedHys <==> config.hysteresis is Mv20
            &&& ctl1.hyst is HighHys <==> config.hysteresis is Mv30
            &&& ctl1.outpol is Inverted <==> config.output_polarity is Inverted
            &&& ctl1.outpol is NonInverted <==> config.output_polarity is NonInverted
            &&& ctl1.exch == config.exchange_inputs
            &&& ctl1.flten <==> config.filter is Some
            &&& config.filter matches Some(delay) ==> {
                &&& ctl1.fltdly is Dly0 <==> delay is Short
                &&& ctl1.fltdly is Dly1 <==> delay is Medium
                &&& ctl1.fltdly is Dly2 <==> delay is Long
                &&& ctl1.fltdly is Dly3 <==> delay is Longest
            }
            &&& !ctl1.ies && !ctl1.enable
        },
        Access::Enable(on) => on,
        Access::Iclr(flags) => flags.compifg && flags.compinvifg && flags.outrdyifg,
        _ => false,
    }
}

/// A comparator is brought up as it was asked for: each terminal given a pin is connected to that pin's channel and
/// each one without is not; the speed, the hysteresis, the polarity, the exchange and the filter are the configured
/// ones; and the reference is on, with its source, terminal, mode and code, exactly where one is configured. The
/// reset and the power come first, and the enable is waited out.
pub proof fn comparator_is_set_up_as_asked(
    positive: Option<u8>,
    negative: Option<u8>,
    config: Config,
    enable_cycles: u32,
)
    ensures
        ({
            let asked = bring_up(positive, negative, config, enable_cycles);

            &&& forall|i: int|
                0 <= i < asked.len() ==> sets_up(#[trigger] asked[i], positive, negative, config, enable_cycles)
            &&& asked.len() > 3
            &&& asked[0] is Reset && asked[1] is Power
            &&& asked[2] == Access::Delay(16)
            &&& exists|i: int| 0 <= i < asked.len() && (#[trigger] asked[i]) is Ctl0
            &&& exists|i: int| 0 <= i < asked.len() && (#[trigger] asked[i]) is Ctl1
            &&& exists|i: int| 0 <= i < asked.len() && (#[trigger] asked[i]) is Enable
            &&& exists|i: int| 0 <= i < asked.len() && (#[trigger] asked[i]) is Iclr
            &&& config.reference is Some <==> exists|i: int| 0 <= i < asked.len() && (#[trigger] asked[i]) is Ctl2
            &&& config.reference is Some <==> exists|i: int| 0 <= i < asked.len() && (#[trigger] asked[i]) is DacCode
        }),
{
    let asked = bring_up(positive, negative, config, enable_cycles);
    let n = asked.len() as int;
    assert(asked[3] is Ctl0);
    assert(asked[n - 4] is Ctl1);
    assert(asked[n - 3] is Enable);
    assert(asked[n - 1] is Iclr);
    if config.reference is Some {
        assert(asked[4] is DacCode);
        assert(asked[5] is Ctl2);
    } else {
        assert(n == 8);
    }
}

/// A comparator is built exactly where its configuration is not refused, on the pads of the pins it was given and
/// no others, each handed over to the analog side first. The pins it owns, the floor it keeps and the time a change
/// of code takes are what it was built with.
pub proof fn comparator_is_built_on_its_pins<T: Instance, M: Mode>(
    built: Result<Comp<T, M>, ConfigError>,
    owned: (Option<AnyPin>, Option<AnyPin>),
    positive: Option<TerminalPin>,
    negative: Option<TerminalPin>,
    config: Config,
    clocks: Clocks,
    before: Seq<Access>,
    after: Seq<Access>,
)
    requires
        built_on(built, owned, positive, negative, config, clocks, before, after),
    ensures
        ({
            let asked = after.skip(before.len() as int);
            let pads = (if positive is Some {
                1int
            } else {
                0
            }) + (if negative is Some {
                1int
            } else {
                0
            });

            &&& built is Ok <==> rejection::<T>(config, clocks) is None
            &&& built matches Err(error) ==> rejection::<T>(config, clocks) == Some(error) && asked.len() == pads
            &&& before.len() <= after.len() && after.take(before.len() as int) == before
            &&& positive matches Some(terminal) ==> asked[0] == Access::Pin(
                gpio::Access::StorePincm(terminal.pin.pin_cm(), Pincm::zero()),
            )
            &&& negative matches Some(terminal) ==> asked[pads - 1] == Access::Pin(
                gpio::Access::StorePincm(terminal.pin.pin_cm(), Pincm::zero()),
            )
            &&& built matches Ok(comp) ==> {
                &&& comp.pins() == (owned.0, owned.1, None::<AnyPin>)
                &&& comp.floor() == Comp::<T, M>::floor_for(
                    match negative {
                        Some(terminal) => Some(terminal.channel),
                        None => None,
                    },
                )
                &&& config.settling matches Settling::Solved(cycles) ==> comp.dac_settle() == cycles.dac()
                &&& config.settling is FromClockTree ==> comp.dac_settle() == covering_cycles(
                    clocks.mclk,
                    T::DAC_SETTLE_NS,
                )
                &&& asked.len() > pads + 3
                &&& forall|i: int|
                    pads <= i < asked.len() ==> sets_up(
                        #[trigger] asked[i],
                        match positive {
                            Some(terminal) => Some(terminal.channel),
                            None => None,
                        },
                        match negative {
                            Some(terminal) => Some(terminal.channel),
                            None => None,
                        },
                        config,
                        Comp::<T, M>::enable_wait(config, clocks),
                    )
                &&& asked[pads + 3] is Ctl0
                &&& asked[asked.len() - 4] is Ctl1
            }
        }),
{
    let asked = after.skip(before.len() as int);
    let pins = terminal_setup(positive) + terminal_setup(negative);
    assert(after.take(before.len() as int) =~= before);
    if rejection::<T>(config, clocks) is None {
        let wait = Comp::<T, M>::enable_wait(config, clocks);
        let up = bring_up(channel_of(positive), channel_of(negative), config, wait);
        comparator_is_set_up_as_asked(channel_of(positive), channel_of(negative), config, wait);
        assert(asked =~= pins + up);
        assert forall|i: int| pins.len() <= i < asked.len() implies sets_up(
            #[trigger] asked[i],
            channel_of(positive),
            channel_of(negative),
            config,
            wait,
        ) by {
            assert(asked[i] == up[i - pins.len()]);
        }
    } else {
        assert(asked =~= pins);
    }
}

/// A configuration is refused for one reason at a time, in this order: a fast comparator on LFCLK; hysteresis with the
/// inputs exchanged, where that is unstable; a reference the device does not have. Otherwise it is accepted.
pub proof fn configurations_are_refused_for_a_reason<T: Instance>(config: Config, clocks: Clocks)
    ensures
        ({
            let fast = config.speed is Fast && clocks.ulpclk == clocks.lfclk;
            let unstable = config.exchange_inputs && !(config.hysteresis is Off) && T::HYSTERESIS_BREAKS_ON_EXCHANGE;
            let missing = (config.reference matches Some(reference) && (reference.source is VddaDirect
                || reference.source is Internal || reference.source is InternalDirect)) && !T::HAS_INTERNAL_REFERENCE;

            &&& rejection::<T>(config, clocks) == Some(ConfigError::FastModeOnLfclk) <==> fast
            &&& rejection::<T>(config, clocks) == Some(ConfigError::HysteresisWithExchangedInputs) <==> !fast
                && unstable
            &&& rejection::<T>(config, clocks) == Some(ConfigError::NoInternalReference) <==> !fast && !unstable
                && missing
            &&& rejection::<T>(config, clocks) is None <==> !fast && !unstable && !missing
        }),
{
}

/// Each edge is reported by its own flag and seen where that flag is raised; either is, where either counts.
pub proof fn edges_are_reported_by_their_flags(edge: Edge, ris: Flags)
    ensures
        edge.flags().compifg <==> edge is Rising || edge is Any,
        edge.flags().compinvifg <==> edge is Falling || edge is Any,
        !edge.flags().outrdyifg,
        edge.seen_in(ris) <==> (edge.flags().compifg && ris.compifg) || (edge.flags().compinvifg && ris.compinvifg),
        forall|rising: bool, falling: bool|
            {
                let flags = #[trigger] Flags::edges(rising, falling);

                flags.compifg == rising && flags.compinvifg == falling && !flags.outrdyifg
            },
{
}

/// A comparator that is given up is masked before it is disabled, its reference is off before its power is, and every
/// pin it owns is let go.
pub proof fn release_leaves_nothing_on<T: Instance, M: Mode>(comp: Comp<T, M>)
    ensures
        ({
            let asked = comp.release_accesses();
            let (positive, negative, output) = comp.pins();

            &&& asked.len() >= 4
            &&& asked[0] matches Access::Imask(flags) && !flags.compifg && !flags.compinvifg && !flags.outrdyifg
            &&& asked[1] matches Access::Enable(on) && !on
            &&& asked[2] is ReferenceOff
            &&& asked[3] matches Access::Power(on) && !on
            &&& asked.skip(4) == disconnect(positive) + disconnect(negative) + disconnect(output)
            &&& forall|pin: AnyPin|
                #![trigger pin.pin_cm()]
                (positive == Some(pin) || negative == Some(pin) || output == Some(pin)) ==> asked.contains(
                    Access::Pin(gpio::Access::StorePincm(pin.pin_cm(), Pincm::zero())),
                )
        }),
{
    let asked = comp.release_accesses();
    let (positive, negative, output) = comp.pins();
    let rest = disconnect(positive) + disconnect(negative) + disconnect(output);
    assert(asked.skip(4) =~= rest);
    if let Some(pin) = positive {
        assert(asked[4] == Access::Pin(gpio::Access::StorePincm(pin.pin_cm(), Pincm::zero())));
    }
    if let Some(pin) = negative {
        assert(asked[4 + disconnect(positive).len() as int] == Access::Pin(
            gpio::Access::StorePincm(pin.pin_cm(), Pincm::zero()),
        ));
    }
    if let Some(pin) = output {
        assert(asked[asked.len() - 1] == Access::Pin(gpio::Access::StorePincm(pin.pin_cm(), Pincm::zero())));
    }
}

/// A terminal's pin and channel are the ones it was given with, and its pad is handed to the analog side, connected to
/// nothing digital.
pub proof fn terminals_are_handed_over(terminal: Option<TerminalPin>)
    ensures
        terminal is None ==> channel_of(terminal) is None && pin_of(terminal) is None && terminal_setup(terminal).len()
            == 0,
        terminal matches Some(given) ==> {
            &&& channel_of(terminal) == Some(given.channel) && pin_of(terminal) == Some(given.pin)
            &&& terminal_setup(terminal).len() == 1
            &&& terminal_setup(terminal)[0] matches Access::Pin(gpio::Access::StorePincm(index, value)) && {
                &&& index == given.pin.pin_cm()
                &&& value.pf == 0 && !value.pc && !value.inena && !value.inv && !value.hiz1
                &&& !value.pipu && !value.pipd && !value.drv && !value.hysten && !value.wuen && !value.wcomp
            }
        },
{
}

/// The default comparator is fast, without hysteresis, filter, inversion, exchange or reference, and works its waits
/// out from the clock tree.
pub proof fn default_is_plain()
    ensures
        Config::default_spec().speed is Fast,
        Config::default_spec().hysteresis is Off,
        Config::default_spec().output_polarity is NonInverted,
        Config::default_spec().filter is None,
        !Config::default_spec().exchange_inputs,
        Config::default_spec().settling is FromClockTree,
        Config::default_spec().reference is None,
{
}

/// The enable is waited out for the comparator's own speed, unless its waits were solved ahead of time.
pub proof fn enable_wait_is_for_the_speed<T: Instance, M: Mode>(config: Config, clocks: Clocks)
    ensures
        config.settling matches Settling::Solved(cycles) ==> Comp::<T, M>::enable_wait(config, clocks)
            == cycles.enable(),
        config.settling is FromClockTree && config.speed is Fast ==> Comp::<T, M>::enable_wait(config, clocks)
            == covering_cycles(clocks.mclk, T::ENABLE_FAST_NS),
        config.settling is FromClockTree && config.speed is UltraLowPower ==> Comp::<T, M>::enable_wait(config, clocks)
            == covering_cycles(clocks.mclk, T::ENABLE_ULP_NS),
{
}

/// A change of code writes the register the DAC is selected from, and waits for as long as the DAC takes.
pub proof fn recoding_waits_for_the_dac(code: DacCode, settle_cycles: u32)
    ensures
        recode_accesses(code, settle_cycles).len() == 2,
        recode_accesses(code, settle_cycles)[0] matches Access::DacCode(register, bits) && register == 0 && bits
            == code.bits(),
        recode_accesses(code, settle_cycles)[1] matches Access::Delay(cycles) && cycles == settle_cycles,
{
}

/// A wait is over exactly where it was armed and its edge has been seen, and then forgets both edges; until then each
/// poll arms its edge and no other.
pub proof fn wait_is_over_once_its_edge_is_seen(wait: EdgeWait, ris: Flags)
    ensures
        wait.edge() is Rising ==> (wait.over(ris) <==> wait.armed() && ris.compifg),
        wait.edge() is Falling ==> (wait.over(ris) <==> wait.armed() && ris.compinvifg),
        wait.edge() is Any ==> (wait.over(ris) <==> wait.armed() && (ris.compifg || ris.compinvifg)),
        wait.over(ris) ==> (wait.poll_access(ris) matches Access::Iclr(flags) && flags.compifg && flags.compinvifg
            && !flags.outrdyifg),
        !wait.over(ris) ==> (wait.poll_access(ris) matches Access::Imask(flags) && {
            &&& flags.compifg <==> wait.edge() is Rising || wait.edge() is Any
            &&& flags.compinvifg <==> wait.edge() is Falling || wait.edge() is Any
            &&& !flags.outrdyifg
        }),
{
}

} // verus!
