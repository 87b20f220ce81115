//! Digital-to-analog converter (DAC12).
//!
//! A 12-bit voltage-output DAC. Write a code, get a voltage: the output is a fraction of the
//! reference, so [`Config`]'s references decide what a code is worth and nothing here converts to
//! volts on the caller's behalf.
//!
//! # The output is a mux, not just an enable
//!
//! [`Config::output`] connects the DAC to the OPA, the ADC, the comparator and the `DAC_OUT` pin
//! together: they share one node. Leave it off and the DAC produces no output at all, which is the
//! reset state.
//!
//! # Configure first, then enable
//!
//! Changing a control register while the DAC is running can cause unpredictable results. [`Dac::new`]
//! writes everything before it sets `CTL0.ENABLE` and then waits for the module-ready flag, and there
//! is no way to change the configuration of a running driver.

use crate::bus::Bus;
use vstd::prelude::*;

verus! {

/// Conversion resolution.
#[derive(Debug, Clone, Copy, PartialEq, Eq, Structural)]
pub enum Resolution {
    /// Eight bits, so the largest useful code is 255.
    Bits8,
    /// Twelve bits, so the largest useful code is 4095.
    Bits12,
}

/// `CTL0.RES`.
#[derive(Debug, Clone, Copy, PartialEq, Eq, Structural)]
pub enum Res {
    /// Eight bits.
    _8bits,
    /// Twelve bits.
    _12bits,
}

impl Resolution {
    /// The largest code this resolution expresses.
    pub open spec fn max_code_spec(self) -> u16 {
        match self {
            Resolution::Bits8 => 255,
            Resolution::Bits12 => 4095,
        }
    }

    /// The register encoding.
    pub open spec fn res(self) -> Res {
        match self {
            Resolution::Bits8 => Res::_8bits,
            Resolution::Bits12 => Res::_12bits,
        }
    }

    /// The largest code this resolution expresses.
    ///
    /// A code above it is a caller error rather than a saturating write: the hardware takes the low
    /// bits and the output is a wholly different voltage.
    pub fn max_code(self) -> (max: u16)
        ensures
            max == self.max_code_spec(),
    {
        match self {
            Self::Bits8 => 255,
            Self::Bits12 => 4095,
        }
    }

    /// The register encoding.
    pub fn to_res(self) -> (res: Res)
        ensures
            res == self.res(),
    {
        match self {
            Self::Bits8 => Res::_8bits,
            Self::Bits12 => Res::_12bits,
        }
    }
}

impl Default for Resolution {
    fn default() -> (resolution: Self)
        ensures
            resolution == Resolution::Bits12,
    {
        Resolution::Bits12
    }
}

/// Full scale is one code short of the reference at either width, and an eight-bit code is worth exactly
/// sixteen twelve-bit ones: a code is a fraction of 256 or of 4096, not of 255 or of 4095.
pub proof fn eight_bit_code_is_worth_sixteen(code: u16)
    requires
        code <= Resolution::Bits8.max_code_spec(),
    ensures
        Resolution::Bits8.max_code_spec() + 1 == 256,
        Resolution::Bits12.max_code_spec() + 1 == 4096,
        code * 16 <= Resolution::Bits12.max_code_spec(),
        (code * 16) * (Resolution::Bits8.max_code_spec() + 1) == code * (Resolution::Bits12.max_code_spec() + 1),
{
}

/// What a code is measured against at the top of the range.
#[derive(Debug, Clone, Copy, PartialEq, Eq, Structural)]
pub enum PositiveReference {
    /// The analog supply.
    Supply,
    /// The `VREF+` pin.
    ///
    /// This is a pin, not the internal reference module.
    External,
}

impl Default for PositiveReference {
    fn default() -> (reference: Self)
        ensures
            reference == PositiveReference::Supply,
    {
        PositiveReference::Supply
    }
}

/// What a code is measured against at the bottom of the range.
#[derive(Debug, Clone, Copy, PartialEq, Eq, Structural)]
pub enum NegativeReference {
    /// Analog ground.
    Ground,
    /// The `VREF-` pin.
    External,
}

impl Default for NegativeReference {
    fn default() -> (reference: Self)
        ensures
            reference == NegativeReference::Ground,
    {
        NegativeReference::Ground
    }
}

/// How a code is encoded.
#[derive(Debug, Clone, Copy, PartialEq, Eq, Structural)]
pub enum DataFormat {
    /// Zero is the bottom of the range and the maximum code is the top.
    Binary,
    /// The code is signed, so zero sits at mid-scale.
    TwosComplement,
}

impl Default for DataFormat {
    fn default() -> (format: Self)
        ensures
            format == DataFormat::Binary,
    {
        DataFormat::Binary
    }
}

/// What the output amplifier does.
#[derive(Debug, Clone, Copy, PartialEq, Eq, Structural)]
pub enum OutputBuffer {
    /// Buffered, which is what drives a load.
    Enabled,
    /// Off, with a pulldown on the output.
    DisabledPulldown,
    /// Off, with the output left floating.
    DisabledHighZ,
}

impl Default for OutputBuffer {
    fn default() -> (buffer: Self)
        ensures
            buffer == OutputBuffer::Enabled,
    {
        OutputBuffer::Enabled
    }
}

/// DAC configuration.
#[derive(Debug, Clone, Copy, PartialEq, Eq, Structural)]
pub struct Config {
    /// How many bits a code carries.
    pub resolution: Resolution,
    /// The top of the output range.
    pub positive_reference: PositiveReference,
    /// The bottom of the output range.
    pub negative_reference: NegativeReference,
    /// How a code is encoded.
    pub format: DataFormat,
    /// What the output amplifier does.
    pub output_buffer: OutputBuffer,
    /// Whether the DAC drives the shared output node at all.
    ///
    /// Off by default, which is the reset state and means the DAC converts but reaches nothing.
    pub output: bool,
}

impl Config {
    /// The default configuration.
    pub open spec fn default_spec() -> Config {
        Config {
            resolution: Resolution::Bits12,
            positive_reference: PositiveReference::Supply,
            negative_reference: NegativeReference::Ground,
            format: DataFormat::Binary,
            output_buffer: OutputBuffer::Enabled,
            output: false,
        }
    }

    /// The reset-ish default.
    pub fn new() -> (config: Self)
        ensures
            config == Self::default_spec(),
    {
        Config {
            resolution: Resolution::Bits12,
            positive_reference: PositiveReference::Supply,
            negative_reference: NegativeReference::Ground,
            format: DataFormat::Binary,
            output_buffer: OutputBuffer::Enabled,
            output: false,
        }
    }
}

impl Default for Config {
    fn default() -> (config: Self)
        ensures
            config == Self::default_spec(),
    {
        Self::new()
    }
}

/// `CTL1.AMPHIZ`: what the output does while the amplifier is off.
#[derive(Debug, Clone, Copy, PartialEq, Eq, Structural)]
pub enum Amphiz {
    /// High impedance, which is the field clear.
    Hiz,
    /// Pulled down, which is the field set.
    Pulldown,
}

/// `CTL1`.
#[derive(Debug, Clone, Copy, PartialEq, Eq, Structural)]
pub struct Ctl1 {
    /// Positive reference.
    pub refsp: PositiveReference,
    /// Negative reference.
    pub refsn: NegativeReference,
    /// Amplifier enable.
    pub ampen: bool,
    /// Output while the amplifier is off.
    pub amphiz: Amphiz,
    /// Whether the output node is connected.
    pub ops: bool,
}

/// `CTL0`.
#[derive(Debug, Clone, Copy, PartialEq, Eq, Structural)]
pub struct Ctl0 {
    /// Resolution.
    pub res: Res,
    /// Data format.
    pub dfm: DataFormat,
    /// Enable.
    pub enable: bool,
}

/// One access to a DAC.
#[derive(Debug, Clone, Copy, PartialEq, Eq, Structural)]
pub enum Access {
    /// Assert the reset and clear its sticky flag.
    Reset,
    /// Switch the power enable.
    Power(bool),
    /// Spin for this many CPU cycles.
    Delay(u32),
    /// Write `CTL1`.
    Ctl1(Ctl1),
    /// Write `CTL0`.
    Ctl0(Ctl0),
    /// Spin until `RIS.MODRDYIFG` is raised.
    WaitReady,
    /// Write `DATA0`.
    Data(u16),
    /// Read-modify-write of `CTL0.ENABLE`.
    Enable(bool),
}

/// What bringing the DAC up asks for. The enable is a write of its own, after everything it depends on.
pub open spec fn bring_up(config: Config) -> Seq<Access> {
    seq![
        Access::Reset,
        Access::Power(true),
        Access::Delay(16),
        Access::Ctl1(
            Ctl1 {
                refsp: config.positive_reference,
                refsn: config.negative_reference,
                ampen: config.output_buffer == OutputBuffer::Enabled,
                amphiz: if config.output_buffer == OutputBuffer::DisabledPulldown {
                    Amphiz::Pulldown
                } else {
                    Amphiz::Hiz
                },
                ops: config.output,
            },
        ),
        Access::Ctl0(Ctl0 { res: config.resolution.res(), dfm: config.format, enable: true }),
        Access::WaitReady,
    ]
}

/// DAC driver.
pub struct Dac {
    resolution: Resolution,
}

impl Dac {
    /// How many bits a code carries.
    pub closed spec fn resolution(&self) -> Resolution {
        self.resolution
    }

    /// Claim the DAC and bring it up.
    ///
    /// Everything is written before the enable, and the driver is usable once the module reports ready.
    pub fn new(config: Config, bus: &mut Bus<Access>) -> (dac: Self)
        ensures
            dac.resolution() == config.resolution,
            final(bus)@ == old(bus)@ + bring_up(config),
    {
        bus.push(Access::Reset);
        bus.push(Access::Power(true));
        // The registers behind `PWREN` stay isolated for a few ULPCLK cycles and a write that lands in
        // that window is dropped.
        bus.push(Access::Delay(16));
        bus.push(
            Access::Ctl1(
                Ctl1 {
                    refsp: config.positive_reference,
                    refsn: config.negative_reference,
                    ampen: matches!(config.output_buffer, OutputBuffer::Enabled),
                    // The field reads backwards: clear is high impedance and set is the pulldown.
                    amphiz: match config.output_buffer {
                        OutputBuffer::DisabledPulldown => Amphiz::Pulldown,
                        OutputBuffer::Enabled | OutputBuffer::DisabledHighZ => Amphiz::Hiz,
                    },
                    ops: config.output,
                },
            ),
        );
        bus.push(Access::Ctl0(Ctl0 { res: config.resolution.to_res(), dfm: config.format, enable: true }));
        // Raised once when the core and the output buffer have settled.
        bus.push(Access::WaitReady);

        Dac { resolution: config.resolution }
    }

    /// Set the output code.
    ///
    /// The code has to be one the resolution expresses: the hardware would take the low bits and
    /// output a different voltage, with nothing to say it had.
    pub fn set_code(&mut self, code: u16, bus: &mut Bus<Access>)
        requires
            code <= old(self).resolution().max_code_spec(),
        ensures
            *final(self) == *old(self),
            final(bus)@ == old(bus)@.push(Access::Data(code)),
    {
        bus.push(Access::Data(code));
    }

    /// The largest code this driver's resolution expresses.
    pub fn max_code(&self) -> (max: u16)
        ensures
            max == self.resolution().max_code_spec(),
    {
        self.resolution.max_code()
    }

    /// Give the driver up: the DAC is disabled and powered down.
    pub fn release(self, bus: &mut Bus<Access>)
        ensures
            final(bus)@ == old(bus)@ + seq![Access::Enable(false), Access::Power(false)],
    {
        bus.push(Access::Enable(false));
        bus.push(Access::Power(false));
    }
}

/// The DAC is enabled by the last register write of its bring-up, so no control register changes while
/// it runs.
pub proof fn enable_follows_configuration(config: Config)
    ensures
        ({
            let accesses = bring_up(config);
            let n = accesses.len() as int;

            &&& accesses[n - 1] == Access::WaitReady
            &&& accesses[n - 2] matches Access::Ctl0(ctl0) && ctl0.enable
            &&& forall|i: int| 0 <= i < n - 2 ==> (#[trigger] accesses[i]) !is Ctl0 && accesses[i] !is Enable
        }),
{
}

/// Whether an access sets up what a configuration asks for.
pub open spec fn sets_up(access: Access, config: Config) -> bool {
    match access {
        Access::Reset => true,
        Access::Power(on) => on,
        Access::Delay(cycles) => cycles == 16,
        Access::Ctl1(ctl1) => {
            &&& ctl1.refsp is Supply <==> config.positive_reference is Supply
            &&& ctl1.refsp is External <==> config.positive_reference is External
            &&& ctl1.refsn is Ground <==> config.negative_reference is Ground
            &&& ctl1.refsn is External <==> config.negative_reference is External
            &&& ctl1.ampen <==> config.output_buffer is Enabled
            &&& ctl1.amphiz is Pulldown <==> config.output_buffer is DisabledPulldown
            &&& ctl1.ops == config.output
        },
        Access::Ctl0(ctl0) => {
            &&& ctl0.res is _8bits <==> config.resolution is Bits8
            &&& ctl0.res is _12bits <==> config.resolution is Bits12
            &&& ctl0.dfm is Binary <==> config.format is Binary
            &&& ctl0.dfm is TwosComplement <==> config.format is TwosComplement
            &&& ctl0.enable
        },
        Access::WaitReady => true,
        _ => false,
    }
}

/// The DAC is brought up as it was asked for: between its references, at its resolution and in its format, with its
/// amplifier on or its output pulled or floating, and driving the shared node only where it is to. The reset, the
/// power and the wait for the bus isolation come first.
pub proof fn converter_is_set_up_as_asked(config: Config)
    ensures
        ({
            let asked = bring_up(config);

            &&& forall|i: int| 0 <= i < asked.len() ==> sets_up(#[trigger] asked[i], config)
            &&& asked.len() == 6
            &&& asked[0] is Reset && asked[1] is Power && asked[2] is Delay
            &&& asked[3] is Ctl1 && asked[4] is Ctl0 && asked[5] is WaitReady
        }),
{
}

/// A resolution expresses the codes of its width, and is programmed as itself.
pub proof fn resolutions_are_programmed_as_named(resolution: Resolution)
    ensures
        resolution is Bits8 ==> resolution.max_code_spec() == 255 && resolution.res() is _8bits,
        resolution is Bits12 ==> resolution.max_code_spec() == 4095 && resolution.res() is _12bits,
{
}

/// The default DAC converts twelve-bit binary codes between the supply and ground, buffered, and reaches nothing.
pub proof fn default_reaches_nothing()
    ensures
        Config::default_spec().resolution is Bits12,
        Config::default_spec().positive_reference is Supply,
        Config::default_spec().negative_reference is Ground,
        Config::default_spec().format is Binary,
        Config::default_spec().output_buffer is Enabled,
        !Config::default_spec().output,
{
}

} // verus!
