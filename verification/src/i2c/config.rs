//! How a bus is driven, and the clock solution it comes to.

use crate::gpio::{PfType, Pull};
use crate::sysctl::{Clocks, SleepLevel};
use vstd::arithmetic::div_mod::{
    lemma_div_is_ordered_by_denominator, lemma_fundamental_div_mod, lemma_fundamental_div_mod_converse,
};
use vstd::prelude::*;

verus! {

/// The clock source for the I2C.
#[derive(Clone, Copy, PartialEq, Eq, Debug, Structural)]
pub enum ClockSel {
    /// Use the bus clock.
    ///
    /// Configurable clock.
    BusClk,
    /// Use the middle frequency clock.
    ///
    /// MFCLK runs at 4 MHz.
    MfClk,
}

impl ClockSel {
    /// Rate this source feeds the peripheral at, from the two rates it picks between.
    pub open spec fn rate_spec(self, mfclk: u32, ulpclk: u32) -> u32 {
        match self {
            ClockSel::MfClk => mfclk,
            ClockSel::BusClk => ulpclk,
        }
    }

    /// Rate this source feeds the peripheral at, before the peripheral's own divider.
    ///
    /// The bus clock is ULPCLK rather than MCLK: every I2C instance is in PD0.
    pub fn frequency(self, clocks: &Clocks) -> (hz: u32)
        ensures
            hz == self.rate_spec(clocks.mfclk, clocks.ulpclk),
    {
        self.rate(clocks.mfclk, clocks.ulpclk)
    }

    /// [`Self::frequency`] from the two rates it picks between.
    pub fn rate(self, mfclk: u32, ulpclk: u32) -> (hz: u32)
        ensures
            hz == self.rate_spec(mfclk, ulpclk),
    {
        match self {
            ClockSel::MfClk => mfclk,
            ClockSel::BusClk => ulpclk,
        }
    }
}

/// The clock divider for the I2C.
#[derive(Clone, Copy, PartialEq, Eq, Debug, Structural)]
pub enum ClockDiv {
    /// Divide by 1.
    DivBy1,
    /// Divide by 2.
    DivBy2,
    /// Divide by 3.
    DivBy3,
    /// Divide by 4.
    DivBy4,
    /// Divide by 5.
    DivBy5,
    /// Divide by 6.
    DivBy6,
    /// Divide by 7.
    DivBy7,
    /// Divide by 8.
    DivBy8,
}

impl ClockDiv {
    /// What the clock is divided by.
    pub open spec fn divider_spec(self) -> u32 {
        match self {
            ClockDiv::DivBy1 => 1,
            ClockDiv::DivBy2 => 2,
            ClockDiv::DivBy3 => 3,
            ClockDiv::DivBy4 => 4,
            ClockDiv::DivBy5 => 5,
            ClockDiv::DivBy6 => 6,
            ClockDiv::DivBy7 => 7,
            ClockDiv::DivBy8 => 8,
        }
    }

    /// What the clock is divided by.
    pub fn divider(self) -> (divider: u32)
        ensures
            divider == self.divider_spec(),
            1 <= divider <= 8,
    {
        match self {
            ClockDiv::DivBy1 => 1,
            ClockDiv::DivBy2 => 2,
            ClockDiv::DivBy3 => 3,
            ClockDiv::DivBy4 => 4,
            ClockDiv::DivBy5 => 5,
            ClockDiv::DivBy6 => 6,
            ClockDiv::DivBy7 => 7,
            ClockDiv::DivBy8 => 8,
        }
    }

    /// The `CLKDIV.RATIO` encoding: one less than the divider.
    pub fn ratio(self) -> (ratio: u8)
        ensures
            ratio == self.divider_spec() - 1,
    {
        (self.divider() - 1) as u8
    }
}

/// The I2C mode.
#[derive(Clone, Copy, PartialEq, Eq, Debug, Structural)]
pub enum BusSpeed {
    /// Standard mode.
    ///
    /// The Standard mode runs at 100 kHz.
    Standard,
    /// Fast mode.
    ///
    /// The fast mode runs at 400 kHz.
    FastMode,
    /// Fast mode plus.
    ///
    /// The fast mode plus runs at 1 MHz.
    FastModePlus,
    /// Custom mode.
    ///
    /// The custom mode frequency (in Hz) can be set manually.
    Custom(u32),
}

impl BusSpeed {
    /// The speed in hertz.
    pub open spec fn hertz_spec(self) -> u32 {
        match self {
            BusSpeed::Standard => 100_000,
            BusSpeed::FastMode => 400_000,
            BusSpeed::FastModePlus => 1_000_000,
            BusSpeed::Custom(hz) => hz,
        }
    }

    /// The speed in hertz.
    pub fn hertz(self) -> (hz: u32)
        ensures
            hz == self.hertz_spec(),
    {
        match self {
            BusSpeed::Standard => 100_000,
            BusSpeed::FastMode => 400_000,
            BusSpeed::FastModePlus => 1_000_000,
            BusSpeed::Custom(hz) => hz,
        }
    }
}

/// Why an I2C driver could not be built or reconfigured.
#[derive(Clone, Copy, PartialEq, Eq, Debug, Structural)]
pub enum ConfigError {
    /// Invalid clock rate.
    ///
    /// The clock rate could not be configured with the given configuration.
    InvalidClockRate,
    /// Clock source not enabled.
    ///
    /// The clock source is not enabled in SYSCTL.
    ClockSourceNotEnabled,
    /// Invalid target address.
    ///
    /// The address does not fit the addressing mode it was given in.
    InvalidTargetAddress,
    /// A second target address was asked for alongside a 10-bit primary address.
    ///
    /// `OAR2` is only compared while the target is in 7-bit mode, so the second address would never
    /// match.
    SecondAddressWith10Bit,
    /// [`Config::clock_low_timeout_us`] is outside what the counter can represent.
    InvalidClockLowTimeout,
}

/// The most `TPR` can hold.
pub const MAX_TPR: u8 = 127;

/// The quotient of two numbers, rounded up.
pub open spec fn ceil_div(n: int, d: int) -> int {
    if n % d == 0 {
        n / d
    } else {
        n / d + 1
    }
}

/// A number held between 1 and what a `u16` can hold.
pub open spec fn in_u16(cycles: int) -> int {
    if cycles < 1 {
        1
    } else if cycles > u16::MAX {
        u16::MAX as int
    } else {
        cycles
    }
}

/// A number, or one in place of zero.
pub open spec fn nonzero(n: int) -> int {
    if n == 0 {
        1
    } else {
        n
    }
}

/// CPU cycles in half an SCL period.
pub open spec fn half_period(mclk: u32, clock_hz: u32, tpr: u8) -> int {
    in_u16(mclk as int / (2 * nonzero(clock_hz as int / (10 * (tpr + 1)))))
}

/// CPU cycles a freshly started transfer needs before `CSR` is valid: three functional clock cycles,
/// rounded up.
pub open spec fn settle(mclk: u32, clock_hz: u32) -> int {
    in_u16(ceil_div(3 * mclk, nonzero(clock_hz as int)))
}

/// CPU cycles in half an SCL period, which is what the bus-recovery delays are paced by.
pub fn half_period_cycles(mclk: u32, clock_hz: u32, tpr: u8) -> (cycles: u16)
    ensures
        cycles == half_period(mclk, clock_hz, tpr),
{
    // `TPR` is solved as `clock_hz / (bus_speed * 10) - 1`, so this runs it backwards.
    let bus_speed: u32 = clock_hz / (10 * (tpr as u32 + 1));
    let bus_speed: u32 = if bus_speed == 0 {
        1
    } else {
        bus_speed
    };

    assert(clock_hz as int / (10 * (tpr + 1)) <= clock_hz as int / 10) by {
        lemma_div_is_ordered_by_denominator(clock_hz as int, 10, 10 * (tpr + 1));
    }
    let cycles: u32 = mclk / (2 * bus_speed);

    // The count feeds a delay, and a `u16` covers every bus speed a device actually runs at.
    // Saturating shortens the delay rather than losing it.
    if cycles == 0 {
        1
    } else if cycles > 0xffff {
        0xffff
    } else {
        cycles as u16
    }
}

/// CPU cycles a freshly started transfer needs before `CSR` is valid.
///
/// An erratum makes it three functional clock cycles. Rounded up, and at least one cycle so a functional
/// clock faster than the CPU still waits.
pub fn settle_cycles(mclk: u32, clock_hz: u32) -> (cycles: u16)
    ensures
        cycles == settle(mclk, clock_hz),
{
    let clock_hz: u64 = if clock_hz == 0 {
        1
    } else {
        clock_hz as u64
    };
    let clocks: u64 = 3 * mclk as u64;
    let whole: u64 = clocks / clock_hz;
    let exact = clocks % clock_hz == 0;

    if whole >= 0xffff {
        0xffff
    } else if exact {
        if whole == 0 {
            1
        } else {
            whole as u16
        }
    } else {
        (whole + 1) as u16
    }
}

/// A freshly started transfer is given at least the three functional clock cycles it needs, unless that is
/// more cycles than can be counted.
pub proof fn settling_covers_three_clocks(mclk: u32, clock_hz: u32)
    requires
        clock_hz > 0,
        ceil_div(3 * mclk, clock_hz as int) <= u16::MAX,
    ensures
        settle(mclk, clock_hz) * clock_hz >= 3 * mclk,
{
    let n = 3 * mclk;
    let d = clock_hz as int;
    lemma_fundamental_div_mod(n, d);
    let q = n / d;
    assert((q + 1) * d == d * q + d) by (nonlinear_arith);
    assert(q * d == d * q) by (nonlinear_arith);
    if n % d == 0 && q < 1 {
        assert(q == 0) by (nonlinear_arith)
            requires
                q < 1,
                n == d * q,
                n >= 0,
                d > 0,
        ;
    }
    if n % d != 0 {
        assert(q >= 0) by (nonlinear_arith)
            requires
                n == d * q + n % d,
                n >= 0,
                0 <= n % d < d,
        ;
    }
}

/// A solved I2C timing, so the device never has to divide.
///
/// A period only means anything against the clock it was solved for, so the source is part of the
/// solution and [`Config::with_timing`] programs both.
#[derive(Clone, Copy, PartialEq, Eq, Debug, Structural)]
pub struct Timing {
    clock_source: ClockSel,
    clock_div: ClockDiv,
    tpr: u8,
    clock_hz: u32,
    half_period_cycles: u16,
    settle_cycles: u16,
}

/// Whether a divided clock can give a bus speed: it has twenty times the headroom, and the period fits the
/// register.
pub open spec fn reachable(i2c_clk: u32, bus_speed_hz: u32) -> bool {
    &&& bus_speed_hz > 0
    &&& i2c_clk >= 20 * bus_speed_hz
    &&& i2c_clk as int / (10 * bus_speed_hz) <= 128
}

impl Timing {
    #[verifier::type_invariant]
    spec fn register_holds_it(self) -> bool {
        1 <= self.tpr <= 127
    }

    /// The clock this period was solved against.
    pub closed spec fn source(self) -> ClockSel {
        self.clock_source
    }

    /// The divider it was solved with.
    pub closed spec fn div(self) -> ClockDiv {
        self.clock_div
    }

    /// The `TPR` value this programs.
    pub closed spec fn period(self) -> u8 {
        self.tpr
    }

    /// The rate the peripheral sees after its own divider.
    pub closed spec fn hz(self) -> u32 {
        self.clock_hz
    }

    /// CPU cycles in half an SCL period.
    pub closed spec fn half(self) -> u16 {
        self.half_period_cycles
    }

    /// CPU cycles a freshly started transfer needs to settle.
    pub closed spec fn settling(self) -> u16 {
        self.settle_cycles
    }

    /// Whether this is what solving for `bus_speed_hz` comes to: a timing of that speed, or [`None`] where the divided
    /// clock cannot give it.
    pub open spec fn solves(
        timing: Option<Timing>,
        clocks: Clocks,
        clock_source: ClockSel,
        clock_div: ClockDiv,
        bus_speed_hz: u32,
    ) -> bool {
        let hz = (clock_source.rate_spec(clocks.mfclk, clocks.ulpclk) / clock_div.divider_spec()) as u32;

        match timing {
            Some(timing) => {
                &&& reachable(hz, bus_speed_hz)
                &&& timing.source() == clock_source
                &&& timing.div() == clock_div
                &&& timing.hz() == hz
                &&& timing.period() == hz as int / (10 * bus_speed_hz) - 1
                &&& timing.half() == half_period(clocks.mclk, hz, timing.period())
                &&& timing.settling() == settle(clocks.mclk, hz)
            },
            None => !reachable(hz, bus_speed_hz),
        }
    }

    /// Solve the timer period for `bus_speed_hz` from `clock_source` on the tree `clocks` describes.
    ///
    /// Takes the tree rather than reading it: pass the one the peripheral will run on. A timing solved
    /// against a tree the device does not end up running puts the bus at the wrong speed.
    ///
    /// Returns [`None`] if the resulting `TPR` is outside the 1..=127 the register holds, or if the
    /// source is not at least 20x the bus speed, which is the same headroom the runtime path checks.
    pub fn solve(clocks: &Clocks, clock_source: ClockSel, clock_div: ClockDiv, bus_speed_hz: u32) -> (timing: Option<
        Self,
    >)
        ensures
            Self::solves(timing, *clocks, clock_source, clock_div, bus_speed_hz),
    {
        let i2c_clk: u32 = clock_source.frequency(clocks) / clock_div.divider();

        // Same 20x headroom `Config::resolve` requires at runtime.
        let needed: u32 = match bus_speed_hz.checked_mul(20) {
            Some(needed) => needed,
            None => return None,
        };

        if i2c_clk < needed {
            return None;
        }
        let denominator: u32 = match bus_speed_hz.checked_mul(10) {
            Some(denominator) => denominator,
            None => return None,
        };

        if denominator == 0 {
            return None;
        }
        let ticks: u32 = i2c_clk / denominator;

        proof {
            lemma_headroom(i2c_clk as int, bus_speed_hz as int);
        }
        if ticks == 0 || ticks > 128 {
            return None;
        }
        let tpr: u8 = (ticks - 1) as u8;

        Some(
            Timing {
                clock_source,
                clock_div,
                tpr,
                clock_hz: i2c_clk,
                half_period_cycles: half_period_cycles(clocks.mclk, i2c_clk, tpr),
                settle_cycles: settle_cycles(clocks.mclk, i2c_clk),
            },
        )
    }

    /// The `TPR` value this programs.
    pub fn tpr(&self) -> (tpr: u8)
        ensures
            tpr == self.period(),
            1 <= tpr <= MAX_TPR,
    {
        proof {
            use_type_invariant(self);
        }
        self.tpr
    }

    /// The rate the peripheral sees after its own divider.
    pub fn clock_hz(&self) -> (hz: u32)
        ensures
            hz == self.hz(),
    {
        self.clock_hz
    }

    /// The clock this period was solved against.
    pub fn clock_source(&self) -> (source: ClockSel)
        ensures
            source == self.source(),
    {
        self.clock_source
    }
}

proof fn lemma_headroom(i2c_clk: int, bus: int)
    requires
        0 < bus,
        i2c_clk >= 20 * bus,
    ensures
        i2c_clk / (10 * bus) >= 2,
{
    lemma_fundamental_div_mod(i2c_clk, 10 * bus);
    let q = i2c_clk / (10 * bus);
    assert(q >= 2) by (nonlinear_arith)
        requires
            i2c_clk == 10 * bus * q + i2c_clk % (10 * bus),
            i2c_clk % (10 * bus) < 10 * bus,
            i2c_clk >= 20 * bus,
            bus > 0,
    ;
}

/// A bus never runs below the speed it was solved for, and never twice as fast: the period is ten ticks of
/// the divided clock, `TPR` plus one times over, and the solution rounds it down.
pub proof fn solved_speed_is_close(i2c_clk: u32, bus_speed_hz: u32)
    requires
        reachable(i2c_clk, bus_speed_hz),
    ensures
        ({
            let ticks = i2c_clk as int / (10 * bus_speed_hz);

            &&& 2 <= ticks <= 128
            &&& 10 * ticks * bus_speed_hz <= i2c_clk
            &&& i2c_clk < 2 * (10 * ticks * bus_speed_hz)
        }),
{
    let bus = bus_speed_hz as int;
    let d = 10 * bus;
    let clk = i2c_clk as int;
    let ticks = clk / d;
    lemma_headroom(clk, bus);
    lemma_fundamental_div_mod(clk, d);
    assert(10 * ticks * bus == d * ticks) by (nonlinear_arith)
        requires
            d == 10 * bus,
    ;
    assert(d * ticks >= d * 2) by (nonlinear_arith)
        requires
            ticks >= 2,
            d > 0,
    ;
}

/// How an I2C controller drives the bus.
#[derive(Clone, Copy, PartialEq, Eq, Debug, Structural)]
pub struct Config {
    /// I2C clock source, which is picked from the bus speed or comes with a timing.
    pub clock_source: ClockSel,
    /// I2C clock divider.
    pub clock_div: ClockDiv,
    /// A timing solved ahead of time, skipping the divisions on the device.
    ///
    /// When set, [`Self::bus_speed`], [`Self::clock_div`] and the clock source all come from it rather
    /// than being picked from the bus speed.
    pub timing: Option<Timing>,
    /// If true: invert SDA pin signal values.
    pub invert_sda: bool,
    /// If true: invert SCL pin signal values.
    pub invert_scl: bool,
    /// Set the pull configuration for the SDA pin.
    pub sda_pull: Pull,
    /// Set the pull configuration for the SCL pin.
    pub scl_pull: Pull,
    /// Speed of the I2C bus.
    pub bus_speed: BusSpeed,
    /// Fail a transfer once SCL has been held low this many microseconds, or `None` to wait forever.
    ///
    /// `None` by default, because a bus whose targets legitimately stretch for longer would start
    /// failing: pick it from the slowest target, not from the bus speed.
    ///
    /// Representable only in steps of `8320 / clock_hz` seconds, 2 to 255 of them: 520 us to 66 ms from a
    /// 32 MHz functional clock, 4.2 ms to 530 ms from MFCLK. Outside that range is a
    /// [`ConfigError::InvalidClockLowTimeout`]; inside it, the value rounds up.
    pub clock_low_timeout_us: Option<u32>,
}

/// A [`Config`] with everything the driver needs derived from it.
#[derive(Clone, Copy, PartialEq, Eq, Debug, Structural)]
pub struct Resolved {
    /// Clock source.
    pub clock_source: ClockSel,
    /// Clock divider.
    pub clock_div: ClockDiv,
    /// Rate the peripheral sees after its own divider.
    pub clock_hz: u32,
    /// Rate of the source before the divider, which is what deep-sleep survival depends on.
    pub source_hz: u32,
    /// The timer period register value.
    pub tpr: u8,
    /// Load value for the SCL-low timeout counter, or `None` to leave the counter off.
    pub clock_low_timeout: Option<u8>,
    /// CPU cycles in half an SCL period, the unit the bus-recovery delays are counted in.
    pub half_period_cycles: u16,
    /// CPU cycles to let a freshly started transfer settle.
    pub settle_cycles: u16,
}

impl Resolved {
    /// Shallowest sleep level to block so this instance keeps working.
    ///
    /// `floor_for` is the shallowest sleep level that stops a clock of the given rate. It is asked about the
    /// undivided rate: the question is whether the source still runs at the rate the peripheral was
    /// configured for, not what it was divided down to.
    pub fn wake_floor<F: Fn(u32) -> Option<SleepLevel>>(&self, floor_for: &F) -> (floor: Option<SleepLevel>)
        requires
            floor_for.requires((self.source_hz,)),
        ensures
            floor_for.ensures((self.source_hz,), floor),
    {
        floor_for(self.source_hz)
    }
}

/// How many steps of the SCL-low counter last at least this long: one is 8320 functional clocks.
pub open spec fn timeout_steps(timeout_us: u32, clock_hz: u32) -> int {
    ceil_div(timeout_us * clock_hz, 8_320_000_000)
}

/// Whether a timeout is in the range of the SCL-low counter: at least two whole steps, and at most 255.
pub open spec fn representable(timeout_us: u32, clock_hz: u32) -> bool {
    2 * 8_320_000_000 <= timeout_us * clock_hz <= 255 * 8_320_000_000
}

/// The load value for an optional timeout.
pub open spec fn solved_timeout(timeout_us: Option<u32>, clock_hz: u32) -> Result<Option<u8>, ConfigError> {
    match timeout_us {
        None => Ok(None),
        Some(us) => if representable(us, clock_hz) {
            Ok(Some(timeout_steps(us, clock_hz) as u8))
        } else {
            Err(ConfigError::InvalidClockLowTimeout)
        },
    }
}

/// Solve [`Config::clock_low_timeout_us`] into a `TIMEOUT_CTL.TCNTLA` load value.
///
/// One step of `TCNTLA` is 8320 functional clocks: a count is 520 clocks and `TCNTLA` holds the upper 8
/// bits of a 12-bit counter, so each unit is 16 counts. Rounded up, so the timeout is never shorter than
/// what was asked for.
///
/// The divisor is split into a power of two and an odd factor, so that past the first step everything is
/// 32-bit: once the product has been shifted down, a result inside the register's range is small enough.
pub fn solve_clock_low_timeout(timeout_us: u32, clock_hz: u32) -> (steps: Result<u8, ConfigError>)
    ensures
        match steps {
            Ok(steps) => representable(timeout_us, clock_hz) && steps == timeout_steps(timeout_us, clock_hz),
            Err(error) => error == ConfigError::InvalidClockLowTimeout && !representable(timeout_us, clock_hz),
        },
{
    let odd: u32 = 1_015_625;

    assert(timeout_us as u64 * clock_hz as u64 <= u64::MAX) by (nonlinear_arith)
        requires
            timeout_us <= u32::MAX,
            clock_hz <= u32::MAX,
    ;
    let product: u64 = timeout_us as u64 * clock_hz as u64;

    // Below 2 steps the counter does not run at all, and rounding up is for requests inside the range.
    if product < 16_640_000_000 {
        return Err(ConfigError::InvalidClockLowTimeout);
    }
    let scaled: u64 = if product % 8192 == 0 {
        product / 8192
    } else {
        product / 8192 + 1
    };

    proof {
        lemma_nested_ceil(product as int, 8192, 1_015_625);
        lemma_ceil_above(scaled as int, 1_015_625, 255);
        lemma_ceil_above(product as int, 8_320_000_000, 255);
    }
    // Reject out of range before narrowing, which is also what makes the narrowing sound.
    if scaled > 255 * odd as u64 {
        return Err(ConfigError::InvalidClockLowTimeout);
    }
    // Divide by the odd factor by hand: the quotient fits in eight bits, so eight compare-subtract
    // steps settle it.
    let mut rest: u32 = scaled as u32;
    let mut steps: u32 = 0;
    let mut weight: u32 = 128;

    while weight > 0
        invariant
            odd == 1_015_625,
            scaled == rest + steps * odd,
            steps + 2 * weight <= 256,
            weight == 128 || weight == 64 || weight == 32 || weight == 16 || weight == 8 || weight == 4 || weight == 2
                || weight == 1 || weight == 0,
            weight > 0 ==> rest < odd * 2 * weight,
            weight == 0 ==> rest < odd,
            scaled <= 255 * odd,
        decreases weight,
    {
        let sub: u32 = odd * weight;

        if rest >= sub {
            rest -= sub;
            proof {
                assert((steps + weight) * odd == steps * odd + weight * odd) by (nonlinear_arith);
            }
            steps += weight;
        }
        weight = weight / 2;
    }
    proof {
        lemma_fundamental_div_mod_converse(scaled as int, 1_015_625, steps as int, rest as int);
        if steps == 255 {
            assert(rest == 0);
        }
    }
    // Anything left over falls inside the next step, and the timeout is never to be shorter than asked.
    if rest != 0 {
        steps += 1;
    }
    Ok(steps as u8)
}

/// Rounding up twice is rounding up once.
proof fn lemma_nested_ceil(n: int, a: int, b: int)
    requires
        0 <= n,
        0 < a,
        0 < b,
    ensures
        ceil_div(ceil_div(n, a), b) == ceil_div(n, a * b),
{
    let s = ceil_div(n, a);
    let t = ceil_div(s, b);
    lemma_ceil_bounds(n, a);
    lemma_ceil_bounds(s, b);
    assert(t * (a * b) >= n && (t - 1) * (a * b) < n) by (nonlinear_arith)
        requires
            a > 0,
            b > 0,
            s * a >= n,
            (s - 1) * a < n,
            t * b >= s,
            (t - 1) * b < s,
    {
        assert(t * (a * b) == (t * b) * a);
        assert((t * b) * a >= s * a);
        assert((t - 1) * (a * b) == ((t - 1) * b) * a);
        assert(((t - 1) * b) * a <= (s - 1) * a);
    }
    assert(a * b > 0) by (nonlinear_arith)
        requires
            a > 0,
            b > 0,
    ;
    lemma_ceil_unique(n, a * b, t);
}

proof fn lemma_ceil_bounds(n: int, d: int)
    requires
        0 <= n,
        0 < d,
    ensures
        ceil_div(n, d) * d >= n,
        (ceil_div(n, d) - 1) * d < n,
        ceil_div(n, d) >= 0,
{
    lemma_fundamental_div_mod(n, d);
    let q = n / d;
    assert(q * d == d * q && (q + 1) * d == d * q + d && (q - 1) * d == d * q - d) by (nonlinear_arith);
    assert(q >= 0) by (nonlinear_arith)
        requires
            n == d * q + n % d,
            n >= 0,
            0 <= n % d < d,
    ;
}

proof fn lemma_ceil_unique(n: int, d: int, q: int)
    requires
        0 <= n,
        0 < d,
        q * d >= n,
        (q - 1) * d < n,
    ensures
        ceil_div(n, d) == q,
{
    let c = ceil_div(n, d);
    lemma_ceil_bounds(n, d);
    assert(c == q) by (nonlinear_arith)
        requires
            d > 0,
            q * d >= n,
            (q - 1) * d < n,
            c * d >= n,
            (c - 1) * d < n,
    ;
}

proof fn lemma_ceil_above(n: int, d: int, limit: int)
    requires
        0 <= n,
        0 < d,
    ensures
        ceil_div(n, d) > limit <==> n > limit * d,
{
    let c = ceil_div(n, d);
    lemma_ceil_bounds(n, d);
    assert(c > limit <==> n > limit * d) by (nonlinear_arith)
        requires
            d > 0,
            c * d >= n,
            (c - 1) * d < n,
    ;
}

/// A timeout that is accepted is never shorter than what was asked for, and never a whole step longer.
pub proof fn timeout_is_never_short(timeout_us: u32, clock_hz: u32)
    requires
        solved_timeout(Some(timeout_us), clock_hz) is Ok,
    ensures
        ({
            let steps = solved_timeout(Some(timeout_us), clock_hz)->Ok_0->Some_0;

            &&& 2 <= steps
            &&& steps * 8_320_000_000 >= timeout_us * clock_hz
            &&& (steps - 1) * 8_320_000_000 < timeout_us * clock_hz
        }),
{
    assert(timeout_us * clock_hz >= 0) by (nonlinear_arith)
        requires
            timeout_us >= 0,
            clock_hz >= 0,
    ;
    lemma_ceil_bounds(timeout_us * clock_hz, 8_320_000_000);
    lemma_ceil_above(timeout_us * clock_hz, 8_320_000_000, 1);
    lemma_ceil_above(timeout_us * clock_hz, 8_320_000_000, 255);
}

impl Config {
    /// The reset-ish default.
    pub open spec fn default_spec() -> Config {
        Config {
            clock_source: ClockSel::MfClk,
            clock_div: ClockDiv::DivBy1,
            timing: None,
            invert_sda: false,
            invert_scl: false,
            sda_pull: Pull::NoPull,
            scl_pull: Pull::NoPull,
            bus_speed: BusSpeed::Standard,
            clock_low_timeout_us: None,
        }
    }

    /// The reset-ish default.
    pub fn new() -> (config: Self)
        ensures
            config == Self::default_spec(),
    {
        Config {
            clock_source: ClockSel::MfClk,
            clock_div: ClockDiv::DivBy1,
            timing: None,
            invert_sda: false,
            invert_scl: false,
            sda_pull: Pull::NoPull,
            scl_pull: Pull::NoPull,
            bus_speed: BusSpeed::Standard,
            clock_low_timeout_us: None,
        }
    }

    /// Use a timing solved ahead of time, skipping the divisions on the device.
    ///
    /// Sets the clock source as well: the timing carries the clock it was solved against, and a period
    /// programmed against a different one puts the bus at the wrong speed.
    pub fn with_timing(self, timing: Timing) -> (config: Self)
        ensures
            config == (Config {
                clock_source: timing.source(),
                clock_div: timing.div(),
                timing: Some(timing),
                ..self
            }),
    {
        Config { clock_source: timing.clock_source, clock_div: timing.clock_div, timing: Some(timing), ..self }
    }

    /// How the SDA pad is configured.
    pub fn sda_pf(&self) -> (ty: PfType)
        ensures
            ty.pull() == self.sda_pull,
            ty.reads(),
            ty.inverts() == self.invert_sda,
    {
        PfType::input(self.sda_pull, self.invert_sda)
    }

    /// How the SCL pad is configured.
    pub fn scl_pf(&self) -> (ty: PfType)
        ensures
            ty.pull() == self.scl_pull,
            ty.reads(),
            ty.inverts() == self.invert_scl,
    {
        PfType::input(self.scl_pull, self.invert_scl)
    }

    /// The clock source a bus speed needs: at or below 200 kHz MFCLK suffices, above it the bus clock is
    /// needed.
    pub open spec fn picked_source(self) -> ClockSel {
        if self.bus_speed.hertz_spec() > 200_000 {
            ClockSel::BusClk
        } else {
            ClockSel::MfClk
        }
    }

    /// The divided rate of the picked source.
    pub open spec fn picked_hz(self, mfclk: u32, ulpclk: u32) -> u32 {
        (self.picked_source().rate_spec(mfclk, ulpclk) / self.clock_div.divider_spec()) as u32
    }

    /// Timer ticks in a bus period.
    pub open spec fn ticks(self, mfclk: u32, ulpclk: u32) -> int {
        self.picked_hz(mfclk, ulpclk) as int / (self.bus_speed.hertz_spec() * 10)
    }

    /// What a configuration resolves to.
    pub open spec fn resolved(self, mfclk: u32, ulpclk: u32, mclk: u32, usemftick: bool) -> Result<
        Resolved,
        ConfigError,
    > {
        match self.timing {
            Some(timing) => match solved_timeout(self.clock_low_timeout_us, timing.hz()) {
                Ok(clock_low_timeout) => Ok(
                    Resolved {
                        clock_source: timing.source(),
                        clock_div: timing.div(),
                        clock_hz: timing.hz(),
                        source_hz: timing.source().rate_spec(mfclk, ulpclk),
                        tpr: timing.period(),
                        clock_low_timeout,
                        half_period_cycles: timing.half(),
                        settle_cycles: timing.settling(),
                    },
                ),
                Err(error) => Err(error),
            },
            None => if !usemftick && self.picked_source() == ClockSel::MfClk {
                Err(ConfigError::ClockSourceNotEnabled)
            } else if !reachable(self.picked_hz(mfclk, ulpclk), self.bus_speed.hertz_spec()) {
                Err(ConfigError::InvalidClockRate)
            } else {
                match solved_timeout(self.clock_low_timeout_us, self.picked_hz(mfclk, ulpclk)) {
                    Ok(clock_low_timeout) => Ok(
                        Resolved {
                            clock_source: self.picked_source(),
                            clock_div: self.clock_div,
                            clock_hz: self.picked_hz(mfclk, ulpclk),
                            source_hz: self.picked_source().rate_spec(mfclk, ulpclk),
                            tpr: (self.ticks(mfclk, ulpclk) - 1) as u8,
                            clock_low_timeout,
                            half_period_cycles: half_period(
                                mclk,
                                self.picked_hz(mfclk, ulpclk),
                                (self.ticks(mfclk, ulpclk) - 1) as u8,
                            ) as u16,
                            settle_cycles: settle(mclk, self.picked_hz(mfclk, ulpclk)) as u16,
                        },
                    ),
                    Err(error) => Err(error),
                }
            },
        }
    }

    /// Derive everything the driver needs from this configuration, in one place.
    ///
    /// `usemftick` is a reading of `SYSCTL.MCLKCFG.USEMFTICK`: whether MFCLK was enabled.
    pub fn resolve(&self, clocks: &Clocks, usemftick: bool) -> (resolved: Result<Resolved, ConfigError>)
        ensures
            resolved == self.resolved(clocks.mfclk, clocks.ulpclk, clocks.mclk, usemftick),
    {
        self.resolve_on(clocks.mfclk, clocks.ulpclk, clocks.mclk, usemftick)
    }

    /// [`Self::resolve`] against rates already in hand.
    pub fn resolve_on(&self, mfclk: u32, ulpclk: u32, mclk: u32, usemftick: bool) -> (resolved: Result<
        Resolved,
        ConfigError,
    >)
        ensures
            resolved == self.resolved(mfclk, ulpclk, mclk, usemftick),
    {
        // A pre-solved timing already carries its clock source, the divider, the resulting rate and the
        // timer period, so nothing below needs computing.
        if let Some(timing) = self.timing {
            let clock_low_timeout = match self.clock_low_timeout_us {
                Some(us) => match solve_clock_low_timeout(us, timing.clock_hz()) {
                    Ok(steps) => Some(steps),
                    Err(error) => return Err(error),
                },
                None => None,
            };

            return Ok(
                Resolved {
                    clock_source: timing.clock_source(),
                    clock_div: timing.clock_div,
                    clock_hz: timing.clock_hz(),
                    source_hz: timing.clock_source().rate(mfclk, ulpclk),
                    tpr: timing.tpr(),
                    clock_low_timeout,
                    half_period_cycles: timing.half_period_cycles,
                    settle_cycles: timing.settle_cycles,
                },
            );
        }
        let divider: u32 = self.clock_div.divider();
        let bus_speed: u32 = self.bus_speed.hertz();

        // Nothing to check on the bus clock the way MFCLK is checked below: it is derived from the
        // clock the core itself runs on, so a device executing this has it.
        let clock_source = if bus_speed > 200_000 {
            ClockSel::BusClk
        } else {
            if !usemftick {
                return Err(ConfigError::ClockSourceNotEnabled);
            }
            ClockSel::MfClk
        };
        let source_hz: u32 = clock_source.rate(mfclk, ulpclk);
        let clock_hz: u32 = source_hz / divider;

        // The functional clock must be at least 20x the bus speed, and no speed at all cannot be divided by.
        if bus_speed == 0 || (clock_hz as u64) < bus_speed as u64 * 20 {
            return Err(ConfigError::InvalidClockRate);
        }
        // TPR = (I2C_CLK / (I2C_FREQ * (SCL_LP + SCL_HP))) - 1, where the SCL low period is fixed at 6
        // and the high one at 4. It ranges over 1 to 127, and the headroom keeps it off zero.
        let ticks: u32 = clock_hz / (bus_speed * 10);

        proof {
            lemma_headroom(clock_hz as int, bus_speed as int);
        }
        if ticks > 128 {
            return Err(ConfigError::InvalidClockRate);
        }
        let tpr: u8 = (ticks - 1) as u8;
        let clock_low_timeout = match self.clock_low_timeout_us {
            Some(us) => match solve_clock_low_timeout(us, clock_hz) {
                Ok(steps) => Some(steps),
                Err(error) => return Err(error),
            },
            None => None,
        };

        Ok(
            Resolved {
                clock_source,
                clock_div: self.clock_div,
                clock_hz,
                source_hz,
                tpr,
                clock_low_timeout,
                half_period_cycles: half_period_cycles(mclk, clock_hz, tpr),
                settle_cycles: settle_cycles(mclk, clock_hz),
            },
        )
    }

    /// Check the config.
    ///
    /// Make sure that configuration is valid and enabled by the system, writing back the clock
    /// source that was chosen for the requested bus speed.
    pub fn check_config(&mut self, clocks: &Clocks, usemftick: bool) -> (checked: Result<(), ConfigError>)
        ensures
            match old(self).resolved(clocks.mfclk, clocks.ulpclk, clocks.mclk, usemftick) {
                Ok(resolved) => checked is Ok && *final(self) == (Config {
                    clock_source: resolved.clock_source,
                    ..*old(self)
                }),
                Err(error) => checked == Err::<(), ConfigError>(error) && *final(self) == *old(self),
            },
    {
        match self.resolve(clocks, usemftick) {
            Ok(resolved) => {
                self.clock_source = resolved.clock_source;
                Ok(())
            },
            Err(error) => Err(error),
        }
    }
}

impl Default for Config {
    fn default() -> (config: Self)
        ensures
            config == Self::default_spec(),
    {
        Self::new()
    }
}

/// Solving ahead of time and resolving at run time agree: a configuration that carries the timing solved for
/// its own source, divider and speed resolves to what it would have resolved to without one.
pub proof fn solving_ahead_changes_nothing(
    config: Config,
    timing: Timing,
    mfclk: u32,
    ulpclk: u32,
    mclk: u32,
    usemftick: bool,
)
    requires
        config.timing is None,
        usemftick || config.picked_source() == ClockSel::BusClk,
        reachable(config.picked_hz(mfclk, ulpclk), config.bus_speed.hertz_spec()),
        timing.source() == config.picked_source(),
        timing.div() == config.clock_div,
        timing.hz() == config.picked_hz(mfclk, ulpclk),
        timing.period() == config.ticks(mfclk, ulpclk) - 1,
        timing.half() == half_period(mclk, timing.hz(), timing.period()),
        timing.settling() == settle(mclk, timing.hz()),
    ensures
        config.resolved(mfclk, ulpclk, mclk, usemftick) == (Config { timing: Some(timing), ..config }).resolved(
            mfclk,
            ulpclk,
            mclk,
            usemftick,
        ),
{
    assert(config.bus_speed.hertz_spec() * 10 == 10 * config.bus_speed.hertz_spec());
}

/// Whatever clock a configuration resolves to is at least twenty times its bus speed, and its period is one
/// the register holds.
pub proof fn resolved_clock_is_in_range(config: Config, mfclk: u32, ulpclk: u32, mclk: u32, usemftick: bool)
    requires
        config.timing is None,
        config.resolved(mfclk, ulpclk, mclk, usemftick) is Ok,
    ensures
        ({
            let resolved = config.resolved(mfclk, ulpclk, mclk, usemftick)->Ok_0;

            &&& resolved.clock_hz >= 20 * config.bus_speed.hertz_spec()
            &&& 1 <= resolved.tpr <= MAX_TPR
            &&& resolved.tpr + 1 == resolved.clock_hz as int / (10 * config.bus_speed.hertz_spec())
        }),
{
    lemma_headroom(config.picked_hz(mfclk, ulpclk) as int, config.bus_speed.hertz_spec() as int);
}

/// Each source feeds the peripheral at its own clock's rate, each divider divides by the number it is named for, and
/// each bus speed is the one its mode runs at.
pub proof fn clocks_and_speeds_are_what_they_are_named(
    source: ClockSel,
    div: ClockDiv,
    speed: BusSpeed,
    mfclk: u32,
    ulpclk: u32,
)
    ensures
        source is MfClk ==> source.rate_spec(mfclk, ulpclk) == mfclk,
        source is BusClk ==> source.rate_spec(mfclk, ulpclk) == ulpclk,
        div is DivBy1 ==> div.divider_spec() == 1,
        div is DivBy2 ==> div.divider_spec() == 2,
        div is DivBy3 ==> div.divider_spec() == 3,
        div is DivBy4 ==> div.divider_spec() == 4,
        div is DivBy5 ==> div.divider_spec() == 5,
        div is DivBy6 ==> div.divider_spec() == 6,
        div is DivBy7 ==> div.divider_spec() == 7,
        div is DivBy8 ==> div.divider_spec() == 8,
        speed is Standard ==> speed.hertz_spec() == 100_000,
        speed is FastMode ==> speed.hertz_spec() == 400_000,
        speed is FastModePlus ==> speed.hertz_spec() == 1_000_000,
        speed matches BusSpeed::Custom(hz) ==> speed.hertz_spec() == hz,
{
}

/// A configuration without a solved timing is refused for one reason at a time, in this order: MFCLK is needed, at
/// 200 kHz and below, and is not on; the divided clock has less than twenty times the bus speed or more than 128
/// times ten of it, or there is no speed at all; the timeout is one the counter cannot count. Otherwise it is
/// accepted.
pub proof fn configurations_are_refused_for_a_reason(
    config: Config,
    mfclk: u32,
    ulpclk: u32,
    mclk: u32,
    usemftick: bool,
)
    requires
        config.timing is None,
    ensures
        ({
            let speed = config.bus_speed.hertz_spec();
            let source = if speed > 200_000 {
                ulpclk
            } else {
                mfclk
            };
            let hz = source as int / config.clock_div.divider_spec() as int;
            let resolved = config.resolved(mfclk, ulpclk, mclk, usemftick);
            let off = speed <= 200_000 && !usemftick;
            let unreachable = speed == 0 || hz < 20 * speed || hz / (10 * speed) > 128;
            let uncountable = config.clock_low_timeout_us matches Some(us) && !(16_640_000_000 <= us * hz
                <= 2_121_600_000_000);

            &&& off ==> resolved == Err::<Resolved, ConfigError>(ConfigError::ClockSourceNotEnabled)
            &&& !off && unreachable ==> resolved == Err::<Resolved, ConfigError>(ConfigError::InvalidClockRate)
            &&& !off && !unreachable && uncountable ==> resolved == Err::<Resolved, ConfigError>(
                ConfigError::InvalidClockLowTimeout,
            )
            &&& !off && !unreachable && !uncountable ==> resolved is Ok
        }),
{
}

/// What a configuration without a solved timing resolves to: the source its speed needs at that source's rate, its own
/// divider, the rate divided by it, and a timeout where it asks for one.
pub proof fn configuration_resolves_to_its_own_clock(
    config: Config,
    mfclk: u32,
    ulpclk: u32,
    mclk: u32,
    usemftick: bool,
)
    requires
        config.timing is None,
        config.resolved(mfclk, ulpclk, mclk, usemftick) is Ok,
    ensures
        ({
            let resolved = config.resolved(mfclk, ulpclk, mclk, usemftick)->Ok_0;

            &&& resolved.clock_source is BusClk <==> config.bus_speed.hertz_spec() > 200_000
            &&& resolved.clock_source is BusClk ==> resolved.source_hz == ulpclk
            &&& resolved.clock_source is MfClk ==> resolved.source_hz == mfclk
            &&& resolved.clock_div == config.clock_div
            &&& resolved.clock_hz == resolved.source_hz as int / resolved.clock_div.divider_spec() as int
            &&& resolved.clock_low_timeout is Some <==> config.clock_low_timeout_us is Some
        }),
{
}

/// A configuration that carries a solved timing takes its clock, divider, period and pacing from it, and only its
/// source's own rate from the tree.
pub proof fn solved_timing_is_taken_as_it_is(
    config: Config,
    timing: Timing,
    mfclk: u32,
    ulpclk: u32,
    mclk: u32,
    usemftick: bool,
)
    requires
        config.timing == Some(timing),
        config.resolved(mfclk, ulpclk, mclk, usemftick) is Ok,
    ensures
        ({
            let resolved = config.resolved(mfclk, ulpclk, mclk, usemftick)->Ok_0;

            &&& resolved.clock_source == timing.source()
            &&& resolved.clock_source is BusClk ==> resolved.source_hz == ulpclk
            &&& resolved.clock_source is MfClk ==> resolved.source_hz == mfclk
            &&& resolved.clock_div == timing.div()
            &&& resolved.clock_hz == timing.hz()
            &&& resolved.tpr == timing.period()
            &&& resolved.half_period_cycles == timing.half()
            &&& resolved.settle_cycles == timing.settling()
            &&& resolved.clock_low_timeout is Some <==> config.clock_low_timeout_us is Some
        }),
{
}

/// Half an SCL period is counted in whole CPU cycles, rounded down, where that is neither none nor more than can be
/// counted: twice it is no longer than a period at the speed the period register gives, and one more would be.
pub proof fn half_period_is_half_a_period(mclk: u32, clock_hz: u32, tpr: u8)
    requires
        clock_hz >= 10 * (tpr + 1),
        ({
            let speed = clock_hz as int / (10 * (tpr + 1));

            2 * speed <= mclk < 2 * speed * 65536
        }),
    ensures
        ({
            let speed = clock_hz as int / (10 * (tpr + 1));
            let half = half_period(mclk, clock_hz, tpr);

            half * 2 * speed <= mclk < (half + 1) * 2 * speed
        }),
{
    let d = 10 * (tpr + 1);
    let speed = clock_hz as int / d;
    lemma_fundamental_div_mod(clock_hz as int, d);
    assert(speed >= 1) by (nonlinear_arith)
        requires
            clock_hz as int == d * speed + clock_hz as int % d,
            clock_hz as int % d < d,
            clock_hz >= d,
            d > 0,
    ;
    let q = mclk as int / (2 * speed);
    lemma_fundamental_div_mod(mclk as int, 2 * speed);
    assert(1 <= q <= 65535) by (nonlinear_arith)
        requires
            mclk as int == 2 * speed * q + mclk as int % (2 * speed),
            0 <= mclk as int % (2 * speed) < 2 * speed,
            2 * speed <= mclk < 2 * speed * 65536,
            speed >= 1,
    ;
    assert(q * 2 * speed == 2 * speed * q && (q + 1) * 2 * speed == 2 * speed * q + 2 * speed) by (nonlinear_arith);
}

/// A freshly started transfer is not given a whole CPU cycle more than the three functional clock cycles it needs, past
/// the one it always gets.
pub proof fn settling_is_not_overlong(mclk: u32, clock_hz: u32)
    requires
        clock_hz > 0,
    ensures
        1 <= settle(mclk, clock_hz) <= 65535,
        settle(mclk, clock_hz) > 1 ==> (settle(mclk, clock_hz) - 1) * clock_hz < 3 * mclk,
{
    let n = 3 * mclk;
    lemma_ceil_bounds(n, clock_hz as int);
    let c = ceil_div(n, clock_hz as int);
    let s = settle(mclk, clock_hz);
    if s > 1 {
        assert((s - 1) * clock_hz <= (c - 1) * clock_hz) by (nonlinear_arith)
            requires
                s <= c,
                clock_hz > 0,
        ;
    }
}

/// The default configuration is a standard-mode bus from MFCLK undivided, with no pulls, no inversion, no timeout and
/// no solved timing. With MFCLK on at 4 MHz, it runs at exactly 100 kHz.
pub proof fn default_is_standard_mode(mclk: u32, ulpclk: u32)
    ensures
        Config::default_spec().bus_speed is Standard,
        Config::default_spec().clock_source is MfClk,
        Config::default_spec().clock_div is DivBy1,
        Config::default_spec().timing is None,
        Config::default_spec().clock_low_timeout_us is None,
        Config::default_spec().sda_pull is NoPull && Config::default_spec().scl_pull is NoPull,
        !Config::default_spec().invert_sda && !Config::default_spec().invert_scl,
        Config::default_spec().resolved(4_000_000, ulpclk, mclk, true) matches Ok(resolved) && 10 * (resolved.tpr + 1)
            * 100_000 == 4_000_000,
{
    let config = Config::default_spec();
    let divider = config.clock_div.divider_spec();
    assert(4_000_000u32 / divider == 4_000_000) by (nonlinear_arith)
        requires
            divider == 1,
    ;
    let speed = config.bus_speed.hertz_spec();
    assert(4_000_000int / (speed * 10) == 4 && 4_000_000int / (10 * speed) == 4) by (nonlinear_arith)
        requires
            speed == 100_000,
    ;
}

/// A timing is solved exactly where the divided clock has twenty times the bus speed and the period fits its register.
/// It keeps the source and the divider it was solved with, its rate is that source's through that divider, and its
/// period is the longest that is not slower than the speed asked for.
pub proof fn solved_timing_is_for_its_speed(
    timing: Option<Timing>,
    clocks: Clocks,
    clock_source: ClockSel,
    clock_div: ClockDiv,
    bus_speed_hz: u32,
)
    requires
        Timing::solves(timing, clocks, clock_source, clock_div, bus_speed_hz),
    ensures
        ({
            let source = match clock_source {
                ClockSel::MfClk => clocks.mfclk,
                ClockSel::BusClk => clocks.ulpclk,
            };
            let hz = source as int / clock_div.divider_spec() as int;

            &&& timing is Some <==> bus_speed_hz > 0 && hz >= 20 * bus_speed_hz && hz / (10 * bus_speed_hz) <= 128
            &&& timing matches Some(timing) ==> {
                &&& timing.source() == clock_source && timing.div() == clock_div
                &&& timing.hz() == hz
                &&& 1 <= timing.period() <= 127
                &&& 10 * (timing.period() + 1) * bus_speed_hz <= hz
                &&& hz < 10 * (timing.period() + 2) * bus_speed_hz
                &&& timing.half() == half_period(clocks.mclk, timing.hz(), timing.period())
                &&& timing.settling() == settle(clocks.mclk, timing.hz())
            }
        }),
{
    if let Some(timing) = timing {
        let hz = timing.hz() as int;
        let bus = bus_speed_hz as int;
        let ticks = timing.period() + 1;
        lemma_headroom(hz, bus);
        lemma_fundamental_div_mod(hz, 10 * bus);
        assert(10 * ticks * bus == (10 * bus) * ticks && 10 * (ticks + 1) * bus == (10 * bus) * ticks + 10 * bus)
            by (nonlinear_arith);
    }
}

} // verus!
