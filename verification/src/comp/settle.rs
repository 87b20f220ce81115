//! The reference DAC's transfer function, and the settling waits.

use super::{Instance, Speed};
use crate::sysctl::Clocks;
use vstd::arithmetic::div_mod::{
    lemma_div_multiples_vanish, lemma_fundamental_div_mod, lemma_fundamental_div_mod_converse,
};
use vstd::arithmetic::power2::{lemma2_to64, lemma_pow2_pos, lemma_pow2_strictly_increases, lemma_pow2_unfold, pow2};
use vstd::prelude::*;

verus! {

/// An 8-bit DAC code.
///
/// The output is `reference x (code + 1) / 256`, so this never selects zero volts and full scale is
/// the reference itself.
#[derive(Clone, Copy, PartialEq, Eq, PartialOrd, Ord, Debug, Structural)]
pub struct DacCode(u8);

/// The code count, one above the code, whose output is nearest to `millivolts`: `mv * 256 / ref`, rounded
/// half up.
pub open spec fn nearest_count(millivolts: u32, reference_mv: u32) -> int
    recommends
        reference_mv > 0,
{
    (millivolts * 512 + reference_mv) / (reference_mv * 2)
}

/// The code whose output is nearest to `millivolts`, which is at one end of the scale where the request is
/// past that end.
pub open spec fn nearest_code(millivolts: u32, reference_mv: u32) -> int {
    let count = nearest_count(millivolts, reference_mv);

    if count == 0 {
        0
    } else if count > 256 {
        255
    } else {
        count - 1
    }
}

impl DacCode {
    /// The raw code.
    pub closed spec fn bits(self) -> u8 {
        self.0
    }

    /// The lowest code, one LSB above ground.
    pub fn zero() -> (code: Self)
        ensures
            code.bits() == 0,
    {
        DacCode(0)
    }

    /// The highest code, at which the DAC output is the reference.
    pub fn full_scale() -> (code: Self)
        ensures
            code.bits() == 255,
    {
        DacCode(u8::MAX)
    }

    /// Wrap a raw code.
    pub fn new(code: u8) -> (wrapped: Self)
        ensures
            wrapped.bits() == code,
    {
        DacCode(code)
    }

    /// The code whose output is nearest `millivolts` given a reference of `reference_mv`.
    ///
    /// Saturates at full scale rather than wrapping. Rounds to nearest, so the error is at
    /// most half an LSB where the request is in range.
    pub fn from_millivolts(millivolts: u32, reference_mv: u32) -> (code: Self)
        ensures
            reference_mv == 0 ==> code.bits() == 0,
            reference_mv > 0 ==> code.bits() == nearest_code(millivolts, reference_mv),
    {
        if reference_mv == 0 {
            return Self::zero();
        }
        let count: u64 = (millivolts as u64 * 512 + reference_mv as u64) / (reference_mv as u64 * 2);

        if count == 0 {
            Self::zero()
        } else if count > 256 {
            Self::full_scale()
        } else {
            DacCode((count - 1) as u8)
        }
    }

    /// The output this code produces, in millivolts, given a reference of `reference_mv`.
    pub fn to_millivolts(self, reference_mv: u32) -> (millivolts: u32)
        requires
            reference_mv * (self.bits() + 1) <= u32::MAX,
        ensures
            millivolts == reference_mv * (self.bits() + 1) / 256,
    {
        (reference_mv * (self.0 as u32 + 1)) / 256
    }

    /// The raw code.
    pub fn to_bits(self) -> (bits: u8)
        ensures
            bits == self.bits(),
    {
        self.0
    }
}

/// How far the output of a code is from a request, in units of 1/256 mV.
pub open spec fn distance(millivolts: u32, reference_mv: u32, code: int) -> int {
    let difference = 256 * millivolts - reference_mv * (code + 1);

    if difference < 0 {
        -difference
    } else {
        difference
    }
}

/// Where a request is in range, the code's output is within half an LSB of it: `ref / 512` either way.
pub proof fn code_is_within_half_an_lsb(millivolts: u32, reference_mv: u32)
    requires
        reference_mv > 0,
        reference_mv <= millivolts * 512,
        millivolts <= reference_mv,
    ensures
        1 <= nearest_count(millivolts, reference_mv) <= 256,
        2 * distance(millivolts, reference_mv, nearest_code(millivolts, reference_mv)) <= reference_mv,
{
    let d = (reference_mv * 2) as int;
    let n = (millivolts * 512 + reference_mv) as int;
    let q = n / d;
    lemma_fundamental_div_mod(n, d);
    assert(q >= 1) by (nonlinear_arith)
        requires
            n == d * q + n % d,
            0 <= n % d < d,
            n >= d,
            d > 0,
    ;
    assert(q <= 256) by (nonlinear_arith)
        requires
            n == d * q + n % d,
            0 <= n % d < d,
            2 * n <= 513 * d,
            d > 0,
    ;
    assert(d * q == 2 * (reference_mv * q)) by (nonlinear_arith)
        requires
            d == reference_mv * 2,
    ;
}

/// No code's output is nearer to a request than that of the code the request becomes.
pub proof fn code_is_the_nearest(millivolts: u32, reference_mv: u32, other: u8)
    requires
        reference_mv > 0,
    ensures
        0 <= nearest_code(millivolts, reference_mv) <= 255,
        distance(millivolts, reference_mv, nearest_code(millivolts, reference_mv)) <= distance(
            millivolts,
            reference_mv,
            other as int,
        ),
{
    let d = (reference_mv * 2) as int;
    let n = (millivolts * 512 + reference_mv) as int;
    let q = n / d;
    let code = nearest_code(millivolts, reference_mv);
    let want = 256 * millivolts;
    let r = reference_mv as int;
    lemma_fundamental_div_mod(n, d);
    assert(q >= 0) by (nonlinear_arith)
        requires
            n == d * q + n % d,
            0 <= n % d < d,
            n >= 0,
            d > 0,
    ;
    assert(-r <= 2 * want - 2 * (r * q) < r) by (nonlinear_arith)
        requires
            n == d * q + n % d,
            0 <= n % d < d,
            d == r * 2,
            n == 2 * want + r,
    ;
    let mine = r * (code + 1);
    let its = r * (other + 1);
    if other > code {
        assert(its - mine >= r && 2 * want - 2 * mine <= r) by (nonlinear_arith)
            requires
                mine == r * (code + 1),
                its == r * (other + 1),
                other >= code + 1,
                code < 255,
                2 * want - 2 * (r * q) < r,
                code + 1 == q || (code == 0 && q == 0),
                r > 0,
        ;
    } else if other < code {
        assert(mine - its >= r && 2 * mine - 2 * want <= r) by (nonlinear_arith)
            requires
                mine == r * (code + 1),
                its == r * (other + 1),
                code >= other + 1,
                -r <= 2 * want - 2 * (r * q),
                code + 1 <= q,
                r > 0,
        ;
    }
}

/// A code survives the trip to millivolts and back, where the part of a millivolt that is rounded off on the way
/// is at most half a step: for every code of every reference from 510 mV up.
pub proof fn code_round_trips(code: u8, reference_mv: u32)
    requires
        0 < reference_mv,
        510 <= reference_mv || 2 * (reference_mv * (code + 1) % 256) <= reference_mv,
    ensures
        nearest_code((reference_mv * (code + 1) / 256) as u32, reference_mv) == code,
{
    let count = code + 1;
    let exact = (reference_mv * count) as int;
    let mv = exact / 256;
    assert(0 <= exact <= reference_mv * 256) by (nonlinear_arith)
        requires
            exact == reference_mv * count,
            0 <= count <= 256,
            0 <= reference_mv,
    ;
    assert(mv <= reference_mv);
    let d = (reference_mv * 2) as int;
    let n = mv * 512 + reference_mv;
    let r = n - d * count;
    assert(0 <= r < d) by (nonlinear_arith)
        requires
            r == n - d * count,
            n == mv * 512 + reference_mv,
            d == reference_mv * 2,
            exact == reference_mv * count,
            mv == exact / 256,
            2 * (exact % 256) <= reference_mv,
            reference_mv > 0,
    ;
    assert(n == count * d + r) by (nonlinear_arith)
        requires
            r == n - d * count,
    ;
    lemma_fundamental_div_mod_converse(n, d, count as int, r);
}

/// Cycle counts for the two waits the comparator takes, worked out ahead of time.
#[derive(Clone, Copy, PartialEq, Eq, Debug, Structural)]
pub struct SettlingCycles {
    enable: u32,
    dac: u32,
}

impl SettlingCycles {
    /// Comparator enable time, in MCLK cycles.
    pub closed spec fn enable(self) -> u32 {
        self.enable
    }

    /// Reference DAC settling after a code change, in MCLK cycles.
    pub closed spec fn dac(self) -> u32 {
        self.dac
    }

    /// The waits of a comparator of kind `T` running at `speed`, on a CPU clocked at `mclk`.
    pub open spec fn are_for<T: Instance>(self, mclk: u32, speed: Speed) -> bool {
        &&& self.enable() == covering_cycles(mclk, enable_ns::<T>(speed))
        &&& self.dac() == covering_cycles(mclk, T::DAC_SETTLE_NS)
    }

    /// Comparator enable time, in MCLK cycles.
    pub fn enable_cycles(self) -> (cycles: u32)
        ensures
            cycles == self.enable(),
    {
        self.enable
    }

    /// Reference DAC settling after a code change, in MCLK cycles.
    pub fn dac_cycles(self) -> (cycles: u32)
        ensures
            cycles == self.dac(),
    {
        self.dac
    }
}

/// How the settling waits are worked out.
///
/// Neither the comparator's enable nor the DAC's settling has a status bit behind it, so both waits are
/// blocking delays taken from the device's datasheet figures. Turning a figure in nanoseconds into a
/// cycle count needs the clock rate, and where that rate comes from is what this chooses.
#[derive(Clone, Copy, PartialEq, Eq, Debug, Structural)]
pub enum Settling {
    /// Work the counts out from the clock tree the driver is built under.
    FromClockTree,
    /// Use counts worked out by [`Settling::solve`].
    Solved(SettlingCycles),
}

impl Settling {
    /// The default.
    pub const DEFAULT: Self = Self::FromClockTree;

    /// Work both waits out from a known clock tree.
    ///
    /// `speed` has to match the configuration's, because the two enable figures differ and this picks
    /// between them.
    pub fn solve<T: Instance>(clocks: &Clocks, speed: Speed) -> (settling: Self)
        ensures
            settling matches Settling::Solved(cycles) && cycles.are_for::<T>(clocks.mclk, speed),
    {
        Settling::Solved(solve_cycles::<T>(clocks, speed))
    }

    /// Resolve to cycle counts, using the clock tree only where the caller did not pre-solve.
    pub fn resolve<T: Instance>(self, clocks: &Clocks, speed: Speed) -> (cycles: SettlingCycles)
        ensures
            match self {
                Settling::Solved(solved) => cycles == solved,
                Settling::FromClockTree => cycles.are_for::<T>(clocks.mclk, speed),
            },
    {
        match self {
            Settling::Solved(cycles) => cycles,
            Settling::FromClockTree => solve_cycles::<T>(clocks, speed),
        }
    }
}

impl Default for Settling {
    fn default() -> (settling: Self)
        ensures
            settling == Settling::FromClockTree,
    {
        Self::DEFAULT
    }
}

/// The enable time the datasheet gives for `speed`, in nanoseconds.
pub open spec fn enable_ns<T: Instance>(speed: Speed) -> u32 {
    match speed {
        Speed::Fast => T::ENABLE_FAST_NS,
        Speed::UltraLowPower => T::ENABLE_ULP_NS,
    }
}

fn solve_cycles<T: Instance>(clocks: &Clocks, speed: Speed) -> (cycles: SettlingCycles)
    ensures
        cycles.are_for::<T>(clocks.mclk, speed),
{
    let enable_ns: u32 = match speed {
        Speed::Fast => T::ENABLE_FAST_NS,
        Speed::UltraLowPower => T::ENABLE_ULP_NS,
    };

    SettlingCycles {
        enable: wait_cycles(clocks.mclk, enable_ns),
        dac: wait_cycles(clocks.mclk, T::DAC_SETTLE_NS),
    }
}

/// The quotient of `n` by `d`, rounded up.
pub open spec fn div_up(n: int, d: int) -> int {
    (n + d - 1) / d
}

/// CPU cycles to wait so that `ns` pass at `mclk`: whole microseconds, rounded up, times the clock,
/// rounded up, and never zero for a real figure.
///
/// A request over 255 us, or a clock of 1024 MHz or more, is past what is worked out: it waits the
/// longest there is.
pub open spec fn covering_cycles(mclk: u32, ns: u32) -> u32 {
    let us = div_up(ns as int, 1_000);

    if ns == 0 {
        0
    } else if us > MAX_US || mclk as int / 1_000_000 > MAX_MHZ {
        u32::MAX
    } else if us * mclk == 0 {
        1
    } else {
        div_up(us * mclk, 1_000_000) as u32
    }
}

/// Quotient bits allowed for nanoseconds-to-microseconds.
///
/// 255 us is two orders of magnitude past the longest settling figure any device publishes.
const US_BITS: u32 = 8;

/// The largest quotient [`US_BITS`] leaves.
pub const MAX_US: u32 = 255;

/// Quotient bits allowed for MCLK in whole megahertz. 1023 MHz is an order of magnitude past the fastest
/// part.
const MHZ_BITS: u32 = 10;

/// The largest quotient [`MHZ_BITS`] leaves.
pub const MAX_MHZ: u32 = 1023;

/// CPU cycles covering `ns` at `mclk`, rounded up, and zero for zero.
///
/// Whole microseconds times cycles per microsecond. Splitting MCLK into whole megahertz and the
/// remainder keeps every divisor constant and the arithmetic in 32 bits, at the cost of rounding the
/// request up to a whole microsecond.
pub fn wait_cycles(mclk: u32, ns: u32) -> (cycles: u32)
    ensures
        cycles == covering_cycles(mclk, ns),
{
    if ns == 0 {
        return 0;
    }
    proof {
        lemma2_to64();
    }
    let us: u32 = div_ceil_no_builtin(ns, 1_000, US_BITS);
    let (whole_mhz, rem_hz) = divmod_no_builtin(mclk, 1_000_000, MHZ_BITS);

    // A request or a clock past what the loops can represent. Waiting far too long is safe here and
    // waiting too little is not, so it saturates rather than wrapping into a short wait.
    if us > MAX_US || rem_hz >= 1_000_000 {
        return u32::MAX;
    }
    assert(us * whole_mhz <= 255 * 1023) by (nonlinear_arith)
        requires
            us <= 255,
            whole_mhz <= 1023,
    ;
    assert(us * rem_hz <= 255 * 999_999) by (nonlinear_arith)
        requires
            us <= 255,
            rem_hz <= 999_999,
    ;
    let cycles: u32 = us * whole_mhz + div_ceil_no_builtin(us * rem_hz, 1_000_000, 9);

    proof {
        let part = (us * rem_hz) as int;
        assert(us * mclk == 1_000_000 * (us * whole_mhz) + part) by (nonlinear_arith)
            requires
                part == us * rem_hz,
                mclk == whole_mhz * 1_000_000 + rem_hz,
        ;
        lemma_div_multiples_vanish((us * whole_mhz) as int, 1_000_000);
    }
    if cycles == 0 {
        1
    } else {
        cycles
    }
}

/// The wait covers the time asked for, wherever the count for that time fits 32 bits: `cycles` periods
/// of `mclk` are never shorter than `ns` nanoseconds.
pub proof fn wait_is_never_short(mclk: u32, ns: u32)
    requires
        mclk * ns <= u32::MAX * 1_000_000_000,
    ensures
        mclk * ns <= covering_cycles(mclk, ns) * 1_000_000_000,
{
    let us = div_up(ns as int, 1_000);
    if ns > 0 && us <= MAX_US && mclk as int / 1_000_000 <= MAX_MHZ {
        assert(ns <= us * 1_000);
        assert(mclk * ns <= mclk * (us * 1_000)) by (nonlinear_arith)
            requires
                ns <= us * 1_000,
                0 <= mclk,
        ;
        assert(mclk * (us * 1_000) == (us * mclk) * 1_000) by (nonlinear_arith);
        assert(us * mclk <= 255 * 1_024_000_000) by (nonlinear_arith)
            requires
                0 <= us <= 255,
                0 <= mclk <= 1_024_000_000,
        ;
        assert(us * mclk >= 0) by (nonlinear_arith)
            requires
                0 <= us,
                0 <= mclk,
        ;
    } else if ns == 0 {
        assert(mclk * ns == 0) by (nonlinear_arith)
            requires
                ns == 0,
        ;
    }
}

/// What `bits` steps of binary long division find: the quotient, or the largest that `bits` bits hold.
pub open spec fn bounded_quotient(n: int, d: int, bits: nat) -> int {
    if n / d < pow2(bits) {
        n / d
    } else {
        pow2(bits) - 1
    }
}

/// `n / d` and `n % d`, by binary long division.
///
/// `bits` bounds the quotient. Where the quotient does not fit, it is the largest that does, and the
/// remainder is what it leaves.
pub fn divmod_no_builtin(n: u32, d: u32, bits: u32) -> (result: (u32, u32))
    requires
        0 < d,
        0 < bits < 32,
        d * pow2((bits - 1) as nat) <= u32::MAX,
    ensures
        result.0 == bounded_quotient(n as int, d as int, bits as nat),
        n == result.0 * d + result.1,
{
    let mut rem: u32 = n;
    let mut quot: u32 = 0;
    let mut bit: u32 = bits;

    proof {
        lemma_pow2_pos(bits as nat);
    }
    while bit > 0
        invariant
            0 < d,
            0 < bits < 32,
            bit <= bits,
            d * pow2((bits - 1) as nat) <= u32::MAX,
            n == quot * d + rem,
            quot as int % pow2(bit as nat) as int == 0,
            quot + pow2(bit as nat) <= pow2(bits as nat),
            rem < d * pow2(bit as nat) || quot + pow2(bit as nat) == pow2(bits as nat),
        decreases bit,
    {
        let ghost above = pow2(bit as nat);
        let ghost before = (rem, quot);
        bit -= 1;
        let ghost step = pow2(bit as nat);
        proof {
            lemma_pow2_unfold((bit + 1) as nat);
            lemma_pow2_pos(bit as nat);
            if bit < bits - 1 {
                lemma_pow2_strictly_increases(bit as nat, (bits - 1) as nat);
            }
            assert(d * step <= d * pow2((bits - 1) as nat)) by (nonlinear_arith)
                requires
                    step <= pow2((bits - 1) as nat),
                    0 < d,
            ;
            assert(pow2(bits as nat) <= u32::MAX) by {
                lemma_pow2_fits(bits);
            }
            lemma_shift_is_product(d, bit);
            lemma_bit_below_multiple(quot, bit);
        }
        let sub: u32 = d << bit;

        if rem >= sub {
            rem -= sub;
            quot |= 1u32 << bit;
            proof {
                assert(quot == before.1 + step);
                assert(quot * d + rem == before.1 * d + before.0) by (nonlinear_arith)
                    requires
                        quot == before.1 + step,
                        rem == before.0 - d * step,
                ;
                if before.0 < d * above {
                    assert(rem < d * step) by (nonlinear_arith)
                        requires
                            rem == before.0 - d * step,
                            before.0 < d * above,
                            above == 2 * step,
                    ;
                }
            }
        }
        proof {
            assert(before.1 as int % step as int == 0 && (before.1 + step) as int % step as int == 0) by {
                lemma_multiple_of_half(before.1 as int, step as int);
            }
        }
    }
    proof {
        lemma2_to64();
        assert(pow2(0) == 1);
        if rem < d {
            assert(n == quot * d + rem);
            lemma_fundamental_div_mod_converse(n as int, d as int, quot as int, rem as int);
        } else {
            assert(quot == pow2(bits as nat) - 1);
            lemma_fundamental_div_mod(n as int, d as int);
            assert(n as int / d as int > quot) by (nonlinear_arith)
                requires
                    n == quot * d + rem,
                    rem >= d,
                    n == d * (n as int / d as int) + n as int % d as int,
                    0 <= n as int % d as int,
                    (n as int % d as int) < d,
                    d > 0,
            ;
        }
    }
    (quot, rem)
}

/// `n.div_ceil(d)`, on the same terms as [`divmod_no_builtin`]: where the quotient does not fit `bits`
/// bits, the first number past them.
pub fn div_ceil_no_builtin(n: u32, d: u32, bits: u32) -> (quotient: u32)
    requires
        0 < d,
        0 < bits < 32,
        d * pow2((bits - 1) as nat) <= u32::MAX,
    ensures
        quotient == (if div_up(n as int, d as int) < pow2(bits as nat) {
            div_up(n as int, d as int)
        } else {
            pow2(bits as nat) as int
        }),
{
    let (quot, rem) = divmod_no_builtin(n, d, bits);

    proof {
        lemma_pow2_pos(bits as nat);
        lemma_pow2_fits(bits);
        lemma_div_up(n as int, d as int);
        let q = n as int / d as int;
        if q < pow2(bits as nat) {
            lemma_fundamental_div_mod(n as int, d as int);
            assert(rem == n as int % d as int) by (nonlinear_arith)
                requires
                    n == quot * d + rem,
                    quot == q,
                    n == d * q + n as int % d as int,
            ;
        } else {
            lemma_fundamental_div_mod(n as int, d as int);
            assert(rem > 0) by (nonlinear_arith)
                requires
                    n == quot * d + rem,
                    quot < q,
                    n == d * q + n as int % d as int,
                    0 <= n as int % d as int,
                    d > 0,
            ;
        }
    }
    if rem == 0 {
        quot
    } else {
        quot + 1
    }
}

/// Rounding up is the quotient, and one more where there is a remainder.
proof fn lemma_div_up(n: int, d: int)
    requires
        0 <= n,
        0 < d,
    ensures
        div_up(n, d) == n / d + (if n % d == 0 {
            0int
        } else {
            1int
        }),
{
    lemma_fundamental_div_mod(n, d);
    let q = n / d;
    let r = n % d;
    if r == 0 {
        assert(n + d - 1 == q * d + (d - 1)) by (nonlinear_arith)
            requires
                n == d * q + r,
                r == 0,
        ;
        lemma_fundamental_div_mod_converse(n + d - 1, d, q, d - 1);
    } else {
        assert(n + d - 1 == (q + 1) * d + (r - 1)) by (nonlinear_arith)
            requires
                n == d * q + r,
        ;
        lemma_fundamental_div_mod_converse(n + d - 1, d, q + 1, r - 1);
    }
}

/// A power of two below the thirty-second fits 32 bits.
proof fn lemma_pow2_fits(bit: u32)
    requires
        bit < 32,
    ensures
        pow2(bit as nat) <= 0x8000_0000,
{
    lemma2_to64();
    if bit < 31 {
        lemma_pow2_strictly_increases(bit as nat, 31);
    }
}

/// A shift that loses no bit is a product.
proof fn lemma_shift_is_product(d: u32, bit: u32)
    requires
        bit < 32,
        d * pow2(bit as nat) <= u32::MAX,
    ensures
        d << bit == d * pow2(bit as nat),
{
    vstd::bits::lemma_u32_shl_is_mul(d, bit);
}

/// Half of a divisor divides what the whole divides, and keeps dividing it one step on.
proof fn lemma_multiple_of_half(n: int, step: int)
    requires
        0 < step,
        n % (2 * step) == 0,
    ensures
        n % step == 0,
        (n + step) % step == 0,
{
    lemma_fundamental_div_mod(n, 2 * step);
    let q = n / (2 * step);
    assert(n == (2 * q) * step + 0) by (nonlinear_arith)
        requires
            n == (2 * step) * q + n % (2 * step),
            n % (2 * step) == 0,
    ;
    lemma_fundamental_div_mod_converse(n, step, 2 * q, 0);
    assert(n + step == (2 * q + 1) * step + 0) by (nonlinear_arith)
        requires
            n == (2 * q) * step + 0,
    ;
    lemma_fundamental_div_mod_converse(n + step, step, 2 * q + 1, 0);
}

/// Setting a bit below everything already set adds its value.
proof fn lemma_bit_below_multiple(quot: u32, bit: u32)
    requires
        bit < 31,
        quot as int % pow2((bit + 1) as nat) as int == 0,
        quot + pow2(bit as nat) <= u32::MAX,
    ensures
        quot | (1u32 << bit) == quot + pow2(bit as nat),
{
    lemma_pow2_fits(bit);
    lemma_pow2_fits((bit + 1) as u32);
    lemma_shift_is_product(1, bit);
    lemma_shift_is_product(1, (bit + 1) as u32);
    assert(quot % (1u32 << ((bit + 1) as u32)) == 0);
    assert(quot | (1u32 << bit) == quot + (1u32 << bit)) by (bit_vector)
        requires
            bit < 31,
            quot % (1u32 << ((bit + 1) as u32)) == 0,
            quot + (1u32 << bit) <= 0xffff_ffffu32,
    ;
}

/// A wait is for the comparator's own speed, and a change of code for the DAC.
pub proof fn waits_are_for_their_figures<T: Instance>(cycles: SettlingCycles, mclk: u32, speed: Speed)
    requires
        cycles.are_for::<T>(mclk, speed),
    ensures
        speed is Fast ==> cycles.enable() == covering_cycles(mclk, T::ENABLE_FAST_NS),
        speed is UltraLowPower ==> cycles.enable() == covering_cycles(mclk, T::ENABLE_ULP_NS),
        cycles.dac() == covering_cycles(mclk, T::DAC_SETTLE_NS),
{
}

/// A wait is not a microsecond and a cycle longer than the time asked for, where it is one that is worked out; it is
/// none at all where no time is asked for, and never none where some is.
pub proof fn wait_is_not_overlong(mclk: u32, ns: u32)
    requires
        ns <= 255_000,
        mclk < 1_024_000_000,
    ensures
        ns == 0 <==> covering_cycles(mclk, ns) == 0,
        covering_cycles(mclk, ns) > 1 ==> (covering_cycles(mclk, ns) - 1) * 1_000_000_000 < mclk * (ns + 1_000),
{
    let us = div_up(ns as int, 1_000);
    let n = us * mclk;
    let cycles = covering_cycles(mclk, ns);
    assert(us <= 255 && us * 1_000 < ns + 1_000);
    assert(0 <= n <= 255 * 1_024_000_000) by (nonlinear_arith)
        requires
            0 <= us <= 255,
            0 <= mclk <= 1_024_000_000,
            n == us * mclk,
    ;
    if cycles > 1 {
        assert((cycles - 1) * 1_000_000 < n);
        assert(n * 1_000 <= mclk * (ns + 1_000)) by (nonlinear_arith)
            requires
                n == us * mclk,
                us * 1_000 < ns + 1_000,
                0 <= mclk,
        ;
    }
}

} // verus!
