//! The on-die temperature sensor.

use super::Resolution;
use crate::bus::Bus;
use crate::flash::CpuCaches;
use vstd::arithmetic::power2::{lemma2_to64, pow2};
use vstd::prelude::*;

verus! {

/// The largest reference [`code_to_microvolts`] can be handed.
///
/// Twice the highest reference any MSPM0 has, and set by where the arithmetic stops fitting in 32 bits
/// rather than by anything electrical.
pub const MAX_REFERENCE_MV: u32 = 8000;

/// An ADC code as whole microvolts, given the reference it was taken against: the code as a fraction of
/// full scale, times the reference, rounded down.
pub open spec fn microvolts(code: u16, resolution: Resolution, reference_mv: u32) -> int {
    code * reference_mv * 1000 / pow2(resolution.bits_spec() as nat) as int
}

/// Whether a code's voltage can be worked out in 32 bits.
pub open spec fn fits(code: u16, resolution: Resolution, reference_mv: u32) -> bool {
    &&& reference_mv <= MAX_REFERENCE_MV
    &&& code * pow2((12 - resolution.bits_spec()) as nat) * reference_mv * 125 <= u32::MAX
}

/// The scale of each resolution, and how far it is from 12 bits.
proof fn lemma_scales(resolution: Resolution)
    ensures
        match resolution {
            Resolution::Bits12 => pow2(resolution.bits_spec() as nat) == 4096 && pow2(
                (12 - resolution.bits_spec()) as nat,
            ) == 1,
            Resolution::Bits10 => pow2(resolution.bits_spec() as nat) == 1024 && pow2(
                (12 - resolution.bits_spec()) as nat,
            ) == 4,
            Resolution::Bits8 => pow2(resolution.bits_spec() as nat) == 256 && pow2(
                (12 - resolution.bits_spec()) as nat,
            ) == 16,
        },
{
    lemma2_to64();
}

/// Every code a conversion can give fits, whatever reference it is taken against.
pub proof fn codes_fit(code: u16, resolution: Resolution, reference_mv: u32)
    requires
        reference_mv <= MAX_REFERENCE_MV,
        code <= resolution.max_count_spec(),
    ensures
        fits(code, resolution, reference_mv),
{
    lemma_scales(resolution);
    let scaled = code * pow2((12 - resolution.bits_spec()) as nat);
    assert(scaled * reference_mv <= 4095 * 8000) by (nonlinear_arith)
        requires
            0 <= scaled <= 4095,
            reference_mv <= 8000,
    ;
}

/// An ADC code as microvolts, given the reference it was taken against.
///
/// Codes below 12 bits are shifted up rather than scaled, so one function serves the stored
/// calibration code and a conversion at any resolution.
pub fn code_to_microvolts(code: u16, resolution: Resolution, reference_mv: u32) -> (uv: u32)
    requires
        fits(code, resolution, reference_mv),
    ensures
        uv == microvolts(code, resolution, reference_mv),
        uv < 8_388_608,
{
    let shift: u32 = (12 - resolution.bits()) as u32;
    let code32: u32 = code as u32;

    proof {
        lemma_scales(resolution);
        assert(code32 <= 0xffff ==> code32 << 0 == code32 && code32 << 2 == code32 * 4 && code32 << 4 == code32 * 16)
            by (bit_vector);
    }
    let scaled: u32 = code32 << shift;
    let ghost power = pow2((12 - resolution.bits_spec()) as nat) as int;

    assert(scaled == code * power);
    proof {
        vstd::arithmetic::mul::lemma_mul_nonnegative(scaled as int, reference_mv as int);
    }
    // `code * reference_mv * 1000 >> 12`, with the constants reduced so the product stays inside 32
    // bits.
    let product: u32 = scaled * reference_mv * 125;

    proof {
        assert(product >> 9 == product / 512 && product / 512 < 8_388_608) by (bit_vector);
        let cr = (code * reference_mv) as int;
        assert(scaled * reference_mv == power * cr) by (nonlinear_arith)
            requires
                scaled == code * power,
                cr == code * reference_mv,
        ;
        match resolution {
            Resolution::Bits12 => assert(power * cr == 1 * cr),
            Resolution::Bits10 => assert(power * cr == 4 * cr),
            Resolution::Bits8 => assert(power * cr == 16 * cr),
        }
        assert(product / 512 == cr * 1000 / pow2(resolution.bits_spec() as nat) as int);
    }
    product >> 9
}

/// A code and the same code at a higher resolution stand for the same voltage.
pub proof fn resolutions_agree(code: u16, reference_mv: u32)
    requires
        code <= 255,
    ensures
        microvolts(code, Resolution::Bits8, reference_mv) == microvolts(
            (code * 4) as u16,
            Resolution::Bits10,
            reference_mv,
        ),
        microvolts(code, Resolution::Bits8, reference_mv) == microvolts(
            (code * 16) as u16,
            Resolution::Bits12,
            reference_mv,
        ),
{
    lemma_scales(Resolution::Bits8);
    lemma_scales(Resolution::Bits10);
    lemma_scales(Resolution::Bits12);
    let cr = (code * reference_mv) as int;
    assert((code * 4) * reference_mv == 4 * cr) by (nonlinear_arith)
        requires
            cr == code * reference_mv,
    ;
    assert((code * 16) * reference_mv == 16 * cr) by (nonlinear_arith)
        requires
            cr == code * reference_mv,
    ;
}

/// The on-die temperature sensor, as an ADC channel: what the device's datasheet says of it.
///
/// It needs a longer sample window than the default: a shorter one samples the capacitor before it has
/// charged and reads low by a margin nothing reports.
#[derive(Clone, Copy, PartialEq, Eq, Debug, Structural)]
pub struct TempSensor {
    /// `TSTRIM`, the temperature the factory calibration was taken at.
    pub trim_celsius: i16,
    /// `TSc`, the sensor's slope. Always negative: the output falls as the die warms.
    pub slope_uv_per_c: i32,
    /// The reference the calibration code was measured against.
    pub calibration_reference_mv: u32,
    /// `tSET,TS`, how long the sensor takes to settle once selected.
    pub settling_ns: Option<u32>,
    /// The sample window the factory measurement itself used.
    pub calibration_sample_ns: Option<u32>,
}

/// Millidegrees per microvolt, in 4096ths, rounded toward zero: the reciprocal of a falling slope.
pub open spec fn reciprocal_q12(slope_uv_per_c: int) -> int {
    -(4_096_000int / -slope_uv_per_c)
}

/// A difference of microvolts, held where the multiply cannot overflow.
pub open spec fn held(delta_uv: int) -> int {
    if delta_uv < -800_000 {
        -800_000
    } else if delta_uv > 800_000 {
        800_000
    } else {
        delta_uv
    }
}

/// The temperature a difference of microvolts from the calibration point stands for, in millidegrees.
pub open spec fn millidegrees(sensor: TempSensor, delta_uv: int) -> int {
    sensor.trim_celsius * 1000 + held(delta_uv) * reciprocal_q12(sensor.slope_uv_per_c as int) / 4096
}

impl TempSensor {
    /// Whether these are figures of a sensor: its output falls as the die warms, and by enough for the
    /// reciprocal to leave the clamped multiply room.
    pub open spec fn valid(self) -> bool {
        self.slope_uv_per_c < 0 && -2_684 <= reciprocal_q12(self.slope_uv_per_c as int)
    }

    /// The wider of two windows, where there are two.
    pub open spec fn wider(a: Option<u32>, b: Option<u32>) -> Option<u32> {
        match (a, b) {
            (Some(x), Some(y)) => if x < y { Some(y) } else { Some(x) },
            (Some(x), None) => Some(x),
            (None, y) => y,
        }
    }

    /// The wider of the settling and the calibration window, which satisfies both. What to set the sample
    /// period from.
    pub fn recommended_sample_ns(&self) -> (ns: Option<u32>)
        ensures
            ns == Self::wider(self.settling_ns, self.calibration_sample_ns),
    {
        match (self.settling_ns, self.calibration_sample_ns) {
            (Some(x), Some(y)) => if x < y {
                Some(y)
            } else {
                Some(x)
            },
            (Some(x), None) => Some(x),
            (None, y) => y,
        }
    }

    /// Convert a reading of this sensor to millidegrees Celsius.
    ///
    /// `reference_mv` is the reference the conversion ran against, which is not always the one the
    /// factory used. Both codes are turned into voltages before being compared, which is what lets the
    /// two references differ. `calibration` is the unit's own calibration code, from
    /// [`temp_calibration_code`].
    pub fn celsius_millidegrees(
        &self,
        code: u16,
        resolution: Resolution,
        reference_mv: u32,
        calibration: u16,
    ) -> (celsius: i32)
        requires
            self.valid(),
            fits(code, resolution, reference_mv),
            fits(calibration, Resolution::Bits12, self.calibration_reference_mv),
        ensures
            celsius == millidegrees(
                *self,
                microvolts(code, resolution, reference_mv) - microvolts(
                    calibration,
                    Resolution::Bits12,
                    self.calibration_reference_mv,
                ),
            ),
    {
        let sample_uv: u32 = code_to_microvolts(code, resolution, reference_mv);
        let trim_uv: u32 = code_to_microvolts(calibration, Resolution::Bits12, self.calibration_reference_mv);
        let slope: i64 = -(self.slope_uv_per_c as i64);
        let per_uv: i32 = -((4_096_000u64 / slope as u64) as i32);

        // Clamped so the multiply below cannot overflow whatever reference it was handed. The bound
        // is several hundred degrees from the trim point, so it engages only on a reading that was
        // already meaningless.
        let delta: i32 = sample_uv as i32 - trim_uv as i32;
        let delta_uv: i32 = if delta < -800_000 {
            -800_000
        } else if delta > 800_000 {
            800_000
        } else {
            delta
        };

        assert(-2_147_200_000 <= delta_uv * per_uv <= 2_147_200_000) by (nonlinear_arith)
            requires
                -800_000 <= delta_uv <= 800_000,
                -2_684 <= per_uv <= 0,
        ;
        let product: i32 = delta_uv * per_uv;
        let offset_mc: i32 = product >> 12;

        proof {
            lemma_arithmetic_shift(product);
        }
        self.trim_celsius as i32 * 1000 + offset_mc
    }
}

/// An arithmetic shift right by twelve is a division by 4096, rounded down.
proof fn lemma_arithmetic_shift(product: i32)
    ensures
        product >> 12 == product as int / 4096,
{
    let q = product >> 12;
    assert(q * 4096 <= product && product < q * 4096 + 4096) by (bit_vector)
        requires
            q == product >> 12,
    ;
    vstd::arithmetic::div_mod::lemma_fundamental_div_mod_converse(
        product as int,
        4096,
        q as int,
        product - q * 4096,
    );
}

/// The warmer the die, the lower the sensor's voltage, and a lower voltage never reads as a lower
/// temperature.
pub proof fn hotter_reads_hotter(sensor: TempSensor, lower_uv: int, higher_uv: int)
    requires
        sensor.valid(),
        lower_uv <= higher_uv,
    ensures
        millidegrees(sensor, lower_uv) >= millidegrees(sensor, higher_uv),
{
    let r = reciprocal_q12(sensor.slope_uv_per_c as int);
    vstd::arithmetic::div_mod::lemma_div_pos_is_pos(4_096_000, -(sensor.slope_uv_per_c as int));
    let a = held(lower_uv);
    let b = held(higher_uv);
    assert(a * r >= b * r) by (nonlinear_arith)
        requires
            a <= b,
            r <= 0,
    ;
    vstd::arithmetic::div_mod::lemma_div_is_ordered(b * r, a * r, 4096);
}

/// How far -40 and 130 degrees are from the calibration point, in millidegrees: the farther of the two.
pub open spec fn farthest(sensor: TempSensor) -> int {
    let below = sensor.trim_celsius * 1000 + 40_000;
    let above = 130_000 - sensor.trim_celsius * 1000;

    if below < above {
        above
    } else {
        below
    }
}

/// Whether the fixed point is fine enough for a sensor, over -40 to 130 degrees: what the reciprocal loses at the
/// farthest temperature, a microvolt of rounding and a millidegree of it come to no more than 40 millidegrees,
/// and the clamp is not reached. All of it in 4,096,000ths of a millidegree.
pub open spec fn fine_enough(sensor: TempSensor) -> bool {
    let slope = -(sensor.slope_uv_per_c as int);

    &&& farthest(sensor) * (4_096_000int % slope) + 1000 * (4_096_000int / slope) + 4_096_000 <= 40 * 4_096_000
    &&& farthest(sensor) * slope <= 799_999_000
}

/// 4096 times the exact difference between the sampled and the calibration voltage, in microvolts, with the
/// sampled code on the scale of 12 bits.
pub open spec fn exact_delta(
    sensor: TempSensor,
    code: u16,
    resolution: Resolution,
    reference_mv: u32,
    calibration: u16,
) -> int {
    (code * pow2((12 - resolution.bits_spec()) as nat) * reference_mv - calibration
        * sensor.calibration_reference_mv) * 1000
}

/// A reading is within 0.04 degrees of exact arithmetic anywhere in -40 to 130 degrees, the rounding of both
/// voltages to whole microvolts counted in: times 4096 and the slope, the temperature it gives misses the exact
/// one by no more than 40 millidegrees.
pub proof fn reading_is_within_40_millidegrees(
    sensor: TempSensor,
    code: u16,
    resolution: Resolution,
    reference_mv: u32,
    calibration: u16,
)
    requires
        sensor.valid(),
        fine_enough(sensor),
        ({
            let scale = 4096 * -(sensor.slope_uv_per_c as int);
            let exact = -1000 * exact_delta(sensor, code, resolution, reference_mv, calibration);

            (-40_000 - sensor.trim_celsius * 1000) * scale <= exact <= (130_000 - sensor.trim_celsius * 1000) * scale
        }),
    ensures
        ({
            let scale = 4096 * -(sensor.slope_uv_per_c as int);
            let exact = sensor.trim_celsius * 1000 * scale - 1000 * exact_delta(
                sensor,
                code,
                resolution,
                reference_mv,
                calibration,
            );
            let result = millidegrees(
                sensor,
                microvolts(code, resolution, reference_mv) - microvolts(
                    calibration,
                    Resolution::Bits12,
                    sensor.calibration_reference_mv,
                ),
            );

            -40 * scale <= result * scale - exact <= 40 * scale
        }),
{
    let s = -(sensor.slope_uv_per_c as int);
    let q = 4_096_000int / s;
    let e = 4_096_000int % s;
    let d = exact_delta(sensor, code, resolution, reference_mv, calibration);
    let far = farthest(sensor);
    let trim = sensor.trim_celsius * 1000;
    let delta = microvolts(code, resolution, reference_mv) - microvolts(
        calibration,
        Resolution::Bits12,
        sensor.calibration_reference_mv,
    );

    vstd::arithmetic::div_mod::lemma_fundamental_div_mod(4_096_000, s);
    vstd::arithmetic::div_mod::lemma_div_pos_is_pos(4_096_000, s);
    lemma_delta_is_rounded(sensor, code, resolution, reference_mv, calibration);
    // The exact difference is within reach of the farthest temperature.
    assert(-(far * (4096 * s)) <= 1000 * d <= far * (4096 * s)) by (nonlinear_arith)
        requires
            (-40_000 - trim) * (4096 * s) <= -1000 * d <= (130_000 - trim) * (4096 * s),
            far >= trim + 40_000,
            far >= 130_000 - trim,
            s > 0,
    ;
    assert(far * (4096 * s) == 4096 * (far * s)) by (nonlinear_arith);
    assert(-800_000 <= delta <= 800_000);

    let w = 4096 * delta - d;
    let product = delta * -q;
    let o = product / 4096;
    let f = product % 4096;
    vstd::arithmetic::div_mod::lemma_fundamental_div_mod(product, 4096);
    // What is missed, 4096 times over.
    assert(4096 * (o * (4096 * s) + 1000 * d) == -(w * (s * q)) + d * e - 4096 * (s * f)) by (nonlinear_arith)
        requires
            4_096_000 == s * q + e,
            product == 4096 * o + f,
            product == delta * -q,
            w == 4096 * delta - d,
    {
        assert(4096 * (o * (4096 * s)) == 4096 * s * (4096 * o));
        assert(4096 * s * (4096 * o) == 4096 * s * (product - f));
        assert(4096 * s * (product - f) == 4096 * s * product - 4096 * (s * f));
        assert(4096 * s * product == -(4096 * delta) * (s * q));
        assert(-(4096 * delta) * (s * q) == -(w * (s * q)) - d * (s * q));
        assert(d * (s * q) == d * (4_096_000 - e));
        assert(d * (4_096_000 - e) == 4_096_000 * d - d * e);
    }
    assert(-(4096 * (s * q)) <= w * (s * q) <= 4096 * (s * q)) by (nonlinear_arith)
        requires
            -4096 <= w <= 4096,
            s * q >= 0,
    ;
    assert(s * q >= 0) by (nonlinear_arith)
        requires
            s > 0,
            q >= 0,
    ;
    assert(-(4096 * (s * (far * e))) <= 1000 * (d * e) <= 4096 * (s * (far * e))) by (nonlinear_arith)
        requires
            -(far * (4096 * s)) <= 1000 * d <= far * (4096 * s),
            0 <= e,
    ;
    assert(0 <= s * f <= s * 4096) by (nonlinear_arith)
        requires
            0 <= f < 4096,
            0 < s,
    ;
    assert(s * (far * e) + 1000 * (s * q) + 4_096_000 * s <= 40 * 4_096_000 * s) by (nonlinear_arith)
        requires
            far * e + 1000 * q + 4_096_000 <= 40 * 4_096_000,
            s > 0,
    ;
    let miss = o * (4096 * s) + 1000 * d;
    assert(-40 * (4096 * s) <= miss <= 40 * (4096 * s));
    assert((trim + o) * (4096 * s) == trim * (4096 * s) + o * (4096 * s)) by (nonlinear_arith);
}

/// The difference of two voltages in whole microvolts is within a microvolt of their exact difference.
proof fn lemma_delta_is_rounded(
    sensor: TempSensor,
    code: u16,
    resolution: Resolution,
    reference_mv: u32,
    calibration: u16,
)
    ensures
        -4096 < 4096 * (microvolts(code, resolution, reference_mv) - microvolts(
            calibration,
            Resolution::Bits12,
            sensor.calibration_reference_mv,
        )) - exact_delta(sensor, code, resolution, reference_mv, calibration) < 4096,
{
    let cr = (code * reference_mv) as int;
    let power = pow2((12 - resolution.bits_spec()) as nat) as int;
    lemma_scales(resolution);
    lemma_scales(Resolution::Bits12);
    assert(code * power * reference_mv == power * cr) by (nonlinear_arith)
        requires
            cr == code * reference_mv,
    ;
    match resolution {
        Resolution::Bits12 => assert(power * cr == 1 * cr),
        Resolution::Bits10 => assert(power * cr == 4 * cr),
        Resolution::Bits8 => assert(power * cr == 16 * cr),
    }
}

/// One access made to read a factory constant.
#[derive(Clone, Copy, PartialEq, Eq, Debug, Structural)]
pub enum FactoryAccess {
    /// Write `CPUSS.CTL`.
    Caches(CpuCaches),
    /// Data and instruction barriers.
    Barrier,
}

/// Get ready to read `FACTORYREGION.TEMP_SENSE0`: the read is taken with the caches off.
///
/// `saved` is a reading of `CPUSS.CTL`.
pub fn prepare_temp_calibration(saved: CpuCaches, bus: &mut Bus<FactoryAccess>)
    ensures
        final(bus)@ == old(bus)@ + seq![
            FactoryAccess::Caches(CpuCaches { prefetch: false, icache: false, liten: false, ..saved }),
            FactoryAccess::Barrier,
        ],
{
    bus.push(FactoryAccess::Caches(CpuCaches { prefetch: false, icache: false, liten: false, ..saved }));
    bus.push(FactoryAccess::Barrier);
}

/// This unit's temperature sensor calibration code, from `FACTORYREGION.TEMP_SENSE0` as it was read after
/// [`prepare_temp_calibration`]. The caches are restored.
///
/// The code the factory measured from this device's own sensor at the trim temperature, as a 12-bit
/// ADC result. The slope is a family figure, the offset is per unit, and this is the offset.
pub fn temp_calibration_code(saved: CpuCaches, temp_sense0: u32, bus: &mut Bus<FactoryAccess>) -> (code: u16)
    ensures
        code == temp_sense0 % 0x1_0000,
        final(bus)@ == old(bus)@.push(FactoryAccess::Caches(saved)),
{
    bus.push(FactoryAccess::Caches(saved));
    assert(temp_sense0 as u16 == temp_sense0 % 0x1_0000) by (bit_vector);
    temp_sense0 as u16
}

/// At the calibration point the sensor reads the temperature it was calibrated at.
pub proof fn calibration_point_reads_its_temperature(sensor: TempSensor)
    ensures
        millidegrees(sensor, 0) == sensor.trim_celsius * 1000,
{
    let r = reciprocal_q12(sensor.slope_uv_per_c as int);
    assert(0 * r == 0) by (nonlinear_arith);
}

/// A code's voltage is its share of the reference, short of it by less than a microvolt: `2**n` codes span the
/// reference.
pub proof fn code_is_its_share_of_the_reference(code: u16, resolution: Resolution, reference_mv: u32)
    ensures
        ({
            let codes: int = match resolution {
                Resolution::Bits12 => 4096,
                Resolution::Bits10 => 1024,
                Resolution::Bits8 => 256,
            };
            let uv = microvolts(code, resolution, reference_mv);

            uv * codes <= code * reference_mv * 1000 < (uv + 1) * codes
        }),
{
    lemma_scales(resolution);
}

/// The recommended window satisfies every window the datasheet gives, and is one of them.
pub proof fn recommended_window_satisfies_both(a: Option<u32>, b: Option<u32>)
    ensures
        TempSensor::wider(a, b) is None <==> a is None && b is None,
        TempSensor::wider(a, b) is Some ==> TempSensor::wider(a, b) == a || TempSensor::wider(a, b) == b,
        a matches Some(x) ==> TempSensor::wider(a, b) matches Some(ns) && x <= ns,
        b matches Some(y) ==> TempSensor::wider(a, b) matches Some(ns) && y <= ns,
{
}

} // verus!
