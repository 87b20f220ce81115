//! Analog to digital converter.

use embassy_mspm0::adc::low_level::{
    self, convert_stime, enable_interrupt, from_res, is_configurable, result_sources, sampclk, to_res, vrsel,
    Access, Avgn, Conseq, CpuInt, Ctl0, Ctl1, Ctl2, Event, Memctl, Pwrdn, Res, Sampclk, Sampmode, Stime, Trig,
    Trigsrc, VrselField,
};
use embassy_mspm0::adc::{
    adc_clock_hz, adc_clock_regs, clock_range, code_to_microvolts, prepare_temp_calibration, sample_clock_div,
    sample_clock_div_to, temp_calibration_code, Adc, AdcPin, Averaging, BorrowedAdcChannel, ClockRegs, Config,
    Conversion, FactoryAccess, Frange, Instance, InterruptHandler, Progress, Resolution, SampleClock,
    SampleClockSel, SampleTimeComparator, Sclkdiv, SolvedSampleClock, TempSensor, Vrsel, FRANGE_MAX_HZ,
    FRANGE_MIN_HZ, TARGET_SAMPCLK_HZ,
};
use embassy_mspm0::bus::Bus;
use embassy_mspm0::flash::CpuCaches;
use embassy_mspm0::gpio::{self, AnyPin, Pad, Pincm};
use embassy_mspm0::mode::{Async, Blocking};
use embassy_mspm0::sysctl::{Clocks, SleepLevel};

/// Four results, clocked from 4 to 48 MHz.
struct Adc0;

impl Instance for Adc0 {
    const MEMCTL: u8 = 4;
    const CLK_MIN_HZ: u32 = 4_000_000;
    const CLK_MAX_HZ: u32 = 48_000_000;
    const SYSOSC_BASE_HZ: u32 = 32_000_000;
}

/// Every clock but the slowest is stopped by STOP2.
fn floor_for(hz: u32) -> Option<SleepLevel> {
    if hz > 4_000_000 {
        Some(SleepLevel::Stop2)
    } else {
        None
    }
}

fn only(results: u32) -> CpuInt {
    CpuInt { results, ..CpuInt::none() }
}

fn entry(chansel: u8) -> Memctl {
    Memctl {
        chansel,
        vrsel: VrselField::VddaVssa,
        stime: Stime::SelScomp0,
        avgen: false,
        bcsen: false,
        trig: Trig::AutoNext,
        wincomp: false,
    }
}

const COUNTS: [(Averaging, u32); 7] = [
    (Averaging::X2, 2),
    (Averaging::X4, 4),
    (Averaging::X8, 8),
    (Averaging::X16, 16),
    (Averaging::X32, 32),
    (Averaging::X64, 64),
    (Averaging::X128, 128),
];

#[test]
fn adc_shift_matches_count() {
    for (averaging, count) in COUNTS {
        let (avgn, avgd) = averaging.to_regs();
        assert_eq!(1u32 << avgd, count, "{averaging:?} divides by the wrong amount");
        assert_eq!(avgn.to_bits(), avgd, "{averaging:?} count and shift disagree");
    }
}

#[test]
fn mod_shift_matches_count() {
    for (averaging, count) in COUNTS {
        let (avgn, avgd) = low_level::averaging_regs(averaging);
        assert_eq!(1u32 << avgd, count, "{averaging:?} divides by the wrong amount");
        assert_eq!(avgn.to_bits(), avgd, "{averaging:?} count and shift disagree");
    }
}

#[test]
fn bands_are_closed_at_the_top() {
    assert_eq!(clock_range(4_000_000), Frange::Range1to4);
    assert_eq!(clock_range(4_000_001), Frange::Range4to8);
    assert_eq!(clock_range(8_000_000), Frange::Range4to8);
    assert_eq!(clock_range(16_000_000), Frange::Range8to16);
    assert_eq!(clock_range(20_000_000), Frange::Range16to20);
    assert_eq!(clock_range(24_000_000), Frange::Range20to24);
    assert_eq!(clock_range(24_000_001), Frange::Range24to32);
    assert_eq!(clock_range(32_000_000), Frange::Range24to32);
    assert_eq!(clock_range(40_000_000), Frange::Range32to40);
    assert_eq!(clock_range(48_000_000), Frange::Range40to48);
    assert_eq!((FRANGE_MIN_HZ, FRANGE_MAX_HZ), (1_000_000, 48_000_000));
}

#[test]
fn divider_is_the_smallest_that_reaches() {
    assert_eq!(sample_clock_div(4_000_000), Sclkdiv::DivBy1);
    assert_eq!(sample_clock_div(8_000_000), Sclkdiv::DivBy1);
    assert_eq!(sample_clock_div(8_000_001), Sclkdiv::DivBy2);
    assert_eq!(sample_clock_div(24_000_000), Sclkdiv::DivBy4);
    assert_eq!(sample_clock_div(32_000_000), Sclkdiv::DivBy4);
    assert_eq!(sample_clock_div(48_000_000), Sclkdiv::DivBy8);
    assert_eq!(sample_clock_div_to(48_000_000, 2_000_000), Sclkdiv::DivBy24);
    assert_eq!(sample_clock_div_to(48_000_000, 1_000_000), Sclkdiv::DivBy48);
    assert_eq!(sample_clock_div_to(48_000_000, 0), Sclkdiv::DivBy48);
    assert_eq!(sample_clock_div_to(48_000_000, u32::MAX), Sclkdiv::DivBy1);
    for mhz in 1..=48 {
        assert_eq!(sample_clock_div(mhz * 1_000_000), sample_clock_div_to(mhz * 1_000_000, TARGET_SAMPCLK_HZ));
    }
    assert_eq!(Sclkdiv::DivBy24.divisor(), 24);
}

#[test]
fn sample_clock_comes_from_the_tree() {
    let clocks = Clocks::reset();

    assert_eq!(adc_clock_hz::<Adc0>(SampleClock::Sysosc, &clocks), 32_000_000);
    assert_eq!(adc_clock_hz::<Adc0>(SampleClock::Ulpclk, &Clocks { ulpclk: 8_000_000, ..clocks }), 8_000_000);
    assert_eq!(adc_clock_hz::<Adc0>(SampleClock::Hfclk, &Clocks { hfclk: 48_000_000, ..clocks }), 48_000_000);
    // A stopped SYSOSC is requested back at its base frequency.
    assert_eq!(adc_clock_hz::<Adc0>(SampleClock::Sysosc, &Clocks { sysosc: 0, ..clocks }), 32_000_000);
}

#[test]
fn solved_clock_programs_what_the_tree_would() {
    let clocks = Clocks::reset();
    let Some(solved) = SolvedSampleClock::solve::<Adc0>(SampleClock::Sysosc, 32_000_000) else { panic!() };
    let regs = ClockRegs {
        source: SampleClock::Sysosc,
        adcclk_hz: 32_000_000,
        sclkdiv: Sclkdiv::DivBy4,
        frange: Frange::Range24to32,
    };

    assert_eq!(adc_clock_regs::<Adc0>(SampleClockSel::from(solved), &clocks), regs);
    assert_eq!(adc_clock_regs::<Adc0>(SampleClockSel::from(SampleClock::Sysosc), &clocks), regs);
    assert!(SolvedSampleClock::solve::<Adc0>(SampleClock::Sysosc, 3_999_999).is_none());
    assert!(SolvedSampleClock::solve::<Adc0>(SampleClock::Sysosc, 48_000_001).is_none());
    let Some(slow) = SolvedSampleClock::solve_at::<Adc0>(SampleClock::Sysosc, 32_000_000, 1_000_000) else { panic!() };
    let slow = Config::new().with_sample_clk(slow);
    assert_eq!(adc_clock_regs::<Adc0>(slow.sample_clk, &clocks), ClockRegs { sclkdiv: Sclkdiv::DivBy32, ..regs });
    assert!(SolvedSampleClock::solve_at::<Adc0>(SampleClock::Sysosc, 3_999_999, 1).is_none());
}

#[test]
fn resolutions() {
    for (resolution, bits, max, res) in [
        (Resolution::Bits12, 12, 4095, Res::Bit12),
        (Resolution::Bits10, 10, 1023, Res::Bit10),
        (Resolution::Bits8, 8, 255, Res::Bit8),
    ] {
        assert_eq!(resolution.bits(), bits);
        assert_eq!(resolution.max_count(), max);
        assert_eq!(to_res(resolution), res);
        assert_eq!(from_res(res), resolution);
    }
}

#[test]
fn fields_encode_their_selections() {
    assert_eq!(sampclk(SampleClock::Ulpclk), Sampclk::Ulpclk);
    assert_eq!(sampclk(SampleClock::Sysosc), Sampclk::Sysosc);
    assert_eq!(sampclk(SampleClock::Hfclk), Sampclk::Hfclk);
    assert_eq!(vrsel(Vrsel::VddaVssa), VrselField::VddaVssa);
    assert_eq!(vrsel(Vrsel::ExtrefVrefm), VrselField::ExtrefVrefm);
    assert_eq!(vrsel(Vrsel::IntrefVssa), VrselField::IntrefVssa);
    assert_eq!(vrsel(Vrsel::VddaVrefm), VrselField::VddaVrefm);
    assert_eq!(vrsel(Vrsel::IntrefVrefm), VrselField::IntrefVrefm);
    assert_eq!(convert_stime(SampleTimeComparator::Scomp0), Stime::SelScomp0);
    assert_eq!(convert_stime(SampleTimeComparator::Scomp1), Stime::SelScomp1);
    assert_eq!(SampleTimeComparator::ALL.map(|comparator| comparator.index()), [0, 1]);
}

#[test]
fn default_configuration() {
    let config = Config::default();

    assert_eq!(config, Config::new());
    assert_eq!(config.sample_clk, SampleClockSel::Source(SampleClock::Sysosc));
    assert_eq!((config.sample_period_0, config.sample_period_1), (50, 50));
    assert_eq!(config.averaging, None);
    assert_eq!(Config::MAX_SAMPLE_PERIOD, 1023);
    assert_eq!(Conversion::default(), Conversion::new());
    assert!(!Conversion::new().average);
}

#[test]
fn published_windows_are_not_interpolated() {
    let table = [(1, 200), (2, 320), (16, 1_600)];

    assert_eq!(Config::pga_sample_min_ns(&table, 2), Some(320));
    assert_eq!(Config::pga_sample_min_ns(&table, 8), None);
}

#[test]
fn configuration_converts_nothing_and_finds_its_floor() {
    let mut bus = Bus::new();
    let config = Config { averaging: Some(Averaging::X16), sample_period_1: 80, ..Config::new() };
    let adc: low_level::Adc<Adc0> = low_level::Adc::new(config, &Clocks::reset(), floor_for, &mut bus);

    assert_eq!(adc.conversion_floor(), Some(SleepLevel::Stop2));
    assert_eq!(
        bus.take(),
        vec![
            Access::Reset,
            Access::Power(true),
            Access::Delay(16),
            Access::Clkcfg(Sampclk::Sysosc),
            Access::Ctl0(Ctl0 { enc: false, pwrdn: Pwrdn::Manual, sclkdiv: Sclkdiv::DivBy4 }),
            Access::Clkfreq(Frange::Range24to32),
            Access::Ctl1(Ctl1 {
                trigsrc: Trigsrc::Software,
                sc: false,
                conseq: Conseq::Sequence,
                sampmode: Sampmode::Auto,
                avgn: Avgn::Avg16,
                avgd: 4,
            }),
            Access::Ctl2(Ctl2 {
                df: false,
                res: Res::Bit12,
                rstsampcapen: false,
                dmaen: false,
                fifoen: false,
                sampcnt: 0,
                startadd: 0,
                endadd: 0,
            }),
            Access::Scomp(SampleTimeComparator::Scomp0, 50),
            Access::Scomp(SampleTimeComparator::Scomp1, 80),
        ]
    );
}

#[test]
fn low_level_aims_and_starts() {
    let mut bus = Bus::new();
    let mut adc: low_level::Adc<Adc0> = low_level::Adc::new(Config::new(), &Clocks::reset(), floor_for, &mut bus);
    let averaged = Conversion { vrsel: Vrsel::IntrefVssa, stime: SampleTimeComparator::Scomp1, average: true };
    bus.take();

    adc.set_conversion(&BorrowedAdcChannel::steal(7), averaged, Avgn::Avg4, &mut bus);
    assert_eq!(
        bus.take(),
        vec![
            Access::Memctl(
                0,
                Memctl { vrsel: VrselField::IntrefVssa, stime: Stime::SelScomp1, avgen: true, ..entry(7) }
            ),
            Access::Window { startadd: 0, endadd: 0 },
        ]
    );
    adc.set_sequence(&[(1, Conversion::new()), (5, Conversion::new())], Avgn::Disable, &mut bus);
    adc.start(&mut bus);
    assert_eq!(
        bus.take(),
        vec![
            Access::Memctl(0, entry(1)),
            Access::Memctl(1, entry(5)),
            Access::Window { startadd: 0, endadd: 1 },
            Access::EnableConversion,
            Access::StartConversion,
        ]
    );
    assert!(adc.is_converting(true));
    assert_eq!(adc.result(3, |n| [0, 1, 2, 0x0ABC][n]), 0x0ABC);
    adc.set_resolution(Resolution::Bits8, &mut bus);
    adc.set_sample_period(SampleTimeComparator::Scomp1, 1023, &mut bus);
    assert_eq!(
        bus.take(),
        vec![Access::Resolution(Res::Bit8), Access::Scomp(SampleTimeComparator::Scomp1, 1023)]
    );
    assert_eq!(adc.resolution(Res::Bit10), Resolution::Bits10);
    assert_eq!(adc.sample_period(SampleTimeComparator::Scomp1, |n| [3, 17][n]), 17);
}

#[test]
fn events_have_their_own_bits() {
    let mut bus = Bus::new();
    let mut adc: low_level::Adc<Adc0> = low_level::Adc::new(Config::new(), &Clocks::reset(), floor_for, &mut bus);
    bus.take();

    assert_eq!(Event::Result(3).mask(), only(8));
    assert_eq!(Event::Overflow.mask(), CpuInt { overflow: true, ..CpuInt::none() });
    assert_eq!(Event::Underflow.mask(), CpuInt { underflow: true, ..CpuInt::none() });
    assert_eq!(Event::SequenceTimeout.mask(), CpuInt { sequence_timeout: true, ..CpuInt::none() });
    assert_eq!(Event::WindowHigh.mask(), CpuInt { window_high: true, ..CpuInt::none() });
    assert_eq!(Event::WindowLow.mask(), CpuInt { window_low: true, ..CpuInt::none() });
    adc.enable_interrupt(Event::Result(1), true, &mut bus);
    enable_interrupt(Event::Result(1), false, &mut bus);
    adc.arm_only(Event::Result(2), &mut bus);
    adc.clear_pending(Event::Result(0), &mut bus);
    assert_eq!(
        bus.take(),
        vec![Access::Unmask(only(2)), Access::Mask(only(2)), Access::StoreImask(only(4)), Access::Iclr(only(1))]
    );
    assert!(adc.is_pending(Event::Result(1), only(2)));
    assert!(!adc.is_pending(Event::Overflow, only(2)));
    assert_eq!(result_sources::<Adc0>(), only(0xF));
}

#[test]
fn handler_takes_results_alone() {
    let mut bus = Bus::new();

    assert!(!InterruptHandler::<Adc0>::on_interrupt(CpuInt { overflow: true, ..CpuInt::none() }, &mut bus));
    assert!(!InterruptHandler::<Adc0>::on_interrupt(only(0x10), &mut bus));
    assert_eq!(bus.take(), vec![]);
    let raised = CpuInt { window_low: true, ..only(0x1A) };
    assert!(InterruptHandler::<Adc0>::on_interrupt(raised, &mut bus));
    assert_eq!(bus.take(), vec![Access::Iclr(only(0x0A))]);
}

#[test]
fn blocking_read_waits_out_what_is_running() {
    let mut bus = Bus::new();
    let mut adc: Adc<Adc0, Blocking> = Adc::new_blocking(Config::new(), &Clocks::reset(), floor_for, &mut bus);
    let pad = Pad { pullup: true, drive_strength: false, hysteresis: false, wakeup: false };
    let mut pin = AdcPin { pin: AnyPin::steal(9, 30, pad), channel: 6 };
    bus.take();

    let channel = pin.reborrow_adc(&mut bus);
    assert_eq!(channel.get_hw_channel(), 6);
    let register = adc.blocking_read(&channel, Conversion::new(), Avgn::Disable, &mut bus);
    assert_eq!(
        bus.take(),
        vec![
            Access::Pin(gpio::Access::StorePincm(30, Pincm::zero())),
            Access::WaitIdle,
            Access::Memctl(0, entry(6)),
            Access::Window { startadd: 0, endadd: 0 },
            Access::EnableConversion,
            Access::StartConversion,
            Access::WaitIdle,
        ]
    );
    assert_eq!(adc.result(register, |n| [99, 0, 0, 0][n]), 99);
    adc.set_resolution(Resolution::Bits10, &mut bus);
    adc.set_sample_period(SampleTimeComparator::Scomp0, 1, &mut bus);
    assert_eq!(
        bus.take(),
        vec![Access::Resolution(Res::Bit10), Access::Scomp(SampleTimeComparator::Scomp0, 1)]
    );
    assert_eq!(adc.resolution(Res::Bit12), Resolution::Bits12);
    assert_eq!(adc.sample_period(SampleTimeComparator::Scomp0, |n| [3, 17][n]), 3);
}

#[test]
fn read_by_interrupt_waits_its_turn() {
    let mut bus = Bus::new();
    let mut adc: Adc<Adc0, Async> = Adc::new_async(Config::new(), &Clocks::reset(), floor_for, &mut bus);
    bus.take();

    assert_eq!(adc.conversion_guard(), Some(SleepLevel::Stop2));
    let mut read = adc.irq_read_sequence(vec![(1, Conversion::new()), (2, Conversion::new())], 2);
    assert_eq!(read.poll(true, Avgn::Disable, &mut bus), Progress::Pending);
    assert_eq!(bus.take(), vec![]);
    assert_eq!(read.poll(false, Avgn::Disable, &mut bus), Progress::Started);
    assert_eq!(
        bus.take(),
        vec![
            Access::Memctl(0, entry(1)),
            Access::Memctl(1, entry(2)),
            Access::Window { startadd: 0, endadd: 1 },
            Access::StoreImask(only(2)),
            Access::EnableConversion,
            Access::StartConversion,
        ]
    );
    assert_eq!(read.poll(true, Avgn::Disable, &mut bus), Progress::Pending);
    assert_eq!(read.poll(false, Avgn::Disable, &mut bus), Progress::Ready);
    assert_eq!(read.poll(true, Avgn::Disable, &mut bus), Progress::Ready);
    let mut readings = [0; 2];
    read.take(|n| 100 + n as u16, &mut readings);
    assert_eq!(readings, [100, 101]);
}

#[test]
fn single_read_by_interrupt_is_a_sequence_of_one() {
    let mut bus = Bus::new();
    let mut adc: Adc<Adc0, Async> = Adc::new_async(Config::new(), &Clocks::reset(), floor_for, &mut bus);
    bus.take();

    let mut read = adc.irq_read(&BorrowedAdcChannel::steal(3), Conversion::new());
    assert_eq!(read.poll(false, Avgn::Disable, &mut bus), Progress::Started);
    assert_eq!(
        bus.take(),
        vec![
            Access::Memctl(0, entry(3)),
            Access::Window { startadd: 0, endadd: 0 },
            Access::StoreImask(only(1)),
            Access::EnableConversion,
            Access::StartConversion,
        ]
    );
}

#[test]
fn codes_as_microvolts() {
    assert_eq!(code_to_microvolts(2048, Resolution::Bits12, 3300), 1_650_000);
    assert_eq!(code_to_microvolts(512, Resolution::Bits10, 3300), 1_650_000);
    assert_eq!(code_to_microvolts(128, Resolution::Bits8, 3300), 1_650_000);
    assert_eq!(code_to_microvolts(1, Resolution::Bits12, 1400), 341);
    assert_eq!(code_to_microvolts(4095, Resolution::Bits12, 8000), 7_998_046);
}

#[test]
fn temperature_from_a_code() {
    let sensor = TempSensor {
        trim_celsius: 30,
        slope_uv_per_c: -1_750,
        calibration_reference_mv: 1_400,
        settling_ns: Some(10_000),
        calibration_sample_ns: Some(12_500),
    };

    assert_eq!(sensor.celsius_millidegrees(1_900, Resolution::Bits12, 1_400, 1_900), 30_000);
    // 341 uV below the calibration point.
    assert_eq!(sensor.celsius_millidegrees(1_899, Resolution::Bits12, 1_400, 1_900), 30_195);
    let colder = sensor.celsius_millidegrees(1_950, Resolution::Bits12, 1_400, 1_900);
    let hotter = sensor.celsius_millidegrees(1_850, Resolution::Bits12, 1_400, 1_900);
    assert!(colder < 30_000 && 30_000 < hotter);
    assert_eq!(sensor.recommended_sample_ns(), Some(12_500));
    assert_eq!(TempSensor { calibration_sample_ns: None, ..sensor }.recommended_sample_ns(), Some(10_000));
    assert_eq!(TempSensor { settling_ns: None, ..sensor }.recommended_sample_ns(), Some(12_500));
}

#[test]
fn calibration_is_read_with_the_caches_off() {
    let mut bus = Bus::new();
    let saved = CpuCaches { prefetch: true, icache: false, liten: true };
    let off = CpuCaches { prefetch: false, icache: false, liten: false };

    prepare_temp_calibration(saved, &mut bus);
    assert_eq!(bus.take(), vec![FactoryAccess::Caches(off), FactoryAccess::Barrier]);
    assert_eq!(temp_calibration_code(saved, 0xABCD_0764, &mut bus), 0x0764);
    assert_eq!(bus.take(), vec![FactoryAccess::Caches(saved)]);
}

#[test]
fn configuration_out_of_range_is_told_apart() {
    let clocks = Clocks::reset();
    let config = Config::new();

    assert!(is_configurable::<Adc0>(config, &clocks));
    assert!(is_configurable::<Adc0>(Config { sample_period_0: Config::MAX_SAMPLE_PERIOD, ..config }, &clocks));
    assert!(!is_configurable::<Adc0>(Config { sample_period_0: 0, ..config }, &clocks));
    assert!(!is_configurable::<Adc0>(Config { sample_period_1: Config::MAX_SAMPLE_PERIOD + 1, ..config }, &clocks));
    // 3 MHz is under this instance's range.
    let slow = Config { sample_clk: SampleClockSel::Source(SampleClock::Ulpclk), ..config };
    assert!(!is_configurable::<Adc0>(slow, &Clocks { ulpclk: 3_000_000, ..clocks }));
    assert!(is_configurable::<Adc0>(slow, &Clocks { ulpclk: 4_000_000, ..clocks }));
}

#[test]
fn readings_are_within_40_millidegrees() {
    for (slope, calibration_mv, calibration) in [(-1_750, 1_400, 1_900), (-1_800, 3_300, 800), (-1_900, 4_050, 700)] {
        let sensor = TempSensor {
            trim_celsius: 30,
            slope_uv_per_c: slope,
            calibration_reference_mv: calibration_mv,
            settling_ns: None,
            calibration_sample_ns: None,
        };
        let mut seen = 0;

        for code in 0..=4095u16 {
            let volts = |code: u16, reference_mv: u32| f64::from(code) * f64::from(reference_mv) * 1000.0 / 4096.0;
            let delta = volts(code, 1_400) - volts(calibration, calibration_mv);
            let exact = 30_000.0 + 1000.0 * delta / f64::from(slope);

            if (-40_000.0..=130_000.0).contains(&exact) {
                let given = sensor.celsius_millidegrees(code, Resolution::Bits12, 1_400, calibration);
                assert!((f64::from(given) - exact).abs() <= 40.0);
                seen += 1;
            }
        }
        assert!(seen > 800);
    }
}
