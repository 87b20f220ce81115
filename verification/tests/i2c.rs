//! I2C controller.

use embassy_mspm0::bus::Bus;
use embassy_mspm0::gpio::{self, AnyPin, Pad, Pincm, Pull};
use embassy_mspm0::i2c::low_level::{
    self, Access, Agfsel, Cbmon, Cctr, CpuInt, Csr, Dir, Event, IidxStat, Recovery, Rxtrig, Status, Txtrig,
    MAX_BURST_LEN,
};
use embassy_mspm0::i2c::{
    drain_rx_group, fill_tx_group, half_period_cycles, next_group, settle_cycles, solve_clock_low_timeout, Address,
    AsyncBusWait, Burst, BusSpeed, BusWait, ClockDiv, ClockSel, Config, ConfigError, Decision, Error, ErrorKind,
    Group, GroupCursor, I2c, IdleWait, Instance, InterruptHandler, NoAcknowledgeSource, Operation, Phase, Progress,
    Resolved, Resume, Script, Stage, StuckWatch, Style, Timing, Transfer, Wait, MAX_TRANSFER_LEN,
};
use embassy_mspm0::mode::{Async, Blocking};
use embassy_mspm0::sysctl::{Clocks, SleepLevel};

/// A tree with both sources at explicit rates.
fn clocks() -> Clocks {
    Clocks { ulpclk: 32_000_000, mfclk: 4_000_000, ..Clocks::reset() }
}

const BUSCLK: ClockSel = ClockSel::BusClk;
const MFCLK: ClockSel = ClockSel::MfClk;

const STANDARD: u32 = 100_000;
const FAST_MODE: u32 = 400_000;
const FAST_MODE_PLUS: u32 = 1_000_000;

fn check_timer_period() {
    // 32 MHz / (400 kHz * 10) - 1
    assert_eq!(Timing::solve(&clocks(), BUSCLK, ClockDiv::DivBy1, FAST_MODE).map(|t| t.tpr()), Some(7));

    // 16 MHz / (400 kHz * 10) - 1
    assert_eq!(Timing::solve(&clocks(), BUSCLK, ClockDiv::DivBy2, FAST_MODE).map(|t| t.tpr()), Some(3));

    // 16 MHz / (100 kHz * 10) - 1
    assert_eq!(Timing::solve(&clocks(), BUSCLK, ClockDiv::DivBy2, STANDARD).map(|t| t.tpr()), Some(15));
}

fn check_divided_rate() {
    let timing = Timing::solve(&clocks(), BUSCLK, ClockDiv::DivBy2, FAST_MODE).unwrap();

    assert_eq!(timing.clock_hz(), clocks().ulpclk / 2);
}

fn check_headroom() {
    // 32 MHz against 400 kHz and 1 MHz both clear 20x.
    assert!(Timing::solve(&clocks(), BUSCLK, ClockDiv::DivBy1, FAST_MODE).is_some());
    assert!(Timing::solve(&clocks(), BUSCLK, ClockDiv::DivBy1, FAST_MODE_PLUS).is_some());

    // 4 MHz does not: 400 kHz needs 8 MHz and 1 MHz needs 20 MHz.
    assert!(Timing::solve(&clocks(), MFCLK, ClockDiv::DivBy1, FAST_MODE).is_none());
    assert!(Timing::solve(&clocks(), MFCLK, ClockDiv::DivBy1, FAST_MODE_PLUS).is_none());

    // 100 kHz off MFCLK does clear it.
    assert!(Timing::solve(&clocks(), MFCLK, ClockDiv::DivBy1, STANDARD).is_some());
}

fn check_unrepresentable() {
    // A very slow bus off a fast clock overflows TPR's 7 bits.
    assert!(Timing::solve(&clocks(), BUSCLK, ClockDiv::DivBy1, 1_000).is_none());

    // A zero bus speed cannot be divided by.
    assert!(Timing::solve(&clocks(), BUSCLK, ClockDiv::DivBy1, 0).is_none());
}

/// These are based on TI's reference calculation.
#[test]
fn i2c_ti_timer_period() {
    check_timer_period();
}

/// The divided source rate travels with the timing, so the driver never recomputes it.
#[test]
fn i2c_timing_carries_divided_rate() {
    check_divided_rate();
}

/// The source must be at least 20x the bus speed.
#[test]
fn i2c_rejects_insufficient_headroom() {
    check_headroom();
}

/// A period the register cannot hold is refused rather than wrapping.
#[test]
fn i2c_rejects_unrepresentable_period() {
    check_unrepresentable();
}

/// These are based on TI's reference calculation.
#[test]
fn mod_ti_timer_period() {
    check_timer_period();
}

/// The divided source rate travels with the timing, so the driver never recomputes it.
#[test]
fn mod_timing_carries_divided_rate() {
    check_divided_rate();
}

/// The source must be at least 20x the bus speed.
#[test]
fn mod_rejects_insufficient_headroom() {
    check_headroom();
}

/// A period the register cannot hold is refused rather than wrapping.
#[test]
fn mod_rejects_unrepresentable_period() {
    check_unrepresentable();
}

struct I2c0;

impl Instance for I2c0 {
    const FIFO_SIZE: usize = 8;
}

fn floor(hz: u32) -> Option<SleepLevel> {
    if hz > 4_000_000 {
        Some(SleepLevel::Stop0)
    } else {
        Some(SleepLevel::Standby0)
    }
}

fn pad() -> Pad {
    Pad { pullup: true, drive_strength: false, hysteresis: false, wakeup: false }
}

/// A write of `CCTR` that leaves alone what no transfer sets.
fn cctr(cblen: u16, burstrun: Option<bool>, ack: Option<bool>, start: bool, stop: bool) -> Access {
    Access::Cctr(Cctr { cblen, burstrun, ack, cackoen: None, rd_on_txempty: None, start, stop })
}

fn scl() -> AnyPin {
    AnyPin::steal(1, 10, pad())
}

fn sda() -> AnyPin {
    AnyPin::steal(0, 11, pad())
}

fn controller() -> low_level::I2c {
    let mut bus = Bus::new();
    low_level::I2c::new::<I2c0, _>(scl(), 4, sda(), 3, Config::new(), &clocks(), true, &floor, &mut bus).unwrap()
}

/// The status of a controller that is doing nothing, with an empty FIFO each way.
fn quiet() -> Status {
    Status {
        csr: Csr { idle: true, busy: false, busbsy: false, arblst: false, err: false, adrack: false, datack: false },
        timeouta: false,
        tx_room: 8,
        rx_count: 0,
    }
}

/// The status of a burst that is running.
fn running() -> Status {
    Status { csr: Csr { idle: false, busy: true, busbsy: true, ..quiet().csr }, ..quiet() }
}

fn released() -> Cbmon {
    Cbmon { sda: true, scl: true }
}

fn no_sources() -> CpuInt {
    CpuInt::none()
}

#[test]
fn clock_sources_and_dividers() {
    assert_eq!(BUSCLK.frequency(&clocks()), 32_000_000);
    assert_eq!(MFCLK.frequency(&clocks()), 4_000_000);
    assert_eq!(MFCLK.rate(1, 2), 1);
    assert_eq!(BUSCLK.rate(1, 2), 2);
    assert_eq!(ClockDiv::DivBy1.ratio(), 0);
    assert_eq!(ClockDiv::DivBy8.divider(), 8);
    assert_eq!(BusSpeed::Standard.hertz(), 100_000);
    assert_eq!(BusSpeed::FastMode.hertz(), 400_000);
    assert_eq!(BusSpeed::FastModePlus.hertz(), 1_000_000);
    assert_eq!(BusSpeed::Custom(123).hertz(), 123);
}

#[test]
fn half_a_period_at_a_hundred_kilohertz() {
    // 4 MHz with a period of 3 ticks of ten is 100 kHz, and 32 MHz has 320 cycles in one.
    assert_eq!(half_period_cycles(32_000_000, 4_000_000, 3), 160);
    assert_eq!(half_period_cycles(0, 4_000_000, 3), 1);
    assert_eq!(half_period_cycles(u32::MAX, 0, 3), 0xffff);
}

#[test]
fn three_functional_clocks_to_settle() {
    assert_eq!(settle_cycles(32_000_000, 4_000_000), 24);
    assert_eq!(settle_cycles(32_000_000, 32_000_000), 3);
    // Rounded up, and at least one.
    assert_eq!(settle_cycles(32_000_000, 30_000_000), 4);
    assert_eq!(settle_cycles(0, 32_000_000), 1);
    assert_eq!(settle_cycles(32_000_000, 0), 0xffff);
    assert_eq!(settle_cycles(u32::MAX, u32::MAX), 3);
}

#[test]
fn clock_low_timeout_steps() {
    // One step from 4 MHz is 2080 us.
    assert_eq!(solve_clock_low_timeout(2_080, 4_000_000), Err(ConfigError::InvalidClockLowTimeout));
    assert_eq!(solve_clock_low_timeout(2_081, 4_000_000), Err(ConfigError::InvalidClockLowTimeout));
    assert_eq!(solve_clock_low_timeout(4_159, 4_000_000), Err(ConfigError::InvalidClockLowTimeout));
    assert_eq!(solve_clock_low_timeout(4_160, 4_000_000), Ok(2));
    assert_eq!(solve_clock_low_timeout(4_161, 4_000_000), Ok(3));
    assert_eq!(solve_clock_low_timeout(530_400, 4_000_000), Ok(255));
    assert_eq!(solve_clock_low_timeout(530_401, 4_000_000), Err(ConfigError::InvalidClockLowTimeout));
    assert_eq!(solve_clock_low_timeout(520, 32_000_000), Ok(2));
    assert_eq!(solve_clock_low_timeout(519, 32_000_000), Err(ConfigError::InvalidClockLowTimeout));
    assert_eq!(solve_clock_low_timeout(66_300, 32_000_000), Ok(255));
    assert_eq!(solve_clock_low_timeout(66_301, 32_000_000), Err(ConfigError::InvalidClockLowTimeout));
    assert_eq!(solve_clock_low_timeout(u32::MAX, u32::MAX), Err(ConfigError::InvalidClockLowTimeout));
    assert_eq!(solve_clock_low_timeout(0, 4_000_000), Err(ConfigError::InvalidClockLowTimeout));
}

#[test]
fn timeout_is_never_shorter_than_asked() {
    let mut us = 4_160u64;

    while us < 530_000 {
        let steps = solve_clock_low_timeout(us as u32, 4_000_000).unwrap() as u64;

        assert!(steps * 2_080 >= us);
        assert!((steps - 1) * 2_080 < us);
        us += 997;
    }
}

#[test]
fn configuration_resolves() {
    let config = Config::new();

    assert_eq!(
        config.resolve(&clocks(), true),
        Ok(Resolved {
            clock_source: MFCLK,
            clock_div: ClockDiv::DivBy1,
            clock_hz: 4_000_000,
            source_hz: 4_000_000,
            tpr: 3,
            clock_low_timeout: None,
            half_period_cycles: 160,
            settle_cycles: 24,
        })
    );
    assert_eq!(config, Config::default());

    let mut fast = config;
    fast.bus_speed = BusSpeed::FastMode;
    let resolved = fast.resolve(&clocks(), false).unwrap();
    assert_eq!(resolved.clock_source, BUSCLK);
    assert_eq!(resolved.tpr, 7);
}

#[test]
fn configuration_errors() {
    // MFCLK is not enabled.
    assert_eq!(Config::new().resolve(&clocks(), false), Err(ConfigError::ClockSourceNotEnabled));

    // Not enough headroom.
    let mut fast = Config::new();
    fast.bus_speed = BusSpeed::FastMode;
    let slow = Clocks { ulpclk: 7_999_999, ..clocks() };
    assert_eq!(fast.resolve(&slow, true), Err(ConfigError::InvalidClockRate));

    // A period that does not fit.
    let mut crawl = Config::new();
    crawl.bus_speed = BusSpeed::Custom(1_000);
    assert_eq!(crawl.resolve(&clocks(), true), Err(ConfigError::InvalidClockRate));

    // A timeout that does not fit.
    let mut timeout = Config::new();
    timeout.clock_low_timeout_us = Some(1);
    assert_eq!(timeout.resolve(&clocks(), true), Err(ConfigError::InvalidClockLowTimeout));
    let timing = Timing::solve(&clocks(), BUSCLK, ClockDiv::DivBy1, FAST_MODE).unwrap();
    let short = Config { clock_low_timeout_us: Some(300), ..Config::new().with_timing(timing) };
    assert_eq!(short.resolve(&clocks(), true), Err(ConfigError::InvalidClockLowTimeout));
    timeout.clock_low_timeout_us = Some(4_160);
    assert_eq!(timeout.resolve(&clocks(), true).unwrap().clock_low_timeout, Some(2));
}

#[test]
fn checking_writes_the_source_back() {
    let mut config = Config::new();
    config.bus_speed = BusSpeed::FastMode;
    assert_eq!(config.check_config(&clocks(), false), Ok(()));
    assert_eq!(config.clock_source, BUSCLK);

    let mut config = Config::new();
    assert_eq!(config.check_config(&clocks(), false), Err(ConfigError::ClockSourceNotEnabled));
    assert_eq!(config, Config::new());
}

#[test]
fn solved_timing_resolves_to_the_same() {
    let mut config = Config::new();
    config.bus_speed = BusSpeed::FastMode;
    let timing = Timing::solve(&clocks(), BUSCLK, ClockDiv::DivBy1, FAST_MODE).unwrap();
    assert_eq!(timing.clock_source(), BUSCLK);

    let solved = Config::new().with_timing(timing);
    assert_eq!(solved.resolve(&clocks(), false), config.resolve(&clocks(), false));
    assert_eq!(solved.clock_source, BUSCLK);
}

#[test]
fn sleep_floor_asks_about_the_undivided_clock() {
    let mut config = Config::new();
    config.clock_div = ClockDiv::DivBy2;
    config.bus_speed = BusSpeed::FastModePlus;
    let resolved = config.resolve(&Clocks { ulpclk: 80_000_000, ..clocks() }, true).unwrap();
    assert_eq!(resolved.clock_hz, 40_000_000);
    assert_eq!(resolved.source_hz, 80_000_000);
    assert_eq!(resolved.wake_floor(&floor), Some(SleepLevel::Stop0));
}

#[test]
fn addresses() {
    assert_eq!(Address::from(0x42u8), Address::SevenBit(0x42));
    assert_eq!(Address::ten_bit(0x3ff), Address::TenBit(0x3ff));
    assert_eq!(Address::SevenBit(0x42).addr(), 0x42);
    assert_eq!(Address::TenBit(0x142).addr(), 0x142);
    assert_eq!(Address::checked(Address::SevenBit(0x7f)), Ok(Address::SevenBit(0x7f)));
    assert_eq!(Address::checked(Address::SevenBit(0x80)), Err(Error::InvalidAddress));
    assert_eq!(Address::checked(Address::TenBit(0x400)), Err(Error::InvalidAddress));
    assert!(Address::TenBit(0).is_ten_bit());
}

#[test]
fn errors_have_a_kind_and_a_message() {
    let all = [
        (Error::Bus, ErrorKind::Bus, "Bus Error"),
        (Error::BusStuck, ErrorKind::Bus, "Bus Stuck, SDA Held Low"),
        (Error::Arbitration, ErrorKind::ArbitrationLoss, "Arbitration Lost"),
        (Error::Nack, ErrorKind::NoAcknowledge(NoAcknowledgeSource::Unknown), "ACK Not Received"),
        (Error::NackAddress, ErrorKind::NoAcknowledge(NoAcknowledgeSource::Address), "Address Not Acknowledged"),
        (Error::NackData, ErrorKind::NoAcknowledge(NoAcknowledgeSource::Data), "Data Not Acknowledged"),
        (Error::Timeout, ErrorKind::Other, "Request Timed Out"),
        (Error::ZeroLengthTransfer, ErrorKind::Other, "Zero-Length Transfers are not allowed"),
        (Error::TransferLengthIsOverLimit, ErrorKind::Other, "Transfer length is over limit"),
        (Error::InvalidAddress, ErrorKind::Other, "Address too large for its addressing mode"),
    ];

    for (error, kind, message) in all {
        assert_eq!(error.kind(), kind);
        assert_eq!(error.message(), message);
    }
}

#[test]
fn a_new_controller_is_powered_claimed_and_programmed() {
    let mut bus = Bus::new();
    let i2c = low_level::I2c::new::<I2c0, _>(scl(), 4, sda(), 3, Config::new(), &clocks(), true, &floor, &mut bus);
    let i2c = i2c.unwrap();

    assert_eq!(i2c.fifo_size(), 8);
    assert_eq!(i2c.transfer_floor(), Some(SleepLevel::Standby0));

    let asked = bus.take();
    assert_eq!(asked.len(), 15);
    assert_eq!(&asked[..3], &[Access::Reset, Access::Power, Access::Delay(16)]);
    match (asked[3], asked[4]) {
        (Access::Pin(gpio::Access::Pincm(10, scl)), Access::Pin(gpio::Access::Pincm(11, sda))) => {
            assert_eq!((scl.pf, scl.inena, scl.pc), (Some(4), Some(true), Some(true)));
            assert_eq!((sda.pf, sda.inena, sda.pc), (Some(3), Some(true), Some(true)));
        }
        other => panic!("{other:?}"),
    }
    match (asked[5], asked[6]) {
        (Access::Pin(gpio::Access::Pincm(10, scl)), Access::Pin(gpio::Access::Pincm(11, sda))) => {
            assert_eq!((scl.hiz1, scl.pf), (Some(true), None));
            assert_eq!((sda.hiz1, sda.pf), (Some(true), None));
        }
        other => panic!("{other:?}"),
    }
    assert_eq!(
        &asked[7..],
        &[
            Access::Clksel { mfclk_sel: true, busclk_sel: false },
            Access::Clkdiv { ratio: 0 },
            Access::Gfctl { agfen: false, agfsel: Agfsel::Aglit50, chain: true },
            Access::Cctr(Cctr {
                cblen: 0,
                burstrun: Some(false),
                ack: Some(false),
                cackoen: Some(false),
                rd_on_txempty: Some(false),
                start: false,
                stop: false,
            }),
            Access::Tpr(3),
            Access::TimeoutCtl { tcntaen: false, tcntla: 0 },
            Access::Cfifoctl { txtrig: Txtrig::Empty, rxtrig: Rxtrig::Level1 },
            Access::Ccr { clkstretch: true, active: true },
        ]
    );
}

#[test]
fn a_bad_configuration_touches_nothing() {
    let mut bus = Bus::new();
    let i2c = I2c::<Blocking>::new_blocking::<I2c0, _>(
        scl(),
        4,
        sda(),
        3,
        Config::new(),
        &clocks(),
        false,
        &floor,
        &mut bus,
    );

    assert_eq!(i2c.err(), Some(ConfigError::ClockSourceNotEnabled));
    assert!(bus.take().is_empty());
}

#[test]
fn an_asynchronous_controller_lets_its_line_through() {
    let mut bus = Bus::new();
    let i2c =
        I2c::<Async>::new_async::<I2c0, _>(scl(), 4, sda(), 3, Config::new(), &clocks(), true, &floor, &mut bus);

    assert!(i2c.is_ok());
    let asked = bus.take();
    assert_eq!(&asked[15..], &[Access::LineUnpend, Access::LineOn]);
    assert!(InterruptHandler::<I2c0>::on_interrupt());
}

#[test]
fn reconfiguring_keeps_the_line_as_it_was() {
    for line_on in [true, false] {
        let mut bus = Bus::new();
        let mut i2c = I2c::<Blocking>::new_blocking::<I2c0, _>(
            scl(),
            4,
            sda(),
            3,
            Config::new(),
            &clocks(),
            true,
            &floor,
            &mut bus,
        )
        .unwrap();
        bus.take();

        let mut config = Config::new();
        config.bus_speed = BusSpeed::FastMode;
        config.sda_pull = Pull::Up;
        let pincm = Pincm { pf: 7, ..Pincm::zero() };
        let set = i2c.set_config(&config, &clocks(), true, line_on, pincm, pincm, &floor, &mut bus);
        assert_eq!(set, Ok(()));
        let asked = bus.take();
        assert_eq!(asked[0], Access::LineOff);
        match (asked[1], asked[2]) {
            (Access::Pin(gpio::Access::Pincm(11, sda)), Access::Pin(gpio::Access::Pincm(10, scl))) => {
                assert_eq!((sda.pf, sda.pipu), (Some(7), Some(true)));
                assert_eq!((scl.pf, scl.pipu), (Some(7), Some(false)));
            }
            other => panic!("{other:?}"),
        }
        assert_eq!(asked[3], Access::Clksel { mfclk_sel: false, busclk_sel: true });
        assert_eq!(asked[7], Access::Tpr(7));
        if line_on {
            assert_eq!(&asked[11..], &[Access::LineUnpend, Access::LineOn]);
        } else {
            assert_eq!(asked.len(), 11);
        }

        config.clock_low_timeout_us = Some(1);
        let set = i2c.set_config(&config, &clocks(), true, line_on, pincm, pincm, &floor, &mut bus);
        assert_eq!(set, Err(ConfigError::InvalidClockLowTimeout));
        assert!(bus.take().is_empty());

        // A reset restores what was configured last.
        i2c.inner.reset_peripheral(&mut bus);
        assert_eq!(bus.take()[7], Access::Tpr(7));

        i2c.release(&mut bus);
        assert_eq!(
            bus.take(),
            vec![
                Access::Pin(gpio::Access::StorePincm(10, Pincm::zero())),
                Access::Pin(gpio::Access::StorePincm(11, Pincm::zero())),
            ]
        );
    }
}

#[test]
fn events_and_masks() {
    let mut i2c = controller();
    let mut bus = Bus::new();
    let faults = CpuInt { cnack: true, carblost: true, timeouta: true, ..no_sources() };

    assert_eq!(Event::AnyFault.mask(), faults);
    assert_eq!(Event::Stop.mask(), CpuInt { cstop: true, ..no_sources() });
    assert_eq!(low_level::write_sources(false), CpuInt { ctxdone: true, ..faults });
    assert_eq!(low_level::write_sources(true), CpuInt { ctxdone: true, ctxfifotrg: true, ..faults });
    assert_eq!(low_level::read_sources(), CpuInt { crxdone: true, crxfifotrg: true, ..faults });

    i2c.enable_interrupt(Event::Stop, true, &mut bus);
    i2c.enable_interrupt(Event::Stop, false, &mut bus);
    i2c.enable_interrupts([Event::AnyFault, Event::ReceiveDone], true, &mut bus);
    i2c.arm_only([Event::AnyFault, Event::TransmitDone], &mut bus);
    i2c.disarm(&mut bus);
    i2c.clear_pending(Event::Start, &mut bus);
    assert_eq!(
        bus.take(),
        vec![
            Access::Unmask(CpuInt { cstop: true, ..no_sources() }),
            Access::Mask(CpuInt { cstop: true, ..no_sources() }),
            Access::Unmask(CpuInt { crxdone: true, ..faults }),
            Access::StoreImask(CpuInt { ctxdone: true, ..faults }),
            Access::StoreImask(no_sources()),
            Access::Iclr(CpuInt { cstart: true, ..no_sources() }),
        ]
    );

    let latched = CpuInt { cnack: true, cstart: true, ..no_sources() };
    assert!(i2c.is_pending(Event::AnyFault, latched));
    assert!(!i2c.is_pending(Event::ArbitrationLost, latched));
    assert!(i2c.take_active(Event::AnyFault, latched, &mut bus));
    assert!(!i2c.take_active(Event::Stop, latched, &mut bus));
    assert_eq!(bus.take(), vec![Access::Iclr(CpuInt { cnack: true, ..no_sources() })]);

    assert_eq!(i2c.take_next(IidxStat::Carblostfg), Some(Event::ArbitrationLost));
    assert_eq!(i2c.take_next(IidxStat::CtxEmpty), Some(Event::TransmitEmpty));
    assert_eq!(i2c.take_next(IidxStat::NoIntr), None);
    assert_eq!(i2c.take_next(IidxStat::Other), None);
}

#[test]
fn errors_are_ordered() {
    let mut bus = Bus::new();
    let csr = Csr { arblst: true, err: true, adrack: true, datack: true, ..quiet().csr };

    assert_eq!(
        low_level::check_error(Status { csr, timeouta: true, ..quiet() }, &mut bus),
        Err(Error::Timeout)
    );
    assert_eq!(bus.take(), vec![Access::Iclr(CpuInt { timeouta: true, ..no_sources() })]);
    assert_eq!(low_level::check_error(Status { csr, ..quiet() }, &mut bus), Err(Error::Arbitration));
    let csr = Csr { arblst: false, ..csr };
    assert_eq!(low_level::check_error(Status { csr, ..quiet() }, &mut bus), Err(Error::NackAddress));
    let csr = Csr { adrack: false, ..csr };
    assert_eq!(low_level::check_error(Status { csr, ..quiet() }, &mut bus), Err(Error::NackData));
    let csr = Csr { datack: false, ..csr };
    assert_eq!(low_level::check_error(Status { csr, ..quiet() }, &mut bus), Err(Error::Nack));
    assert_eq!(low_level::check_error(quiet(), &mut bus), Ok(()));
    assert!(bus.take().is_empty());
}

#[test]
fn starting_and_stopping() {
    let mut i2c = controller();
    let mut bus = Bus::new();

    assert_eq!(i2c.start_write(Address::SevenBit(0x42), 3, true, &mut bus), Ok(()));
    assert_eq!(
        bus.take(),
        vec![
            Access::Csa(0x42, false, Dir::Transmit),
            cctr(3, Some(true), None, true, true),
        ]
    );
    assert_eq!(i2c.start_read(Address::TenBit(0x142), 4095, true, false, false, &mut bus), Ok(()));
    assert_eq!(
        bus.take(),
        vec![
            Access::Delay(1000),
            Access::Csa(0x142, true, Dir::Receive),
            cctr(4095, Some(true), Some(false), true, false),
        ]
    );
    assert_eq!(
        i2c.start_write(Address::SevenBit(1), MAX_BURST_LEN + 1, true, &mut bus),
        Err(Error::TransferLengthIsOverLimit)
    );
    assert_eq!(
        i2c.start_read(Address::SevenBit(1), MAX_BURST_LEN + 1, false, false, true, &mut bus),
        Err(Error::TransferLengthIsOverLimit)
    );
    assert!(bus.take().is_empty());
    i2c.stop(&mut bus);
    i2c.settle_after_start(&mut bus);
    assert_eq!(
        bus.take(),
        vec![
            Access::Delay(1000),
            cctr(0, None, None, false, true),
            Access::Delay(24),
        ]
    );
}

#[test]
fn filling_and_draining() {
    let mut bus = Bus::new();

    assert_eq!(low_level::fill_tx(&[1, 2, 3], 2, &mut bus), 2);
    assert_eq!(low_level::fill_tx(&[3], 8, &mut bus), 1);
    assert_eq!(low_level::fill_tx(&[9], 0, &mut bus), 0);
    assert_eq!(bus.take(), vec![Access::Txdata(1), Access::Txdata(2), Access::Txdata(3)]);
    assert_eq!(low_level::drain_rx(5, 3), 3);
    assert_eq!(low_level::drain_rx(2, 3), 2);
}

#[test]
fn flushing_restores_the_mask() {
    let mut i2c = controller();
    let mut bus = Bus::new();
    let armed = CpuInt { ctxfifotrg: true, cnack: true, ..no_sources() };
    let fifo = CpuInt { ctxfifotrg: true, crxfifotrg: true, ctxempty: true, crxfifofull: true, ..no_sources() };

    i2c.flush_fifos(armed, &mut bus);
    assert_eq!(
        bus.take(),
        vec![
            Access::Mask(fifo),
            Access::Flush { txflush: true, rxflush: true },
            Access::WaitFlushed(8),
            Access::Flush { txflush: false, rxflush: false },
            Access::Iclr(fifo),
            Access::RestoreFifoSources(armed),
        ]
    );
}

#[test]
fn waiting_for_idle_is_bounded() {
    let mut bus = Bus::new();
    let mut wait = controller().wait_for_idle();

    for _ in 0..4 {
        assert_eq!(wait.poll(false, 160, &mut bus), None);
    }
    assert_eq!(wait.poll(false, 160, &mut bus), Some(false));
    assert_eq!(bus.take(), vec![Access::Delay(160); 4]);

    let mut wait = IdleWait::new();
    assert_eq!(wait.poll(false, 160, &mut bus), None);
    assert_eq!(wait.poll(true, 160, &mut bus), Some(true));
}

#[test]
fn a_stuck_bus_takes_twenty_samples() {
    let mut bus = Bus::new();
    let held = Cbmon { sda: false, scl: true };

    let mut watch = controller().bus_is_stuck();
    assert_eq!(watch.poll(Cbmon { sda: false, scl: false }, 160, &mut bus), None);
    for _ in 0..19 {
        assert_eq!(watch.poll(held, 160, &mut bus), None);
    }
    assert_eq!(watch.poll(held, 160, &mut bus), Some(true));
    assert_eq!(bus.take().len(), 20);

    // A moving SCL is another controller.
    let mut watch = StuckWatch::new();
    assert_eq!(watch.poll(held, 160, &mut bus), None);
    assert_eq!(watch.poll(Cbmon { sda: false, scl: false }, 160, &mut bus), Some(false));

    // A released SDA is a free line.
    let mut watch = StuckWatch::new();
    assert_eq!(watch.poll(released(), 160, &mut bus), Some(false));
}

#[test]
fn recovering_a_stuck_bus() {
    let mut i2c = controller();
    let mut bus = Bus::new();
    let pincm = Pincm { pf: 4, pc: true, pipu: true, ..Pincm::zero() };

    assert_eq!(i2c.recover_stuck_bus(false, pincm, pincm, &mut bus), Recovery::NotStuck);
    assert!(bus.take().is_empty());
    assert_eq!(i2c.recover_stuck_bus(true, pincm, pincm, &mut bus), Recovery::Clocked);
    let asked = bus.take();
    assert_eq!(asked.len(), 6 + 9 * 4);
    match asked[0] {
        Access::Pin(gpio::Access::Pincm(10, update)) => {
            assert_eq!((update.pf, update.pipu, update.pipd), (Some(1), Some(true), Some(false)));
        }
        other => panic!("{other:?}"),
    }
    let low = Access::Pin(gpio::Access::DoutClear(gpio::Port::PortA, 1));
    assert_eq!(asked.iter().filter(|&&access| access == low).count(), 9);

    // SDA is PA0.
    assert_eq!(i2c.end_recovery(0b01, pincm, pincm, &mut bus), Ok(()));
    let asked = bus.take();
    assert_eq!(
        &asked[..9],
        &[
            low,
            Access::Pin(gpio::Access::DoutClear(gpio::Port::PortA, 0)),
            Access::Delay(160),
            Access::Pin(gpio::Access::DoutSet(gpio::Port::PortA, 1)),
            Access::Delay(160),
            Access::Pin(gpio::Access::DoutSet(gpio::Port::PortA, 0)),
            Access::Delay(160),
            Access::Pin(gpio::Access::StorePincm(10, pincm)),
            Access::Pin(gpio::Access::StorePincm(11, pincm)),
        ]
    );
    assert_eq!(asked[9], Access::Reset);
    assert_eq!(i2c.end_recovery(!0b01, pincm, pincm, &mut bus), Err(Error::Bus));

    assert_eq!(Recovery::NotStuck.outcome(), Some(Ok(())));
    assert_eq!(Recovery::NoPins.outcome(), Some(Err(Error::Bus)));
    assert_eq!(Recovery::Clocked.outcome(), None);
}

#[test]
fn pads_are_asked_only_once_they_are_set_up() {
    let bare = Pad { pullup: false, ..pad() };
    let pulled = Config { scl_pull: Pull::Up, bus_speed: BusSpeed::Custom(1_000), ..Config::new() };
    let mut bus = Bus::new();

    // A configuration that does not resolve is reported first, whatever its pulls.
    let built = low_level::I2c::new::<I2c0, _>(
        AnyPin::steal(1, 10, bare),
        4,
        sda(),
        3,
        pulled,
        &clocks(),
        true,
        &floor,
        &mut bus,
    );
    assert!(matches!(built, Err(ConfigError::InvalidClockRate)));
    assert!(bus.take().is_empty());
}

#[test]
fn blocking_wait_for_the_bus() {
    let mut i2c = controller();
    let mut bus = Bus::new();

    let mut wait = i2c.blocking_wait_bus_free();
    assert_eq!(wait.poll(&mut i2c, released(), running(), &mut bus), Wait::Again);
    assert_eq!(bus.take(), vec![Access::Iclr(CpuInt { timeouta: true, ..no_sources() })]);
    assert_eq!(wait.poll(&mut i2c, released(), running(), &mut bus), Wait::Again);
    assert_eq!(wait.poll(&mut i2c, released(), quiet(), &mut bus), Wait::Ready(Ok(())));
    assert!(bus.take().is_empty());

    let late = Status { timeouta: true, ..running() };
    assert_eq!(wait.poll(&mut i2c, released(), late, &mut bus), Wait::Ready(Err(Error::Timeout)));
    let asked = bus.take();
    assert_eq!(asked[1], Access::Reset);
    assert_eq!(asked.len(), 12);

    let mut wait = BusWait::new();
    let held = Cbmon { sda: false, scl: true };
    for _ in 0..20 {
        assert_eq!(wait.poll(&mut i2c, held, quiet(), &mut bus), Wait::Again);
    }
    assert_eq!(wait.poll(&mut i2c, held, quiet(), &mut bus), Wait::Ready(Err(Error::BusStuck)));
}

#[test]
fn an_abandoned_transfer_resets_the_controller() {
    let mut i2c = controller();
    let mut bus = Bus::new();

    i2c.mark_abandoned();
    let mut wait = AsyncBusWait::new();
    assert_eq!(wait.poll(&mut i2c, released(), quiet(), &mut bus), Wait::Again);
    assert_eq!(bus.take()[0], Access::Reset);
    assert!(!i2c.take_abandoned());
    assert_eq!(wait.poll(&mut i2c, released(), quiet(), &mut bus), Wait::Again);
    assert_eq!(wait.poll(&mut i2c, released(), quiet(), &mut bus), Wait::Ready(Ok(())));
    assert!(bus.take().is_empty());

    // A target that is still holding SDA is the caller's to clock off.
    i2c.mark_abandoned();
    let mut wait = AsyncBusWait::new();
    let held = Cbmon { sda: false, scl: true };
    for _ in 0..21 {
        assert_eq!(wait.poll(&mut i2c, held, quiet(), &mut bus), Wait::Again);
    }
    assert_eq!(wait.poll(&mut i2c, held, quiet(), &mut bus), Wait::Ready(Err(Error::BusStuck)));
}

#[test]
fn asynchronous_wait_for_the_bus() {
    let mut i2c = controller();
    let mut bus = Bus::new();
    let wake = CpuInt { cstop: true, timeouta: true, ..no_sources() };

    let mut wait = AsyncBusWait::new();
    assert_eq!(wait.poll(&mut i2c, released(), running(), &mut bus), Wait::Again);
    assert_eq!(wait.poll(&mut i2c, released(), running(), &mut bus), Wait::Again);
    assert_eq!(wait.poll(&mut i2c, released(), running(), &mut bus), Wait::Again);
    bus.take();
    assert_eq!(wait.poll(&mut i2c, released(), running(), &mut bus), Wait::Again);
    assert_eq!(
        bus.take(),
        vec![Access::Iclr(CpuInt { cstop: true, ..no_sources() }), Access::Unmask(wake)]
    );
    assert_eq!(wait.poll(&mut i2c, released(), running(), &mut bus), Wait::Park);
    wait.cancel(&mut bus);
    assert_eq!(bus.take(), vec![Access::Mask(wake)]);

    assert_eq!(wait.poll(&mut i2c, released(), running(), &mut bus), Wait::Again);
    bus.take();
    assert_eq!(wait.poll(&mut i2c, released(), quiet(), &mut bus), Wait::Ready(Ok(())));
    assert_eq!(bus.take(), vec![Access::Mask(wake)]);

    let mut wait = AsyncBusWait::Armed;
    let late = Status { timeouta: true, ..running() };
    assert_eq!(wait.poll(&mut i2c, released(), late, &mut bus), Wait::Ready(Err(Error::Timeout)));
    let asked = bus.take();
    assert_eq!(asked[1], Access::Reset);
    assert_eq!(asked.last(), Some(&Access::Mask(wake)));
}

fn reads(len: usize) -> Operation {
    Operation::Read(vec![0; len])
}

fn writes(bytes: &[u8]) -> Operation {
    Operation::Write(bytes.to_vec())
}

#[test]
fn runs_merge_over_empty_operations() {
    let ops = [reads(0), writes(&[1, 2]), reads(0), writes(&[3]), writes(&[]), reads(2), reads(1)];

    let first = next_group(&ops, 0).unwrap();
    assert_eq!(first, Group { start: 1, end: 4, write: true, total: 3 });
    let second = next_group(&ops, first.end).unwrap();
    assert_eq!(second, Group { start: 5, end: 7, write: false, total: 3 });
    assert_eq!(next_group(&ops, second.end), None);
    assert_eq!(next_group(&[reads(0), writes(&[])], 0), None);
    assert_eq!(next_group(&[], 5), None);
}

#[test]
fn a_run_is_fed_from_each_buffer_in_turn() {
    let ops = [writes(&[1, 2]), reads(0), writes(&[3, 4])];
    let mut cursor = GroupCursor { op: 0, pos: 0 };
    let mut bus = Bus::new();

    assert_eq!(fill_tx_group(&ops, 3, &mut cursor, 1, &mut bus), 1);
    assert_eq!(fill_tx_group(&ops, 3, &mut cursor, 2, &mut bus), 2);
    assert_eq!(fill_tx_group(&ops, 3, &mut cursor, 8, &mut bus), 1);
    assert_eq!(fill_tx_group(&ops, 3, &mut cursor, 8, &mut bus), 0);
    assert_eq!(
        bus.take(),
        vec![Access::Txdata(1), Access::Txdata(2), Access::Txdata(3), Access::Txdata(4)]
    );
}

#[test]
fn a_run_is_drained_into_each_buffer_in_turn() {
    let mut ops = vec![reads(2), writes(&[]), reads(2)];
    let mut cursor = GroupCursor { op: 0, pos: 0 };

    assert_eq!(drain_rx_group(&mut ops, 3, &mut cursor, &[1]), 1);
    assert_eq!(drain_rx_group(&mut ops, 3, &mut cursor, &[2, 3]), 2);
    assert_eq!(drain_rx_group(&mut ops, 3, &mut cursor, &[4]), 1);
    assert_eq!(ops, vec![Operation::Read(vec![1, 2]), writes(&[]), Operation::Read(vec![3, 4])]);
}

/// Poll a blocking transfer with a controller that does what it is told: what it queues goes out, and reads
/// are answered out of `answers`.
fn run_blocking(transfer: &mut Transfer, i2c: &mut low_level::I2c, answers: &[u8]) -> (Result<(), Error>, Vec<Access>) {
    let mut bus = Bus::new();
    let mut asked = Vec::new();
    let mut answered = 0;
    let mut status = quiet();

    for _ in 0..200 {
        let progress = transfer.poll(i2c, released(), status, no_sources(), &mut bus);
        let progress = match progress {
            Progress::Take(count) => {
                let bytes = &answers[answered..answered + count];

                answered += count;
                transfer.deliver(bytes, i2c, &mut bus)
            }
            other => other,
        };

        asked.extend(bus.take());
        match progress {
            Progress::Ready(result) => return (result, asked),
            _ => {}
        }
        // Three bytes arrive between polls while a burst runs, and the bus goes quiet once all are queued.
        let over = match &transfer.stage {
            Stage::Moving(burst) => burst.moved == burst.plan.group.total,
            _ => true,
        };
        let left = (answers.len() - answered).min(3) as u8;
        status = if over { quiet() } else { Status { tx_room: 3, rx_count: left, ..running() } };
        if let Stage::Moving(burst) = &transfer.stage {
            if burst.phase == Phase::Idle {
                status = quiet();
            }
        }
    }
    panic!("the transfer does not end");
}

fn queued(asked: &[Access]) -> Vec<u8> {
    asked
        .iter()
        .filter_map(|access| match access {
            Access::Txdata(byte) => Some(*byte),
            _ => None,
        })
        .collect()
}

fn bursts(asked: &[Access]) -> Vec<(u16, bool)> {
    asked
        .iter()
        .filter_map(|access| match access {
            Access::Cctr(cctr) if cctr.start => Some((cctr.cblen, cctr.stop)),
            _ => None,
        })
        .collect()
}

fn blocking() -> I2c<Blocking> {
    let mut bus = Bus::new();
    I2c::<Blocking>::new_blocking::<I2c0, _>(scl(), 4, sda(), 3, Config::new(), &clocks(), true, &floor, &mut bus)
        .unwrap()
}

#[test]
fn a_blocking_write_sends_every_byte_once() {
    let mut i2c = blocking();
    let bytes: Vec<u8> = (0..40).collect();
    let mut transfer = i2c.blocking_write(Address::SevenBit(0x42), bytes.clone()).unwrap();
    let (result, asked) = run_blocking(&mut transfer, &mut i2c.inner, &[]);

    assert_eq!(result, Ok(()));
    assert_eq!(queued(&asked), bytes);
    assert_eq!(bursts(&asked), vec![(40, true)]);
    // The FIFO is primed before the burst starts.
    let start = asked.iter().position(|access| matches!(access, Access::Cctr(_))).unwrap();
    assert_eq!(queued(&asked[..start]), vec![0, 1, 2]);
}

#[test]
fn a_blocking_read_fills_its_buffer_in_order() {
    let mut i2c = blocking();
    let bytes: Vec<u8> = (10..50).collect();
    let mut transfer = i2c.blocking_read(Address::SevenBit(0x42), vec![0; 40]).unwrap();
    let (result, asked) = run_blocking(&mut transfer, &mut i2c.inner, &bytes);

    assert_eq!(result, Ok(()));
    assert_eq!(transfer.ops, vec![Operation::Read(bytes)]);
    assert_eq!(bursts(&asked), vec![(40, true)]);
}

#[test]
fn write_read_restarts_before_the_read() {
    let mut i2c = blocking();
    let mut transfer = i2c.blocking_write_read(Address::SevenBit(0x42), vec![7], vec![0; 2]).unwrap();
    let (result, asked) = run_blocking(&mut transfer, &mut i2c.inner, &[1, 2]);

    assert_eq!(result, Ok(()));
    assert_eq!(queued(&asked), vec![7]);
    assert_eq!(bursts(&asked), vec![(1, false), (2, true)]);
    assert_eq!(transfer.ops[1], Operation::Read(vec![1, 2]));
    // A repeated START keeps its distance.
    let read = asked.iter().position(|access| matches!(access, Access::Csa(_, _, Dir::Receive))).unwrap();
    assert_eq!(asked[read - 1], Access::Delay(1000));
}

#[test]
fn a_transaction_merges_and_ends_with_one_stop() {
    let mut i2c = blocking();
    let ops = vec![writes(&[1]), reads(0), writes(&[2]), reads(1), reads(1), writes(&[3])];
    let mut transfer = i2c.transaction(Address::TenBit(0x142), ops).unwrap();
    let (result, asked) = run_blocking(&mut transfer, &mut i2c.inner, &[8, 9]);

    assert_eq!(result, Ok(()));
    assert_eq!(queued(&asked), vec![1, 2, 3]);
    assert_eq!(bursts(&asked), vec![(2, false), (2, false), (1, true)]);
    assert_eq!(transfer.ops[3], Operation::Read(vec![8]));
    assert_eq!(transfer.ops[4], Operation::Read(vec![9]));
}

#[test]
fn separate_operations_end_with_a_stop_of_their_own() {
    let mut i2c = blocking();
    let mut transfer = i2c.exec(Address::SevenBit(0x42), vec![writes(&[1]), writes(&[2])]).unwrap();
    let (result, asked) = run_blocking(&mut transfer, &mut i2c.inner, &[]);

    assert_eq!(result, Ok(()));
    assert_eq!(bursts(&asked), vec![(1, false), (1, false)]);
    assert_eq!(
        asked.last(),
        Some(&cctr(0, None, None, false, true))
    );
}

#[test]
fn transfers_are_refused_by_address_and_length() {
    let mut i2c = blocking();

    assert_eq!(i2c.blocking_read(Address::SevenBit(0x80), vec![0]).err(), Some(Error::InvalidAddress));
    assert_eq!(i2c.blocking_write(Address::TenBit(0x400), vec![0]).err(), Some(Error::InvalidAddress));

    let mut transfer = i2c.blocking_write(Address::SevenBit(1), vec![]).unwrap();
    let (result, asked) = run_blocking(&mut transfer, &mut i2c.inner, &[]);
    assert_eq!(result, Err(Error::ZeroLengthTransfer));
    assert!(bursts(&asked).is_empty());

    let mut transfer = i2c.blocking_read(Address::SevenBit(1), vec![0; MAX_TRANSFER_LEN + 1]).unwrap();
    let (result, asked) = run_blocking(&mut transfer, &mut i2c.inner, &[]);
    assert_eq!(result, Err(Error::TransferLengthIsOverLimit));
    assert!(bursts(&asked).is_empty());

    // A merged run is bounded as a whole, and a transaction of nothing is over at once.
    let ops = vec![writes(&[0; 4095]), writes(&[0])];
    let mut transfer = i2c.transaction(Address::SevenBit(1), ops).unwrap();
    let (result, asked) = run_blocking(&mut transfer, &mut i2c.inner, &[]);
    assert_eq!(result, Err(Error::TransferLengthIsOverLimit));
    assert!(bursts(&asked).is_empty());

    let mut transfer = i2c.transaction(Address::SevenBit(1), vec![reads(0)]).unwrap();
    let (result, _) = run_blocking(&mut transfer, &mut i2c.inner, &[]);
    assert_eq!(result, Ok(()));
}

/// A burst over these operations, up to where it runs.
fn started(ops: &[Operation], i2c: &mut low_level::I2c) -> Burst {
    let mut bus = Bus::new();
    let mut burst = Burst::over(ops, 0, Address::SevenBit(0x42), false, true, &mut bus).unwrap();

    assert_eq!(burst.poll(ops, i2c, quiet(), no_sources(), &mut bus), Progress::Again);
    assert_eq!(burst.poll(ops, i2c, quiet(), no_sources(), &mut bus), Progress::Again);
    assert_eq!(burst.phase, Phase::Run);
    burst
}

#[test]
fn a_failed_burst_releases_the_bus() {
    let mut i2c = controller();
    let mut bus = Bus::new();
    let ops = [writes(&[0; 20])];
    let mut burst = started(&ops, &mut i2c);
    let nack = Status { csr: Csr { err: true, adrack: true, ..running().csr }, ..running() };

    assert_eq!(burst.poll(&ops, &mut i2c, nack, no_sources(), &mut bus), Progress::Again);
    assert_eq!(burst.phase, Phase::Recover(Error::NackAddress, IdleWait::new()));
    assert_eq!(
        bus.take(),
        vec![
            Access::Delay(1000),
            cctr(0, None, None, false, true),
        ]
    );
    assert_eq!(burst.poll(&ops, &mut i2c, running(), no_sources(), &mut bus), Progress::Again);
    assert_eq!(bus.take(), vec![Access::Delay(160)]);
    assert_eq!(
        burst.poll(&ops, &mut i2c, quiet(), no_sources(), &mut bus),
        Progress::Ready(Err(Error::NackAddress))
    );
    assert_eq!(bus.take()[1], Access::Flush { txflush: true, rxflush: true });
}

#[test]
fn a_timeout_resets_the_controller() {
    let mut i2c = controller();
    let mut bus = Bus::new();
    let ops = [reads(4)];
    let mut burst = started(&ops, &mut i2c);
    let late = Status { timeouta: true, ..running() };

    assert_eq!(
        burst.poll(&ops, &mut i2c, late, no_sources(), &mut bus),
        Progress::Ready(Err(Error::Timeout))
    );
    let asked = bus.take();
    assert_eq!(asked[0], Access::Iclr(CpuInt { timeouta: true, ..no_sources() }));
    assert_eq!(asked[1], Access::Reset);
}

#[test]
fn a_burst_that_stops_early_is_a_bus_error() {
    let mut i2c = controller();
    let mut bus = Bus::new();

    let ops = [writes(&[0; 20])];
    let mut burst = started(&ops, &mut i2c);
    burst.poll(&ops, &mut i2c, quiet(), no_sources(), &mut bus);
    assert_eq!(burst.phase, Phase::Recover(Error::Bus, IdleWait::new()));

    let ops = [reads(4)];
    let mut burst = started(&ops, &mut i2c);
    burst.poll(&ops, &mut i2c, quiet(), no_sources(), &mut bus);
    assert_eq!(burst.phase, Phase::Short);
    burst.poll(&ops, &mut i2c, quiet(), no_sources(), &mut bus);
    assert_eq!(burst.phase, Phase::Recover(Error::Bus, IdleWait::new()));
}

fn asynchronous() -> I2c<Async> {
    let mut bus = Bus::new();
    I2c::<Async>::new_async::<I2c0, _>(scl(), 4, sda(), 3, Config::new(), &clocks(), true, &floor, &mut bus).unwrap()
}

/// Poll an asynchronous transfer up to where its first burst has been launched.
fn launched(transfer: &mut Transfer, i2c: &mut low_level::I2c) -> Vec<Access> {
    let mut bus = Bus::new();

    for _ in 0..2 {
        let progress =
            transfer.poll_by_interrupt(i2c, released(), IidxStat::NoIntr, quiet(), no_sources(), &mut bus);
        assert_eq!(progress, Progress::Again);
    }
    bus.take();
    let progress = transfer.poll_by_interrupt(i2c, released(), IidxStat::NoIntr, quiet(), no_sources(), &mut bus);
    assert_eq!(progress, Progress::Park);
    bus.take()
}

#[test]
fn an_asynchronous_write_is_topped_up() {
    let mut i2c = asynchronous();
    let mut bus = Bus::new();
    let bytes: Vec<u8> = (0..12).collect();
    let mut transfer = i2c.async_write(Address::SevenBit(0x42), bytes).unwrap();
    // The bus is waited for first, which blocks no sleep.
    assert_eq!(transfer.wake_floor(&i2c.inner), None);
    let asked = launched(&mut transfer, &mut i2c.inner);

    assert_eq!(queued(&asked), (0..8).collect::<Vec<u8>>());
    assert!(transfer.wants_iidx());
    assert_eq!(transfer.wake_floor(&i2c.inner), Some(SleepLevel::Standby0));
    assert_eq!(asked[8], Access::Unmask(low_level::write_sources(true)));
    assert_eq!(bursts(&asked), vec![(12, true)]);

    let mut poll = |stat, status| {
        let progress =
            transfer.poll_by_interrupt(&mut i2c.inner, released(), stat, status, no_sources(), &mut bus);
        (progress, bus.take())
    };
    let (progress, asked) = poll(IidxStat::Ctxfifotrg, Status { tx_room: 3, ..running() });
    assert_eq!((progress, queued(&asked)), (Progress::Park, vec![8, 9, 10]));
    let (progress, asked) = poll(IidxStat::Ctxfifotrg, Status { tx_room: 8, ..running() });
    assert_eq!(progress, Progress::Park);
    assert_eq!(asked, vec![Access::Txdata(11), Access::Mask(Event::TransmitTrigger.mask())]);
    let (progress, asked) = poll(IidxStat::Cstartfg, running());
    assert_eq!((progress, asked), (Progress::Park, vec![]));
    let (progress, asked) = poll(IidxStat::Ctxdonefg, quiet());
    assert_eq!((progress, asked), (Progress::Ready(Ok(())), vec![Access::StoreImask(no_sources())]));
}

#[test]
fn an_asynchronous_read_takes_its_tail() {
    let mut i2c = asynchronous();
    let mut bus = Bus::new();
    let mut transfer = i2c.async_read(Address::SevenBit(0x42), vec![0; 5]).unwrap();
    let asked = launched(&mut transfer, &mut i2c.inner);

    assert_eq!(asked[0], Access::Unmask(low_level::read_sources()));
    let status = Status { rx_count: 3, ..running() };
    let progress = transfer.poll_by_interrupt(
        &mut i2c.inner,
        released(),
        IidxStat::Crxfifotrg,
        status,
        no_sources(),
        &mut bus,
    );
    assert_eq!(progress, Progress::Take(3));
    assert!(!transfer.wants_iidx());
    assert_eq!(transfer.deliver(&[1, 2, 3], &mut i2c.inner, &mut bus), Progress::Park);
    let status = Status { rx_count: 6, ..quiet() };
    let progress = transfer.poll_by_interrupt(
        &mut i2c.inner,
        released(),
        IidxStat::Crxdonefg,
        status,
        no_sources(),
        &mut bus,
    );
    assert_eq!(progress, Progress::Take(2));
    assert!(bus.take().is_empty());
    assert_eq!(transfer.deliver(&[4, 5], &mut i2c.inner, &mut bus), Progress::Ready(Ok(())));
    assert_eq!(bus.take(), vec![Access::StoreImask(no_sources())]);
    assert_eq!(transfer.ops, vec![Operation::Read(vec![1, 2, 3, 4, 5])]);
}

#[test]
fn asynchronous_faults() {
    let faults = [
        (IidxStat::Cnackfg, Error::NackData),
        (IidxStat::Carblostfg, Error::Arbitration),
        (IidxStat::Timeouta, Error::Timeout),
    ];

    for (stat, error) in faults {
        let mut i2c = asynchronous();
        let mut bus = Bus::new();
        let mut transfer = i2c.async_read(Address::SevenBit(0x42), vec![0; 5]).unwrap();
        launched(&mut transfer, &mut i2c.inner);
        let status = Status { csr: Csr { err: true, datack: true, ..quiet().csr }, ..quiet() };
        let mut progress =
            transfer.poll_by_interrupt(&mut i2c.inner, released(), stat, status, no_sources(), &mut bus);

        assert_eq!(bus.take()[0], Access::StoreImask(no_sources()));
        while progress == Progress::Again {
            let stat = IidxStat::NoIntr;
            progress =
                transfer.poll_by_interrupt(&mut i2c.inner, released(), stat, status, no_sources(), &mut bus);
        }
        assert_eq!(progress, Progress::Ready(Err(error)));
    }

    // A burst that ends short of its length says nothing else.
    let mut i2c = asynchronous();
    let mut bus = Bus::new();
    let mut transfer = i2c.async_read(Address::SevenBit(0x42), vec![0; 5]).unwrap();
    launched(&mut transfer, &mut i2c.inner);
    let progress = transfer.poll_by_interrupt(
        &mut i2c.inner,
        released(),
        IidxStat::Crxdonefg,
        quiet(),
        no_sources(),
        &mut bus,
    );
    assert_eq!(progress, Progress::Again);
    match transfer.stage {
        Stage::Moving(burst) => assert_eq!(burst.phase, Phase::Recover(Error::Bus, IdleWait::new())),
        other => panic!("{other:?}"),
    }
}

#[test]
fn a_cancelled_transfer_is_cleaned_up_by_the_next() {
    let mut i2c = asynchronous();
    let mut bus = Bus::new();
    let mut transfer = i2c.async_write(Address::SevenBit(0x42), vec![1, 2, 3]).unwrap();

    launched(&mut transfer, &mut i2c.inner);
    transfer.cancel(&mut i2c.inner, &mut bus);
    assert_eq!(bus.take(), vec![Access::StoreImask(no_sources())]);

    let mut transfer = i2c.async_write_read(Address::SevenBit(0x42), vec![1], vec![0]).unwrap();
    let progress =
        transfer.poll_by_interrupt(&mut i2c.inner, released(), IidxStat::NoIntr, quiet(), no_sources(), &mut bus);
    assert_eq!(progress, Progress::Again);
    assert_eq!(bus.take()[0], Access::Reset);

    // One that has not started owes nothing.
    transfer.cancel(&mut i2c.inner, &mut bus);
    assert!(bus.take().is_empty());
    assert!(!i2c.inner.take_abandoned());
}

#[test]
fn an_asynchronous_transaction_restarts() {
    let mut i2c = asynchronous();
    let mut bus = Bus::new();
    let mut transfer = i2c.transaction(Address::SevenBit(0x42), vec![writes(&[1]), reads(1)]).unwrap();
    let asked = launched(&mut transfer, &mut i2c.inner);

    assert_eq!(bursts(&asked), vec![(1, false)]);
    let progress = transfer.poll_by_interrupt(
        &mut i2c.inner,
        released(),
        IidxStat::Ctxdonefg,
        running(),
        no_sources(),
        &mut bus,
    );
    assert_eq!(progress, Progress::Again);
    bus.take();
    let progress =
        transfer.poll_by_interrupt(&mut i2c.inner, released(), IidxStat::NoIntr, running(), no_sources(), &mut bus);
    assert_eq!(progress, Progress::Park);
    let asked = bus.take();
    assert_eq!(asked[1], Access::Delay(1000));
    assert_eq!(bursts(&asked), vec![(1, true)]);
}

#[test]
fn a_script_decides_operation_by_operation() {
    let mut i2c = controller();
    let mut bus = Bus::new();
    let ops = [writes(&[1]), reads(2)];
    let mut script = Script { address: Address::SevenBit(1), style: Style::Single, next: 0, opened: false };

    match script.decide(&ops, &mut i2c, &mut bus) {
        Decision::Start(burst) => {
            assert!(burst.plan.group.write && !burst.plan.restart && !burst.plan.send_stop);
            assert_eq!(burst.phase, Phase::Prime);
        }
        other => panic!("{other:?}"),
    }
    match script.decide(&ops, &mut i2c, &mut bus) {
        Decision::Start(burst) => assert!(!burst.plan.group.write && burst.plan.restart && burst.plan.send_stop),
        other => panic!("{other:?}"),
    }
    assert_eq!(script.decide(&ops, &mut i2c, &mut bus), Decision::Over(Ok(())));
    assert_ne!(Phase::Taking(1, Resume::Wait), Phase::Taking(1, Resume::Conclude));
}

#[test]
fn status_is_read_field_by_field() {
    let i2c = controller();
    let csr = quiet().csr;

    assert!(i2c.is_idle(csr) && !i2c.is_busy(csr) && !i2c.bus_is_busy(csr));
    assert!(i2c.is_busy(Csr { busy: true, ..csr }));
    assert!(i2c.bus_is_busy(Csr { busbsy: true, ..csr }));
    assert!(!i2c.is_idle(Csr { idle: false, ..csr }));
    assert_eq!(i2c.rx_fifo_count(Status { rx_count: 5, ..quiet() }), 5);
}

#[test]
fn speed_out_of_reach_is_an_error() {
    let speed = |hertz| Config { bus_speed: BusSpeed::Custom(hertz), ..Config::new() };

    assert_eq!(speed(u32::MAX).resolve(&clocks(), true), Err(ConfigError::InvalidClockRate));
    assert_eq!(speed(0).resolve(&clocks(), true), Err(ConfigError::InvalidClockRate));
    assert_eq!(speed(0).resolve(&clocks(), false), Err(ConfigError::ClockSourceNotEnabled));
    // The source is picked from the bus speed: up to 200 kHz it is MFCLK, which is exactly 20 times that.
    assert_eq!(speed(200_000).resolve(&clocks(), true).map(|resolved| resolved.tpr), Ok(1));
    assert_eq!(speed(200_001).resolve(&clocks(), false).map(|resolved| resolved.clock_source), Ok(BUSCLK));
}

#[test]
fn divided_clock_keeps_its_headroom() {
    // 16 MHz is short of 20 times 1 MHz.
    let config = Config { bus_speed: BusSpeed::FastModePlus, clock_div: ClockDiv::DivBy2, ..Config::new() };
    assert_eq!(config.resolve(&clocks(), true), Err(ConfigError::InvalidClockRate));

    let config = Config { bus_speed: BusSpeed::FastMode, ..config };
    let resolved = config.resolve(&clocks(), false).unwrap();
    assert_eq!((resolved.clock_source, resolved.clock_hz, resolved.tpr), (BUSCLK, 16_000_000, 3));
}
