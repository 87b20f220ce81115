use embassy_mspm0::bus::Bus;
use embassy_mspm0::comp::{
    div_ceil_no_builtin, divmod_no_builtin, wait_cycles, Access, Comp, Config, ConfigError, Ctl0, Ctl1, Ctl2,
    DacCode, Edge, EdgeWait, FilterDelay, Flags, Fltdly, Hyst, Hysteresis, Instance, InterruptHandler,
    OutputPolarity, Reference, ReferenceSource, ReferenceTerminal, Refsrc, Settling, Speed, TerminalPin,
};
use embassy_mspm0::gpio::{self, AnyPin, Pad, Pincm, PincmUpdate};
use embassy_mspm0::mode::{Async, Blocking};
use embassy_mspm0::sysctl::{Clocks, SleepLevel};

/// A comparator that every erratum applies to.
struct Afflicted;

impl Instance for Afflicted {
    const HYSTERESIS_BREAKS_ON_EXCHANGE: bool = true;
    const TOGGLES_IN_STANDBY0_ON_CHANNEL_0: bool = true;
    const HAS_INTERNAL_REFERENCE: bool = false;
    const ENABLE_FAST_NS: u32 = 10_000;
    const ENABLE_ULP_NS: u32 = 50_000;
    const DAC_SETTLE_NS: u32 = 1_500;
    const USABLE_FLOOR: Option<SleepLevel> = Some(SleepLevel::Standby1);
}

/// A comparator that none applies to.
struct Sound;

impl Instance for Sound {
    const HYSTERESIS_BREAKS_ON_EXCHANGE: bool = false;
    const TOGGLES_IN_STANDBY0_ON_CHANNEL_0: bool = false;
    const HAS_INTERNAL_REFERENCE: bool = true;
    const ENABLE_FAST_NS: u32 = 0;
    const ENABLE_ULP_NS: u32 = 0;
    const DAC_SETTLE_NS: u32 = 0;
    const USABLE_FLOOR: Option<SleepLevel> = None;
}

const PAD: Pad = Pad { pullup: true, drive_strength: false, hysteresis: false, wakeup: false };
const BOTH: Flags = Flags { compifg: true, compinvifg: true, outrdyifg: false };
const NEITHER: Flags = Flags { compifg: false, compinvifg: false, outrdyifg: false };

fn terminal(pin_cm: u8, channel: u8) -> TerminalPin {
    TerminalPin { pin: AnyPin::steal(pin_cm, pin_cm, PAD), channel }
}

fn analog(pin_cm: u8) -> Access {
    Access::Pin(gpio::Access::StorePincm(pin_cm, Pincm::zero()))
}

fn built<T: Instance>(negative: Option<TerminalPin>) -> Comp<T, Blocking> {
    match Comp::new(Some(terminal(3, 1)), negative, &Clocks::reset(), Config::new(), &mut Bus::new()) {
        Ok(comp) => comp,
        Err(_) => panic!(),
    }
}

#[test]
fn code_in_millivolts() {
    assert_eq!(DacCode::from_millivolts(1280, 2560).to_bits(), 127);
    assert_eq!(DacCode::new(127).to_millivolts(2560), 1280);
    // Out of range saturates rather than wrapping.
    assert_eq!(DacCode::from_millivolts(9999, 2560).to_bits(), 255);
    assert_eq!(DacCode::from_millivolts(0, 2560).to_bits(), 0);
    assert_eq!(DacCode::from_millivolts(u32::MAX, 1).to_bits(), 255);
    assert_eq!(DacCode::from_millivolts(10_000_000, 20_000_000).to_bits(), 127);
    assert_eq!(DacCode::from_millivolts(1280, 0).to_bits(), 0);
    assert_eq!(DacCode::full_scale().to_millivolts(3300), 3300);
    assert_eq!(DacCode::zero().to_millivolts(2560), 10);
}

#[test]
fn code_survives_the_trip() {
    for bits in 0..=255 {
        let code = DacCode::new(bits);
        assert_eq!(DacCode::from_millivolts(code.to_millivolts(3300), 3300), code);
        assert_eq!(DacCode::from_millivolts(code.to_millivolts(510), 510), code);
    }
}

#[test]
fn waits_cover_their_time() {
    assert_eq!(wait_cycles(1_000_000_000, 10_000), 10_000);
    assert_eq!(wait_cycles(1, 1), 1);
    assert_eq!(wait_cycles(32_000_000, 10_000), 320);
    assert_eq!(wait_cycles(32_000_000, 0), 0);
    assert!(wait_cycles(80_000_000, 1_500) >= 120);
    assert!(wait_cycles(80_000_000, 10_000) >= 800);
    assert!(wait_cycles(4_000_000, 1_500) >= 6);
    assert!(wait_cycles(32_768, 10_000) >= 1);
    assert_eq!(wait_cycles(80_000_000, 1_500), 160);
    // Past what is worked out.
    assert_eq!(wait_cycles(1_024_000_000, 1_000), u32::MAX);
    assert_eq!(wait_cycles(32_000_000, 255_001), u32::MAX);
    assert_eq!(wait_cycles(32_000_000, 255_000), 8_160);
}

#[test]
fn long_division_by_hand() {
    assert_eq!(divmod_no_builtin(32_768, 1_000, 8), (32, 768));
    assert_eq!(divmod_no_builtin(2_000, 1, 8), (255, 1_745));
    assert_eq!(div_ceil_no_builtin(1_001, 1_000, 8), 2);
    assert_eq!(div_ceil_no_builtin(1_000, 1_000, 8), 1);
    assert_eq!(div_ceil_no_builtin(1_000_000, 1_000, 8), 256);
}

#[test]
fn defaults() {
    assert_eq!(Speed::default(), Speed::Fast);
    assert_eq!(Hysteresis::default(), Hysteresis::Off);
    assert_eq!(OutputPolarity::default(), OutputPolarity::NonInverted);
    assert_eq!(ReferenceTerminal::default(), ReferenceTerminal::Negative);
    assert_eq!(Settling::default(), Settling::FromClockTree);
    assert_eq!(Config::default(), Config::new());
    assert_eq!(Config::new().reference, None);
    let reference = Reference::default();
    assert_eq!(reference.source, ReferenceSource::Vdda);
    assert_eq!(reference.code, DacCode::zero());
    assert!(!reference.sampled);
}

#[test]
fn register_encodings() {
    assert_eq!(Hysteresis::Off.to_vals(), Hyst::NoHys);
    assert_eq!(Hysteresis::Mv10.to_vals(), Hyst::LowHys);
    assert_eq!(Hysteresis::Mv20.to_vals(), Hyst::MedHys);
    assert_eq!(Hysteresis::Mv30.to_vals(), Hyst::HighHys);
    assert_eq!(FilterDelay::Short.to_vals(), Fltdly::Dly0);
    assert_eq!(FilterDelay::Medium.to_vals(), Fltdly::Dly1);
    assert_eq!(FilterDelay::Long.to_vals(), Fltdly::Dly2);
    assert_eq!(FilterDelay::Longest.to_vals(), Fltdly::Dly3);
    for (source, vals, internal) in [
        (ReferenceSource::Vdda, Refsrc::VddaDac, false),
        (ReferenceSource::VrefModule, Refsrc::VrefDac, false),
        (ReferenceSource::VrefModuleDirect, Refsrc::Vref, false),
        (ReferenceSource::VddaDirect, Refsrc::Vdda, true),
        (ReferenceSource::Internal, Refsrc::IntvrefDac, true),
        (ReferenceSource::InternalDirect, Refsrc::Intvref, true),
    ] {
        assert_eq!(source.to_vals(), vals);
        assert_eq!(source.needs_internal_reference(), internal);
    }
}

#[test]
fn bring_up_of_a_comparator_against_its_reference() {
    let mut bus = Bus::new();
    let config = Config {
        hysteresis: Hysteresis::Mv20,
        filter: Some(FilterDelay::Long),
        reference: Some(Reference { code: DacCode::new(9), ..Reference::new() }),
        ..Config::new()
    };
    let comp: Result<Comp<Afflicted, Blocking>, ConfigError> =
        Comp::new(Some(terminal(3, 1)), None, &Clocks::reset(), config, &mut bus);

    assert!(comp.is_ok());
    assert_eq!(
        bus.take(),
        vec![
            analog(3),
            Access::Reset,
            Access::Power(true),
            Access::Delay(16),
            Access::Ctl0(Ctl0 { ipsel: 1, ipen: true, imsel: 0, imen: false }),
            Access::DacCode(0, 9),
            Access::Ctl2(Ctl2 {
                refsrc: Refsrc::VddaDac,
                refsel: ReferenceTerminal::Negative,
                sampled: false,
                dacsw_selects: true,
                dacsw: 0,
            }),
            Access::Ctl1(Ctl1 {
                mode: Speed::Fast,
                hyst: Hyst::MedHys,
                outpol: OutputPolarity::NonInverted,
                exch: false,
                flten: true,
                fltdly: Fltdly::Dly2,
                ies: false,
                enable: false,
            }),
            Access::Enable(true),
            Access::Delay(320),
            Access::Iclr(Flags { compifg: true, compinvifg: true, outrdyifg: true }),
        ]
    );
}

#[test]
fn fast_mode_on_lfclk_is_refused() {
    let mut bus = Bus::new();
    let clocks = Clocks { ulpclk: 32_768, ..Clocks::reset() };
    let comp: Result<Comp<Sound, Blocking>, ConfigError> = Comp::new(None, None, &clocks, Config::new(), &mut bus);

    assert!(matches!(comp, Err(ConfigError::FastModeOnLfclk)));
    assert_eq!(bus.take(), vec![]);
    let slow = Config { speed: Speed::UltraLowPower, ..Config::new() };
    let comp: Result<Comp<Sound, Blocking>, ConfigError> = Comp::new(None, None, &clocks, slow, &mut bus);
    assert!(comp.is_ok());
}

#[test]
fn hysteresis_with_exchanged_inputs_is_refused_where_it_breaks() {
    let config = Config { exchange_inputs: true, hysteresis: Hysteresis::Mv10, ..Config::new() };
    let clocks = Clocks::reset();

    let refused: Result<Comp<Afflicted, Blocking>, ConfigError> =
        Comp::new(None, None, &clocks, config, &mut Bus::new());
    assert!(matches!(refused, Err(ConfigError::HysteresisWithExchangedInputs)));
    let accepted: Result<Comp<Sound, Blocking>, ConfigError> = Comp::new(None, None, &clocks, config, &mut Bus::new());
    assert!(accepted.is_ok());
}

#[test]
fn absent_reference_is_refused() {
    let reference = Reference { source: ReferenceSource::Internal, ..Reference::new() };
    let clocks = Clocks::reset();

    let refused = Comp::<Afflicted, Blocking>::new_reference_only(reference, &clocks, Config::new(), &mut Bus::new());
    assert!(matches!(refused, Err(ConfigError::NoInternalReference)));
    let mut bus = Bus::new();
    assert!(Comp::<Sound, Blocking>::new_reference_only(reference, &clocks, Config::new(), &mut bus).is_ok());
    assert!(bus.take().contains(&Access::Ctl0(Ctl0 { ipsel: 0, ipen: false, imsel: 0, imen: false })));
}

#[test]
fn channel_0_keeps_out_of_standby0() {
    assert_eq!(Comp::<Afflicted, Blocking>::sleep_floor(Some(0)), Some(SleepLevel::Standby0));
    assert_eq!(Comp::<Afflicted, Blocking>::sleep_floor(Some(1)), Some(SleepLevel::Standby1));
    assert_eq!(Comp::<Afflicted, Blocking>::sleep_floor(None), Some(SleepLevel::Standby1));
    assert_eq!(Comp::<Sound, Blocking>::sleep_floor(Some(0)), None);
}

#[test]
fn solved_settling_is_used_as_it_is() {
    let clocks = Clocks::reset();
    let settling = Settling::solve::<Afflicted>(&clocks, Speed::UltraLowPower);
    let Settling::Solved(cycles) = settling else { panic!() };

    assert_eq!((cycles.enable_cycles(), cycles.dac_cycles()), (1_600, 64));
    let other = Clocks { mclk: 4_000_000, ..clocks };
    assert_eq!(settling.resolve::<Afflicted>(&other, Speed::Fast), cycles);
    let fresh = Settling::FromClockTree.resolve::<Afflicted>(&other, Speed::Fast);
    assert_eq!((fresh.enable_cycles(), fresh.dac_cycles()), (40, 8));
}

#[test]
fn code_change_waits_for_the_dac() {
    let mut bus = Bus::new();
    let mut comp = built::<Afflicted>(None);

    comp.set_dac_code(DacCode::new(77), &mut bus);
    assert_eq!(bus.take(), vec![Access::DacCode(0, 77), Access::Delay(64)]);
    assert_eq!(comp.dac_code(77), DacCode::new(77));
    assert!(comp.is_high(true) && !comp.is_low(true));
}

#[test]
fn released_comparator_lets_its_pins_go() {
    let mut bus = Bus::new();
    let mut comp = built::<Sound>(Some(terminal(4, 2)));

    comp.set_output_pin(AnyPin::steal(9, 9, PAD), 5, &mut bus);
    assert_eq!(
        bus.take(),
        vec![Access::Pin(gpio::Access::Pincm(
            9,
            PincmUpdate {
                pf: Some(5),
                pc: Some(true),
                pipu: Some(false),
                pipd: Some(false),
                inena: Some(false),
                inv: Some(false),
                ..PincmUpdate::unchanged()
            }
        ))]
    );
    comp.release(&mut bus);
    assert_eq!(
        bus.take(),
        vec![
            Access::Imask(NEITHER),
            Access::Enable(false),
            Access::ReferenceOff,
            Access::Power(false),
            analog(3),
            analog(4),
            analog(9),
        ]
    );
}

#[test]
fn shared_pad_is_lent_and_disconnected_last_owner_first() {
    let mut bus = Bus::new();
    let Ok(mut shared) = Comp::<Sound, Blocking>::new_sharing_positive(
        terminal(3, 1),
        Some(terminal(4, 0)),
        &Clocks::reset(),
        Config::new(),
        &mut bus,
    ) else {
        panic!()
    };

    assert_eq!(bus.take()[..2], [analog(3), analog(4)]);
    assert_eq!(shared.with_positive_pin(|pin| pin.pin_cm()), 3);
    assert!(shared.comp_ref().is_low(false));
    shared.comp_mut().clear_interrupt(&mut bus);
    assert_eq!(bus.take(), vec![Access::Iclr(BOTH)]);
    shared.release(&mut bus);
    assert_eq!(
        bus.take(),
        vec![
            analog(3),
            Access::Imask(NEITHER),
            Access::Enable(false),
            Access::ReferenceOff,
            Access::Power(false),
            analog(4),
        ]
    );
}

#[test]
fn application_arms_its_own_edges() {
    let mut bus = Bus::new();
    let mut comp = built::<Sound>(None);

    comp.enable_edge_interrupt(Edge::Rising, &mut bus);
    comp.enable_edge_interrupt(Edge::Falling, &mut bus);
    comp.enable_edge_interrupt(Edge::Any, &mut bus);
    comp.disable_edge_interrupt(&mut bus);
    assert_eq!(
        bus.take(),
        vec![
            Access::Imask(Flags { compifg: true, ..NEITHER }),
            Access::Imask(Flags { compinvifg: true, ..NEITHER }),
            Access::Imask(BOTH),
            Access::Imask(NEITHER),
        ]
    );
    assert_eq!(comp.pending_edge(BOTH), Some(Edge::Any));
    assert_eq!(comp.pending_edge(Flags { compifg: true, ..NEITHER }), Some(Edge::Rising));
    assert_eq!(comp.pending_edge(Flags { compinvifg: true, ..NEITHER }), Some(Edge::Falling));
    assert_eq!(comp.pending_edge(Flags { outrdyifg: true, ..NEITHER }), None);
    InterruptHandler::<Sound>::handle(&mut bus);
    assert_eq!(bus.take(), vec![Access::Imask(NEITHER), Access::Wake]);
}

#[test]
fn wait_arms_before_it_looks() {
    let mut bus = Bus::new();
    let Ok(mut comp) = Comp::<Sound, Async>::new_async(None, None, &Clocks::reset(), Config::new(), &mut bus) else {
        panic!()
    };
    bus.take();

    let mut wait: EdgeWait = comp.wait_for_edge(Edge::Falling, &mut bus);
    assert_eq!(bus.take(), vec![Access::Iclr(BOTH)]);
    assert!(!wait.poll(BOTH, &mut bus));
    assert!(!wait.poll(Flags { compifg: true, ..NEITHER }, &mut bus));
    let falling = Access::Imask(Flags { compinvifg: true, ..NEITHER });
    assert_eq!(bus.take(), vec![falling, falling]);
    assert!(wait.poll(Flags { compinvifg: true, ..NEITHER }, &mut bus));
    assert_eq!(bus.take(), vec![Access::Iclr(BOTH)]);
}
