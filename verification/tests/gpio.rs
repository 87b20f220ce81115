use embassy_mspm0::bus::Bus;
use embassy_mspm0::gpio::{
    init, irq_handler, polarity_register, set_pf, Access, AnyPin, Dispatch, DriveStrength, Edge, EdgeWait, Flex,
    Input, InterruptHandler, Level, MaybeAnyPin, Output, OutputOpenDrain, Pad, Park, PfType, PinTable, Pincm,
    PincmUpdate, Polarity, Port, Pull, ShutdownWake, Wait, WakeLevel, DISCONNECT_PF, GPIO_PF,
};

const PAD: Pad = Pad { pullup: true, drive_strength: true, hysteresis: true, wakeup: true };

/// PB5, behind `PINCM` 17.
fn pin() -> AnyPin {
    AnyPin::steal(37, 17, PAD)
}

fn pull(pincm: u8, pipu: bool, pipd: bool) -> Access {
    Access::Pincm(pincm, PincmUpdate { pipu: Some(pipu), pipd: Some(pipd), ..PincmUpdate::unchanged() })
}

fn connect(pincm: u8, hiz1: bool, inena: bool) -> Access {
    Access::Pincm(
        pincm,
        PincmUpdate {
            pf: Some(GPIO_PF),
            hiz1: Some(hiz1),
            pc: Some(true),
            inena: Some(inena),
            ..PincmUpdate::unchanged()
        },
    )
}

fn invert(pincm: u8, on: bool) -> Access {
    Access::Pincm(pincm, PincmUpdate { inv: Some(on), ..PincmUpdate::unchanged() })
}

fn disconnected(pincm: u8) -> Vec<Access> {
    vec![
        Access::Pincm(
            pincm,
            PincmUpdate {
                pf: Some(DISCONNECT_PF),
                hiz1: Some(false),
                pc: Some(false),
                inena: Some(false),
                ..PincmUpdate::unchanged()
            },
        ),
        pull(pincm, false, false),
        invert(pincm, false),
    ]
}

fn armed(edge: Edge, polarity: Polarity) -> Vec<Access> {
    vec![
        Access::Acquire,
        Access::Polarity(Port::PortB, 5, polarity),
        Access::ClearEdge(Port::PortB, 5),
        Access::LinkWaiter(Port::PortB, EdgeWait { bit: 5, edge }),
        Access::FastWake(Port::PortB, 5, true),
        Access::Unmask(Port::PortB, 5, true),
        Access::Release,
    ]
}

#[test]
fn levels_are_booleans() {
    assert_eq!(Level::from(true), Level::High);
    assert_eq!(Level::from(false), Level::Low);
    assert!(bool::from(Level::High));
    assert!(!bool::from(Level::Low));
}

#[test]
fn pin_number_is_port_and_bit() {
    assert_eq!((pin().block(), pin().bit_index(), pin().pin_cm()), (Port::PortB, 5, 17));
    assert_eq!(AnyPin::steal(0, 0, PAD).block(), Port::PortA);
    assert_eq!(AnyPin::steal(31, 0, PAD).bit_index(), 31);
    assert_eq!(AnyPin::steal(95, 0, PAD).block(), Port::PortC);
    assert_eq!(AnyPin::steal(95, 0, PAD).bit_index(), 31);
}

#[test]
fn port_powers_up_before_anything_is_written() {
    let mut bus = Bus::new();

    init(Port::PortC, &mut bus);
    assert_eq!(
        bus.take(),
        vec![Access::Reset(Port::PortC), Access::Power(Port::PortC, true), Access::Delay(16)]
    );
}

#[test]
fn directions_connect_the_pad() {
    let mut bus = Bus::new();
    let mut flex = Flex::new(pin());

    flex.set_as_input(&mut bus);
    assert_eq!(bus.take(), vec![connect(17, false, true), Access::DoeClear(Port::PortB, 5)]);
    flex.set_as_output(&mut bus);
    assert_eq!(bus.take(), vec![connect(17, false, false), Access::DoeSet(Port::PortB, 5)]);
    flex.set_as_input_output(&mut bus);
    assert_eq!(
        bus.take(),
        vec![connect(17, true, true), Access::DoeSet(Port::PortB, 5), pull(17, false, false)]
    );
    flex.set_as_disconnected(&mut bus);
    assert_eq!(bus.take(), disconnected(17));
    flex.release(&mut bus);
    assert_eq!(bus.take(), disconnected(17));
}

#[test]
fn pad_controls_change_their_field_alone() {
    let mut bus = Bus::new();
    let mut flex = Flex::new(pin());

    flex.set_pull(Pull::Up, &mut bus);
    flex.set_pull(Pull::Down, &mut bus);
    flex.set_pull(Pull::NoPull, &mut bus);
    assert_eq!(bus.take(), vec![pull(17, true, false), pull(17, false, true), pull(17, false, false)]);
    flex.set_drive_strength(DriveStrength::High, &mut bus);
    flex.set_hysteresis(false, &mut bus);
    flex.set_inversion(true, &mut bus);
    flex.set_pf_unchecked(63, &mut bus);
    let unchanged = PincmUpdate::unchanged();
    assert_eq!(
        bus.take(),
        vec![
            Access::Pincm(17, PincmUpdate { drv: Some(true), ..unchanged }),
            Access::Pincm(17, PincmUpdate { hysten: Some(false), ..unchanged }),
            invert(17, true),
            Access::Pincm(17, PincmUpdate { pf: Some(63), pc: Some(true), ..unchanged }),
        ]
    );
}

#[test]
fn peripheral_function_sets_the_whole_pad() {
    let mut bus = Bus::new();
    let mut flex = Flex::new(pin());
    let update = PincmUpdate {
        pf: Some(4),
        pc: Some(true),
        pipu: Some(true),
        pipd: Some(false),
        inena: Some(true),
        inv: Some(true),
        ..PincmUpdate::unchanged()
    };

    flex.set_as_af(4, PfType::input(Pull::Up, true), &mut bus);
    assert_eq!(bus.take(), vec![Access::Pincm(17, update)]);
    assert_eq!(set_pf(17, PAD, 4, PfType::input(Pull::Up, true)), Access::Pincm(17, update));
    let held = Pincm { pf: 4, ..Pincm::zero() };
    assert_eq!(pin().update_pf(held, PfType::input(Pull::Up, true)), Access::Pincm(17, update));
    assert_eq!(
        pin().set_as_pf(4, PfType::output(Pull::Down, false)),
        Access::Pincm(
            17,
            PincmUpdate { pipu: Some(false), pipd: Some(true), inena: Some(false), inv: Some(false), ..update }
        )
    );
    assert_eq!(pin().set_as_analog(), Access::StorePincm(17, Pincm::zero()));
    assert_eq!(pin().set_as_disconnected(), Access::StorePincm(17, Pincm::zero()));
}

#[test]
fn update_leaves_unnamed_fields() {
    let before = Pincm { pf: 9, pc: true, drv: true, wuen: true, ..Pincm::zero() };
    let update = PincmUpdate { pf: Some(2), inena: Some(true), ..PincmUpdate::unchanged() };

    assert_eq!(update.apply(before), Pincm { pf: 2, inena: true, ..before });
    assert_eq!(PincmUpdate::unchanged().apply(before), before);
}

#[test]
fn readings_are_of_the_pins_own_bit() {
    let flex = Flex::new(pin());

    assert!(flex.is_high(1 << 5));
    assert!(flex.is_low(!(1 << 5)));
    assert_eq!(flex.get_level(1 << 5), Level::High);
    assert!(flex.is_set_high(1 << 5));
    assert!(flex.is_set_low(!(1 << 5)));
    assert_eq!(flex.get_output_level(0), Level::Low);
}

#[test]
fn level_is_written_through_its_own_register() {
    let mut bus = Bus::new();
    let mut output = Output::new(pin(), Level::High, &mut bus);

    assert_eq!(
        bus.take(),
        vec![Access::DoutSet(Port::PortB, 5), connect(17, false, false), Access::DoeSet(Port::PortB, 5)]
    );
    output.set_low(&mut bus);
    output.set_high(&mut bus);
    output.set_level(Level::Low, &mut bus);
    output.toggle(&mut bus);
    assert_eq!(
        bus.take(),
        vec![
            Access::DoutClear(Port::PortB, 5),
            Access::DoutSet(Port::PortB, 5),
            Access::DoutClear(Port::PortB, 5),
            Access::DoutToggle(Port::PortB, 5),
        ]
    );
    assert!(output.is_set_high(1 << 5));
    assert!(output.is_set_low(0));
    assert_eq!(output.get_output_level(1 << 5), Level::High);
    output.set_inversion(true, &mut bus);
    output.set_drive_strength(DriveStrength::Low, &mut bus);
    bus.take();
    output.release(&mut bus);
    assert_eq!(bus.take(), disconnected(17));
}

#[test]
fn input_is_pulled_after_it_is_connected() {
    let mut bus = Bus::new();
    let mut input = Input::new(pin(), Pull::Up, &mut bus);

    assert_eq!(
        bus.take(),
        vec![connect(17, false, true), Access::DoeClear(Port::PortB, 5), pull(17, true, false)]
    );
    assert!(input.is_high(1 << 5));
    assert!(input.is_low(0));
    assert_eq!(input.get_level(0), Level::Low);
    input.set_inversion(true, &mut bus);
    assert_eq!(bus.take(), vec![invert(17, true)]);
    input.release(&mut bus);
    assert_eq!(bus.take(), disconnected(17));
}

#[test]
fn open_drain_is_levelled_then_connected() {
    let mut bus = Bus::new();
    let mut pad = OutputOpenDrain::new(pin(), Level::Low, &mut bus);

    assert_eq!(
        bus.take(),
        vec![
            Access::DoutClear(Port::PortB, 5),
            connect(17, true, true),
            Access::DoeSet(Port::PortB, 5),
            pull(17, false, false),
        ]
    );
    pad.set_high(&mut bus);
    pad.set_low(&mut bus);
    pad.set_level(Level::High, &mut bus);
    pad.toggle(&mut bus);
    pad.set_inversion(false, &mut bus);
    pad.set_hysteresis(true, &mut bus);
    assert_eq!(bus.take().len(), 6);
    assert!(pad.is_high(1 << 5));
    assert!(pad.is_low(0));
    assert_eq!(pad.get_level(1 << 5), Level::High);
    assert!(pad.is_set_high(1 << 5));
    assert!(pad.is_set_low(0));
    assert_eq!(pad.get_output_level(0), Level::Low);
    pad.release(&mut bus);
    assert_eq!(bus.take(), disconnected(17));
}

#[test]
fn application_handler_sees_its_edge() {
    let mut bus = Bus::new();
    let mut input = Input::new(pin(), Pull::NoPull, &mut bus);
    bus.take();

    input.enable_interrupt(Edge::Falling, false, &mut bus);
    assert_eq!(
        bus.take(),
        vec![
            Access::Acquire,
            Access::Polarity(Port::PortB, 5, Polarity::Fall),
            Access::ClearEdge(Port::PortB, 5),
            Access::FastWake(Port::PortB, 5, true),
            Access::Unmask(Port::PortB, 5, true),
            Access::Release,
        ]
    );
    input.enable_interrupt(Edge::Falling, true, &mut bus);
    assert_eq!(bus.take()[1], Access::Polarity(Port::PortB, 5, Polarity::RiseFall));
    assert!(input.is_pending(1 << 5));
    assert!(input.take_active(1 << 5, &mut bus));
    assert!(!input.take_active(0, &mut bus));
    input.clear_pending(&mut bus);
    assert_eq!(bus.take(), vec![Access::ClearEdge(Port::PortB, 5), Access::ClearEdge(Port::PortB, 5)]);
    input.disable_interrupt(&mut bus);
    assert_eq!(
        bus.take(),
        vec![
            Access::Acquire,
            Access::Unmask(Port::PortB, 5, false),
            Access::ClearEdge(Port::PortB, 5),
            Access::Release,
        ]
    );
}

#[test]
fn polarity_field_is_written_alone() {
    assert_eq!(polarity_register(0xFFFF_FFFF, 5, Polarity::Disable), 0xFFFF_F3FF);
    assert_eq!(polarity_register(0, 5, Polarity::Fall), 0x0000_0800);
    // Pin 21 is in the same place of the second register as pin 5 in the first.
    assert_eq!(polarity_register(0, 21, Polarity::Rise), 0x0000_0400);
    assert_eq!(polarity_register(0, 31, Polarity::RiseFall), 0xC000_0000);
}

#[test]
fn edges_select_their_polarity() {
    assert_eq!(Edge::Rising.polarity(), Polarity::Rise);
    assert_eq!(Edge::Falling.polarity(), Polarity::Fall);
    assert_eq!(Edge::Any.polarity(), Polarity::RiseFall);
    assert!(Edge::Rising.accepts(true) && !Edge::Rising.accepts(false));
    assert!(Edge::Falling.accepts(false) && !Edge::Falling.accepts(true));
    assert!(Edge::Any.accepts(true) && Edge::Any.accepts(false));
}

#[test]
fn edge_wait_arms_on_its_first_poll() {
    let mut bus = Bus::new();
    let mut flex = Flex::new_async(pin());
    let mut park = flex.wait_for_rising_edge();

    assert_eq!(park.poll(Wait::Polled { outstanding: true }, false, &mut bus), Dispatch::Arm);
    assert_eq!(bus.take(), armed(Edge::Rising, Polarity::Rise));
    assert_eq!(park.poll(Wait::Armed { din: 1 << 5 }, false, &mut bus), Dispatch::Pending);
    assert_eq!(park.poll(Wait::Polled { outstanding: true }, false, &mut bus), Dispatch::Register);
    assert_eq!(park.poll(Wait::Registered { outstanding: true }, false, &mut bus), Dispatch::Pending);
    assert_eq!(park.poll(Wait::Registered { outstanding: false }, false, &mut bus), Dispatch::Ready);
    assert_eq!(park.poll(Wait::Polled { outstanding: false }, false, &mut bus), Dispatch::Ready);
    assert_eq!(bus.take(), vec![]);
    park.release(&mut bus);
    assert_eq!(
        bus.take(),
        vec![
            Access::Acquire,
            Access::FastWake(Port::PortB, 5, false),
            Access::Unmask(Port::PortB, 5, false),
            Access::ClearEdge(Port::PortB, 5),
            Access::UnlinkWaiter(Port::PortB, 5),
            Access::Release,
        ]
    );
}

#[test]
fn wait_never_polled_has_nothing_to_undo() {
    let mut bus = Bus::new();

    Park::new(pin(), Edge::Any, None).release(&mut bus);
    assert_eq!(bus.take(), vec![]);
}

#[test]
fn level_wait_tests_the_level_once_armed() {
    let mut bus = Bus::new();
    let mut input = Input::new_async(pin(), Pull::NoPull, &mut bus);
    bus.take();

    assert!(input.wait_for_high(1 << 5).is_none());
    assert!(input.wait_for_low(0).is_none());
    let Some(mut high) = input.wait_for_high(0) else { panic!() };
    assert_eq!(high.poll(Wait::Polled { outstanding: true }, true, &mut bus), Dispatch::Arm);
    assert_eq!(bus.take(), armed(Edge::Rising, Polarity::RiseFall));
    assert_eq!(high.poll(Wait::Armed { din: 1 << 5 }, true, &mut bus), Dispatch::Ready);
    assert_eq!(high.poll(Wait::Armed { din: 0 }, true, &mut bus), Dispatch::Pending);
    let Some(mut low) = input.wait_for_low(1 << 5) else { panic!() };
    assert_eq!(low.poll(Wait::Polled { outstanding: true }, false, &mut bus), Dispatch::Arm);
    assert_eq!(bus.take(), armed(Edge::Falling, Polarity::Fall));
    assert_eq!(low.poll(Wait::Armed { din: 0 }, false, &mut bus), Dispatch::Ready);
}

#[test]
fn every_wait_names_its_edge() {
    let mut bus = Bus::new();
    let mut pad = OutputOpenDrain::new_async(pin(), Level::High, &mut bus);
    bus.take();

    for (mut wait, edge, polarity) in [
        (pad.wait_for_rising_edge(), Edge::Rising, Polarity::Rise),
        (pad.wait_for_falling_edge(), Edge::Falling, Polarity::Fall),
        (pad.wait_for_any_edge(), Edge::Any, Polarity::RiseFall),
        (pad.wait_for_edge(Edge::Falling), Edge::Falling, Polarity::Fall),
    ] {
        assert_eq!(wait.poll(Wait::Polled { outstanding: true }, false, &mut bus), Dispatch::Arm);
        assert_eq!(bus.take(), armed(edge, polarity));
    }
}

#[test]
fn interrupt_answers_the_wait_on_its_pin() {
    let mut bus = Bus::new();
    let waiters = [EdgeWait { bit: 3, edge: Edge::Any }, EdgeWait { bit: 5, edge: Edge::Rising }];

    assert_eq!(irq_handler(Port::PortB, 0, 0, false, &waiters, &mut bus), None);
    assert_eq!(bus.take(), vec![]);
    assert_eq!(irq_handler(Port::PortB, 6, 0, false, &waiters, &mut bus), Some(1));
    assert_eq!(bus.take(), vec![Access::Unmask(Port::PortB, 5, false)]);
    // No wait is on the pin: it is masked so that it does not arrive again.
    assert_eq!(InterruptHandler::on_interrupt(Port::PortA, 1, 0, false, &waiters, &mut bus), None);
    assert_eq!(bus.take(), vec![Access::Unmask(Port::PortA, 0, false)]);
}

#[test]
fn edge_the_other_way_leaves_the_wait_standing() {
    let mut bus = Bus::new();
    let waiters = [EdgeWait { bit: 5, edge: Edge::Rising }];

    assert_eq!(irq_handler(Port::PortB, 6, 0, true, &waiters, &mut bus), None);
    assert_eq!(bus.take(), vec![]);
    assert_eq!(irq_handler(Port::PortB, 6, 1 << 5, true, &waiters, &mut bus), Some(0));
    assert_eq!(bus.take(), vec![Access::Unmask(Port::PortB, 5, false)]);
}

#[test]
fn optional_pin_comes_back() {
    let mut held = MaybeAnyPin::new(Some(pin()));

    assert!(held.is_some());
    assert_eq!(held.pin(), Some(pin()));
    assert_eq!(held.reborrow().into_peri(), Some(pin()));
    assert_eq!(held.into_peri(), Some(pin()));
    assert!(!MaybeAnyPin::none().is_some());
    assert_eq!(MaybeAnyPin::new(None).pin(), None);
    assert_eq!(MaybeAnyPin::NO_PIN, 255);
}

#[test]
fn pin_table_finds_pins_and_pads() {
    let table = PinTable {
        pincm: vec![(0, 1), (37, 17), (38, 2)],
        without_pullup: vec![1],
        with_drive_strength: vec![2],
        with_hysteresis: vec![1],
        with_wakeup: Some(vec![17]),
    };

    assert_eq!(table.gpio_pincm(37), Some(17));
    assert_eq!(table.gpio_pincm(5), None);
    assert!(!table.has_pullup(1) && table.has_pullup(2));
    assert!(table.has_drive_strength(2) && !table.has_drive_strength(1));
    assert!(table.has_hysteresis(1) && !table.has_hysteresis(17));
    assert!(table.has_wakeup(17) && !table.has_wakeup(1));
    let pad = Pad { pullup: false, drive_strength: false, hysteresis: true, wakeup: false };
    assert_eq!(table.pin(0), Some(AnyPin::steal(0, 1, pad)));
    assert_eq!(table.pin(5), None);
    assert!(PinTable { with_wakeup: None, ..table }.has_wakeup(1));
}

#[test]
fn shutdown_wake_is_armed_and_disarmed() {
    let mut bus = Bus::new();
    let wake = ShutdownWake::new(pin(), WakeLevel::High, &mut bus);
    let unchanged = PincmUpdate::unchanged();

    assert_eq!(
        bus.take(),
        vec![Access::Pincm(17, PincmUpdate { wcomp: Some(true), wuen: Some(true), ..unchanged })]
    );
    wake.release(&mut bus);
    assert_eq!(bus.take(), vec![Access::Pincm(17, PincmUpdate { wuen: Some(false), ..unchanged })]);
    ShutdownWake::new(pin(), WakeLevel::Low, &mut bus);
    assert_eq!(
        bus.take(),
        vec![Access::Pincm(17, PincmUpdate { wcomp: Some(false), wuen: Some(true), ..unchanged })]
    );
}

#[test]
fn only_a_pad_with_a_pull_up_pulls_up() {
    let bare = Pad { pullup: false, ..PAD };

    assert!(PAD.can_pull(Pull::Up) && PAD.can_pull(Pull::Down) && PAD.can_pull(Pull::NoPull));
    assert!(!bare.can_pull(Pull::Up));
    assert!(bare.can_pull(Pull::Down) && bare.can_pull(Pull::NoPull));
}
