//! Debug subsystem.

use embassy_mspm0::bus::Bus;
use embassy_mspm0::debugss::{Access, Buffer, Debugss, Flags, InterruptHandler, ProbeEvent};

const NONE: Flags = Flags { pwrupifg: false, pwrdwnifg: false };
const UP: Flags = Flags { pwrupifg: true, pwrdwnifg: false };
const DOWN: Flags = Flags { pwrupifg: false, pwrdwnifg: true };
const BOTH: Flags = Flags { pwrupifg: true, pwrdwnifg: true };

#[test]
fn the_latched_flags() {
    let mut bus = Bus::new();
    let mut watch = Debugss::new();

    assert!(watch.attached_since_cleared(UP) && !watch.attached_since_cleared(DOWN));
    assert!(watch.detached_since_cleared(DOWN) && !watch.detached_since_cleared(UP));
    assert!(watch.disturbed(UP) && watch.disturbed(DOWN) && !watch.disturbed(NONE));
    assert!(watch.debug_access_enabled(true) && !watch.debug_access_enabled(false));
    watch.clear(&mut bus);
    assert_eq!(bus.take(), vec![Access::Iclr(BOTH)]);
}

#[test]
fn a_probe_that_came_and_went_is_two_events() {
    let mut bus = Bus::new();
    let mut watch = Debugss::new_async();

    assert_eq!(watch.wait_for_change(BOTH, &mut bus), Some(ProbeEvent::Attached));
    assert_eq!(bus.take(), vec![Access::Iclr(UP)]);
    assert_eq!(watch.wait_for_change(DOWN, &mut bus), Some(ProbeEvent::Detached));
    assert_eq!(bus.take(), vec![Access::Iclr(DOWN)]);
    assert_eq!(watch.wait_for_change(NONE, &mut bus), None);
    assert_eq!(bus.take(), vec![Access::Unmask(Flags { pwrupifg: true, pwrdwnifg: true })]);
    InterruptHandler::handle(&mut bus);
    assert_eq!(bus.take(), vec![Access::Imask(Flags { pwrupifg: false, pwrdwnifg: false }), Access::Wake]);
}

#[test]
fn the_mailbox() {
    let mut bus = Bus::new();
    let mut channel = Debugss::new();

    assert_eq!(channel.try_receive(Buffer::Full, || 7), Some(7));
    assert_eq!(channel.try_receive(Buffer::Empty, || panic!("nothing is read")), None);
    assert_eq!(channel.received_flags(0xFFFF_FFFF), 0x7FFF_FFFF);
    assert_eq!(channel.received_flags(0b1010), 0b101);
    assert_eq!(channel.try_send(9, Buffer::Full, &mut bus), Err(9));
    assert!(channel.send_pending(Buffer::Full) && !channel.send_pending(Buffer::Empty));
    assert!(bus.take().is_empty());
    assert_eq!(channel.try_send(9, Buffer::Empty, &mut bus), Ok(()));
    channel.send_flags(0x7F, &mut bus);
    assert_eq!(bus.take(), vec![Access::Rxd(9), Access::ReceiveFlags(0x7F)]);
}
