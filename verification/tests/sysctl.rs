use embassy_mspm0::bits::read_bit;
use embassy_mspm0::bus::Bus;
use embassy_mspm0::sysctl::{Clocks, SleepLevel};

#[test]
fn stricter_floor_is_the_shallower() {
    let stop = Some(SleepLevel::Stop0);
    let standby = Some(SleepLevel::Standby1);

    assert_eq!(SleepLevel::stricter(stop, standby), stop);
    assert_eq!(SleepLevel::stricter(standby, stop), stop);
    assert_eq!(SleepLevel::stricter(None, standby), standby);
    assert_eq!(SleepLevel::stricter(stop, None), stop);
    assert_eq!(SleepLevel::stricter(None, None), None);
    assert_eq!(SleepLevel::Stop2.depth(), 2);
}

#[test]
fn clocks_out_of_reset() {
    assert_eq!(Clocks::reset().mclk, 32_000_000);
    assert_eq!(Clocks::reset().lfclk, 32_768);
    assert_eq!(Clocks::reset().hfclk, 0);
}

#[test]
fn bits_are_counted_from_the_lowest() {
    assert!(read_bit(0x8000_0001, 0));
    assert!(read_bit(0x8000_0001, 31));
    assert!(!read_bit(0x8000_0001, 1));
}

#[test]
fn bus_keeps_order_and_empties() {
    let mut bus = Bus::new();

    bus.push(1);
    bus.push(2);
    assert_eq!(bus.accesses(), [1, 2]);
    assert_eq!(bus.take(), vec![1, 2]);
    assert_eq!(bus.take(), vec![]);
}
