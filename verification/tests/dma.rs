use embassy_mspm0::bus::Bus;
use embassy_mspm0::dma::{
    convert_burst_size, convert_mode, init, on_irq, strided_count, verify_transfer, Access, Autoen, BurstSize,
    Burstsz, Channel, ChannelInstance, Ctl, Em, Error, Event, FullChannel, FullChannelInstance, Incr, Indices,
    Preirq, Stride, Tint, Tm, Transfer, TransferMode, TransferOptions, Wdth, Word,
};
use embassy_mspm0::sysctl::SleepLevel;

struct Ch2;

impl ChannelInstance for Ch2 {
    const ID: u8 = 2;
}

impl FullChannelInstance for Ch2 {}

fn channel() -> Channel {
    Channel::new::<Ch2>(Some(SleepLevel::Stop0), &mut Bus::new())
}

fn strided(src_stride: Stride, dst_stride: Stride) -> TransferOptions {
    TransferOptions { mode: TransferMode::Block, src_stride, dst_stride }
}

const INDICES: Indices = Indices { ch0: 1, addrerr: 25, dataerr: 26 };

#[test]
fn arbitration_is_programmed_only_away_from_reset() {
    let mut bus = Bus::new();

    init(BurstSize::Complete, false, &mut bus);
    assert_eq!(bus.take(), vec![]);
    init(BurstSize::_8, false, &mut bus);
    assert_eq!(bus.take(), vec![Access::Prio(Burstsz::Burst8, false)]);
    init(BurstSize::Complete, true, &mut bus);
    assert_eq!(bus.take(), vec![Access::Prio(Burstsz::Infiniti, true)]);
    assert_eq!(convert_burst_size(BurstSize::_16), Burstsz::Burst16);
    assert_eq!(convert_burst_size(BurstSize::_32), Burstsz::Burst32);
}

#[test]
fn new_channel_arms_the_error_events() {
    let mut bus = Bus::new();
    let _channel = Channel::new::<Ch2>(None, &mut bus);

    assert_eq!(
        bus.take(),
        vec![
            Access::Acquire,
            Access::UnmaskErrors { dataerr: true, addrerr: true },
            Access::Release,
            Access::EnableLine,
        ]
    );
}

#[test]
fn word_sizes_match_their_widths() {
    assert_eq!((u8::size(), u8::WIDTH), (1, Wdth::Byte));
    assert_eq!((u16::size(), u16::WIDTH), (2, Wdth::Half));
    assert_eq!((u32::size(), u32::WIDTH), (4, Wdth::Word));
    assert_eq!((u64::size(), u64::WIDTH), (8, Wdth::Long));
    assert_eq!((u128::size(), u128::WIDTH), (16, Wdth::Longlong));
}

#[test]
fn strides_step_what_they_encode() {
    let strides = [
        (Stride::One, 1, Incr::Increment),
        (Stride::Two, 2, Incr::Stride2),
        (Stride::Three, 3, Incr::Stride3),
        (Stride::Four, 4, Incr::Stride4),
        (Stride::Five, 5, Incr::Stride5),
        (Stride::Six, 6, Incr::Stride6),
        (Stride::Seven, 7, Incr::Stride7),
        (Stride::Eight, 8, Incr::Stride8),
        (Stride::Nine, 9, Incr::Stride9),
    ];

    for (stride, step, incr) in strides {
        assert_eq!(stride.step(), step);
        assert_eq!(stride.to_incr(), incr);
    }
}

#[test]
fn modes_terminate_or_repeat() {
    assert!(TransferMode::Single.terminates());
    assert!(TransferMode::Block.terminates());
    assert!(!TransferMode::RepeatSingle.terminates());
    assert!(!TransferMode::RepeatBlock.terminates());
    assert_eq!(convert_mode(TransferMode::Single), Tm::Single);
    assert_eq!(convert_mode(TransferMode::Block), Tm::Block);
    assert_eq!(convert_mode(TransferMode::RepeatSingle), Tm::Rptsngl);
    assert_eq!(convert_mode(TransferMode::RepeatBlock), Tm::Rptblck);
}

#[test]
fn default_options_are_new() {
    assert_eq!(TransferOptions::default(), TransferOptions::new());
    assert_eq!(
        TransferOptions::new(),
        TransferOptions { mode: TransferMode::Single, src_stride: Stride::One, dst_stride: Stride::One }
    );
}

#[test]
fn count_is_bounded_by_its_register() {
    assert_eq!(verify_transfer(0), Err(Error::NoTransfers));
    assert_eq!(verify_transfer(1), Ok(()));
    assert_eq!(verify_transfer(65_535), Ok(()));
    assert_eq!(verify_transfer(65_536), Err(Error::TooManyTransfers));
    assert_eq!(Error::NoTransfers.message(), "no transfers");
    assert_eq!(Error::TooManyTransfers.message(), "too many transfers");
}

#[test]
fn strided_count_is_the_span_over_the_stride() {
    assert_eq!(strided_count(12, 3), 4);
    assert_eq!(strided_count(14, 3), 4);
    assert_eq!(strided_count(5, 6), 0);
}

#[test]
fn read_programs_then_arms_then_triggers() {
    let mut bus = Bus::new();
    let mut channel = channel();
    let transfer = channel.read::<u16, u32>(7, 0x4000_0000, 0x2000_0000, 8, TransferOptions::new(), &mut bus);

    assert!(transfer.is_ok());
    assert_eq!(
        bus.take(),
        vec![
            Access::Fence,
            Access::Enable { channel: 2, en: false, req: false },
            Access::Ctl(
                2,
                Ctl {
                    autoen: Autoen::Off,
                    preirq: Preirq::PreirqDisable,
                    srcwdth: Wdth::Half,
                    dstwdth: Wdth::Word,
                    srcincr: Incr::Unchanged,
                    dstincr: Incr::Increment,
                    em: Em::Normal,
                    tm: Tm::Single,
                }
            ),
            Access::Tctl { channel: 2, tsel: 7, tint: Tint::External },
            Access::Size(2, 8),
            Access::Source(2, 0x4000_0000),
            Access::Destination(2, 0x2000_0000),
            Access::ClearFlag(2),
            Access::Acquire,
            Access::Unmask(2, true),
            Access::Release,
            Access::Fence,
            Access::Enable { channel: 2, en: true, req: true },
        ]
    );
}

#[test]
fn only_the_moving_side_strides() {
    let mut bus = Bus::new();
    let mut channel = channel();

    assert!(channel.write_raw::<u8, u8>(1, 16, 12, 32, strided(Stride::Three, Stride::Nine), &mut bus).is_ok());
    let accesses = bus.take();
    assert!(accesses.contains(&Access::Size(2, 4)));
    assert!(accesses.contains(&Access::Source(2, 16)));
    assert!(accesses.contains(&Access::Destination(2, 32)));
    assert!(accesses.contains(&Access::Ctl(
        2,
        Ctl {
            autoen: Autoen::Off,
            preirq: Preirq::PreirqDisable,
            srcwdth: Wdth::Byte,
            dstwdth: Wdth::Byte,
            srcincr: Incr::Stride3,
            dstincr: Incr::Unchanged,
            em: Em::Normal,
            tm: Tm::Block,
        }
    )));
    assert!(channel.read_raw::<u8, u8>(1, 16, 32, 18, strided(Stride::Three, Stride::Nine), &mut bus).is_ok());
    assert!(bus.take().contains(&Access::Size(2, 2)));
}

#[test]
fn refused_transfer_touches_nothing() {
    let mut bus = Bus::new();
    let mut channel = channel();

    let short = channel.read::<u8, u8>(1, 0, 0, 5, strided(Stride::One, Stride::Six), &mut bus);
    assert!(matches!(short, Err(Error::NoTransfers)));
    let empty = channel.write::<u8, u8>(1, 0, 0, 0, TransferOptions::new(), &mut bus);
    assert!(matches!(empty, Err(Error::NoTransfers)));
    let long = channel.write::<u64, u64>(1, 0, 65_536, 0, TransferOptions::new(), &mut bus);
    assert!(matches!(long, Err(Error::TooManyTransfers)));
    assert_eq!(bus.take(), vec![]);
}

#[test]
fn software_trigger_holds_the_floor() {
    let mut bus = Bus::new();
    let mut channel = channel();

    assert_eq!(Transfer::SOFTWARE_TRIGGER, 0);
    assert_eq!(channel.transfer_guard(0), Some(SleepLevel::Stop0));
    assert_eq!(channel.transfer_guard(9), None);
    let Ok(soft) = channel.read::<u8, u8>(0, 0, 0, 1, TransferOptions::new(), &mut bus) else { panic!() };
    assert_eq!(soft.wake_floor(), Some(SleepLevel::Stop0));
    let Ok(hard) = channel.read::<u8, u8>(9, 0, 0, 1, TransferOptions::new(), &mut bus) else { panic!() };
    assert_eq!(hard.wake_floor(), None);
}

#[test]
fn transfer_pauses_resumes_and_ends() {
    let mut bus = Bus::new();
    let mut channel = channel();
    let Ok(mut transfer) = channel.read::<u8, u8>(9, 0, 0, 1, TransferOptions::new(), &mut bus) else { panic!() };
    bus.take();

    assert!(transfer.is_running(true));
    assert!(!transfer.poll(true));
    assert!(transfer.poll(false));
    transfer.request_pause(&mut bus);
    assert_eq!(bus.take(), vec![Access::Fence, Access::Enable { channel: 2, en: false, req: false }]);
    transfer.resume(&mut bus);
    assert_eq!(
        bus.take(),
        vec![
            Access::Acquire,
            Access::Unmask(2, true),
            Access::Release,
            Access::Fence,
            Access::Enable { channel: 2, en: true, req: true },
        ]
    );
    transfer.release(&mut bus);
    assert_eq!(
        bus.take(),
        vec![Access::Fence, Access::Enable { channel: 2, en: false, req: false }, Access::WaitStopped(2), Access::Fence]
    );
    let Ok(transfer) = channel.read::<u8, u8>(9, 0, 0, 1, TransferOptions::new(), &mut bus) else { panic!() };
    bus.take();
    transfer.blocking_wait(&mut bus);
    assert_eq!(bus.take(), vec![Access::Fence, Access::WaitStopped(2), Access::Fence]);
}

#[test]
fn repeating_transfer_runs_until_stopped() {
    let mut bus = Bus::new();
    let mut full = FullChannel::new::<Ch2>(None, &mut bus);
    let options = TransferOptions { mode: TransferMode::RepeatBlock, ..TransferOptions::new() };

    let Ok(mut repeating) = full.read_repeating::<u8, u8>(3, 0, 0, 4, options, &mut bus) else { panic!() };
    assert!(repeating.is_running(true));
    bus.take();
    repeating.stop(&mut bus);
    assert_eq!(
        bus.take(),
        vec![Access::Fence, Access::Enable { channel: 2, en: false, req: false }, Access::WaitStopped(2), Access::Fence]
    );
    repeating.release(&mut bus);
    bus.take();
    let write = full.reborrow_full().write_repeating::<u8, u8>(3, 0, 4, 0, options, &mut bus);
    assert!(write.is_ok());
    assert!(bus.take().contains(&Access::Size(2, 4)));
    let nothing = full.read_repeating::<u8, u8>(3, 0, 0, 0, options, &mut bus);
    assert!(matches!(nothing, Err(Error::NoTransfers)));
    assert_eq!(full.reborrow().transfer_guard(0), None);

    // Only a software trigger has to keep the device awake, for as long as it repeats.
    let mut full = FullChannel::new::<Ch2>(Some(SleepLevel::Stop0), &mut bus);
    let Ok(soft) = full.read_repeating::<u8, u8>(0, 0, 0, 4, options, &mut bus) else { panic!() };
    assert_eq!(soft.wake_floor(), Some(SleepLevel::Stop0));
    let Ok(hard) = full.read_repeating::<u8, u8>(3, 0, 0, 4, options, &mut bus) else { panic!() };
    assert_eq!(hard.wake_floor(), None);
}

#[test]
fn interrupt_names_one_event() {
    let mut bus = Bus::new();

    assert_eq!(on_irq(0, INDICES, 8, &mut bus), Event::Nothing);
    assert_eq!(on_irq(25, INDICES, 8, &mut bus), Event::AddressError);
    assert_eq!(on_irq(26, INDICES, 8, &mut bus), Event::DataError);
    assert_eq!(on_irq(17, INDICES, 8, &mut bus), Event::Nothing);
    assert_eq!(bus.take(), vec![]);
    assert_eq!(on_irq(1, INDICES, 8, &mut bus), Event::Wake(0));
    assert_eq!(on_irq(8, INDICES, 8, &mut bus), Event::Wake(7));
    assert_eq!(bus.take(), vec![Access::Unmask(0, false), Access::Unmask(7, false)]);
}
