//! Direct Memory Access (DMA)
//!
//! # Cancelling a transfer
//!
//! Giving up a [`Transfer`] waits. It requests a pause and then spins until the channel has actually
//! stopped, because the hardware writes the destination behind the compiler's back and the borrow of
//! the buffer ends when the transfer does.

use crate::bus::Bus;
use crate::sysctl::SleepLevel;
use core::marker::PhantomData;
use vstd::prelude::*;

verus! {

/// The burst size of a DMA transfer.
#[derive(Debug, Clone, Copy, PartialEq, Eq, Structural)]
pub enum BurstSize {
    /// The whole block transfer is completed in one transfer without interruption.
    Complete,
    /// The burst size is 8, after 9 transfers the block transfer is interrupted and the priority
    /// is reevaluated.
    _8,
    /// The burst size is 16, after 17 transfers the block transfer is interrupted and the priority
    /// is reevaluated.
    _16,
    /// The burst size is 32, after 33 transfers the block transfer is interrupted and the priority
    /// is reevaluated.
    _32,
}

/// `PRIO.BURSTSZ`.
#[derive(Debug, Clone, Copy, PartialEq, Eq, Structural)]
pub enum Burstsz {
    /// No interruption.
    Infiniti,
    /// A burst of 8.
    Burst8,
    /// A burst of 16.
    Burst16,
    /// A burst of 32.
    Burst32,
}

/// A width a channel can move in one step, as `DMASRCWDTH` and `DMADSTWDTH` encode it.
#[derive(Debug, Clone, Copy, PartialEq, Eq, Structural)]
pub enum Wdth {
    /// 8 bits.
    Byte,
    /// 16 bits.
    Half,
    /// 32 bits.
    Word,
    /// 64 bits.
    Long,
    /// 128 bits, on the devices whose DMA implements it.
    Longlong,
}

impl Wdth {
    /// Size in bytes.
    pub open spec fn bytes(self) -> int {
        match self {
            Wdth::Byte => 1,
            Wdth::Half => 2,
            Wdth::Word => 4,
            Wdth::Long => 8,
            Wdth::Longlong => 16,
        }
    }
}

/// How an address moves between elements, as `DMASRCINCR` and `DMADSTINCR` encode it.
#[derive(Debug, Clone, Copy, PartialEq, Eq, Structural)]
pub enum Incr {
    /// The address stays.
    Unchanged,
    /// The address moves by one element.
    Increment,
    /// The address moves by two elements.
    Stride2,
    /// The address moves by three elements.
    Stride3,
    /// The address moves by four elements.
    Stride4,
    /// The address moves by five elements.
    Stride5,
    /// The address moves by six elements.
    Stride6,
    /// The address moves by seven elements.
    Stride7,
    /// The address moves by eight elements.
    Stride8,
    /// The address moves by nine elements.
    Stride9,
}

impl Incr {
    /// Elements the address moves by.
    pub open spec fn elements(self) -> int {
        match self {
            Incr::Unchanged => 0,
            Incr::Increment => 1,
            Incr::Stride2 => 2,
            Incr::Stride3 => 3,
            Incr::Stride4 => 4,
            Incr::Stride5 => 5,
            Incr::Stride6 => 6,
            Incr::Stride7 => 7,
            Incr::Stride8 => 8,
            Incr::Stride9 => 9,
        }
    }
}

/// `CTL.TM`.
#[derive(Debug, Clone, Copy, PartialEq, Eq, Structural)]
pub enum Tm {
    /// Single transfer.
    Single,
    /// Block transfer.
    Block,
    /// Repeated single transfer.
    Rptsngl,
    /// Repeated block transfer.
    Rptblck,
}

/// `CTL.AUTOEN`.
#[derive(Debug, Clone, Copy, PartialEq, Eq, Structural)]
pub enum Autoen {
    /// No address write enables the channel.
    Off,
    /// A write of the source address does.
    SourceAddress,
    /// A write of the destination address does.
    DestinationAddress,
}

/// `CTL.PREIRQ`.
#[derive(Debug, Clone, Copy, PartialEq, Eq, Structural)]
pub enum Preirq {
    /// No early interrupt.
    PreirqDisable,
    /// One with this many transfers left.
    Left(u8),
}

/// `CTL.EM`.
#[derive(Debug, Clone, Copy, PartialEq, Eq, Structural)]
pub enum Em {
    /// Plain transfers.
    Normal,
    /// Gather mode.
    Gather,
    /// Fill mode.
    Fill,
    /// Table mode.
    Table,
}

/// `TCTL.TINT`.
#[derive(Debug, Clone, Copy, PartialEq, Eq, Structural)]
pub enum Tint {
    /// The trigger comes from outside the DMA.
    External,
    /// It is another channel.
    Internal,
}

/// The fields of a channel's `CTL` that a configuration programs.
#[derive(Debug, Clone, Copy, PartialEq, Eq, Structural)]
pub struct Ctl {
    /// Automatic enable.
    pub autoen: Autoen,
    /// Early interrupt.
    pub preirq: Preirq,
    /// Source width.
    pub srcwdth: Wdth,
    /// Destination width.
    pub dstwdth: Wdth,
    /// Source increment.
    pub srcincr: Incr,
    /// Destination increment.
    pub dstincr: Incr,
    /// Extended mode.
    pub em: Em,
    /// Transfer mode.
    pub tm: Tm,
}

/// One access to the DMA.
#[derive(Debug, Clone, Copy, PartialEq, Eq, Structural)]
pub enum Access {
    /// Enter a critical section.
    Acquire,
    /// Leave the critical section.
    Release,
    /// A compiler fence: no memory access moves across it.
    Fence,
    /// Read-modify-write of `PRIO`.
    Prio(Burstsz, bool),
    /// Read-modify-write of the error events' bits of `IMASK`.
    UnmaskErrors {
        /// Data error.
        dataerr: bool,
        /// Address error.
        addrerr: bool,
    },
    /// Let the DMA's NVIC line through.
    EnableLine,
    /// Read-modify-write of one channel's bit of `IMASK`.
    Unmask(u8, bool),
    /// Write one channel's bit of `ICLR`.
    ClearFlag(u8),
    /// Read-modify-write of one channel's `CTL.EN` and `CTL.REQ`.
    Enable {
        /// The channel.
        channel: u8,
        /// Enable.
        en: bool,
        /// Request a transfer.
        req: bool,
    },
    /// Read-modify-write of one channel's `CTL`.
    Ctl(u8, Ctl),
    /// Write one channel's `TCTL`.
    Tctl {
        /// The channel.
        channel: u8,
        /// The trigger.
        tsel: u8,
        /// Where it comes from.
        tint: Tint,
    },
    /// Write one channel's `SZ`.
    Size(u8, u16),
    /// Write one channel's `SA`.
    Source(u8, u32),
    /// Write one channel's `DA`.
    Destination(u8, u32),
    /// Spin until one channel's `CTL.EN` is clear.
    WaitStopped(u8),
}

/// A width a transfer can move, which is what sizes each step of the address arithmetic.
pub trait Word {
    /// The width, as the channel encodes it.
    const WIDTH: Wdth;

    /// Size in bytes for the width.
    fn size() -> (size: isize)
        ensures
            size == Self::WIDTH.bytes(),
    ;
}

impl Word for u8 {
    const WIDTH: Wdth = Wdth::Byte;

    fn size() -> isize {
        1
    }
}

impl Word for u16 {
    const WIDTH: Wdth = Wdth::Half;

    fn size() -> isize {
        2
    }
}

impl Word for u32 {
    const WIDTH: Wdth = Wdth::Word;

    fn size() -> isize {
        4
    }
}

impl Word for u64 {
    const WIDTH: Wdth = Wdth::Long;

    fn size() -> isize {
        8
    }
}

/// Only for the devices whose DMA implements the 128-bit width: the encoding lands in the register
/// elsewhere too, and nothing published says what the transfer then moves.
impl Word for u128 {
    const WIDTH: Wdth = Wdth::Longlong;

    fn size() -> isize {
        16
    }
}

/// DMA channel instance.
pub trait ChannelInstance {
    /// Number of the channel.
    const ID: u8;
}

/// Full DMA channel instance.
pub trait FullChannelInstance: ChannelInstance {

}

/// What went wrong with a transfer.
#[derive(Debug, Copy, Clone, PartialEq, Eq, Structural)]
pub enum Error {
    /// The DMA transfer is too large.
    ///
    /// `SZ.SIZE` is sixteen bits, so a channel moves at most 65535 elements in one transfer. The
    /// width does not enter into it: 65535 `u8` and 65535 `u64` are both 65535 values to move.
    TooManyTransfers,
    /// The transfer would move nothing.
    ///
    /// An empty buffer, or a strided transfer whose buffer is shorter than one stride.
    NoTransfers,
}

impl Error {
    /// The error in words.
    pub fn message(&self) -> (message: &'static str)
        ensures
            message@ == (match *self {
                Error::TooManyTransfers => "too many transfers"@,
                Error::NoTransfers => "no transfers"@,
            }),
    {
        match self {
            Error::TooManyTransfers => "too many transfers",
            Error::NoTransfers => "no transfers",
        }
    }
}

/// DMA transfer mode for basic channels.
#[derive(Debug, Copy, Clone, PartialEq, Eq, Structural)]
pub enum TransferMode {
    /// Each DMA trigger will transfer a single value.
    Single,
    /// Each DMA trigger will transfer the complete block with one trigger.
    Block,
    /// As [`Single`](Self::Single), but the transfer reloads and runs again instead of stopping.
    ///
    /// Full-feature channels only, and it never finishes.
    RepeatSingle,
    /// As [`Block`](Self::Block), but the transfer reloads and runs again instead of stopping.
    ///
    /// Full-feature channels only, and it never finishes.
    RepeatBlock,
}

impl TransferMode {
    /// Whether the hardware stops on its own once the count is exhausted.
    pub open spec fn terminates_spec(self) -> bool {
        self == TransferMode::Single || self == TransferMode::Block
    }

    /// The register encoding.
    pub open spec fn tm(self) -> Tm {
        match self {
            TransferMode::Single => Tm::Single,
            TransferMode::Block => Tm::Block,
            TransferMode::RepeatSingle => Tm::Rptsngl,
            TransferMode::RepeatBlock => Tm::Rptblck,
        }
    }

    /// Whether the hardware stops on its own once the count is exhausted.
    ///
    /// A [`Transfer`] over a mode that does not would never finish. [`read`](Channel::read) and
    /// [`write`](Channel::write) take the terminating modes, and the repeating constructors on
    /// [`FullChannel`] the others.
    pub fn terminates(self) -> (terminates: bool)
        ensures
            terminates == self.terminates_spec(),
    {
        matches!(self, Self::Single | Self::Block)
    }
}

/// How far an address advances between elements, in elements.
///
/// The step is in units of the transfer width, so [`Two`](Self::Two) on a `u32` transfer moves eight
/// bytes. Only the newer DMA implements more than [`One`](Self::One). A transfer that does not increment
/// ignores this.
#[derive(Debug, Copy, Clone, PartialEq, Eq, Structural)]
pub enum Stride {
    /// One element, the ordinary contiguous case.
    One,
    /// Every second element.
    Two,
    /// Every third element.
    Three,
    /// Every fourth element.
    Four,
    /// Every fifth element.
    Five,
    /// Every sixth element.
    Six,
    /// Every seventh element.
    Seven,
    /// Every eighth element.
    Eight,
    /// Every ninth element.
    Nine,
}

impl Stride {
    /// The encoding for an incrementing transfer with this step.
    pub open spec fn incr(self) -> Incr {
        match self {
            Self::One => Incr::Increment,
            Self::Two => Incr::Stride2,
            Self::Three => Incr::Stride3,
            Self::Four => Incr::Stride4,
            Self::Five => Incr::Stride5,
            Self::Six => Incr::Stride6,
            Self::Seven => Incr::Stride7,
            Self::Eight => Incr::Stride8,
            Self::Nine => Incr::Stride9,
        }
    }

    /// How many elements of span one transferred element costs.
    pub open spec fn step_spec(self) -> usize {
        match self {
            Self::One => 1,
            Self::Two => 2,
            Self::Three => 3,
            Self::Four => 4,
            Self::Five => 5,
            Self::Six => 6,
            Self::Seven => 7,
            Self::Eight => 8,
            Self::Nine => 9,
        }
    }

    /// The encoding for an incrementing transfer with this step.
    pub fn to_incr(self) -> (incr: Incr)
        ensures
            incr == self.incr(),
    {
        match self {
            Self::One => Incr::Increment,
            Self::Two => Incr::Stride2,
            Self::Three => Incr::Stride3,
            Self::Four => Incr::Stride4,
            Self::Five => Incr::Stride5,
            Self::Six => Incr::Stride6,
            Self::Seven => Incr::Stride7,
            Self::Eight => Incr::Stride8,
            Self::Nine => Incr::Stride9,
        }
    }

    /// How many elements of span one transferred element costs.
    pub fn step(self) -> (step: usize)
        ensures
            step == self.step_spec(),
    {
        match self {
            Self::One => 1,
            Self::Two => 2,
            Self::Three => 3,
            Self::Four => 4,
            Self::Five => 5,
            Self::Six => 6,
            Self::Seven => 7,
            Self::Eight => 8,
            Self::Nine => 9,
        }
    }
}

/// DMA transfer options.
#[derive(Debug, Copy, Clone, PartialEq, Eq, Structural)]
pub struct TransferOptions {
    /// DMA transfer mode.
    pub mode: TransferMode,
    /// How far the source address moves between elements.
    pub src_stride: Stride,
    /// How far the destination address moves between elements.
    pub dst_stride: Stride,
}

impl TransferOptions {
    /// The default options.
    pub open spec fn default_spec() -> TransferOptions {
        TransferOptions { mode: TransferMode::Single, src_stride: Stride::One, dst_stride: Stride::One }
    }

    /// The reset-ish default.
    pub fn new() -> (options: Self)
        ensures
            options == Self::default_spec(),
    {
        TransferOptions { mode: TransferMode::Single, src_stride: Stride::One, dst_stride: Stride::One }
    }
}

impl Default for TransferOptions {
    fn default() -> (options: Self)
        ensures
            options == Self::default_spec(),
    {
        Self::new()
    }
}

/// Elements moved through a buffer of `len` when each one advances the address by `step`.
///
/// The hardware counts transfers, not addresses, so a strided transfer of `n` elements covers
/// `n * step` of the buffer. Deriving the count from the span is what keeps the buffer the caller
/// passed a bound on what the DMA touches.
pub fn strided_count(len: usize, step: usize) -> (count: usize)
    requires
        step > 0,
    ensures
        count == len as int / step as int,
{
    len / step
}

/// Elements a transfer moves through a buffer of `len` at a stride.
pub open spec fn moved_through(len: usize, stride: Stride) -> int {
    len as int / stride.step_spec() as int
}

/// What a transfer of `count` elements is refused for, if it is.
pub open spec fn refusal(count: int) -> Option<Error> {
    if count == 0 {
        Some(Error::NoTransfers)
    } else if count > u16::MAX {
        Some(Error::TooManyTransfers)
    } else {
        None
    }
}

/// Whether a channel can make a transfer of `count` elements.
pub fn verify_transfer(count: usize) -> (verified: Result<(), Error>)
    ensures
        verified == (match refusal(count as int) {
            Some(error) => Err::<(), Error>(error),
            None => Ok(()),
        }),
{
    // `SZ.SIZE` counts down and clears `EN` when it reaches zero, so a transfer programmed at zero has
    // nothing to decrement.
    if count == 0 {
        return Err(Error::NoTransfers);
    }
    if count > (u16::MAX as usize) {
        return Err(Error::TooManyTransfers);
    }
    Ok(())
}

/// The register encoding of a burst size.
pub open spec fn burstsz(value: BurstSize) -> Burstsz {
    match value {
        BurstSize::Complete => Burstsz::Infiniti,
        BurstSize::_8 => Burstsz::Burst8,
        BurstSize::_16 => Burstsz::Burst16,
        BurstSize::_32 => Burstsz::Burst32,
    }
}

/// The register encoding of a burst size.
pub fn convert_burst_size(value: BurstSize) -> (vals: Burstsz)
    ensures
        vals == burstsz(value),
{
    match value {
        BurstSize::Complete => Burstsz::Infiniti,
        BurstSize::_8 => Burstsz::Burst8,
        BurstSize::_16 => Burstsz::Burst16,
        BurstSize::_32 => Burstsz::Burst32,
    }
}

/// The register encoding of a transfer mode.
pub fn convert_mode(mode: TransferMode) -> (vals: Tm)
    ensures
        vals == mode.tm(),
{
    match mode {
        TransferMode::Single => Tm::Single,
        TransferMode::Block => Tm::Block,
        TransferMode::RepeatSingle => Tm::Rptsngl,
        TransferMode::RepeatBlock => Tm::Rptblck,
    }
}

/// What programming the channel arbitration policy asks for.
pub open spec fn init_accesses(burst_size: BurstSize, round_robin: bool) -> Seq<Access> {
    if burst_size == BurstSize::Complete && !round_robin {
        Seq::empty()
    } else {
        seq![Access::Prio(burstsz(burst_size), round_robin)]
    }
}

/// Program the channel arbitration policy, before any channel exists.
///
/// Reset leaves fixed priority and an uninterrupted block transfer, so a program that asks for that has
/// nothing to program.
pub fn init(burst_size: BurstSize, round_robin: bool, bus: &mut Bus<Access>)
    ensures
        final(bus)@ == old(bus)@ + init_accesses(burst_size, round_robin),
{
    if !matches!(burst_size, BurstSize::Complete) || round_robin {
        bus.push(Access::Prio(convert_burst_size(burst_size), round_robin));
    }
}

/// What arming the transfer error events asks for.
pub open spec fn arm_errors() -> Seq<Access> {
    seq![Access::Acquire, Access::UnmaskErrors { dataerr: true, addrerr: true }, Access::Release, Access::EnableLine]
}

/// Arm the transfer error events and let the NVIC line through.
///
/// Idempotent: a second channel repeats both, which is why the first is a read-modify-write under a
/// critical section. [`on_irq`] edits the same register.
fn arm_error_events(bus: &mut Bus<Access>)
    ensures
        final(bus)@ == old(bus)@ + arm_errors(),
{
    bus.push(Access::Acquire);
    bus.push(Access::UnmaskErrors { dataerr: true, addrerr: true });
    bus.push(Access::Release);
    bus.push(Access::EnableLine);
}

/// A memory range of a transfer: where it starts, how many elements it has, how wide one is, and how the
/// address moves through it.
#[derive(Debug, Copy, Clone, PartialEq, Eq, Structural)]
pub struct Side {
    /// Address of the first element.
    pub address: u32,
    /// Width of an element.
    pub width: Wdth,
    /// How the address moves.
    pub incr: Incr,
}

impl Side {
    /// The one address a transfer keeps reading from or writing to.
    pub open spec fn fixed(address: u32, width: Wdth) -> Side {
        Side { address, width, incr: Incr::Unchanged }
    }

    /// A buffer that a transfer moves through.
    pub open spec fn strided(address: u32, width: Wdth, stride: Stride) -> Side {
        Side { address, width, incr: stride.incr() }
    }

    /// Address of the `k`th element a transfer moves.
    pub open spec fn address_of(self, k: int) -> int {
        self.address + k * (self.incr.elements() * self.width.bytes())
    }
}

/// What programming a channel asks for. The channel has to be already disabled for the rest of `CTL` and
/// for the trigger to take, so clearing `EN` is a write of its own, and the channel is left disabled.
pub open spec fn configure_accesses(
    id: u8,
    trigger: u8,
    src: Side,
    dst: Side,
    count: u16,
    mode: TransferMode,
) -> Seq<Access> {
    seq![
        Access::Fence,
        Access::Enable { channel: id, en: false, req: false },
        Access::Ctl(
            id,
            Ctl {
                autoen: Autoen::Off,
                preirq: Preirq::PreirqDisable,
                srcwdth: src.width,
                dstwdth: dst.width,
                srcincr: src.incr,
                dstincr: dst.incr,
                em: Em::Normal,
                tm: mode.tm(),
            },
        ),
        Access::Tctl { channel: id, tsel: trigger, tint: Tint::External },
        Access::Size(id, count),
        Access::Source(id, src.address),
        Access::Destination(id, dst.address),
    ]
}

/// What arming the completion interrupt of a channel asks for.
pub open spec fn unmask_accesses(id: u8) -> Seq<Access> {
    seq![Access::Acquire, Access::Unmask(id, true), Access::Release]
}

/// What starting a configured channel asks for: drop a stale flag, arm the completion interrupt, and
/// only then enable and trigger the channel.
pub open spec fn start_accesses(id: u8) -> Seq<Access> {
    seq![Access::ClearFlag(id)] + unmask_accesses(id) + seq![
        Access::Fence,
        Access::Enable { channel: id, en: true, req: true },
    ]
}

/// What resuming a channel asks for.
pub open spec fn resume_accesses(id: u8) -> Seq<Access> {
    unmask_accesses(id) + seq![Access::Fence, Access::Enable { channel: id, en: true, req: true }]
}

/// What requesting a pause asks for.
pub open spec fn pause_accesses(id: u8) -> Seq<Access> {
    seq![Access::Fence, Access::Enable { channel: id, en: false, req: false }]
}

/// What stopping a channel for good asks for: a pause, the wait for it, and a fence before the buffer is
/// anyone else's.
pub open spec fn stop_accesses(id: u8) -> Seq<Access> {
    pause_accesses(id) + seq![Access::WaitStopped(id), Access::Fence]
}

/// What waiting for a channel to run out asks for.
pub open spec fn wait_accesses(id: u8) -> Seq<Access> {
    seq![Access::Fence, Access::WaitStopped(id), Access::Fence]
}

/// Basic DMA channel driver.
pub struct Channel {
    id: u8,
    sw_wake_floor: Option<SleepLevel>,
}

impl Channel {
    /// Number of the channel.
    pub closed spec fn id(&self) -> u8 {
        self.id
    }

    /// Floor to hold for a transfer started by software.
    pub closed spec fn sw_wake_floor(&self) -> Option<SleepLevel> {
        self.sw_wake_floor
    }

    /// Floor to hold for a transfer that nothing else keeps the DMA clocked through.
    pub open spec fn floor_for(&self, trigger_source: u8) -> Option<SleepLevel> {
        if trigger_source == Transfer::SOFTWARE_TRIGGER {
            self.sw_wake_floor()
        } else {
            None
        }
    }

    /// Create a new basic DMA channel driver.
    ///
    /// `sw_wake_floor` is the sleep floor the DMA's clock needs while a transfer runs.
    pub fn new<T: ChannelInstance>(sw_wake_floor: Option<SleepLevel>, bus: &mut Bus<Access>) -> (channel: Self)
        ensures
            channel.id() == T::ID,
            channel.sw_wake_floor() == sw_wake_floor,
            final(bus)@ == old(bus)@ + arm_errors(),
    {
        arm_error_events(bus);
        Channel { id: T::ID, sw_wake_floor }
    }

    /// Reborrow the channel, allowing it to be used in multiple places.
    pub fn reborrow(&mut self) -> (channel: Channel)
        ensures
            channel == *old(self),
            *final(self) == *old(self),
    {
        Channel { id: self.id, sw_wake_floor: self.sw_wake_floor }
    }

    /// Floor to hold for a transfer that nothing else keeps the DMA clocked through.
    ///
    /// A hardware trigger reaches the event manager, which suspends STOP or STANDBY for as long as the
    /// transfer needs. A software request never reaches it, so deep sleep would cut the transfer until
    /// something unrelated woke the device.
    pub fn transfer_guard(&self, trigger_source: u8) -> (floor: Option<SleepLevel>)
        ensures
            floor == self.floor_for(trigger_source),
    {
        if trigger_source != Transfer::SOFTWARE_TRIGGER {
            return None;
        }
        self.sw_wake_floor
    }

    /// The transfer that `count` elements on this channel come to.
    pub open spec fn started(
        &self,
        transfer: Result<Transfer, Error>,
        trigger_source: u8,
        src: Side,
        dst: Side,
        count: int,
        mode: TransferMode,
        before: Seq<Access>,
        after: Seq<Access>,
    ) -> bool {
        match refusal(count) {
            Some(error) => transfer == Err::<Transfer, Error>(error) && after == before,
            None => {
                &&& transfer is Ok
                &&& transfer->Ok_0.channel() == *self
                &&& transfer->Ok_0.floor() == self.floor_for(trigger_source)
                &&& after == before + configure_accesses(self.id(), trigger_source, src, dst, count as u16, mode)
                    + start_accesses(self.id())
            },
        }
    }

    /// The transfer that reading the one address `src` into the `len` elements at `dst` comes to.
    pub open spec fn reads<SW: Word, DW: Word>(
        &self,
        transfer: Result<Transfer, Error>,
        trigger_source: u8,
        src: u32,
        dst: u32,
        len: usize,
        options: TransferOptions,
        before: Seq<Access>,
        after: Seq<Access>,
    ) -> bool {
        self.started(
            transfer,
            trigger_source,
            Side::fixed(src, SW::WIDTH),
            Side::strided(dst, DW::WIDTH, options.dst_stride),
            moved_through(len, options.dst_stride),
            options.mode,
            before,
            after,
        )
    }

    /// The transfer that writing the `len` elements at `src` to the one address `dst` comes to.
    pub open spec fn writes<SW: Word, DW: Word>(
        &self,
        transfer: Result<Transfer, Error>,
        trigger_source: u8,
        src: u32,
        len: usize,
        dst: u32,
        options: TransferOptions,
        before: Seq<Access>,
        after: Seq<Access>,
    ) -> bool {
        self.started(
            transfer,
            trigger_source,
            Side::strided(src, SW::WIDTH, options.src_stride),
            Side::fixed(dst, DW::WIDTH),
            moved_through(len, options.src_stride),
            options.mode,
            before,
            after,
        )
    }

    /// Create a new read DMA transfer: from the one address `src` into the `len` elements at `dst`.
    ///
    /// The mode has to be one that terminates.
    ///
    /// `len` bounds the memory written, not the number of elements: under a stride this moves
    /// `len / stride` elements spread across the whole of the destination.
    pub fn read<SW: Word, DW: Word>(
        &mut self,
        trigger_source: u8,
        src: u32,
        dst: u32,
        len: usize,
        options: TransferOptions,
        bus: &mut Bus<Access>,
    ) -> (transfer: Result<Transfer, Error>)
        requires
            options.mode.terminates_spec(),
        ensures
            *final(self) == *old(self),
            old(self).reads::<SW, DW>(transfer, trigger_source, src, dst, len, options, old(bus)@, final(bus)@),
    {
        self.read_raw::<SW, DW>(trigger_source, src, dst, len, options, bus)
    }

    /// As [`read`](Self::read), for a destination that nothing here ties to a lifetime: the caller keeps it
    /// alive for as long as the transfer runs.
    ///
    /// The mode has to be one that terminates.
    pub fn read_raw<SW: Word, DW: Word>(
        &mut self,
        trigger_source: u8,
        src: u32,
        dst: u32,
        len: usize,
        options: TransferOptions,
        bus: &mut Bus<Access>,
    ) -> (transfer: Result<Transfer, Error>)
        requires
            options.mode.terminates_spec(),
        ensures
            *final(self) == *old(self),
            old(self).reads::<SW, DW>(transfer, trigger_source, src, dst, len, options, old(bus)@, final(bus)@),
    {
        self.start_read::<SW, DW>(trigger_source, src, dst, len, options, bus)
    }

    /// The read path without the mode gate, so the repeating constructors can reach it.
    fn start_read<SW: Word, DW: Word>(
        &mut self,
        trigger_source: u8,
        src: u32,
        dst: u32,
        len: usize,
        options: TransferOptions,
        bus: &mut Bus<Access>,
    ) -> (transfer: Result<Transfer, Error>)
        ensures
            *final(self) == *old(self),
            old(self).reads::<SW, DW>(transfer, trigger_source, src, dst, len, options, old(bus)@, final(bus)@),
    {
        // Only the destination advances on a read, so only its stride shortens the count.
        let count: usize = strided_count(len, options.dst_stride.step());

        match verify_transfer(count) {
            Ok(()) => {},
            Err(error) => {
                return Err(error);
            },
        }
        let floor = self.transfer_guard(trigger_source);
        let transfer = Transfer { channel: self.reborrow(), floor };

        transfer.channel.configure(
            trigger_source,
            Side { address: src, width: SW::WIDTH, incr: Incr::Unchanged },
            Side { address: dst, width: DW::WIDTH, incr: options.dst_stride.to_incr() },
            count as u16,
            options.mode,
            bus,
        );
        transfer.channel.start(bus);

        Ok(transfer)
    }

    /// Create a new write DMA transfer: from the `len` elements at `src` to the one address `dst`.
    ///
    /// The mode has to be one that terminates.
    ///
    /// `len` bounds the memory read, not the number of elements: under a stride this moves
    /// `len / stride` elements taken from across the whole of the source.
    pub fn write<SW: Word, DW: Word>(
        &mut self,
        trigger_source: u8,
        src: u32,
        len: usize,
        dst: u32,
        options: TransferOptions,
        bus: &mut Bus<Access>,
    ) -> (transfer: Result<Transfer, Error>)
        requires
            options.mode.terminates_spec(),
        ensures
            *final(self) == *old(self),
            old(self).writes::<SW, DW>(transfer, trigger_source, src, len, dst, options, old(bus)@, final(bus)@),
    {
        self.write_raw::<SW, DW>(trigger_source, src, len, dst, options, bus)
    }

    /// As [`write`](Self::write), for a source that nothing here ties to a lifetime: the caller keeps it
    /// alive for as long as the transfer runs.
    ///
    /// The mode has to be one that terminates.
    pub fn write_raw<SW: Word, DW: Word>(
        &mut self,
        trigger_source: u8,
        src: u32,
        len: usize,
        dst: u32,
        options: TransferOptions,
        bus: &mut Bus<Access>,
    ) -> (transfer: Result<Transfer, Error>)
        requires
            options.mode.terminates_spec(),
        ensures
            *final(self) == *old(self),
            old(self).writes::<SW, DW>(transfer, trigger_source, src, len, dst, options, old(bus)@, final(bus)@),
    {
        self.start_write::<SW, DW>(trigger_source, src, len, dst, options, bus)
    }

    /// The write path without the mode gate, so the repeating constructors can reach it.
    fn start_write<SW: Word, DW: Word>(
        &mut self,
        trigger_source: u8,
        src: u32,
        len: usize,
        dst: u32,
        options: TransferOptions,
        bus: &mut Bus<Access>,
    ) -> (transfer: Result<Transfer, Error>)
        ensures
            *final(self) == *old(self),
            old(self).writes::<SW, DW>(transfer, trigger_source, src, len, dst, options, old(bus)@, final(bus)@),
    {
        // Only the source advances on a write, so only its stride shortens the count.
        let count: usize = strided_count(len, options.src_stride.step());

        match verify_transfer(count) {
            Ok(()) => {},
            Err(error) => {
                return Err(error);
            },
        }
        let floor = self.transfer_guard(trigger_source);
        let transfer = Transfer { channel: self.reborrow(), floor };

        transfer.channel.configure(
            trigger_source,
            Side { address: src, width: SW::WIDTH, incr: options.src_stride.to_incr() },
            Side { address: dst, width: DW::WIDTH, incr: Incr::Unchanged },
            count as u16,
            options.mode,
            bus,
        );
        transfer.channel.start(bus);

        Ok(transfer)
    }

    /// Mask or unmask the channel's completion interrupt.
    fn mask_interrupt(&self, enable: bool, bus: &mut Bus<Access>)
        ensures
            final(bus)@ == old(bus)@ + seq![Access::Acquire, Access::Unmask(self.id(), enable), Access::Release],
    {
        // Enabling interrupts is an RMW operation.
        bus.push(Access::Acquire);
        bus.push(Access::Unmask(self.id, enable));
        bus.push(Access::Release);
    }

    /// Program the channel, leaving it disabled. Enabling is what starts a software-triggered transfer,
    /// so it belongs in [`start`](Self::start), after the interrupt has been armed.
    fn configure(
        &self,
        trigger_sel: u8,
        src: Side,
        dst: Side,
        transfer_count: u16,
        mode: TransferMode,
        bus: &mut Bus<Access>,
    )
        ensures
            final(bus)@ == old(bus)@ + configure_accesses(self.id(), trigger_sel, src, dst, transfer_count, mode),
    {
        bus.push(Access::Fence);
        bus.push(Access::Enable { channel: self.id, en: false, req: false });
        bus.push(
            Access::Ctl(
                self.id,
                Ctl {
                    autoen: Autoen::Off,
                    preirq: Preirq::PreirqDisable,
                    srcwdth: src.width,
                    dstwdth: dst.width,
                    srcincr: src.incr,
                    dstincr: dst.incr,
                    em: Em::Normal,
                    tm: convert_mode(mode),
                },
            ),
        );
        bus.push(Access::Tctl { channel: self.id, tsel: trigger_sel, tint: Tint::External });
        bus.push(Access::Size(self.id, transfer_count));
        bus.push(Access::Source(self.id, src.address));
        bus.push(Access::Destination(self.id, dst.address));
    }

    /// Arm the completion interrupt, then trigger the transfer.
    ///
    /// Enabling the channel before arming runs a transfer whose completion is reported to nobody. A
    /// stale flag does the same from the other direction: one left over from an earlier transfer fires
    /// the moment the channel is armed.
    fn start(&self, bus: &mut Bus<Access>)
        ensures
            final(bus)@ == old(bus)@ + start_accesses(self.id()),
    {
        bus.push(Access::ClearFlag(self.id));
        self.mask_interrupt(true, bus);
        bus.push(Access::Fence);
        bus.push(Access::Enable { channel: self.id, en: true, req: true });
    }

    /// Enable the channel again and resend its trigger.
    fn resume(&self, bus: &mut Bus<Access>)
        ensures
            final(bus)@ == old(bus)@ + resume_accesses(self.id()),
    {
        self.mask_interrupt(true, bus);
        bus.push(Access::Fence);
        bus.push(Access::Enable { channel: self.id, en: true, req: true });
    }

    /// Clear `EN`, which stops the transfer, and a request the hardware has not taken up yet.
    fn request_pause(&self, bus: &mut Bus<Access>)
        ensures
            final(bus)@ == old(bus)@ + pause_accesses(self.id()),
    {
        bus.push(Access::Fence);
        bus.push(Access::Enable { channel: self.id, en: false, req: false });
    }

    /// Whether the channel is running, in a reading of its `CTL.EN`.
    ///
    /// `EN` alone: the hardware clears it when a transfer runs out of elements. It clears `REQ` as soon
    /// as it takes the request up, so testing that as well would report a transfer that is still writing
    /// as done.
    fn is_running(&self, en: bool) -> (running: bool)
        ensures
            running == en,
    {
        en
    }
}

/// DMA transfer.
pub struct Transfer {
    channel: Channel,
    floor: Option<SleepLevel>,
}

impl Transfer {
    /// Software trigger source.
    ///
    /// Using this trigger source means that a transfer will start immediately rather than waiting for
    /// a hardware event.
    pub const SOFTWARE_TRIGGER: u8 = 0;

    /// The channel the transfer runs on.
    pub closed spec fn channel(&self) -> Channel {
        self.channel
    }

    /// The sleep level the transfer blocks, until it is over.
    pub closed spec fn floor(&self) -> Option<SleepLevel> {
        self.floor
    }

    /// The sleep level the transfer blocks, until it is over.
    pub fn wake_floor(&self) -> (floor: Option<SleepLevel>)
        ensures
            floor == self.floor(),
    {
        self.floor
    }

    /// Request the transfer to resume.
    ///
    /// A halted block transfer continues once it is enabled again and a trigger is resent, which is
    /// asserted unconditionally: a channel waiting on a hardware source ignores it.
    pub fn resume(&mut self, bus: &mut Bus<Access>)
        ensures
            *final(self) == *old(self),
            final(bus)@ == old(bus)@ + resume_accesses(old(self).channel().id()),
    {
        self.channel.resume(bus);
    }

    /// Request the transfer to pause, keeping the existing configuration for this channel.
    ///
    /// To restart the transfer, call [`resume`](Self::resume). This doesn't immediately stop the
    /// transfer, you have to wait until [`is_running`](Self::is_running) returns false.
    pub fn request_pause(&mut self, bus: &mut Bus<Access>)
        ensures
            *final(self) == *old(self),
            final(bus)@ == old(bus)@ + pause_accesses(old(self).channel().id()),
    {
        self.channel.request_pause(bus);
    }

    /// Return whether this transfer is still running, in a reading of the channel's `CTL.EN`.
    ///
    /// If this returns [`false`], it can be because either the transfer finished, or
    /// it was paused with [`request_pause`](Self::request_pause).
    pub fn is_running(&mut self, en: bool) -> (running: bool)
        ensures
            *final(self) == *old(self),
            running == en,
    {
        self.channel.is_running(en)
    }

    /// Poll the transfer, with the waker registered and then the channel's `CTL.EN` read. Whether it is
    /// over.
    pub fn poll(&mut self, en: bool) -> (ready: bool)
        ensures
            *final(self) == *old(self),
            ready == !en,
    {
        !self.channel.is_running(en)
    }

    /// Blocking wait until the transfer finishes.
    ///
    /// No pause is requested: the transfer runs to completion.
    pub fn blocking_wait(self, bus: &mut Bus<Access>)
        ensures
            final(bus)@ == old(bus)@ + wait_accesses(self.channel().id()),
    {
        bus.push(Access::Fence);
        bus.push(Access::WaitStopped(self.channel.id));
        bus.push(Access::Fence);
    }

    /// Give the transfer up: pause it, and wait for the channel to come to rest.
    pub fn release(self, bus: &mut Bus<Access>)
        ensures
            final(bus)@ == old(bus)@ + stop_accesses(self.channel().id()),
    {
        self.channel.request_pause(bus);
        bus.push(Access::WaitStopped(self.channel.id));
        bus.push(Access::Fence);
    }
}

/// Full DMA channel driver.
///
/// This is an extended [`Channel`] driver and can be [reborrowed](Self::reborrow) to be used as a basic
/// channel driver.
pub struct FullChannel(Channel);

impl FullChannel {
    /// The channel underneath.
    pub closed spec fn channel(&self) -> Channel {
        self.0
    }

    /// Create a new full DMA channel driver.
    pub fn new<T: FullChannelInstance>(sw_wake_floor: Option<SleepLevel>, bus: &mut Bus<Access>) -> (channel: Self)
        ensures
            channel.channel().id() == T::ID,
            channel.channel().sw_wake_floor() == sw_wake_floor,
            final(bus)@ == old(bus)@ + arm_errors(),
    {
        FullChannel(Channel::new::<T>(sw_wake_floor, bus))
    }

    /// Reborrow the full channel, allowing it to be used in multiple places.
    pub fn reborrow_full(&mut self) -> (channel: FullChannel)
        ensures
            channel == *old(self),
            *final(self) == *old(self),
    {
        FullChannel(self.0.reborrow())
    }

    /// Reborrow the channel as a basic [`Channel`], allowing it to be used in multiple places.
    pub fn reborrow(&mut self) -> (channel: Channel)
        ensures
            channel == old(self).channel(),
            *final(self) == *old(self),
    {
        self.0.reborrow()
    }

    /// Start a repeating read, which runs until it is stopped.
    ///
    /// The mode has to be one of the repeating modes; the terminating ones belong on [`Channel::read`].
    pub fn read_repeating<SW: Word, DW: Word>(
        &mut self,
        trigger_source: u8,
        src: u32,
        dst: u32,
        len: usize,
        options: TransferOptions,
        bus: &mut Bus<Access>,
    ) -> (transfer: Result<RepeatingTransfer, Error>)
        requires
            !options.mode.terminates_spec(),
        ensures
            *final(self) == *old(self),
            old(self).channel().reads::<SW, DW>(
                match transfer {
                    Ok(repeating) => Ok(repeating.transfer()),
                    Err(error) => Err(error),
                },
                trigger_source,
                src,
                dst,
                len,
                options,
                old(bus)@,
                final(bus)@,
            ),
    {
        match self.0.start_read::<SW, DW>(trigger_source, src, dst, len, options, bus) {
            Ok(transfer) => Ok(RepeatingTransfer(transfer)),
            Err(error) => Err(error),
        }
    }

    /// Start a repeating write, which runs until it is stopped.
    ///
    /// The mode has to be one of the repeating modes; the terminating ones belong on [`Channel::write`].
    pub fn write_repeating<SW: Word, DW: Word>(
        &mut self,
        trigger_source: u8,
        src: u32,
        len: usize,
        dst: u32,
        options: TransferOptions,
        bus: &mut Bus<Access>,
    ) -> (transfer: Result<RepeatingTransfer, Error>)
        requires
            !options.mode.terminates_spec(),
        ensures
            *final(self) == *old(self),
            old(self).channel().writes::<SW, DW>(
                match transfer {
                    Ok(repeating) => Ok(repeating.transfer()),
                    Err(error) => Err(error),
                },
                trigger_source,
                src,
                len,
                dst,
                options,
                old(bus)@,
                final(bus)@,
            ),
    {
        match self.0.start_write::<SW, DW>(trigger_source, src, len, dst, options, bus) {
            Ok(transfer) => Ok(RepeatingTransfer(transfer)),
            Err(error) => Err(error),
        }
    }
}

/// A DMA transfer that reloads and runs again instead of finishing.
///
/// The repeating modes leave `EN` set and restore the address and count registers, so nothing ever
/// reports completion: the transfer ends when this handle is given up or [`stop`](Self::stop) is called.
pub struct RepeatingTransfer(Transfer);

impl RepeatingTransfer {
    /// The transfer underneath.
    pub closed spec fn transfer(&self) -> Transfer {
        self.0
    }

    /// The sleep level the transfer blocks, for as long as it repeats.
    pub fn wake_floor(&self) -> (floor: Option<SleepLevel>)
        ensures
            floor == self.transfer().floor(),
    {
        self.0.wake_floor()
    }

    /// Whether the channel is still running, in a reading of its `CTL.EN`.
    ///
    /// False here means it was stopped or paused; it never means the work is done.
    pub fn is_running(&mut self, en: bool) -> (running: bool)
        ensures
            *final(self) == *old(self),
            running == en,
    {
        self.0.is_running(en)
    }

    /// Stop the transfer and wait for the channel to come to rest.
    pub fn stop(&mut self, bus: &mut Bus<Access>)
        ensures
            *final(self) == *old(self),
            final(bus)@ == old(bus)@ + stop_accesses(old(self).transfer().channel().id()),
    {
        self.0.request_pause(bus);
        bus.push(Access::WaitStopped(self.0.channel.id));
        bus.push(Access::Fence);
    }

    /// Give the transfer up: pause it, and wait for the channel to come to rest.
    pub fn release(self, bus: &mut Bus<Access>)
        ensures
            final(bus)@ == old(bus)@ + stop_accesses(self.transfer().channel().id()),
    {
        self.0.release(bus);
    }
}

/// What `IIDX` encodes: the lowest index that names a channel, and the two errors. Zero is "nothing
/// pending", and the errors sort above every channel and every `PRE-IRQ`.
#[derive(Debug, Copy, Clone, PartialEq, Eq, Structural)]
pub struct Indices {
    /// Channel 0.
    pub ch0: u8,
    /// Address error.
    pub addrerr: u8,
    /// Data error.
    pub dataerr: u8,
}

/// What an interrupt of the DMA is about.
#[derive(Debug, Copy, Clone, PartialEq, Eq, Structural)]
pub enum Event {
    /// Nothing that concerns a channel.
    Nothing,
    /// This channel's transfer has finished, so its waiter is to be woken.
    Wake(u8),
    /// A DMA data error, which is fatal.
    DataError,
    /// A DMA address error, which is fatal.
    AddressError,
}

/// What an interrupt is about, by its index.
pub open spec fn irq_event(stat: u8, indices: Indices, channels: u8) -> Event {
    if stat == 0 {
        Event::Nothing
    } else if stat == indices.dataerr {
        Event::DataError
    } else if stat == indices.addrerr {
        Event::AddressError
    } else if stat - indices.ch0 < channels {
        Event::Wake((stat - indices.ch0) as u8)
    } else {
        Event::Nothing
    }
}

/// What answering an interrupt asks for.
pub open spec fn irq_accesses(event: Event) -> Seq<Access> {
    match event {
        Event::Wake(channel) => seq![Access::Unmask(channel, false)],
        _ => Seq::empty(),
    }
}

/// Service the DMA's interrupt.
///
/// `stat` is `IIDX`: the highest-priority pending event, which reading it cleared. One event per entry:
/// the handler is entered again while any event remains. A channel that has finished is masked, since
/// there is nothing more to report until the next transfer arms it again. `PRE-IRQ` indices sit above
/// the channels and below the errors, and are not ours.
pub fn on_irq(stat: u8, indices: Indices, channels: u8, bus: &mut Bus<Access>) -> (event: Event)
    requires
        stat == 0 || stat >= indices.ch0,
    ensures
        event == irq_event(stat, indices, channels),
        final(bus)@ == old(bus)@ + irq_accesses(irq_event(stat, indices, channels)),
{
    if stat == 0 {
        return Event::Nothing;
    }
    if stat == indices.dataerr {
        return Event::DataError;
    }
    if stat == indices.addrerr {
        return Event::AddressError;
    }
    let channel: u8 = stat - indices.ch0;

    if channel >= channels {
        return Event::Nothing;
    }
    bus.push(Access::Unmask(channel, false));
    Event::Wake(channel)
}

/// DMA interrupt handler.
///
/// Every channel's interrupt is the one line of the DMA, so it does not matter which channel binds it.
pub struct InterruptHandler<T: ChannelInstance> {
    channel: PhantomData<T>,
}

impl<T: ChannelInstance> InterruptHandler<T> {
    /// Service the DMA's interrupt. See [`on_irq`].
    pub fn on_interrupt(stat: u8, indices: Indices, channels: u8, bus: &mut Bus<Access>) -> (event: Event)
        requires
            stat == 0 || stat >= indices.ch0,
        ensures
            event == irq_event(stat, indices, channels),
            final(bus)@ == old(bus)@ + irq_accesses(irq_event(stat, indices, channels)),
    {
        on_irq(stat, indices, channels, bus)
    }
}

/// A strided transfer stays inside the buffer it was given: every element it moves starts below `len`,
/// and one more element would not fit.
pub proof fn strided_transfer_stays_in_its_buffer(len: usize, stride: Stride, element: int)
    requires
        0 <= element < len as int / stride.step_spec() as int,
    ensures
        element * stride.step_spec() < len,
        (len as int / stride.step_spec() as int) * stride.step_spec() <= len,
        len < (len as int / stride.step_spec() as int + 1) * stride.step_spec(),
{
    let step = stride.step_spec() as int;
    let count = len as int / step;
    vstd::arithmetic::div_mod::lemma_fundamental_div_mod(len as int, step);
    assert(element * step < count * step) by (nonlinear_arith)
        requires
            element < count,
            step > 0,
    ;
    assert(count * step <= len && len < (count + 1) * step) by (nonlinear_arith)
        requires
            len == step * count + len as int % step,
            0 <= len as int % step < step,
    ;
}

/// The increment a stride selects moves the address by the elements the count was worked out for.
pub proof fn stride_matches_its_increment(stride: Stride)
    ensures
        stride.incr().elements() == stride.step_spec(),
        stride.step_spec() > 0,
{
}

/// A transfer is refused exactly where its count does not fit `SZ.SIZE` or is zero.
pub proof fn transfer_is_refused_by_count_alone(count: int)
    requires
        count >= 0,
    ensures
        refusal(count) is None <==> 1 <= count <= 65535,
{
}

/// `CTL.EN` and the completion mask of one channel, and whether its completion flag is clear.
#[derive(Clone, Copy, PartialEq, Eq, Debug, Structural)]
pub struct ChannelRegs {
    /// The channel is enabled.
    pub en: bool,
    /// Its completion interrupt is unmasked.
    pub unmasked: bool,
    /// A completion flag from an earlier transfer may still be latched.
    pub stale: bool,
}

impl ChannelRegs {
    /// The registers of channel `id` after one access.
    pub open spec fn after(self, id: u8, access: Access) -> ChannelRegs {
        match access {
            Access::Enable { channel, en, .. } if channel == id => ChannelRegs { en, ..self },
            Access::Unmask(channel, on) if channel == id => ChannelRegs { unmasked: on, ..self },
            Access::ClearFlag(channel) if channel == id => ChannelRegs { stale: false, ..self },
            _ => self,
        }
    }

    /// The registers of channel `id` after a list of accesses, in order.
    pub open spec fn run(self, id: u8, accesses: Seq<Access>) -> ChannelRegs
        decreases accesses.len(),
    {
        if accesses.len() == 0 {
            self
        } else {
            self.run(id, accesses.drop_last()).after(id, accesses.last())
        }
    }
}

/// A channel is programmed while it is disabled, and is enabled only once a stale flag has been dropped
/// and its completion interrupt has been armed, so no completion is reported to nobody.
pub proof fn transfer_starts_armed(
    regs: ChannelRegs,
    id: u8,
    trigger: u8,
    src: Side,
    dst: Side,
    count: u16,
    mode: TransferMode,
)
    ensures
        ({
            let configure = configure_accesses(id, trigger, src, dst, count, mode);
            let start = start_accesses(id);
            let n = start.len() as int;

            &&& forall|i: int|
                2 <= i <= configure.len() ==> !(#[trigger] regs.run(id, configure.take(i))).en
            &&& !regs.run(id, configure).run(id, start.take(n - 1)).en
            &&& regs.run(id, configure).run(id, start.take(n - 1)).unmasked
            &&& !regs.run(id, configure).run(id, start.take(n - 1)).stale
            &&& regs.run(id, configure).run(id, start).en
        }),
{
    let configure = configure_accesses(id, trigger, src, dst, count, mode);
    let start = start_accesses(id);
    let n = start.len() as int;
    reveal_with_fuel(ChannelRegs::run, 8);
    assert(configure.take(configure.len() as int) =~= configure);
    assert forall|i: int| 2 <= i <= configure.len() implies !(#[trigger] regs.run(id, configure.take(i))).en by {
        reveal_with_fuel(ChannelRegs::run, 8);
    }
    assert(start[0] == Access::ClearFlag(id));
    assert(start[2] == Access::Unmask(id, true));
    assert(start[n - 1] == Access::Enable { channel: id, en: true, req: true });
}

/// A pause that is resumed leaves the channel enabled with its completion interrupt armed, and one that
/// is not leaves it disabled.
pub proof fn pause_stops_and_resume_restarts(regs: ChannelRegs, id: u8)
    ensures
        !regs.run(id, pause_accesses(id)).en,
        regs.run(id, pause_accesses(id)).run(id, resume_accesses(id)).en,
        regs.run(id, pause_accesses(id)).run(id, resume_accesses(id)).unmasked,
        !regs.run(id, stop_accesses(id)).en,
{
    reveal_with_fuel(ChannelRegs::run, 8);
}

/// A word is as wide as its type: a transfer of `u16` moves sixteen bits at a time.
pub proof fn word_is_as_wide_as_its_type()
    ensures
        <u8 as Word>::WIDTH.bytes() * 8 == u8::BITS,
        <u16 as Word>::WIDTH.bytes() * 8 == u16::BITS,
        <u32 as Word>::WIDTH.bytes() * 8 == u32::BITS,
        <u64 as Word>::WIDTH.bytes() * 8 == u64::BITS,
        <u128 as Word>::WIDTH.bytes() * 8 == u128::BITS,
        <u8 as Word>::WIDTH is Byte,
        <u16 as Word>::WIDTH is Half,
        <u32 as Word>::WIDTH is Word,
        <u64 as Word>::WIDTH is Long,
        <u128 as Word>::WIDTH is Longlong,
{
}

/// A stride is as many elements as it is named for, and so is the increment it programs.
pub proof fn stride_is_what_it_is_named(stride: Stride)
    ensures
        stride is One ==> stride.step_spec() == 1 && stride.incr() is Increment,
        stride is Two ==> stride.step_spec() == 2 && stride.incr() is Stride2,
        stride is Three ==> stride.step_spec() == 3 && stride.incr() is Stride3,
        stride is Four ==> stride.step_spec() == 4 && stride.incr() is Stride4,
        stride is Five ==> stride.step_spec() == 5 && stride.incr() is Stride5,
        stride is Six ==> stride.step_spec() == 6 && stride.incr() is Stride6,
        stride is Seven ==> stride.step_spec() == 7 && stride.incr() is Stride7,
        stride is Eight ==> stride.step_spec() == 8 && stride.incr() is Stride8,
        stride is Nine ==> stride.step_spec() == 9 && stride.incr() is Stride9,
{
}

/// A side that is fixed stays at its address for every element, and one that is strided moves a whole number of
/// elements of its own width from each to the next: by one of them unless a stride was asked for.
pub proof fn sides_move_as_they_are_asked_to(address: u32, width: Wdth, stride: Stride, k: int)
    ensures
        Side::fixed(address, width).address_of(k) == address,
        Side::fixed(address, width).width == width,
        Side::strided(address, width, stride).width == width,
        Side::strided(address, width, stride).address_of(0) == address,
        Side::strided(address, width, stride).address_of(k + 1) - Side::strided(address, width, stride).address_of(k)
            == stride.step_spec() * width.bytes(),
        Side::strided(address, width, Stride::One).address_of(k) == address + k * width.bytes(),
{
    let fixed = Side::fixed(address, width);
    let side = Side::strided(address, width, stride);
    stride_matches_its_increment(stride);
    assert(fixed.incr.elements() * fixed.width.bytes() == 0);
    assert(k * 0 == 0);
    let step = side.incr.elements() * side.width.bytes();
    assert((k + 1) * step == k * step + step) by (nonlinear_arith);
    assert(0 * step == 0);
    let one = Side::strided(address, width, Stride::One);
    assert(one.incr.elements() * one.width.bytes() == width.bytes());
}

/// Every element a transfer moves through a buffer lies wholly inside it, and the count is the most for which
/// that holds: no element the stride reaches is left out.
pub proof fn every_element_is_inside_the_buffer(address: u32, len: usize, width: Wdth, stride: Stride, k: int)
    requires
        0 <= k < moved_through(len, stride),
    ensures
        address <= Side::strided(address, width, stride).address_of(k),
        Side::strided(address, width, stride).address_of(k) + width.bytes() <= address + len * width.bytes(),
        (moved_through(len, stride) + 1) * stride.step_spec() > len,
{
    let step = stride.step_spec() as int;
    let w = width.bytes();
    strided_transfer_stays_in_its_buffer(len, stride, k);
    stride_matches_its_increment(stride);
    assert(0 <= k * (step * w) && k * (step * w) + w <= len * w) by (nonlinear_arith)
        requires
            0 <= k,
            k * step + 1 <= len,
            step > 0,
            w > 0,
    {
        assert(k * (step * w) == (k * step) * w);
        assert((k * step + 1) * w <= len * w);
    }
}

/// What an access of a channel that is being set up is to leave its registers with.
pub open spec fn sets_up(
    access: Access,
    id: u8,
    trigger: u8,
    src: Side,
    dst: Side,
    count: u16,
    mode: TransferMode,
) -> bool {
    match access {
        Access::Ctl(channel, ctl) => {
            &&& channel == id
            &&& ctl.srcwdth == src.width && ctl.dstwdth == dst.width
            &&& ctl.srcincr == src.incr && ctl.dstincr == dst.incr
            // It reloads and runs again exactly where the mode asked for never finishes.
            &&& (ctl.tm is Rptsngl || ctl.tm is Rptblck) <==> (mode is RepeatSingle || mode is RepeatBlock)
            // It moves the whole block on one trigger exactly where that was asked for.
            &&& (ctl.tm is Block || ctl.tm is Rptblck) <==> (mode is Block || mode is RepeatBlock)
            &&& ctl.autoen is Off && ctl.preirq is PreirqDisable && ctl.em is Normal
        },
        Access::Tctl { channel, tsel, tint } => channel == id && tsel == trigger && tint is External,
        Access::Size(channel, size) => channel == id && size == count,
        Access::Source(channel, address) => channel == id && address == src.address,
        Access::Destination(channel, address) => channel == id && address == dst.address,
        Access::Enable { channel, en, req } => channel == id && !en && !req,
        Access::Fence => true,
        _ => false,
    }
}

/// A channel is set up for the transfer that was asked for and no other: its trigger, its count, both addresses
/// with their widths and increments, and a mode that repeats exactly where the one asked for does. The channel is
/// disabled before its registers are written, and no other channel is touched.
pub proof fn channel_is_set_up_as_asked(id: u8, trigger: u8, src: Side, dst: Side, count: u16, mode: TransferMode)
    ensures
        ({
            let asked = configure_accesses(id, trigger, src, dst, count, mode);

            &&& forall|i: int|
                0 <= i < asked.len() ==> sets_up(#[trigger] asked[i], id, trigger, src, dst, count, mode)
            &&& exists|i: int| 0 <= i < asked.len() && #[trigger] asked[i] is Enable
            &&& exists|i: int| 0 <= i < asked.len() && #[trigger] asked[i] is Ctl
            &&& exists|i: int| 0 <= i < asked.len() && #[trigger] asked[i] is Tctl
            &&& exists|i: int| 0 <= i < asked.len() && #[trigger] asked[i] is Size
            &&& exists|i: int| 0 <= i < asked.len() && #[trigger] asked[i] is Source
            &&& exists|i: int| 0 <= i < asked.len() && #[trigger] asked[i] is Destination
            &&& forall|i: int, j: int|
                0 <= i < asked.len() && 0 <= j < asked.len() && #[trigger] asked[i] is Enable && (
                #[trigger] asked[j] is Ctl || asked[j] is Tctl) ==> i < j
        }),
{
    let asked = configure_accesses(id, trigger, src, dst, count, mode);
    assert(asked[1] is Enable);
    assert(asked[2] is Ctl);
    assert(asked[3] is Tctl);
    assert(asked[4] is Size);
    assert(asked[5] is Source);
    assert(asked[6] is Destination);
}

/// The mode a channel is programmed with finishes exactly where the mode asked for does, and only the modes that
/// finish make a transfer that can be waited for.
pub proof fn repeating_modes_repeat(mode: TransferMode)
    ensures
        mode.terminates_spec() <==> mode is Single || mode is Block,
        mode.terminates_spec() <==> mode.tm() is Single || mode.tm() is Block,
        (mode is Single || mode is RepeatSingle) <==> (mode.tm() is Single || mode.tm() is Rptsngl),
{
}

/// Nothing to move and too much to count are told apart: an empty transfer is `NoTransfers`, and only a count
/// past sixteen bits is `TooManyTransfers`.
pub proof fn refusals_are_told_apart(count: int)
    requires
        count >= 0,
    ensures
        refusal(count) == Some(Error::NoTransfers) <==> count == 0,
        refusal(count) == Some(Error::TooManyTransfers) <==> count > 0xffff,
{
}

/// A request goes with every enable, so that a transfer by software starts, and is withdrawn with every disable,
/// so that none is taken up late.
pub proof fn request_goes_with_the_enable(id: u8, i: int)
    ensures
        0 <= i < start_accesses(id).len() ==> (start_accesses(id)[i] matches Access::Enable { channel, en, req }
            ==> channel == id && en && req),
        0 <= i < resume_accesses(id).len() ==> (resume_accesses(id)[i] matches Access::Enable { channel, en, req }
            ==> channel == id && en && req),
        0 <= i < stop_accesses(id).len() ==> (stop_accesses(id)[i] matches Access::Enable { channel, en, req }
            ==> channel == id && !en && !req),
        start_accesses(id).last() is Enable,
        resume_accesses(id).last() is Enable,
        pause_accesses(id).last() is Enable,
{
    assert(stop_accesses(id)[1] is Enable);
}

/// A buffer is given back only once its channel has come to rest: what gives a transfer up disables the channel,
/// waits for that channel, and fences last. Waiting for a transfer to finish does the same but disables nothing,
/// so that it does finish.
pub proof fn buffer_is_free_once_stopped(regs: ChannelRegs, id: u8)
    ensures
        ({
            let stop = stop_accesses(id);
            let n = stop.len() as int;

            &&& stop[n - 1] is Fence
            &&& stop[n - 2] == Access::WaitStopped(id)
            &&& !regs.run(id, stop.take(n - 2)).en
        }),
        ({
            let wait = wait_accesses(id);
            let n = wait.len() as int;

            &&& wait[n - 1] is Fence
            &&& wait[n - 2] == Access::WaitStopped(id)
            &&& regs.run(id, wait) == regs
        }),
{
    reveal_with_fuel(ChannelRegs::run, 8);
    let stop = stop_accesses(id);
    assert(stop.take(stop.len() - 2) =~= pause_accesses(id));
}

/// An interrupt wakes the waiter of the channel it is for and masks that channel alone; the errors are reported
/// as what they are, and nothing is done about an index that is no channel's.
pub proof fn interrupt_is_for_its_channel(stat: u8, indices: Indices, channels: u8, channel: u8)
    requires
        indices.ch0 > 0,
        indices.dataerr != indices.addrerr,
        indices.dataerr >= indices.ch0 + channels,
        indices.addrerr >= indices.ch0 + channels,
        stat == 0 || stat >= indices.ch0,
    ensures
        irq_event(stat, indices, channels) == Event::Wake(channel) <==> channel < channels && stat == indices.ch0
            + channel,
        irq_event(stat, indices, channels) is DataError <==> stat == indices.dataerr,
        irq_event(stat, indices, channels) is AddressError <==> stat == indices.addrerr,
        irq_accesses(Event::Wake(channel)) == seq![Access::Unmask(channel, false)],
        irq_event(stat, indices, channels) !is Wake ==> irq_accesses(irq_event(stat, indices, channels)).len() == 0,
{
}

/// The arbitration policy ends up as asked: whatever is not programmed is what reset leaves, a fixed priority
/// and blocks that nothing interrupts.
pub proof fn arbitration_is_as_asked(burst_size: BurstSize, round_robin: bool)
    ensures
        ({
            let asked = init_accesses(burst_size, round_robin);

            &&& asked.len() <= 1
            &&& asked.len() == 0 ==> burst_size is Complete && !round_robin
            &&& asked.len() == 1 ==> (asked[0] matches Access::Prio(size, robin) && robin == round_robin && (
            burst_size is Complete <==> size is Infiniti) && (burst_size is _8 <==> size is Burst8) && (
            burst_size is _16 <==> size is Burst16) && (burst_size is _32 <==> size is Burst32))
        }),
{
}

/// A transfer that software starts keeps the device awake, and one that hardware starts does not need to. A
/// channel reports both of its errors, with its line let through, from the start.
pub proof fn software_transfers_hold_the_floor(channel: Channel, trigger_source: u8)
    ensures
        trigger_source == 0 ==> channel.floor_for(trigger_source) == channel.sw_wake_floor(),
        trigger_source != 0 ==> channel.floor_for(trigger_source) is None,
        arm_errors().contains(Access::UnmaskErrors { dataerr: true, addrerr: true }),
        arm_errors().last() is EnableLine,
{
    assert(arm_errors()[1] == Access::UnmaskErrors { dataerr: true, addrerr: true });
}

/// Running two lists of accesses is running them one after the other.
proof fn lemma_run_adds_up(regs: ChannelRegs, id: u8, a: Seq<Access>, b: Seq<Access>)
    ensures
        regs.run(id, a + b) == regs.run(id, a).run(id, b),
    decreases b.len(),
{
    if b.len() == 0 {
        assert(a + b =~= a);
    } else {
        assert((a + b).drop_last() =~= a + b.drop_last());
        lemma_run_adds_up(regs, id, a, b.drop_last());
    }
}

/// What starting a channel leaves it with, whatever it was.
proof fn lemma_start_leaves_running(regs: ChannelRegs, id: u8)
    ensures
        regs.run(id, start_accesses(id)).en,
        regs.run(id, start_accesses(id)).unmasked,
        !regs.run(id, start_accesses(id)).stale,
{
    reveal_with_fuel(ChannelRegs::run, 8);
}

/// A transfer starts exactly where its count can be programmed, and then its channel is left running, armed and
/// with no stale completion, set up for that transfer, on the channel and under the floor it was asked for on. One
/// that is refused touches nothing.
pub proof fn started_transfer_runs(
    channel: Channel,
    transfer: Result<Transfer, Error>,
    trigger_source: u8,
    src: Side,
    dst: Side,
    count: int,
    mode: TransferMode,
    before: Seq<Access>,
    after: Seq<Access>,
    regs: ChannelRegs,
)
    requires
        channel.started(transfer, trigger_source, src, dst, count, mode, before, after),
        count >= 0,
    ensures
        transfer is Ok <==> 1 <= count <= 65535,
        transfer is Err ==> after == before,
        transfer matches Ok(transfer) ==> ({
            let asked = after.skip(before.len() as int);

            &&& before.len() <= after.len() && after.take(before.len() as int) == before
            &&& regs.run(channel.id(), asked).en
            &&& regs.run(channel.id(), asked).unmasked
            &&& !regs.run(channel.id(), asked).stale
            &&& forall|i: int|
                0 <= i < 7 ==> sets_up(
                    #[trigger] asked[i],
                    channel.id(),
                    trigger_source,
                    src,
                    dst,
                    count as u16,
                    mode,
                )
            &&& forall|i: int|
                7 <= i < asked.len() ==> !((#[trigger] asked[i]) is Ctl || asked[i] is Tctl || asked[i] is Size
                    || asked[i] is Source || asked[i] is Destination)
            &&& transfer.channel().id() == channel.id()
            &&& trigger_source == 0 ==> transfer.floor() == channel.sw_wake_floor()
            &&& trigger_source != 0 ==> transfer.floor() is None
        }),
{
    if transfer is Ok {
        let id = channel.id();
        let configure = configure_accesses(id, trigger_source, src, dst, count as u16, mode);
        let start = start_accesses(id);
        let asked = after.skip(before.len() as int);
        assert(after =~= before + (configure + start));
        assert(asked =~= configure + start);
        assert(after.take(before.len() as int) =~= before);
        lemma_run_adds_up(regs, id, configure, start);
        channel_is_set_up_as_asked(id, trigger_source, src, dst, count as u16, mode);
        lemma_start_leaves_running(regs.run(id, configure), id);
        assert forall|i: int| 0 <= i < 7 implies sets_up(
            #[trigger] asked[i],
            id,
            trigger_source,
            src,
            dst,
            count as u16,
            mode,
        ) by {
            assert(asked[i] == configure[i]);
        }
    }
}

/// A read fills its buffer from the one address: it starts exactly where the buffer holds as many elements as
/// `SZ` can count and at least one, each of the type's own width, and the channel then stays at the source while it
/// moves through the destination from its first element, by the destination's stride.
pub proof fn read_fills_the_buffer<SW: Word, DW: Word>(
    channel: Channel,
    transfer: Result<Transfer, Error>,
    trigger_source: u8,
    src: u32,
    dst: u32,
    len: usize,
    options: TransferOptions,
    before: Seq<Access>,
    after: Seq<Access>,
)
    requires
        channel.reads::<SW, DW>(transfer, trigger_source, src, dst, len, options, before, after),
    ensures
        ({
            let step = options.dst_stride.incr().elements();
            let asked = after.skip(before.len() as int);

            &&& transfer is Ok <==> step <= len < 65536 * step
            &&& transfer == Err::<Transfer, Error>(Error::NoTransfers) <==> len < step
            &&& transfer is Ok ==> {
                &&& after.take(before.len() as int) == before
                &&& asked.contains(Access::Source(channel.id(), src))
                &&& asked.contains(Access::Destination(channel.id(), dst))
                &&& asked.contains(Access::Tctl { channel: channel.id(), tsel: trigger_source, tint: Tint::External })
                &&& asked[2] matches Access::Ctl(_, ctl) && {
                    &&& ctl.srcwdth == SW::WIDTH && ctl.srcincr is Unchanged
                    &&& ctl.dstwdth == DW::WIDTH && ctl.dstincr == options.dst_stride.incr()
                    &&& ctl.tm == options.mode.tm()
                }
                &&& asked[4] matches Access::Size(_, size) && size * step <= len < (size + 1) * step
            }
        }),
{
    let count = moved_through(len, options.dst_stride);
    lemma_count_fits(len, options.dst_stride);
    if transfer is Ok {
        let id = channel.id();
        let src = Side::fixed(src, SW::WIDTH);
        let dst = Side::strided(dst, DW::WIDTH, options.dst_stride);
        let asked = after.skip(before.len() as int);
        let configure = configure_accesses(id, trigger_source, src, dst, count as u16, options.mode);
        assert(after =~= before + (configure + start_accesses(id)));
        assert(asked =~= configure + start_accesses(id));
        assert(after.take(before.len() as int) =~= before);
        assert(asked[3] is Tctl && asked[5] is Source && asked[6] is Destination);
    }
}

/// A write empties its buffer into the one address: it starts exactly where the buffer holds as many elements as
/// `SZ` can count and at least one, each of the type's own width, and the channel then stays at the destination while
/// it moves through the source from its first element, by the source's stride.
pub proof fn write_empties_the_buffer<SW: Word, DW: Word>(
    channel: Channel,
    transfer: Result<Transfer, Error>,
    trigger_source: u8,
    src: u32,
    len: usize,
    dst: u32,
    options: TransferOptions,
    before: Seq<Access>,
    after: Seq<Access>,
)
    requires
        channel.writes::<SW, DW>(transfer, trigger_source, src, len, dst, options, before, after),
    ensures
        ({
            let step = options.src_stride.incr().elements();
            let asked = after.skip(before.len() as int);

            &&& transfer is Ok <==> step <= len < 65536 * step
            &&& transfer == Err::<Transfer, Error>(Error::NoTransfers) <==> len < step
            &&& transfer is Ok ==> {
                &&& after.take(before.len() as int) == before
                &&& asked.contains(Access::Source(channel.id(), src))
                &&& asked.contains(Access::Destination(channel.id(), dst))
                &&& asked.contains(Access::Tctl { channel: channel.id(), tsel: trigger_source, tint: Tint::External })
                &&& asked[2] matches Access::Ctl(_, ctl) && {
                    &&& ctl.srcwdth == SW::WIDTH && ctl.srcincr == options.src_stride.incr()
                    &&& ctl.dstwdth == DW::WIDTH && ctl.dstincr is Unchanged
                    &&& ctl.tm == options.mode.tm()
                }
                &&& asked[4] matches Access::Size(_, size) && size * step <= len < (size + 1) * step
            }
        }),
{
    let count = moved_through(len, options.src_stride);
    lemma_count_fits(len, options.src_stride);
    if transfer is Ok {
        let id = channel.id();
        let src = Side::strided(src, SW::WIDTH, options.src_stride);
        let dst = Side::fixed(dst, DW::WIDTH);
        let asked = after.skip(before.len() as int);
        let configure = configure_accesses(id, trigger_source, src, dst, count as u16, options.mode);
        assert(after =~= before + (configure + start_accesses(id)));
        assert(asked =~= configure + start_accesses(id));
        assert(after.take(before.len() as int) =~= before);
        assert(asked[3] is Tctl && asked[5] is Source && asked[6] is Destination);
    }
}

/// How many elements a buffer holds at a stride, in terms of its length.
proof fn lemma_count_fits(len: usize, stride: Stride)
    ensures
        ({
            let step = stride.incr().elements();
            let count = moved_through(len, stride);

            &&& step > 0
            &&& count >= 0
            &&& count * step <= len < (count + 1) * step
            &&& count == 0 <==> len < step
            &&& count <= 65535 <==> len < 65536 * step
        }),
{
    let step = stride.step_spec() as int;
    let count = len as int / step;
    stride_matches_its_increment(stride);
    vstd::arithmetic::div_mod::lemma_fundamental_div_mod(len as int, step);
    assert(count * step <= len && len < (count + 1) * step && count >= 0) by (nonlinear_arith)
        requires
            len == step * count + len as int % step,
            0 <= len as int % step < step,
            len >= 0,
    ;
    assert((count == 0 <==> len < step) && (count <= 65535 <==> len < 65536 * step)) by (nonlinear_arith)
        requires
            count * step <= len < (count + 1) * step,
            count >= 0,
            step > 0,
    ;
}

} // verus!
