//! Waiting on the controller and on the bus.
//!
//! Each wait here is a value that is polled with what the registers read: it asks for the accesses that
//! come next, and says whether it is over.

use super::low_level::{
    bus_free_set, bus_free_sources, clear_timeout, imask_after, masked_after, reset_accesses, Access, Cbmon, CpuInt,
    Event, I2c, Status,
};
use super::{Error, Resolved, IDLE_HALF_PERIODS};
use crate::bus::Bus;
use vstd::prelude::*;

verus! {

/// Waits for the controller to report itself idle, for a few SCL half-periods and no longer.
///
/// Bounded rather than spun on, because `CSR` is not trustworthy in this window: after a timeout it reads
/// `IDLE` and `BUSBSY` at once, permanently.
#[derive(Clone, Copy, PartialEq, Eq, Debug, Structural)]
pub struct IdleWait {
    /// Half-periods waited so far.
    pub waited: u8,
}

impl IdleWait {
    /// A wait that has not begun.
    pub open spec fn fresh() -> IdleWait {
        IdleWait { waited: 0 }
    }

    /// What a poll comes to: the answer, once there is one.
    pub open spec fn answer(self, idle: bool) -> Option<bool> {
        if idle || self.waited >= IDLE_HALF_PERIODS {
            Some(idle)
        } else {
            None
        }
    }

    /// The wait after a poll.
    pub open spec fn after(self, idle: bool) -> IdleWait {
        if self.answer(idle) is Some {
            self
        } else {
            IdleWait { waited: (self.waited + 1) as u8 }
        }
    }

    /// What a poll asks for.
    pub open spec fn accesses(self, idle: bool, half: u32) -> Seq<Access> {
        if self.answer(idle) is Some {
            Seq::empty()
        } else {
            seq![Access::Delay(half)]
        }
    }

    /// Begin to wait.
    pub fn new() -> (wait: Self)
        ensures
            wait == Self::fresh(),
    {
        IdleWait { waited: 0 }
    }

    /// Poll, with `CSR.IDLE` read. `half` is CPU cycles in half an SCL period.
    pub fn poll(&mut self, idle: bool, half: u32, bus: &mut Bus<Access>) -> (answer: Option<bool>)
        ensures
            answer == old(self).answer(idle),
            *final(self) == old(self).after(idle),
            final(bus)@ == old(bus)@ + old(self).accesses(idle, half),
    {
        assert(bus@ + Seq::<Access>::empty() =~= bus@);
        if idle || self.waited >= IDLE_HALF_PERIODS {
            Some(idle)
        } else {
            self.waited += 1;
            bus.push(Access::Delay(half));
            None
        }
    }
}

/// How many polls a wait can still take.
pub open spec fn polls_left(wait: IdleWait) -> int {
    if wait.waited >= IDLE_HALF_PERIODS {
        0
    } else {
        IDLE_HALF_PERIODS - wait.waited
    }
}

/// The wait for an idle controller ends, whatever the controller says: a poll that does not end it brings it
/// one nearer the end, and there are no more than [`IDLE_HALF_PERIODS`] of those.
pub proof fn idle_wait_ends(wait: IdleWait, idle: bool)
    ensures
        polls_left(IdleWait::fresh()) == IDLE_HALF_PERIODS,
        polls_left(wait) == 0 ==> wait.answer(idle) is Some,
        wait.answer(idle) is None ==> polls_left(wait.after(idle)) == polls_left(wait) - 1,
{
}

/// Half-periods the lines are watched for. Twenty is ten bit times.
pub const STUCK_HALF_PERIODS: u8 = 20;

/// Watches the lines to tell whether the bus is stuck with a target holding SDA low.
///
/// SDA low while SCL sits idle high. Another controller mid-transaction also holds SDA low, but it would
/// be clocking SCL, so the line is watched across a few half-periods to tell the two apart. A STOP still on
/// the wire looks identical for up to a bit period after every NACK, which is the other reason to wait.
#[derive(Clone, Copy, PartialEq, Eq, Debug, Structural)]
pub struct StuckWatch {
    /// Samples taken so far.
    pub samples: u8,
}

impl StuckWatch {
    /// A watch that has not begun.
    pub open spec fn fresh() -> StuckWatch {
        StuckWatch { samples: 0 }
    }

    /// What a sample comes to: whether the bus is stuck, once that is known. The first sample is about SDA
    /// alone.
    pub open spec fn answer(self, mon: Cbmon) -> Option<bool> {
        if mon.sda || (self.samples > 0 && !mon.scl) {
            Some(false)
        } else if self.samples >= STUCK_HALF_PERIODS {
            Some(true)
        } else {
            None
        }
    }

    /// The watch after a sample.
    pub open spec fn after(self, mon: Cbmon) -> StuckWatch {
        if self.answer(mon) is Some {
            self
        } else {
            StuckWatch { samples: (self.samples + 1) as u8 }
        }
    }

    /// What a sample asks for.
    pub open spec fn accesses(self, mon: Cbmon, half: u32) -> Seq<Access> {
        if self.answer(mon) is Some {
            Seq::empty()
        } else {
            seq![Access::Delay(half)]
        }
    }

    /// What a watch makes of a run of samples.
    pub open spec fn verdict(self, mons: Seq<Cbmon>) -> Option<bool>
        decreases mons.len(),
    {
        if mons.len() == 0 {
            None
        } else {
            match self.answer(mons[0]) {
                Some(stuck) => Some(stuck),
                None => self.after(mons[0]).verdict(mons.drop_first()),
            }
        }
    }

    /// Begin to watch.
    pub fn new() -> (watch: Self)
        ensures
            watch == Self::fresh(),
    {
        StuckWatch { samples: 0 }
    }

    /// Poll, with `CBMON` read. `half` is CPU cycles in half an SCL period.
    pub fn poll(&mut self, mon: Cbmon, half: u32, bus: &mut Bus<Access>) -> (answer: Option<bool>)
        ensures
            answer == old(self).answer(mon),
            *final(self) == old(self).after(mon),
            final(bus)@ == old(bus)@ + old(self).accesses(mon, half),
    {
        assert(bus@ + Seq::<Access>::empty() =~= bus@);
        if mon.sda {
            return Some(false);
        }
        if self.samples > 0 && !mon.scl {
            return Some(false);
        }
        if self.samples >= STUCK_HALF_PERIODS {
            return Some(true);
        }
        self.samples += 1;
        bus.push(Access::Delay(half));
        None
    }
}

proof fn lemma_verdict(mons: Seq<Cbmon>, samples: u8)
    requires
        samples <= STUCK_HALF_PERIODS,
        samples <= mons.len(),
        forall|i: int| 0 <= i < samples ==> !(#[trigger] mons[i]).sda && (i > 0 ==> mons[i].scl),
    ensures
        (StuckWatch { samples }).verdict(mons.skip(samples as int)) == Some(true) <==> (mons.len() > STUCK_HALF_PERIODS
            && forall|i: int| 0 <= i <= STUCK_HALF_PERIODS ==> !(#[trigger] mons[i]).sda && (i > 0 ==> mons[i].scl)),
    decreases STUCK_HALF_PERIODS - samples,
{
    let rest = mons.skip(samples as int);
    if rest.len() > 0 {
        assert(rest[0] == mons[samples as int]);
        let watch = StuckWatch { samples };
        if watch.answer(rest[0]) is None {
            assert(rest.drop_first() =~= mons.skip(samples + 1));
            lemma_verdict(mons, (samples + 1) as u8);
        } else {
            assert(mons[samples as int].sda || (samples > 0 && !mons[samples as int].scl) || samples
                == STUCK_HALF_PERIODS);
        }
    }
}

/// A bus is taken for stuck exactly when SDA is low over the whole window and SCL is high in all of it after
/// the first sample: one look at a released SDA, or at a moving SCL, is enough to say it is not.
pub proof fn stuck_means_the_whole_window(mons: Seq<Cbmon>)
    ensures
        StuckWatch::fresh().verdict(mons) == Some(true) <==> (mons.len() > STUCK_HALF_PERIODS && forall|i: int|
            0 <= i <= STUCK_HALF_PERIODS ==> !(#[trigger] mons[i]).sda && (i > 0 ==> mons[i].scl)),
{
    assert(mons.skip(0) =~= mons);
    lemma_verdict(mons, 0);
}

/// What a poll of a wait for the bus asks of its caller.
#[derive(Clone, Copy, PartialEq, Eq, Debug)]
pub enum Wait {
    /// Read the registers and poll again.
    Again,
    /// Wait for the interrupt, and then poll again.
    Park,
    /// It is over.
    Ready(Result<(), Error>),
}

/// Where a blocking wait for the bus has got to.
#[derive(Clone, Copy, PartialEq, Eq, Debug, Structural)]
pub enum BusWait {
    /// Watching for a bus stuck on SDA, which is reported rather than waited on.
    Watching(StuckWatch),
    /// Waiting for whoever holds the bus to release it.
    Waiting,
}

impl BusWait {
    /// What a poll comes to.
    pub open spec fn outcome(self, mon: Cbmon, status: Status) -> Wait {
        match self {
            BusWait::Watching(watch) => match watch.answer(mon) {
                Some(true) => Wait::Ready(Err(Error::BusStuck)),
                _ => Wait::Again,
            },
            BusWait::Waiting => if !status.csr.busbsy {
                Wait::Ready(Ok(()))
            } else if status.timeouta {
                Wait::Ready(Err(Error::Timeout))
            } else {
                Wait::Again
            },
        }
    }

    /// The wait after a poll.
    pub open spec fn after(self, mon: Cbmon) -> BusWait {
        match self {
            BusWait::Watching(watch) => if watch.answer(mon) == Some(false) {
                BusWait::Waiting
            } else {
                BusWait::Watching(watch.after(mon))
            },
            BusWait::Waiting => BusWait::Waiting,
        }
    }

    /// What a poll asks for.
    pub open spec fn accesses(self, mon: Cbmon, status: Status, resolved: Resolved) -> Seq<Access> {
        match self {
            BusWait::Watching(watch) => if watch.answer(mon) == Some(false) {
                seq![Access::Iclr(Event::ClockLowTimeout.sources())]
            } else {
                watch.accesses(mon, resolved.half_period_cycles as u32)
            },
            BusWait::Waiting => if status.csr.busbsy && status.timeouta {
                seq![Access::Iclr(Event::ClockLowTimeout.sources())] + reset_accesses(resolved)
            } else {
                Seq::empty()
            },
        }
    }

    /// Begin to wait for whoever holds the bus to release it, giving up on the SCL-low timeout.
    ///
    /// A bus stuck on SDA is reported as [`Error::BusStuck`] rather than waited on, since no amount of
    /// waiting fixes it. Otherwise only a bus held low can time out, because the counter watches SCL low.
    pub fn new() -> (wait: Self)
        ensures
            wait == BusWait::Watching(StuckWatch::fresh()),
    {
        BusWait::Watching(StuckWatch::new())
    }

    /// Poll, with the lines and the status read.
    pub fn poll(&mut self, i2c: &mut I2c, mon: Cbmon, status: Status, bus: &mut Bus<Access>) -> (wait: Wait)
        ensures
            *final(i2c) == *old(i2c),
            wait == old(self).outcome(mon, status),
            *final(self) == old(self).after(mon),
            final(bus)@ == old(bus)@ + old(self).accesses(mon, status, old(i2c).resolved()),
    {
        assert(bus@ + Seq::<Access>::empty() =~= bus@);
        match *self {
            BusWait::Watching(watch) => {
                let mut watch = watch;

                match watch.poll(mon, i2c.half_period(), bus) {
                    None => {
                        *self = BusWait::Watching(watch);
                        Wait::Again
                    },
                    Some(true) => Wait::Ready(Err(Error::BusStuck)),
                    Some(false) => {
                        clear_timeout(bus);
                        *self = BusWait::Waiting;
                        assert(bus@ =~= old(bus)@ + old(self).accesses(mon, status, old(i2c).resolved()));
                        Wait::Again
                    },
                }
            },
            BusWait::Waiting => {
                if !status.csr.busbsy {
                    return Wait::Ready(Ok(()));
                }
                if status.timeouta {
                    clear_timeout(bus);
                    i2c.reset_peripheral(bus);
                    assert(bus@ =~= old(bus)@ + old(self).accesses(mon, status, old(i2c).resolved()));
                    return Wait::Ready(Err(Error::Timeout));
                }
                Wait::Again
            },
        }
    }
}

/// Where an asynchronous wait for the bus has got to.
#[derive(Clone, Copy, PartialEq, Eq, Debug, Structural)]
pub enum AsyncBusWait {
    /// Not begun: a transfer that was dropped part-way is cleaned up after first.
    Start,
    /// The peripheral was reset, which released our end of the bus. If SDA is still down, the target is
    /// holding it.
    AfterReset(StuckWatch),
    /// Asking whether the bus is free already.
    Check,
    /// Watching for a bus stuck on SDA.
    Watching(StuckWatch),
    /// About to arm the wake-up.
    Arm,
    /// Armed: a STOP is what releases the bus, and the clock-low timeout is the way out if it never comes.
    Armed,
}

impl AsyncBusWait {
    /// What a poll comes to.
    pub open spec fn outcome(self, mon: Cbmon, status: Status) -> Wait {
        match self {
            AsyncBusWait::AfterReset(watch) | AsyncBusWait::Watching(watch) => if watch.answer(mon) == Some(true) {
                Wait::Ready(Err(Error::BusStuck))
            } else {
                Wait::Again
            },
            AsyncBusWait::Check => if status.csr.busbsy {
                Wait::Again
            } else {
                Wait::Ready(Ok(()))
            },
            AsyncBusWait::Start | AsyncBusWait::Arm => Wait::Again,
            AsyncBusWait::Armed => if status.timeouta {
                Wait::Ready(Err(Error::Timeout))
            } else if status.csr.busbsy {
                Wait::Park
            } else {
                Wait::Ready(Ok(()))
            },
        }
    }

    /// The wait after a poll.
    pub open spec fn after(self, abandoned: bool, mon: Cbmon) -> AsyncBusWait {
        match self {
            AsyncBusWait::Start => if abandoned {
                AsyncBusWait::AfterReset(StuckWatch::fresh())
            } else {
                AsyncBusWait::Check
            },
            AsyncBusWait::AfterReset(watch) => if watch.answer(mon) == Some(false) {
                AsyncBusWait::Check
            } else {
                AsyncBusWait::AfterReset(watch.after(mon))
            },
            AsyncBusWait::Check => AsyncBusWait::Watching(StuckWatch::fresh()),
            AsyncBusWait::Watching(watch) => if watch.answer(mon) == Some(false) {
                AsyncBusWait::Arm
            } else {
                AsyncBusWait::Watching(watch.after(mon))
            },
            AsyncBusWait::Arm => AsyncBusWait::Armed,
            AsyncBusWait::Armed => AsyncBusWait::Arm,
        }
    }

    /// What a poll asks for.
    pub open spec fn accesses(self, abandoned: bool, mon: Cbmon, status: Status, resolved: Resolved) -> Seq<Access> {
        match self {
            AsyncBusWait::Start => if abandoned {
                reset_accesses(resolved)
            } else {
                Seq::empty()
            },
            AsyncBusWait::AfterReset(watch) => watch.accesses(mon, resolved.half_period_cycles as u32),
            AsyncBusWait::Check => Seq::empty(),
            AsyncBusWait::Watching(watch) => if watch.answer(mon) == Some(false) {
                seq![Access::Iclr(Event::ClockLowTimeout.sources())]
            } else {
                watch.accesses(mon, resolved.half_period_cycles as u32)
            },
            AsyncBusWait::Arm => seq![Access::Iclr(Event::Stop.sources()), Access::Unmask(bus_free_set())],
            AsyncBusWait::Armed => if status.timeouta {
                seq![Access::Iclr(Event::ClockLowTimeout.sources())] + reset_accesses(resolved) + seq![
                    Access::Mask(bus_free_set()),
                ]
            } else if status.csr.busbsy {
                Seq::empty()
            } else {
                seq![Access::Mask(bus_free_set())]
            },
        }
    }

    /// Whether the wake-up is armed, so that dropping the wait has to mask it.
    pub open spec fn is_armed(self) -> bool {
        self is Arm || self is Armed
    }

    /// Begin to make the peripheral fit for a new transfer after a dropped one, and then wait for the bus.
    pub fn new() -> (wait: Self)
        ensures
            wait == AsyncBusWait::Start,
    {
        AsyncBusWait::Start
    }

    /// Poll, with the waker registered and then the lines and the status read.
    ///
    /// Nothing short of a reset ends a burst that nobody services in bounded time: a STOP-only command is
    /// illegal until the transaction finishes, and no interrupt is raised when it does.
    pub fn poll(&mut self, i2c: &mut I2c, mon: Cbmon, status: Status, bus: &mut Bus<Access>) -> (wait: Wait)
        ensures
            final(i2c).same_but_abandoned(old(i2c)),
            final(i2c).is_abandoned() == (old(i2c).is_abandoned() && !(*old(self) is Start)),
            wait == old(self).outcome(mon, status),
            !(wait is Ready) ==> *final(self) == old(self).after(old(i2c).is_abandoned(), mon),
            final(bus)@ == old(bus)@ + old(self).accesses(old(i2c).is_abandoned(), mon, status, old(i2c).resolved()),
    {
        assert(bus@ + Seq::<Access>::empty() =~= bus@);
        match *self {
            AsyncBusWait::Start => {
                if i2c.take_abandoned() {
                    i2c.reset_peripheral(bus);
                    *self = AsyncBusWait::AfterReset(StuckWatch::new());
                } else {
                    *self = AsyncBusWait::Check;
                }
                Wait::Again
            },
            AsyncBusWait::AfterReset(watch) => {
                let mut watch = watch;

                match watch.poll(mon, i2c.half_period(), bus) {
                    None => {
                        *self = AsyncBusWait::AfterReset(watch);
                        Wait::Again
                    },
                    // Only clocking it out will help, which is the caller's call to make, not ours.
                    Some(true) => Wait::Ready(Err(Error::BusStuck)),
                    Some(false) => {
                        *self = AsyncBusWait::Check;
                        Wait::Again
                    },
                }
            },
            AsyncBusWait::Check => {
                if !status.csr.busbsy {
                    return Wait::Ready(Ok(()));
                }
                *self = AsyncBusWait::Watching(StuckWatch::new());
                Wait::Again
            },
            AsyncBusWait::Watching(watch) => {
                let mut watch = watch;

                match watch.poll(mon, i2c.half_period(), bus) {
                    None => {
                        *self = AsyncBusWait::Watching(watch);
                        Wait::Again
                    },
                    Some(true) => Wait::Ready(Err(Error::BusStuck)),
                    Some(false) => {
                        clear_timeout(bus);
                        *self = AsyncBusWait::Arm;
                        assert(bus@ =~= old(bus)@ + old(self).accesses(
                            old(i2c).is_abandoned(),
                            mon,
                            status,
                            old(i2c).resolved(),
                        ));
                        Wait::Again
                    },
                }
            },
            AsyncBusWait::Arm => {
                // The flag is cleared before the mask goes on: a STOP that lands between the two would
                // otherwise sit pending against a handler that only wakes.
                bus.push(Access::Iclr(Event::Stop.mask()));
                bus.push(Access::Unmask(bus_free_sources()));
                *self = AsyncBusWait::Armed;
                Wait::Again
            },
            AsyncBusWait::Armed => {
                // Read after arming, so a STOP that arrives in between is caught here rather than waited
                // on forever.
                if status.timeouta {
                    clear_timeout(bus);
                    // A timeout sticks: `BUSBSY` stays set with `IDLE` set too.
                    i2c.reset_peripheral(bus);
                    bus.push(Access::Mask(bus_free_sources()));
                    assert(bus@ =~= old(bus)@ + old(self).accesses(
                        old(i2c).is_abandoned(),
                        mon,
                        status,
                        old(i2c).resolved(),
                    ));
                    return Wait::Ready(Err(Error::Timeout));
                }
                if status.csr.busbsy {
                    *self = AsyncBusWait::Arm;
                    return Wait::Park;
                }
                bus.push(Access::Mask(bus_free_sources()));
                assert(bus@ =~= old(bus)@ + old(self).accesses(
                    old(i2c).is_abandoned(),
                    mon,
                    status,
                    old(i2c).resolved(),
                ));
                Wait::Ready(Ok(()))
            },
        }
    }

    /// Drop the wait part-way, which has to leave the wake-up masked: armed, it fires into a handler that
    /// only wakes, with no future to consume it.
    pub fn cancel(self, bus: &mut Bus<Access>)
        ensures
            final(bus)@ == (if self.is_armed() {
                old(bus)@.push(Access::Mask(bus_free_set()))
            } else {
                old(bus)@
            }),
    {
        match self {
            AsyncBusWait::Arm | AsyncBusWait::Armed => {
                bus.push(Access::Mask(bus_free_sources()));
            },
            _ => {},
        }
    }
}

/// A wait for the bus leaves its wake-up masked, however it ends once it is armed.
pub proof fn bus_wait_disarms(
    imask: CpuInt,
    before: Seq<Access>,
    abandoned: bool,
    mon: Cbmon,
    status: Status,
    resolved: Resolved,
)
    ensures
        AsyncBusWait::Armed.outcome(mon, status) is Ready ==> imask_after(
            imask,
            before + AsyncBusWait::Armed.accesses(abandoned, mon, status, resolved),
        ).intersection(bus_free_set()) == CpuInt::empty(),
        imask_after(imask, before.push(Access::Mask(bus_free_set()))).intersection(bus_free_set()) == CpuInt::empty(),
{
    let all = before + AsyncBusWait::Armed.accesses(abandoned, mon, status, resolved);
    if AsyncBusWait::Armed.outcome(mon, status) is Ready {
        assert(all.last() == Access::Mask(bus_free_set()));
        assert(imask_after(imask, all) == masked_after(imask_after(imask, all.drop_last()), all.last()));
    }
    let dropped = before.push(Access::Mask(bus_free_set()));
    assert(dropped.drop_last() =~= before);
    assert(imask_after(imask, dropped) == masked_after(imask_after(imask, before), dropped.last()));
}

/// An abandoned transfer is cleaned up after by a reset, before anything else is asked for, and only once.
pub proof fn abandoned_transfer_resets_first(mon: Cbmon, status: Status, resolved: Resolved)
    ensures
        AsyncBusWait::Start.accesses(true, mon, status, resolved) == reset_accesses(resolved),
        AsyncBusWait::Start.after(true, mon) is AfterReset,
        AsyncBusWait::Start.accesses(false, mon, status, resolved) == Seq::<Access>::empty(),
        AsyncBusWait::Start.after(false, mon) == AsyncBusWait::Check,
{
}

/// A wait for an idle controller answers what it reads once that is idle or four half-periods have passed, and
/// otherwise waits half a period more.
pub proof fn idle_wait_lasts_four_half_periods(wait: IdleWait, idle: bool, half: u32)
    ensures
        IdleWait::fresh().waited == 0,
        wait.answer(idle) is Some <==> idle || wait.waited >= 4,
        wait.answer(idle) matches Some(answer) ==> answer == idle,
        wait.answer(idle) is Some ==> wait.after(idle) == wait && wait.accesses(idle, half).len() == 0,
        wait.answer(idle) is None ==> {
            &&& wait.after(idle).waited == wait.waited + 1
            &&& wait.accesses(idle, half).len() == 1
            &&& wait.accesses(idle, half)[0] matches Access::Delay(cycles) && cycles == half
        },
{
}

/// A watch samples the lines once before and once after each of twenty half-periods, and ends sooner on an SDA that is
/// released or an SCL that moves.
pub proof fn stuck_watch_lasts_twenty_half_periods(watch: StuckWatch, mon: Cbmon, half: u32)
    ensures
        StuckWatch::fresh().samples == 0,
        watch.answer(mon) == Some(false) <==> mon.sda || (watch.samples > 0 && !mon.scl),
        watch.answer(mon) == Some(true) <==> watch.samples >= 20 && !mon.sda && mon.scl,
        watch.answer(mon) is Some ==> watch.after(mon) == watch && watch.accesses(mon, half).len() == 0,
        watch.answer(mon) is None ==> {
            &&& watch.after(mon).samples == watch.samples + 1
            &&& watch.accesses(mon, half).len() == 1
            &&& watch.accesses(mon, half)[0] matches Access::Delay(cycles) && cycles == half
        },
{
}

/// A blocking wait for the bus ends well exactly where nobody holds it, and otherwise with a bus that is stuck, or with
/// a timeout, which takes a reset. It looks for a stuck bus first, and forgets an old timeout before it waits.
pub proof fn bus_wait_ends_as_the_bus_does(wait: BusWait, mon: Cbmon, status: Status, resolved: Resolved)
    ensures
        wait.outcome(mon, status) == Wait::Ready(Ok::<(), Error>(())) <==> wait is Waiting && !status.csr.busbsy,
        wait.outcome(mon, status) == Wait::Ready(Err::<(), Error>(Error::Timeout)) <==> wait is Waiting
            && status.csr.busbsy && status.timeouta,
        wait.outcome(mon, status) == Wait::Ready(Err::<(), Error>(Error::BusStuck)) <==> (wait
            matches BusWait::Watching(watch) && watch.answer(mon) == Some(true)),
        wait.outcome(mon, status) is Again <==> (match wait {
            BusWait::Waiting => status.csr.busbsy && !status.timeouta,
            BusWait::Watching(watch) => watch.answer(mon) != Some(true),
        }),
        wait matches BusWait::Watching(watch) ==> {
            &&& wait.after(mon) is Waiting <==> watch.answer(mon) == Some(false)
            &&& watch.answer(mon) == Some(false) ==> wait.accesses(mon, status, resolved) == seq![
                Access::Iclr(Event::ClockLowTimeout.sources()),
            ]
            &&& watch.answer(mon) is None ==> {
                &&& wait.after(mon) == BusWait::Watching(watch.after(mon))
                &&& wait.accesses(mon, status, resolved) == seq![Access::Delay(resolved.half_period_cycles as u32)]
            }
        },
        wait is Waiting ==> {
            let asked = wait.accesses(mon, status, resolved);

            &&& wait.after(mon) is Waiting
            &&& !(status.csr.busbsy && status.timeouta) ==> asked.len() == 0
            &&& status.csr.busbsy && status.timeouta ==> asked.len() == 12 && asked[0] == Access::Iclr(
                Event::ClockLowTimeout.sources(),
            ) && asked[1] is Reset && asked.skip(1) == reset_accesses(resolved)
        },
{
    let asked = wait.accesses(mon, status, resolved);
    if wait is Waiting && status.csr.busbsy && status.timeouta {
        assert(asked.skip(1) =~= reset_accesses(resolved));
    }
}

/// An asynchronous wait for the bus ends well exactly where it looks and nobody holds the bus; a timeout only counts
/// once it is armed, and takes a reset; a stuck bus is reported. It parks only armed, and arms again before it parks
/// once more.
pub proof fn async_bus_wait_ends_as_the_bus_does(
    wait: AsyncBusWait,
    abandoned: bool,
    mon: Cbmon,
    status: Status,
    resolved: Resolved,
)
    ensures
        wait.outcome(mon, status) == Wait::Ready(Ok::<(), Error>(())) <==> !status.csr.busbsy && (wait is Check || (wait
            is Armed && !status.timeouta)),
        wait.outcome(mon, status) == Wait::Ready(Err::<(), Error>(Error::Timeout)) <==> wait is Armed
            && status.timeouta,
        wait.outcome(mon, status) == Wait::Ready(Err::<(), Error>(Error::BusStuck)) <==> (match wait {
            AsyncBusWait::AfterReset(watch) => watch.answer(mon) == Some(true),
            AsyncBusWait::Watching(watch) => watch.answer(mon) == Some(true),
            _ => false,
        }),
        wait.outcome(mon, status) is Park <==> wait is Armed && !status.timeouta && status.csr.busbsy,
        wait is Check ==> wait.after(abandoned, mon) == AsyncBusWait::Watching(StuckWatch { samples: 0 }),
        wait is Arm ==> wait.after(abandoned, mon) is Armed,
        wait is Armed ==> wait.after(abandoned, mon) is Arm,
        wait matches AsyncBusWait::AfterReset(watch) ==> (wait.after(abandoned, mon) is Check <==> watch.answer(mon)
            == Some(false)),
        wait matches AsyncBusWait::Watching(watch) ==> (wait.after(abandoned, mon) is Arm <==> watch.answer(mon)
            == Some(false)),
        wait is Arm ==> {
            let asked = wait.accesses(abandoned, mon, status, resolved);

            &&& asked.len() == 2
            &&& asked[0] matches Access::Iclr(set) && set == Event::Stop.sources()
            &&& asked[1] matches Access::Unmask(set) && set.cstop && set.timeouta
        },
        wait is Armed && status.timeouta ==> {
            let asked = wait.accesses(abandoned, mon, status, resolved);

            &&& asked.len() == 13 && asked[0] == Access::Iclr(Event::ClockLowTimeout.sources()) && asked[1] is Reset
            &&& asked.subrange(1, 12) == reset_accesses(resolved)
            &&& asked[12] == Access::Mask(bus_free_set())
        },
        wait is Start && abandoned ==> wait.accesses(abandoned, mon, status, resolved).len() == 11 && wait.accesses(
            abandoned,
            mon,
            status,
            resolved,
        )[0] is Reset,
        wait.is_armed() <==> wait is Arm || wait is Armed,
{
    let asked = wait.accesses(abandoned, mon, status, resolved);
    if wait is Armed && status.timeouta {
        assert(asked.subrange(1, 12) =~= reset_accesses(resolved));
    }
}

} // verus!
