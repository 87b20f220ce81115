//! Whole transfers: waiting for the bus, and then the bursts one after the other.

use super::burst::{length_error, single_plan, Burst, Phase, Plan, Progress};
use super::group::{
    flat, flat_splits, next_group, next_run_is_unique, no_run_is_no_bytes, run_and_rest_are_everything, run_at,
    runs_alternate, same_shape, something_left_is_a_run, Group, Operation,
};
use super::low_level::{self, stop_accesses, Access, Cbmon, CpuInt, Event, I2c, IidxStat, Status};
use super::wait::{AsyncBusWait, BusWait, Wait};
use super::{cursor_starts_at_the_run, Address, Error, MAX_TRANSFER_LEN};
use crate::bus::Bus;
use crate::sysctl::SleepLevel;
use vstd::prelude::*;

verus! {

/// How a transfer's operations become bursts.
#[derive(Clone, Copy, PartialEq, Eq, Debug, Structural)]
pub enum Style {
    /// Each operation is a burst, the first opens the transfer and the last ends it with a STOP. None may be
    /// empty.
    Single,
    /// Consecutive operations of the same type merge into one stretch of bus traffic, one address phase and
    /// then every byte of the run, and a change of direction is a repeated START with the address again.
    /// The last run ends with the STOP.
    Merged,
    /// Each operation is a burst of its own, and a STOP by itself ends the transfer. None may be empty.
    Separate,
}

/// What comes next in a transfer.
#[derive(Clone, Copy, PartialEq, Eq, Debug)]
pub enum Decision {
    /// This burst.
    Start(Burst),
    /// Nothing: it is over.
    Over(Result<(), Error>),
}

/// How far a transfer has got through its operations.
#[derive(Clone, Copy, PartialEq, Eq, Debug, Structural)]
pub struct Script {
    /// The target.
    pub address: Address,
    /// How operations become bursts.
    pub style: Style,
    /// The first operation that is not dealt with.
    pub next: usize,
    /// Whether a burst has opened the transfer.
    pub opened: bool,
}

impl Script {
    /// The plan for the next operation by itself.
    pub open spec fn next_plan(self, ops: Seq<Operation>) -> Plan {
        single_plan(
            ops,
            self.next,
            self.address,
            self.style == Style::Single && self.next > 0,
            self.style == Style::Single && self.next + 1 == ops.len(),
        )
    }

    /// The plan for a run.
    pub open spec fn run_plan(self, ops: Seq<Operation>, group: Group) -> Plan {
        Plan {
            address: self.address,
            group,
            restart: self.opened,
            send_stop: run_at(ops, group.end as int) is None,
        }
    }

    /// What comes next.
    pub open spec fn decision(self, ops: Seq<Operation>) -> Decision {
        match self.style {
            Style::Merged => match run_at(ops, self.next as int) {
                None => Decision::Over(Ok(())),
                // A run merges into one burst, and the burst length register bounds it.
                Some(group) => if group.total > MAX_TRANSFER_LEN {
                    Decision::Over(Err(Error::TransferLengthIsOverLimit))
                } else {
                    Decision::Start(Burst::at_start(self.run_plan(ops, group)))
                },
            },
            _ => if self.next >= ops.len() {
                Decision::Over(Ok(()))
            } else {
                match length_error(ops[self.next as int].bytes().len() as int) {
                    Some(error) => Decision::Over(Err(error)),
                    None => Decision::Start(Burst::at_start(self.next_plan(ops))),
                }
            },
        }
    }

    /// How far it has got after that.
    pub open spec fn after(self, ops: Seq<Operation>) -> Script {
        match self.decision(ops) {
            Decision::Start(burst) => Script { next: burst.plan.group.end, opened: true, ..self },
            Decision::Over(_) => self,
        }
    }

    /// What that asks for.
    pub open spec fn accesses(self, ops: Seq<Operation>) -> Seq<Access> {
        let cleared = seq![Access::Iclr(Event::ClockLowTimeout.sources())];

        match self.style {
            Style::Merged => if self.decision(ops) is Start {
                cleared
            } else {
                Seq::empty()
            },
            Style::Single => if self.next >= ops.len() {
                Seq::empty()
            } else {
                cleared
            },
            Style::Separate => if self.next >= ops.len() {
                stop_accesses()
            } else {
                cleared
            },
        }
    }

    /// Decide what comes next.
    pub fn decide(&mut self, ops: &[Operation], i2c: &mut I2c, bus: &mut Bus<Access>) -> (decision: Decision)
        requires
            old(self).style == Style::Merged ==> flat(ops@, 0, ops@.len() as int).len() <= usize::MAX,
            old(self).next <= ops@.len(),
        ensures
            *final(i2c) == *old(i2c),
            decision == old(self).decision(ops@),
            *final(self) == old(self).after(ops@),
            final(self).next <= ops@.len(),
            decision matches Decision::Start(burst) ==> burst.fits(ops@),
            final(bus)@ == old(bus)@ + old(self).accesses(ops@),
    {
        assert(bus@ + Seq::<Access>::empty() =~= bus@);
        match self.style {
            Style::Merged => self.decide_run(ops, bus),
            Style::Single => {
                if self.next >= ops.len() {
                    return Decision::Over(Ok(()));
                }
                let restart = self.next > 0;
                let send_stop = self.next == ops.len() - 1;

                self.decide_one(ops, restart, send_stop, bus)
            },
            Style::Separate => {
                if self.next >= ops.len() {
                    i2c.stop(bus);
                    return Decision::Over(Ok(()));
                }
                self.decide_one(ops, false, false, bus)
            },
        }
    }

    fn decide_one(&mut self, ops: &[Operation], restart: bool, send_stop: bool, bus: &mut Bus<Access>) -> (decision:
        Decision)
        requires
            old(self).style != Style::Merged,
            old(self).next < ops@.len(),
            restart == (old(self).style == Style::Single && old(self).next > 0),
            send_stop == (old(self).style == Style::Single && old(self).next + 1 == ops@.len()),
        ensures
            decision == old(self).decision(ops@),
            *final(self) == old(self).after(ops@),
            final(self).next <= ops@.len(),
            decision matches Decision::Start(burst) ==> burst.fits(ops@),
            final(bus)@ == old(bus)@.push(Access::Iclr(Event::ClockLowTimeout.sources())),
    {
        match Burst::over(ops, self.next, self.address, restart, send_stop, bus) {
            Ok(burst) => {
                self.next = burst.plan.group.end;
                self.opened = true;
                Decision::Start(burst)
            },
            Err(error) => Decision::Over(Err(error)),
        }
    }

    fn decide_run(&mut self, ops: &[Operation], bus: &mut Bus<Access>) -> (decision: Decision)
        requires
            old(self).style == Style::Merged,
            flat(ops@, 0, ops@.len() as int).len() <= usize::MAX,
            old(self).next <= ops@.len(),
        ensures
            decision == old(self).decision(ops@),
            *final(self) == old(self).after(ops@),
            final(self).next <= ops@.len(),
            decision matches Decision::Start(burst) ==> burst.fits(ops@),
            final(bus)@ == old(bus)@ + old(self).accesses(ops@),
    {
        proof {
            flat_splits(ops@, 0, self.next as int, ops@.len() as int);
            next_run_is_unique(ops@, self.next as int);
        }
        let group = match next_group(ops, self.next) {
            Some(group) => group,
            None => return Decision::Over(Ok(())),
        };

        if group.total > MAX_TRANSFER_LEN {
            return Decision::Over(Err(Error::TransferLengthIsOverLimit));
        }
        proof {
            flat_splits(ops@, 0, group.end as int, ops@.len() as int);
            next_run_is_unique(ops@, group.end as int);
            cursor_starts_at_the_run(ops@, self.next as int, group);
        }
        let send_stop = match next_group(ops, group.end) {
            Some(_) => false,
            None => true,
        };
        let plan = Plan { address: self.address, group, restart: self.opened, send_stop };
        let burst = Burst::new(plan, bus);

        proof {
            let bytes = burst.bytes(ops@);
            assert(bytes.skip(0) =~= bytes);
            assert(bytes.len() > 0) by {
                assert(bytes == ops@[group.start as int].bytes() + flat(ops@, group.start + 1, group.end as int));
            }
        }
        self.next = group.end;
        self.opened = true;
        Decision::Start(burst)
    }
}

/// The runs of a transaction, in order.
pub open spec fn runs(ops: Seq<Operation>, from: int) -> Seq<Group>
    decreases ops.len() - from,
{
    match run_at(ops, from) {
        Some(group) => if from < group.end <= ops.len() {
            seq![group] + runs(ops, group.end as int)
        } else {
            Seq::empty()
        },
        None => Seq::empty(),
    }
}

/// The bytes of a list of runs, one after the other.
pub open spec fn run_bytes(ops: Seq<Operation>, groups: Seq<Group>) -> Seq<u8>
    decreases groups.len(),
{
    if groups.len() == 0 {
        Seq::empty()
    } else {
        flat(ops, groups[0].start as int, groups[0].end as int) + run_bytes(ops, groups.drop_first())
    }
}

/// Every byte of a transaction moves, once and in order: the runs one after the other are all the bytes of
/// all the operations.
pub proof fn transaction_moves_everything(ops: Seq<Operation>, from: int)
    requires
        0 <= from <= ops.len(),
        ops.len() <= usize::MAX,
        flat(ops, from, ops.len() as int).len() <= usize::MAX,
    ensures
        run_bytes(ops, runs(ops, from)) == flat(ops, from, ops.len() as int),
    decreases ops.len() - from,
{
    next_run_is_unique(ops, from);
    match run_at(ops, from) {
        Some(group) => {
            run_and_rest_are_everything(ops, from, group);
            transaction_moves_everything(ops, group.end as int);
            let rest = runs(ops, group.end as int);
            assert((seq![group] + rest).drop_first() =~= rest);
        },
        None => {
            assert forall|i: int| from <= i < ops.len() implies (#[trigger] ops[i]).bytes().len() == 0 by {
                if ops[i].bytes().len() > 0 {
                    something_left_is_a_run(ops, from, i);
                }
            }
            no_run_is_no_bytes(ops, from);
        },
    }
}

/// Runs of a transaction take turns: each moves the other way from the one before it.
pub proof fn runs_take_turns(ops: Seq<Operation>, from: int, i: int)
    requires
        0 <= i < runs(ops, from).len() - 1,
    ensures
        runs(ops, from)[i].write != runs(ops, from)[i + 1].write,
    decreases ops.len() - from,
{
    next_run_is_unique(ops, from);
    let group = run_at(ops, from)->Some_0;
    let rest = runs(ops, group.end as int);
    if i == 0 {
        next_run_is_unique(ops, group.end as int);
        let second = run_at(ops, group.end as int)->Some_0;
        assert(rest[0] == second);
        runs_alternate(ops, from, group, second);
    } else {
        runs_take_turns(ops, group.end as int, i - 1);
    }
}

/// Only the last run of a transaction ends with a STOP.
pub proof fn only_the_last_run_stops(script: Script, ops: Seq<Operation>, from: int, i: int)
    requires
        0 <= i < runs(ops, from).len(),
    ensures
        script.run_plan(ops, runs(ops, from)[i]).send_stop == (i == runs(ops, from).len() - 1),
    decreases ops.len() - from,
{
    next_run_is_unique(ops, from);
    let group = run_at(ops, from)->Some_0;
    let rest = runs(ops, group.end as int);
    next_run_is_unique(ops, group.end as int);
    if i > 0 {
        only_the_last_run_stops(script, ops, group.end as int, i - 1);
    }
}

/// Where a transfer has got to.
#[derive(Clone, Copy, PartialEq, Eq, Debug, Structural)]
pub enum Stage {
    /// Waiting for the bus, blocking.
    Bus(BusWait),
    /// Waiting for the bus, by interrupt.
    AsyncBus(AsyncBusWait),
    /// A burst is running.
    Moving(Burst),
    /// It is over, with this failure if there was one.
    Over(Option<Error>),
}

impl Stage {
    /// Whether a burst waits on `IIDX` here.
    pub open spec fn waits_on_iidx(self) -> bool {
        self matches Stage::Moving(burst) && burst.phase == Phase::Waiting
    }

    /// The sleep level to block here, of the one a burst needs blocked.
    pub open spec fn floor_of(self, floor: Option<SleepLevel>) -> Option<SleepLevel> {
        if self is Moving {
            floor
        } else {
            None
        }
    }

    /// Whether dropping a transfer here leaves a burst running.
    pub open spec fn abandons(self) -> bool {
        self matches Stage::Moving(burst) && burst.in_flight()
    }

    /// What dropping a transfer here asks for.
    pub open spec fn cancel_accesses(self) -> Seq<Access> {
        match self {
            Stage::AsyncBus(wait) if wait.is_armed() => seq![Access::Mask(low_level::bus_free_set())],
            Stage::Moving(burst) if burst.in_flight() => seq![Access::StoreImask(CpuInt::empty())],
            _ => Seq::empty(),
        }
    }
}

impl Decision {
    /// Where a decision leads.
    pub open spec fn stage(self) -> Stage {
        match self {
            Decision::Start(burst) => Stage::Moving(burst),
            Decision::Over(Ok(_)) => Stage::Over(None),
            Decision::Over(Err(error)) => Stage::Over(Some(error)),
        }
    }

    /// What it asks of the caller.
    pub open spec fn progress(self) -> Progress {
        match self {
            Decision::Start(_) => Progress::Again,
            Decision::Over(result) => Progress::Ready(result),
        }
    }
}

/// A transfer: the operations of one transaction, and how far it has got with them.
pub struct Transfer {
    /// What comes next.
    pub script: Script,
    /// The operations, with whatever was read so far in the buffers of the reads.
    pub ops: Vec<Operation>,
    /// How far it has got.
    pub stage: Stage,
}

impl Transfer {
    /// Whether runs of these operations can be counted.
    pub open spec fn countable(self) -> bool {
        self.script.style == Style::Merged ==> flat(self.ops@, 0, self.ops@.len() as int).len() <= usize::MAX
    }

    /// Whether the operations can be counted, and the burst under way is one over them.
    pub open spec fn wf(self) -> bool {
        &&& self.countable()
        &&& self.script.next <= self.ops@.len()
        &&& self.stage matches Stage::Moving(burst) ==> burst.fits(self.ops@)
    }

    /// Prepare a transfer.
    pub fn new(address: Address, style: Style, ops: Vec<Operation>, stage: Stage) -> (transfer: Self)
        requires
            style == Style::Merged ==> flat(ops@, 0, ops@.len() as int).len() <= usize::MAX,
            !(stage is Moving),
        ensures
            transfer.wf(),
            transfer.script == (Script { address, style, next: 0, opened: false }),
            transfer.ops == ops,
            transfer.stage == stage,
    {
        Transfer { script: Script { address, style, next: 0, opened: false }, ops, stage }
    }

    /// Go on to what comes next.
    fn advance(&mut self, i2c: &mut I2c, bus: &mut Bus<Access>) -> (progress: Progress)
        requires
            old(self).countable(),
            old(self).script.next <= old(self).ops@.len(),
        ensures
            final(self).wf(),
            *final(i2c) == *old(i2c),
            final(self).ops == old(self).ops,
            final(self).script == old(self).script.after(old(self).ops@),
            final(self).stage == old(self).script.decision(old(self).ops@).stage(),
            progress == old(self).script.decision(old(self).ops@).progress(),
            final(bus)@ == old(bus)@ + old(self).script.accesses(old(self).ops@),
    {
        let mut script = self.script;
        let decision = script.decide(self.ops.as_slice(), i2c, bus);

        self.script = script;
        match decision {
            Decision::Start(burst) => {
                self.stage = Stage::Moving(burst);
                Progress::Again
            },
            Decision::Over(Ok(done)) => {
                self.stage = Stage::Over(None);
                Progress::Ready(Ok(done))
            },
            Decision::Over(Err(error)) => {
                self.stage = Stage::Over(Some(error));
                Progress::Ready(Err(error))
            },
        }
    }

    /// Whether a burst that got to a phase was left to go on, ended the transfer, or made way for what comes
    /// next. `before` is the transfer until then, with what the burst has read in its operations, and `asked`
    /// what the burst asked for.
    pub open spec fn follows_burst(
        self,
        before: Transfer,
        plan: Plan,
        phase: Phase,
        moved: int,
        asked: Seq<Access>,
        progress: Progress,
        bus: Seq<Access>,
    ) -> bool {
        match phase {
            Phase::Done => {
                &&& self.script == before.script.after(self.ops@)
                &&& self.stage == before.script.decision(self.ops@).stage()
                &&& progress == before.script.decision(self.ops@).progress()
                &&& bus == asked + before.script.accesses(self.ops@)
            },
            Phase::Failed(error) => {
                &&& self.script == before.script
                &&& self.stage == Stage::Over(Some(error))
                &&& progress == Progress::Ready(Err(error))
                &&& bus == asked
            },
            _ => {
                &&& self.script == before.script
                &&& self.stage matches Stage::Moving(burst) && burst.plan == plan && burst.phase == phase && burst.moved
                    == moved
                &&& progress == phase.progress()
                &&& bus == asked
            },
        }
    }

    /// Whether a wait that is over ended the transfer, or made way for its first burst.
    pub open spec fn follows_wait(
        self,
        before: Transfer,
        result: Result<(), Error>,
        asked: Seq<Access>,
        progress: Progress,
        bus: Seq<Access>,
    ) -> bool {
        match result {
            Ok(_) => {
                &&& self.script == before.script.after(self.ops@)
                &&& self.stage == before.script.decision(self.ops@).stage()
                &&& progress == before.script.decision(self.ops@).progress()
                &&& bus == asked + before.script.accesses(self.ops@)
            },
            Err(error) => {
                &&& self.script == before.script
                &&& self.stage == Stage::Over(Some(error))
                &&& progress == Progress::Ready(Err(error))
                &&& bus == asked
            },
        }
    }

    /// Go on with a burst that was polled, or past it.
    fn after_burst(&mut self, burst: Burst, i2c: &mut I2c, bus: &mut Bus<Access>) -> (progress: Progress)
        requires
            old(self).countable(),
            old(self).script.next <= old(self).ops@.len(),
            burst.fits(old(self).ops@),
        ensures
            final(self).wf(),
            *final(i2c) == *old(i2c),
            final(self).ops == old(self).ops,
            final(self).follows_burst(
                *old(self),
                burst.plan,
                burst.phase,
                burst.moved as int,
                old(bus)@,
                progress,
                final(bus)@,
            ),
    {
        match burst.phase {
            Phase::Done => self.advance(i2c, bus),
            Phase::Failed(error) => {
                self.stage = Stage::Over(Some(error));
                Progress::Ready(Err(error))
            },
            _ => {
                self.stage = Stage::Moving(burst);
                burst.progress()
            },
        }
    }

    fn after_wait(&mut self, result: Result<(), Error>, i2c: &mut I2c, bus: &mut Bus<Access>) -> (progress: Progress)
        requires
            old(self).countable(),
            old(self).script.next <= old(self).ops@.len(),
        ensures
            final(self).wf(),
            *final(i2c) == *old(i2c),
            final(self).ops == old(self).ops,
            final(self).follows_wait(*old(self), result, old(bus)@, progress, final(bus)@),
    {
        match result {
            Ok(_) => self.advance(i2c, bus),
            Err(error) => {
                self.stage = Stage::Over(Some(error));
                Progress::Ready(Err(error))
            },
        }
    }

    /// What a transfer that is over came to.
    pub open spec fn result(failure: Option<Error>) -> Result<(), Error> {
        match failure {
            Some(error) => Err(error),
            None => Ok(()),
        }
    }

    /// Poll a blocking transfer, with the lines, the status and `IMASK` read.
    pub fn poll(
        &mut self,
        i2c: &mut I2c,
        mon: Cbmon,
        status: Status,
        imask: CpuInt,
        bus: &mut Bus<Access>,
    ) -> (progress: Progress)
        requires
            old(self).wf(),
            !(old(self).stage is AsyncBus),
        ensures
            final(self).wf(),
            *final(i2c) == *old(i2c),
            final(self).ops == old(self).ops,
            match old(self).stage {
                Stage::Bus(wait) => {
                    let asked = old(bus)@ + wait.accesses(mon, status, old(i2c).resolved());

                    match wait.outcome(mon, status) {
                        Wait::Ready(result) => final(self).follows_wait(
                            *old(self),
                            result,
                            asked,
                            progress,
                            final(bus)@,
                        ),
                        _ => {
                            &&& final(self).script == old(self).script
                            &&& final(self).stage == Stage::Bus(wait.after(mon))
                            &&& progress == Progress::Again
                            &&& final(bus)@ == asked
                        },
                    }
                },
                Stage::Moving(burst) => final(self).follows_burst(
                    *old(self),
                    burst.plan,
                    burst.next_phase(status),
                    if burst.fills(status) {
                        burst.moved + burst.fill(status.tx_room)
                    } else {
                        burst.moved as int
                    },
                    old(bus)@ + burst.accesses(old(self).ops@, status, imask, old(i2c).resolved(), old(i2c).fifo()),
                    progress,
                    final(bus)@,
                ),
                Stage::AsyncBus(_) => true,
                Stage::Over(failure) => {
                    &&& *final(self) == *old(self)
                    &&& progress == Progress::Ready(Self::result(failure))
                    &&& final(bus)@ == old(bus)@
                },
            },
    {
        match self.stage {
            Stage::Bus(wait) => {
                let mut wait = wait;

                match wait.poll(i2c, mon, status, bus) {
                    Wait::Ready(result) => self.after_wait(result, i2c, bus),
                    _ => {
                        self.stage = Stage::Bus(wait);
                        Progress::Again
                    },
                }
            },
            Stage::Moving(burst) => {
                let mut burst = burst;
                let _ = burst.poll(self.ops.as_slice(), i2c, status, imask, bus);

                self.after_burst(burst, i2c, bus)
            },
            Stage::AsyncBus(_) => Progress::Again,
            Stage::Over(failure) => match failure {
                Some(error) => Progress::Ready(Err(error)),
                None => Progress::Ready(Ok(())),
            },
        }
    }

    /// Whether the next poll by interrupt wants `IIDX` read: a burst waits on it. For anything else it is left
    /// alone, because reading it clears the event.
    pub fn wants_iidx(&self) -> (wants: bool)
        ensures
            wants == self.stage.waits_on_iidx(),
    {
        match self.stage {
            Stage::Moving(burst) => matches!(burst.phase, Phase::Waiting),
            _ => false,
        }
    }

    /// The sleep level to block now: a burst keeps the clock it runs on from being stopped, and a wait for the bus
    /// does not need it.
    pub fn wake_floor(&self, i2c: &I2c) -> (floor: Option<SleepLevel>)
        ensures
            floor == self.stage.floor_of(i2c.floor()),
    {
        match self.stage {
            Stage::Moving(_) => i2c.transfer_floor(),
            _ => None,
        }
    }

    /// Poll a transfer that runs by interrupt, with the waker registered and then the lines, the status,
    /// `IMASK` and, where [`wants_iidx`](Self::wants_iidx) says so, `IIDX` read.
    pub fn poll_by_interrupt(
        &mut self,
        i2c: &mut I2c,
        mon: Cbmon,
        stat: IidxStat,
        status: Status,
        imask: CpuInt,
        bus: &mut Bus<Access>,
    ) -> (progress: Progress)
        requires
            old(self).wf(),
            !(old(self).stage is Bus),
        ensures
            final(self).wf(),
            final(i2c).same_but_abandoned(old(i2c)),
            final(i2c).is_abandoned() == (old(i2c).is_abandoned() && old(self).stage != Stage::AsyncBus(
                AsyncBusWait::Start,
            )),
            final(self).ops == old(self).ops,
            match old(self).stage {
                Stage::AsyncBus(wait) => {
                    let asked = old(bus)@ + wait.accesses(
                        old(i2c).is_abandoned(),
                        mon,
                        status,
                        old(i2c).resolved(),
                    );

                    match wait.outcome(mon, status) {
                        Wait::Ready(result) => final(self).follows_wait(
                            *old(self),
                            result,
                            asked,
                            progress,
                            final(bus)@,
                        ),
                        Wait::Again => {
                            &&& final(self).script == old(self).script
                            &&& final(self).stage == Stage::AsyncBus(wait.after(old(i2c).is_abandoned(), mon))
                            &&& progress == Progress::Again
                            &&& final(bus)@ == asked
                        },
                        Wait::Park => {
                            &&& final(self).script == old(self).script
                            &&& final(self).stage == Stage::AsyncBus(wait.after(old(i2c).is_abandoned(), mon))
                            &&& progress == Progress::Park
                            &&& final(bus)@ == asked
                        },
                    }
                },
                Stage::Moving(burst) => if burst.phase is Prime {
                    final(self).follows_burst(
                        *old(self),
                        burst.plan,
                        Phase::Waiting,
                        if burst.plan.group.write {
                            burst.moved + burst.fill(status.tx_room)
                        } else {
                            burst.moved as int
                        },
                        old(bus)@ + burst.launch_accesses(old(self).ops@, status.tx_room),
                        progress,
                        final(bus)@,
                    )
                } else {
                    final(self).follows_burst(
                        *old(self),
                        burst.plan,
                        burst.next_by_interrupt(stat, status),
                        if burst.fills_by_interrupt(stat) {
                            burst.moved + burst.fill(status.tx_room)
                        } else {
                            burst.moved as int
                        },
                        old(bus)@ + burst.interrupt_accesses(
                            old(self).ops@,
                            stat,
                            status,
                            imask,
                            old(i2c).resolved(),
                            old(i2c).fifo(),
                        ),
                        progress,
                        final(bus)@,
                    )
                },
                Stage::Bus(_) => true,
                Stage::Over(failure) => {
                    &&& *final(self) == *old(self)
                    &&& progress == Progress::Ready(Self::result(failure))
                    &&& final(bus)@ == old(bus)@
                },
            },
    {
        match self.stage {
            Stage::AsyncBus(wait) => {
                let mut wait = wait;

                match wait.poll(i2c, mon, status, bus) {
                    Wait::Ready(result) => self.after_wait(result, i2c, bus),
                    Wait::Again => {
                        self.stage = Stage::AsyncBus(wait);
                        Progress::Again
                    },
                    Wait::Park => {
                        self.stage = Stage::AsyncBus(wait);
                        Progress::Park
                    },
                }
            },
            Stage::Moving(burst) => {
                let mut burst = burst;

                match burst.phase {
                    Phase::Prime => {
                        let _ = burst.launch(self.ops.as_slice(), i2c, status.tx_room, bus);
                    },
                    _ => {
                        let _ = burst.poll_by_interrupt(self.ops.as_slice(), i2c, stat, status, imask, bus);
                    },
                }
                self.after_burst(burst, i2c, bus)
            },
            Stage::Bus(_) => Progress::Again,
            Stage::Over(failure) => match failure {
                Some(error) => Progress::Ready(Err(error)),
                None => Progress::Ready(Ok(())),
            },
        }
    }

    /// Put the bytes that were asked for into the buffers of the run under way.
    pub fn deliver(&mut self, bytes: &[u8], i2c: &mut I2c, bus: &mut Bus<Access>) -> (progress: Progress)
        requires
            old(self).wf(),
            old(self).stage matches Stage::Moving(burst) && burst.phase matches Phase::Taking(count, _) && count
                == bytes@.len(),
        ensures
            final(self).wf(),
            *final(i2c) == *old(i2c),
            same_shape(final(self).ops@, old(self).ops@),
            old(self).stage matches Stage::Moving(burst) && {
                &&& burst.bytes(final(self).ops@) == super::stored(
                    burst.bytes(old(self).ops@),
                    burst.moved as int,
                    bytes@,
                )
                &&& forall|i: int|
                    0 <= i < old(self).ops@.len() && !(burst.plan.group.start <= i < burst.plan.group.end)
                        ==> #[trigger] final(self).ops@[i].bytes() == old(self).ops@[i].bytes()
                &&& final(self).follows_burst(
                    *old(self),
                    burst.plan,
                    burst.delivered_phase(bytes@.len() as int),
                    burst.moved + bytes@.len(),
                    old(bus)@ + burst.deliver_accesses(bytes@.len() as int, old(i2c).resolved()),
                    progress,
                    final(bus)@,
                )
            },
    {
        match self.stage {
            Stage::Moving(burst) => {
                let mut burst = burst;
                let ghost ops0 = self.ops@;
                let _ = burst.deliver(&mut self.ops, bytes, i2c, bus);

                proof {
                    super::shapes_have_lengths(self.ops@, ops0, 0, ops0.len() as int);
                }
                self.after_burst(burst, i2c, bus)
            },
            _ => Progress::Again,
        }
    }

    /// Drop a transfer that runs by interrupt. Part-way it leaves nothing armed, and the next transfer pays:
    /// it resets the controller first.
    pub fn cancel(self, i2c: &mut I2c, bus: &mut Bus<Access>)
        ensures
            final(i2c).same_but_abandoned(old(i2c)),
            final(i2c).is_abandoned() == (old(i2c).is_abandoned() || self.stage.abandons()),
            final(bus)@ == old(bus)@ + self.stage.cancel_accesses(),
    {
        assert(bus@ + Seq::<Access>::empty() =~= bus@);
        match self.stage {
            Stage::AsyncBus(wait) => {
                wait.cancel(bus);
            },
            Stage::Moving(burst) => {
                burst.cancel(i2c, bus);
            },
            _ => {},
        }
        assert(bus@ =~= old(bus)@ + self.stage.cancel_accesses());
    }
}

/// How an operation of its own is planned: it is addressed to the transfer's target and covers that operation; where
/// the operations make one transfer, every one but the first continues it and the last ends it, and where each is a
/// burst of its own, none does.
pub proof fn operations_are_planned_in_turn(script: Script, ops: Seq<Operation>)
    requires
        script.next < ops.len() <= usize::MAX,
        ops[script.next as int].bytes().len() <= usize::MAX,
    ensures
        ({
            let plan = script.next_plan(ops);

            &&& plan.address == script.address
            &&& plan.group.start == script.next && plan.group.end == script.next + 1
            &&& plan.group.write <==> ops[script.next as int] is Write
            &&& plan.group.total == ops[script.next as int].bytes().len()
            &&& plan.restart <==> script.style is Single && script.next != 0
            &&& plan.send_stop <==> script.style is Single && script.next == ops.len() - 1
        }),
{
}

/// How a run is planned: it is addressed to the transfer's target, it continues the transfer unless it opens it, and it
/// ends the transfer exactly where no operation after it carries a byte.
pub proof fn runs_are_planned_in_turn(script: Script, ops: Seq<Operation>, group: Group)
    requires
        group.end <= ops.len() <= usize::MAX,
        flat(ops, group.end as int, ops.len() as int).len() <= usize::MAX,
    ensures
        ({
            let plan = script.run_plan(ops, group);

            &&& plan.address == script.address && plan.group == group
            &&& plan.restart == script.opened
            &&& plan.send_stop <==> forall|i: int|
                group.end <= i < ops.len() ==> (#[trigger] ops[i]).bytes().len() == 0
        }),
{
    next_run_is_unique(ops, group.end as int);
    if run_at(ops, group.end as int) is None {
        assert forall|i: int| group.end <= i < ops.len() implies (#[trigger] ops[i]).bytes().len() == 0 by {
            if ops[i].bytes().len() > 0 {
                something_left_is_a_run(ops, group.end as int, i);
            }
        }
    }
}

/// What comes next where each operation is a burst: the next operation, unless it is empty or too long, which is an
/// error of its own; and once there are none left the transfer has succeeded, with a STOP of its own where no burst
/// carried one. A burst that starts is the only thing that moves the transfer on.
pub proof fn operations_come_one_by_one(script: Script, ops: Seq<Operation>)
    requires
        !(script.style is Merged),
        ops.len() <= usize::MAX,
        forall|i: int| 0 <= i < ops.len() ==> (#[trigger] ops[i]).bytes().len() <= usize::MAX,
    ensures
        script.next >= ops.len() ==> script.decision(ops) == Decision::Over(Ok::<(), Error>(())) && script.after(ops)
            == script,
        script.next >= ops.len() && script.style is Single ==> script.accesses(ops).len() == 0,
        script.next >= ops.len() && script.style is Separate ==> script.accesses(ops).len() == 2 && (
        script.accesses(ops)[1] matches Access::Cctr(cctr) && cctr.stop && !cctr.start),
        script.next < ops.len() ==> {
            let len = ops[script.next as int].bytes().len();

            &&& script.accesses(ops) == seq![Access::Iclr(Event::ClockLowTimeout.sources())]
            &&& len == 0 ==> script.decision(ops) == Decision::Over(Err::<(), Error>(Error::ZeroLengthTransfer))
            &&& len > 4095 ==> script.decision(ops) == Decision::Over(
                Err::<(), Error>(Error::TransferLengthIsOverLimit),
            )
            &&& len == 0 || len > 4095 ==> script.after(ops) == script
            &&& 1 <= len <= 4095 ==> {
                &&& script.decision(ops) == Decision::Start(Burst::at_start(script.next_plan(ops)))
                &&& script.after(ops).next == script.next + 1 && script.after(ops).opened
                &&& script.after(ops).address == script.address && script.after(ops).style == script.style
            }
        },
{
}

/// What comes next in a transaction: the next run, unless it is too long for a burst, which is an error; and once
/// nothing carries a byte the transfer has succeeded. A run that starts is the only thing that moves the transfer on,
/// past the whole of it.
pub proof fn runs_come_one_by_one(script: Script, ops: Seq<Operation>)
    requires
        script.style is Merged,
    ensures
        run_at(ops, script.next as int) is None ==> script.decision(ops) == Decision::Over(Ok::<(), Error>(())),
        run_at(ops, script.next as int) matches Some(group) ==> {
            &&& group.total > 4095 ==> script.decision(ops) == Decision::Over(
                Err::<(), Error>(Error::TransferLengthIsOverLimit),
            )
            &&& group.total <= 4095 ==> {
                &&& script.decision(ops) == Decision::Start(Burst::at_start(script.run_plan(ops, group)))
                &&& script.after(ops).next == group.end && script.after(ops).opened
                &&& script.after(ops).address == script.address && script.after(ops).style == script.style
                &&& script.accesses(ops) == seq![Access::Iclr(Event::ClockLowTimeout.sources())]
            }
        },
        !(script.decision(ops) is Start) ==> script.after(ops) == script && script.accesses(ops).len() == 0,
{
}

/// Where a decision leads: to the burst it starts, or to the end with what it came to.
pub proof fn decisions_lead_where_they_say(decision: Decision)
    ensures
        decision matches Decision::Start(burst) ==> decision.stage() == Stage::Moving(burst) && decision.progress()
            is Again,
        decision matches Decision::Over(result) ==> decision.progress() == Progress::Ready(result),
        decision matches Decision::Over(Err(error)) ==> decision.stage() == Stage::Over(Some(error)),
        decision matches Decision::Over(Ok(_)) ==> decision.stage() == Stage::Over(None),
        decision.stage() matches Stage::Over(failure) ==> decision.progress() == Progress::Ready(
            Transfer::result(failure),
        ),
        decision.stage() is Over <==> decision is Over,
{
    if let Decision::Over(result) = decision {
        if let Ok(done) = result {
            assert(done == ());
        }
    }
}

/// A failure ends a transfer with its own error and asks for nothing more, whether it was a burst's or a wait's; a
/// burst that goes on is left to, and asks of the caller what its phase does; and only success goes on to what comes
/// next.
pub proof fn transfers_end_with_the_error_that_ended_them(
    after: Transfer,
    before: Transfer,
    plan: Plan,
    phase: Phase,
    moved: int,
    result: Result<(), Error>,
    asked: Seq<Access>,
    progress: Progress,
    bus: Seq<Access>,
)
    ensures
        after.follows_burst(before, plan, phase, moved, asked, progress, bus) ==> {
            &&& phase matches Phase::Failed(error) ==> {
                &&& after.stage == Stage::Over(Some(error)) && progress == Progress::Ready(Err::<(), Error>(error))
                &&& bus == asked && after.script == before.script
            }
            &&& phase is Done ==> {
                &&& bus == asked + before.script.accesses(after.ops@)
                &&& after.script == before.script.after(after.ops@)
                &&& before.script.decision(after.ops@) matches Decision::Start(next) ==> after.stage
                    == Stage::Moving(next) && progress is Again
                &&& before.script.decision(after.ops@) matches Decision::Over(over) ==> after.stage is Over && progress
                    == Progress::Ready(over)
            }
            &&& !(phase is Done) && !(phase is Failed) ==> {
                &&& after.stage matches Stage::Moving(burst) && burst.plan == plan && burst.phase == phase
                    && burst.moved == moved
                &&& bus == asked && after.script == before.script
                &&& phase is Waiting <==> progress is Park
                &&& phase is Taking <==> progress is Take
            }
        },
        after.follows_wait(before, result, asked, progress, bus) ==> {
            &&& result matches Err(error) ==> {
                &&& after.stage == Stage::Over(Some(error)) && progress == Progress::Ready(Err::<(), Error>(error))
                &&& bus == asked && after.script == before.script
            }
            &&& result is Ok ==> {
                &&& bus == asked + before.script.accesses(after.ops@)
                &&& after.script == before.script.after(after.ops@)
                &&& before.script.decision(after.ops@) matches Decision::Start(next) ==> after.stage
                    == Stage::Moving(next) && progress is Again
                &&& before.script.decision(after.ops@) matches Decision::Over(over) ==> after.stage is Over && progress
                    == Progress::Ready(over)
            }
        },
{
}

/// A transfer that is dropped leaves nothing armed: what a burst armed is masked whole, and what a wait for the bus
/// armed is masked alone. Only a burst that is still running makes the next transfer reset first.
pub proof fn dropped_transfer_leaves_nothing_armed(stage: Stage, imask: CpuInt)
    ensures
        stage.abandons() <==> (stage matches Stage::Moving(burst) && (burst.phase is Waiting || burst.phase is Taking)),
        stage.abandons() ==> stage.cancel_accesses().len() == 1 && low_level::masked_after(
            imask,
            stage.cancel_accesses()[0],
        ) == CpuInt::empty(),
        stage matches Stage::AsyncBus(wait) ==> (wait is Arm || wait is Armed) ==> {
            let after = low_level::masked_after(imask, stage.cancel_accesses()[0]);

            &&& stage.cancel_accesses().len() == 1
            &&& !after.cstop && !after.timeouta
            &&& after.ctxdone == imask.ctxdone && after.crxdone == imask.crxdone && after.cnack == imask.cnack
        },
        stage.cancel_accesses().len() > 0 <==> stage.abandons() || (stage matches Stage::AsyncBus(wait) && (wait is Arm
            || wait is Armed)),
{
}

/// A transfer blocks sleep, and has `IIDX` read, only while a burst is running, and the latter only while that burst
/// waits for its interrupt.
pub proof fn only_a_burst_blocks_sleep(stage: Stage, floor: Option<SleepLevel>)
    ensures
        stage is Moving ==> stage.floor_of(floor) == floor,
        !(stage is Moving) ==> stage.floor_of(floor) is None,
        stage.waits_on_iidx() <==> (stage matches Stage::Moving(burst) && burst.phase is Waiting),
{
}

} // verus!
