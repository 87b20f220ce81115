//! One burst: an address phase, and then every byte of a run of operations.

use super::low_level::{
    self, check_accesses, check_error, clear_timeout, drain_rx, error_of, flush_accesses, nack_kind, nack_of,
    opens_burst, read_set, read_sources, reset_accesses, start_read_accesses, start_write_accesses, stop_accesses,
    write_set, write_sources, Access, CpuInt, Event, I2c, IidxStat, Status,
};
use super::{
    drain_rx_group, fewer, fill_tx_group, flat, flat_splits, offset_and_rest_add_up, one_way, queued, same_shape,
    shapes_have_lengths, stored, Address, Error, Group, GroupCursor, IdleWait, Operation, Resolved,
    MAX_TRANSFER_LEN,
};
use crate::bus::Bus;
use vstd::prelude::*;

verus! {

/// What a burst is to do.
#[derive(Clone, Copy, PartialEq, Eq, Debug, Structural)]
pub struct Plan {
    /// The target.
    pub address: Address,
    /// The run of operations it moves.
    pub group: Group,
    /// It continues a transaction rather than opening one. Waiting for idle then would wait for something
    /// that cannot happen: no STOP has been sent, so the controller is still busy by design.
    pub restart: bool,
    /// It ends the transaction.
    pub send_stop: bool,
}

/// What comes after the bytes that were asked for are in.
#[derive(Clone, Copy, PartialEq, Eq, Debug, Structural)]
pub enum Resume {
    /// Ask whether there is anything left to come.
    Short,
    /// Wait for the interrupt again.
    Wait,
    /// The burst is over, and those bytes were its tail.
    Conclude,
}

/// Where a burst has got to.
#[derive(Clone, Copy, PartialEq, Eq, Debug, Structural)]
pub enum Phase {
    /// Not begun.
    Prime,
    /// Waiting for the controller to be idle before it starts.
    Idle,
    /// Running, blocking.
    Run,
    /// A blocking read has taken what there was and is short of what it needs.
    Short,
    /// Bytes were asked for out of the receive FIFO.
    Taking(usize, Resume),
    /// Running, by interrupt.
    Waiting,
    /// It failed, and the bus is being released.
    Recover(Error, IdleWait),
    /// It is over, and moved everything.
    Done,
    /// It is over, and failed.
    Failed(Error),
}

/// What a poll of a burst asks of its caller.
#[derive(Clone, Copy, PartialEq, Eq, Debug)]
pub enum Progress {
    /// Read the registers and poll again.
    Again,
    /// Wait for the interrupt, and then poll again.
    Park,
    /// Read `CRXDATA` this many times and deliver the bytes.
    Take(usize),
    /// It is over.
    Ready(Result<(), Error>),
}

impl Phase {
    /// What a burst that got here asks of its caller.
    pub open spec fn progress(self) -> Progress {
        match self {
            Phase::Prime | Phase::Idle | Phase::Run | Phase::Short | Phase::Recover(_, _) => Progress::Again,
            Phase::Taking(count, _) => Progress::Take(count),
            Phase::Waiting => Progress::Park,
            Phase::Done => Progress::Ready(Ok(())),
            Phase::Failed(error) => Progress::Ready(Err(error)),
        }
    }

    /// Where a failure leads: a timeout is the one failure a STOP cannot clear, so it takes the reset, and
    /// is over with it.
    pub open spec fn failing(error: Error) -> Phase {
        if error == Error::Timeout {
            Phase::Failed(error)
        } else {
            Phase::Recover(error, IdleWait::fresh())
        }
    }
}

/// What a failure asks for.
pub open spec fn fail_accesses(error: Error, resolved: Resolved) -> Seq<Access> {
    if error == Error::Timeout {
        reset_accesses(resolved)
    } else {
        stop_accesses()
    }
}

/// What starting a burst asks for.
pub open spec fn start_accesses(plan: Plan) -> Seq<Access> {
    if plan.group.write {
        start_write_accesses(plan.address, plan.group.total as u16, plan.send_stop)
    } else {
        // The burst covers the whole transfer, so its last byte is the transfer's last byte and must be
        // NACKed to release the target.
        start_read_accesses(plan.address, plan.group.total as u16, plan.restart, false, plan.send_stop)
    }
}

/// What starting a blocking burst asks for, up to where `CSR` means something.
pub open spec fn begin_accesses(plan: Plan, resolved: Resolved) -> Seq<Access> {
    start_accesses(plan).push(Access::Delay(resolved.settle_cycles as u32))
}

/// One burst.
#[derive(Clone, Copy, PartialEq, Eq, Debug, Structural)]
pub struct Burst {
    /// What it is to do.
    pub plan: Plan,
    /// Where in the run's buffers it is.
    pub cursor: GroupCursor,
    /// Bytes moved so far.
    pub moved: usize,
    /// How far it has got.
    pub phase: Phase,
}

impl Burst {
    /// The bytes of the run.
    pub open spec fn bytes(self, ops: Seq<Operation>) -> Seq<u8> {
        flat(ops, self.plan.group.start as int, self.plan.group.end as int)
    }

    /// Whether this is a burst over these operations: everything the run carries moves the same way and
    /// fits a burst, and the cursor is where the count of bytes moved says.
    pub open spec fn fits(self, ops: Seq<Operation>) -> bool {
        let group = self.plan.group;

        &&& group.start < group.end <= ops.len()
        &&& one_way(ops, group.start as int, group.end as int, group.write)
        &&& group.total == self.bytes(ops).len()
        &&& 0 < group.total <= MAX_TRANSFER_LEN
        &&& self.moved <= group.total
        &&& group.start <= self.cursor.op
        &&& self.cursor.within(ops, group.end as int)
        &&& self.cursor.rest(ops, group.end as int) == self.bytes(ops).skip(self.moved as int)
        &&& self.phase matches Phase::Taking(count, _) ==> !group.write && 0 < count <= group.total - self.moved
        &&& self.phase is Short ==> !group.write
    }

    /// How many bytes go into a transmit FIFO with this much room.
    pub open spec fn fill(self, room: u8) -> int {
        fewer(room as int, self.plan.group.total - self.moved)
    }

    /// What filling the transmit FIFO asks for.
    pub open spec fn fill_accesses(self, ops: Seq<Operation>, room: u8) -> Seq<Access> {
        queued(self.bytes(ops).subrange(self.moved as int, self.moved + self.fill(room)))
    }

    /// A burst at the start of a run.
    pub open spec fn at_start(plan: Plan) -> Burst {
        Burst { plan, cursor: GroupCursor { op: plan.group.start, pos: 0 }, moved: 0, phase: Phase::Prime }
    }

    /// Prepare a burst over a run of operations.
    pub fn new(plan: Plan, bus: &mut Bus<Access>) -> (burst: Self)
        ensures
            burst == Self::at_start(plan),
            final(bus)@ == old(bus)@.push(Access::Iclr(Event::ClockLowTimeout.sources())),
    {
        clear_timeout(bus);
        Burst { plan, cursor: GroupCursor::at(&plan.group), moved: 0, phase: Phase::Prime }
    }

    /// Prepare a burst over one operation, which has to carry between one and 4095 bytes.
    pub fn over(
        ops: &[Operation],
        op: usize,
        address: Address,
        restart: bool,
        send_stop: bool,
        bus: &mut Bus<Access>,
    ) -> (burst: Result<Self, Error>)
        requires
            op < ops@.len(),
        ensures
            final(bus)@ == old(bus)@.push(Access::Iclr(Event::ClockLowTimeout.sources())),
            match length_error(ops@[op as int].bytes().len() as int) {
                Some(error) => burst == Err::<Burst, Error>(error),
                None => burst == Ok::<Burst, Error>(Self::at_start(single_plan(ops@, op, address, restart, send_stop)))
                    && Self::at_start(single_plan(ops@, op, address, restart, send_stop)).fits(ops@),
            },
    {
        let total: usize = ops[op].len();

        clear_timeout(bus);
        if total == 0 {
            return Err(Error::ZeroLengthTransfer);
        }
        if total > MAX_TRANSFER_LEN {
            return Err(Error::TransferLengthIsOverLimit);
        }
        let group = Group { start: op, end: op + 1, write: ops[op].is_write(), total };

        proof {
            let bytes = ops@[op as int].bytes();
            assert(flat(ops@, op + 1, op + 1) =~= Seq::<u8>::empty());
            assert(flat(ops@, op as int, op + 1) =~= bytes);
            assert(bytes.skip(0) =~= bytes);
            let burst = Self::at_start(single_plan(ops@, op, address, restart, send_stop));
            assert(burst.cursor.rest(ops@, op + 1) =~= burst.bytes(ops@).skip(0));
        }
        Ok(
            Burst {
                plan: Plan { address, group, restart, send_stop },
                cursor: GroupCursor::at(&group),
                moved: 0,
                phase: Phase::Prime,
            },
        )
    }

    /// Push what fits into the transmit FIFO.
    fn top_up(&mut self, ops: &[Operation], room: u8, bus: &mut Bus<Access>)
        requires
            old(self).fits(ops@),
            old(self).plan.group.write,
        ensures
            final(self).fits(ops@),
            final(self).plan == old(self).plan,
            final(self).phase == old(self).phase,
            final(self).moved == old(self).moved + old(self).fill(room),
            final(bus)@ == old(bus)@ + old(self).fill_accesses(ops@, room),
    {
        let end: usize = self.plan.group.end;
        let mut cursor = self.cursor;
        let ghost bytes = self.bytes(ops@);
        let ghost moved = self.moved as int;

        assert(self.plan.group == old(self).plan.group);
        let sent: usize = fill_tx_group(ops, end, &mut cursor, room, bus);

        self.cursor = cursor;
        self.moved += sent;
        proof {
            assert(bytes.skip(moved).take(sent as int) =~= bytes.subrange(moved, moved + sent));
            assert(bytes.skip(moved).skip(sent as int) =~= bytes.skip(moved + sent));
        }
    }

    /// Start the burst.
    fn start(&mut self, i2c: &mut I2c, bus: &mut Bus<Access>)
        requires
            old(self).plan.group.total <= MAX_TRANSFER_LEN,
        ensures
            *final(self) == *old(self),
            *final(i2c) == *old(i2c),
            final(bus)@ == old(bus)@ + start_accesses(old(self).plan),
    {
        let plan = self.plan;

        if plan.group.write {
            let _ = i2c.start_write(plan.address, plan.group.total, plan.send_stop, bus);
        } else {
            let _ = i2c.start_read(plan.address, plan.group.total, plan.restart, false, plan.send_stop, bus);
        }
    }

    /// Start a blocking burst, and give the address phase the time to settle.
    fn begin(&mut self, i2c: &mut I2c, bus: &mut Bus<Access>)
        requires
            old(self).plan.group.total <= MAX_TRANSFER_LEN,
        ensures
            *final(self) == (Burst { phase: Phase::Run, ..*old(self) }),
            *final(i2c) == *old(i2c),
            final(bus)@ == old(bus)@ + begin_accesses(old(self).plan, old(i2c).resolved()),
    {
        self.start(i2c, bus);
        i2c.settle_after_start(bus);
        self.phase = Phase::Run;
        assert(bus@ =~= old(bus)@ + begin_accesses(old(self).plan, old(i2c).resolved()));
    }

    /// Put the peripheral back in a state the next transfer can use, after `error` ended this one.
    ///
    /// A timeout is the one failure a STOP cannot clear, so it takes the reset. Anything else only needs
    /// the bus released and the queued bytes dropped.
    fn recover_after(&mut self, error: Error, i2c: &mut I2c, bus: &mut Bus<Access>)
        ensures
            *final(self) == (Burst { phase: Phase::failing(error), ..*old(self) }),
            *final(i2c) == *old(i2c),
            final(bus)@ == old(bus)@ + fail_accesses(error, old(i2c).resolved()),
    {
        self.phase = match i2c.recover_after(error, bus) {
            None => Phase::Failed(error),
            Some(wait) => Phase::Recover(error, wait),
        };
    }

    /// Give the controller the time to go idle, and then drop what is queued.
    fn release_bus(&mut self, idle: bool, imask: CpuInt, i2c: &mut I2c, bus: &mut Bus<Access>)
        requires
            old(self).phase is Recover,
        ensures
            *final(self) == (Burst { phase: recovering(old(self).phase, idle), ..*old(self) }),
            *final(i2c) == *old(i2c),
            final(bus)@ == old(bus)@ + recover_accesses(
                old(self).phase,
                idle,
                imask,
                old(i2c).resolved(),
                old(i2c).fifo(),
            ),
    {
        if let Phase::Recover(error, wait) = self.phase {
            let mut wait = wait;

            match wait.poll(idle, i2c.half_period(), bus) {
                None => {
                    self.phase = Phase::Recover(error, wait);
                },
                Some(_) => {
                    i2c.flush_fifos(imask, bus);
                    self.phase = Phase::Failed(error);
                },
            }
        }
        assert(bus@ =~= old(bus)@ + recover_accesses(
            old(self).phase,
            idle,
            imask,
            old(i2c).resolved(),
            old(i2c).fifo(),
        ));
    }

    /// The phase a blocking burst is in after a poll.
    pub open spec fn next_phase(self, status: Status) -> Phase {
        match self.phase {
            Phase::Prime => if self.plan.restart {
                Phase::Run
            } else {
                Phase::Idle
            },
            Phase::Idle => if status.csr.idle || status.timeouta {
                Phase::Run
            } else {
                Phase::Idle
            },
            Phase::Run => if self.plan.group.write && self.moved == self.plan.group.total && status.csr.busy
                && !status.timeouta {
                // The last bytes are queued but not yet on the wire.
                Phase::Run
            } else {
                match error_of(status) {
                    Err(error) => Phase::failing(error),
                    Ok(_) => if !self.plan.group.write {
                        if fewer(status.rx_count as int, self.plan.group.total - self.moved) == 0 {
                            Phase::Short
                        } else {
                            Phase::Taking(
                                fewer(status.rx_count as int, self.plan.group.total - self.moved) as usize,
                                Resume::Short,
                            )
                        }
                    } else if self.moved == self.plan.group.total {
                        Phase::Done
                    } else if !status.csr.busy {
                        // The burst stopped with bytes still to hand over, and no status bit says why.
                        Phase::failing(Error::Bus)
                    } else {
                        Phase::Run
                    },
                }
            },
            // Nothing left to come and nothing left to take: the burst ended early without setting a
            // status bit to say why.
            Phase::Short => if !status.csr.busy && status.rx_count == 0 {
                Phase::failing(Error::Bus)
            } else {
                Phase::Run
            },
            Phase::Recover(_, _) => recovering(self.phase, status.csr.idle),
            _ => self.phase,
        }
    }

    /// Whether a poll of a blocking burst fills the transmit FIFO.
    pub open spec fn fills(self, status: Status) -> bool {
        self.plan.group.write && (self.phase is Prime || (self.phase is Run && self.moved < self.plan.group.total
            && error_of(status) is Ok && status.csr.busy))
    }

    /// What a poll of a blocking burst asks for.
    pub open spec fn accesses(
        self,
        ops: Seq<Operation>,
        status: Status,
        imask: CpuInt,
        resolved: Resolved,
        fifo: usize,
    ) -> Seq<Access> {
        let filled = if self.fills(status) {
            self.fill_accesses(ops, status.tx_room)
        } else {
            Seq::empty()
        };

        match self.phase {
            Phase::Prime => filled + (if self.plan.restart {
                begin_accesses(self.plan, resolved)
            } else {
                Seq::empty()
            }),
            Phase::Idle => if status.csr.idle || status.timeouta {
                begin_accesses(self.plan, resolved)
            } else {
                Seq::empty()
            },
            Phase::Run => if self.plan.group.write && self.moved == self.plan.group.total && status.csr.busy
                && !status.timeouta {
                Seq::empty()
            } else {
                check_accesses(status) + (match error_of(status) {
                    Err(error) => fail_accesses(error, resolved),
                    Ok(_) => if self.plan.group.write && self.moved < self.plan.group.total && !status.csr.busy {
                        fail_accesses(Error::Bus, resolved)
                    } else {
                        filled
                    },
                })
            },
            Phase::Short => if !status.csr.busy && status.rx_count == 0 {
                fail_accesses(Error::Bus, resolved)
            } else {
                Seq::empty()
            },
            Phase::Recover(_, _) => recover_accesses(self.phase, status.csr.idle, imask, resolved, fifo),
            _ => Seq::empty(),
        }
    }

    /// Poll a blocking burst, with the status and `IMASK` read.
    pub fn poll(&mut self, ops: &[Operation], i2c: &mut I2c, status: Status, imask: CpuInt, bus: &mut Bus<Access>) -> (
    progress: Progress)
        requires
            old(self).fits(ops@),
        ensures
            final(self).fits(ops@),
            *final(i2c) == *old(i2c),
            final(self).plan == old(self).plan,
            final(self).phase == old(self).next_phase(status),
            final(self).moved == (if old(self).fills(status) {
                old(self).moved + old(self).fill(status.tx_room)
            } else {
                old(self).moved as int
            }),
            final(bus)@ == old(bus)@ + old(self).accesses(
                ops@,
                status,
                imask,
                old(i2c).resolved(),
                old(i2c).fifo(),
            ),
            progress == final(self).phase.progress(),
    {
        let ghost before = *self;
        let ghost resolved = i2c.resolved();
        let ghost fifo = i2c.fifo();

        assert(bus@ + Seq::<Access>::empty() =~= bus@);
        match self.phase {
            Phase::Prime => {
                // Prime the FIFO before arming, then keep it fed. The controller stretches SCL while the FIFO
                // is empty, so falling behind costs bus time rather than bytes.
                if self.plan.group.write {
                    self.top_up(ops, status.tx_room, bus);
                }
                if self.plan.restart {
                    self.begin(i2c, bus);
                } else {
                    self.phase = Phase::Idle;
                }
            },
            Phase::Idle => {
                if status.csr.idle || status.timeouta {
                    self.begin(i2c, bus);
                }
            },
            Phase::Run => {
                let all_queued = self.plan.group.write && self.moved == self.plan.group.total;

                if !(all_queued && status.csr.busy && !status.timeouta) {
                    match check_error(status, bus) {
                        Err(error) => {
                            self.recover_after(error, i2c, bus);
                        },
                        Ok(_) => {
                            if !self.plan.group.write {
                                let wanted: usize = drain_rx(self.plan.group.total - self.moved, status.rx_count);

                                if wanted == 0 {
                                    self.phase = Phase::Short;
                                } else {
                                    self.phase = Phase::Taking(wanted, Resume::Short);
                                }
                            } else if all_queued {
                                self.phase = Phase::Done;
                            } else if !status.csr.busy {
                                self.recover_after(Error::Bus, i2c, bus);
                            } else {
                                self.top_up(ops, status.tx_room, bus);
                            }
                        },
                    }
                }
            },
            Phase::Short => {
                if !status.csr.busy && status.rx_count == 0 {
                    self.recover_after(Error::Bus, i2c, bus);
                } else {
                    self.phase = Phase::Run;
                }
            },
            Phase::Recover(_, _) => {
                self.release_bus(status.csr.idle, imask, i2c, bus);
            },
            _ => {},
        }
        assert(bus@ =~= old(bus)@ + before.accesses(ops@, status, imask, resolved, fifo));
        self.progress()
    }

    /// What the burst asks of its caller.
    pub fn progress(&self) -> (progress: Progress)
        ensures
            progress == self.phase.progress(),
    {
        match self.phase {
            Phase::Prime | Phase::Idle | Phase::Run | Phase::Short | Phase::Recover(_, _) => Progress::Again,
            Phase::Taking(count, _) => Progress::Take(count),
            Phase::Waiting => Progress::Park,
            Phase::Done => Progress::Ready(Ok(())),
            Phase::Failed(error) => Progress::Ready(Err(error)),
        }
    }

    /// What delivering bytes asks for.
    pub open spec fn deliver_accesses(self, count: int, resolved: Resolved) -> Seq<Access> {
        match self.phase {
            Phase::Taking(_, Resume::Conclude) => self.conclude_accesses(self.moved + count, resolved),
            _ => Seq::empty(),
        }
    }

    /// The phase after the bytes that were asked for are in.
    pub open spec fn delivered_phase(self, count: int) -> Phase {
        match self.phase {
            Phase::Taking(_, Resume::Short) => if self.moved + count == self.plan.group.total {
                Phase::Done
            } else {
                Phase::Short
            },
            Phase::Taking(_, Resume::Wait) => Phase::Waiting,
            Phase::Taking(_, Resume::Conclude) => self.concluded_phase(self.moved + count),
            _ => self.phase,
        }
    }

    /// The phase after a receive burst is over with this much moved: if that is not everything, it ended
    /// without delivering it and no status bit says why.
    pub open spec fn concluded_phase(self, moved: int) -> Phase {
        if moved < self.plan.group.total {
            Phase::failing(Error::Bus)
        } else {
            Phase::Done
        }
    }

    /// What the end of a receive burst by interrupt asks for.
    pub open spec fn conclude_accesses(self, moved: int, resolved: Resolved) -> Seq<Access> {
        seq![Access::StoreImask(CpuInt::empty())] + (if moved < self.plan.group.total {
            fail_accesses(Error::Bus, resolved)
        } else {
            Seq::empty()
        })
    }

    fn conclude(&mut self, i2c: &mut I2c, bus: &mut Bus<Access>)
        ensures
            *final(self) == (Burst { phase: old(self).concluded_phase(old(self).moved as int), ..*old(self) }),
            *final(i2c) == *old(i2c),
            final(bus)@ == old(bus)@ + old(self).conclude_accesses(old(self).moved as int, old(i2c).resolved()),
    {
        i2c.disarm(bus);
        if self.moved < self.plan.group.total {
            self.recover_after(Error::Bus, i2c, bus);
        } else {
            self.phase = Phase::Done;
        }
        assert(bus@ =~= old(bus)@ + old(self).conclude_accesses(old(self).moved as int, old(i2c).resolved()));
    }

    /// Put the bytes that were asked for into the run's buffers. They are readings of `CRXDATA`, in order.
    pub fn deliver(&mut self, ops: &mut Vec<Operation>, bytes: &[u8], i2c: &mut I2c, bus: &mut Bus<Access>) -> (
    progress: Progress)
        requires
            old(self).fits(old(ops)@),
            old(self).phase matches Phase::Taking(count, _) && count == bytes@.len(),
        ensures
            final(self).fits(final(ops)@),
            *final(i2c) == *old(i2c),
            same_shape(final(ops)@, old(ops)@),
            final(self).bytes(final(ops)@) == stored(old(self).bytes(old(ops)@), old(self).moved as int, bytes@),
            forall|i: int|
                0 <= i < old(ops)@.len() && !(old(self).plan.group.start <= i < old(self).plan.group.end)
                    ==> #[trigger] final(ops)@[i].bytes() == old(ops)@[i].bytes(),
            final(self).plan == old(self).plan,
            final(self).moved == old(self).moved + bytes@.len(),
            final(self).phase == old(self).delivered_phase(bytes@.len() as int),
            final(bus)@ == old(bus)@ + old(self).deliver_accesses(bytes@.len() as int, old(i2c).resolved()),
            progress == final(self).phase.progress(),
    {
        let resume = match self.phase {
            Phase::Taking(_, resume) => resume,
            _ => Resume::Wait,
        };
        let end: usize = self.plan.group.end;
        let mut cursor = self.cursor;
        let ghost ops0 = ops@;
        let ghost group = self.plan.group;

        let got: usize = drain_rx_group(ops, end, &mut cursor, bytes);

        self.cursor = cursor;
        self.moved += got;
        proof {
            lemma_delivered(ops0, ops@, *old(self), cursor, bytes@);
        }
        assert(bus@ + Seq::<Access>::empty() =~= bus@);
        match resume {
            Resume::Short => {
                if self.moved == self.plan.group.total {
                    self.phase = Phase::Done;
                } else {
                    self.phase = Phase::Short;
                }
            },
            Resume::Wait => {
                self.phase = Phase::Waiting;
            },
            Resume::Conclude => {
                self.conclude(i2c, bus);
            },
        }
        self.progress()
    }
}

impl Burst {
    /// What starting a burst by interrupt asks for: the FIFO is primed before the sources are armed, and
    /// only asked to be topped up where it could not take the whole transfer.
    pub open spec fn launch_accesses(self, ops: Seq<Operation>, room: u8) -> Seq<Access> {
        (if self.plan.group.write {
            self.fill_accesses(ops, room).push(
                Access::Unmask(write_set(self.moved + self.fill(room) < self.plan.group.total)),
            )
        } else {
            seq![Access::Unmask(read_set())]
        }) + start_accesses(self.plan)
    }

    /// Start a burst that runs by interrupt. `room` is a reading of `TXFIFOCNT`.
    pub fn launch(&mut self, ops: &[Operation], i2c: &mut I2c, room: u8, bus: &mut Bus<Access>) -> (progress: Progress)
        requires
            old(self).fits(ops@),
            old(self).phase is Prime,
        ensures
            final(self).fits(ops@),
            *final(i2c) == *old(i2c),
            final(self).plan == old(self).plan,
            final(self).phase == Phase::Waiting,
            final(self).moved == (if old(self).plan.group.write {
                old(self).moved + old(self).fill(room)
            } else {
                old(self).moved as int
            }),
            final(bus)@ == old(bus)@ + old(self).launch_accesses(ops@, room),
            progress == Progress::Park,
    {
        if self.plan.group.write {
            self.top_up(ops, room, bus);
            bus.push(Access::Unmask(write_sources(self.moved < self.plan.group.total)));
        } else {
            bus.push(Access::Unmask(read_sources()));
        }
        self.start(i2c, bus);
        self.phase = Phase::Waiting;
        assert(bus@ =~= old(bus)@ + old(self).launch_accesses(ops@, room));
        Progress::Park
    }

    /// The fault an interrupt status stands for, if it is one: the three a controller reports are the same
    /// whichever direction the burst runs.
    pub open spec fn fault(stat: IidxStat, status: Status) -> Option<Error> {
        match stat {
            IidxStat::Cnackfg => Some(nack_of(status.csr)),
            IidxStat::Carblostfg => Some(Error::Arbitration),
            IidxStat::Timeouta => Some(Error::Timeout),
            _ => None,
        }
    }

    /// How many bytes there are to take.
    pub open spec fn wanted(self, status: Status) -> int {
        fewer(status.rx_count as int, self.plan.group.total - self.moved)
    }

    /// The phase a burst by interrupt is in after a poll.
    pub open spec fn next_by_interrupt(self, stat: IidxStat, status: Status) -> Phase {
        match self.phase {
            Phase::Waiting => match Self::fault(stat, status) {
                Some(error) => Phase::failing(error),
                None => if self.plan.group.write {
                    if stat == IidxStat::Ctxdonefg {
                        Phase::Done
                    } else {
                        Phase::Waiting
                    }
                } else if stat == IidxStat::Crxfifotrg {
                    if self.wanted(status) == 0 {
                        Phase::Waiting
                    } else {
                        Phase::Taking(self.wanted(status) as usize, Resume::Wait)
                    }
                } else if stat == IidxStat::Crxdonefg {
                    // The burst is over, so what is still in the FIFO is its tail.
                    if self.wanted(status) == 0 {
                        self.concluded_phase(self.moved as int)
                    } else {
                        Phase::Taking(self.wanted(status) as usize, Resume::Conclude)
                    }
                } else {
                    Phase::Waiting
                },
            },
            Phase::Recover(_, _) => recovering(self.phase, status.csr.idle),
            _ => self.phase,
        }
    }

    /// Whether a poll by interrupt tops up the transmit FIFO.
    pub open spec fn fills_by_interrupt(self, stat: IidxStat) -> bool {
        self.phase is Waiting && self.plan.group.write && stat == IidxStat::Ctxfifotrg
    }

    /// What a poll by interrupt asks for.
    pub open spec fn interrupt_accesses(
        self,
        ops: Seq<Operation>,
        stat: IidxStat,
        status: Status,
        imask: CpuInt,
        resolved: Resolved,
        fifo: usize,
    ) -> Seq<Access> {
        match self.phase {
            Phase::Waiting => match Self::fault(stat, status) {
                Some(error) => seq![Access::StoreImask(CpuInt::empty())] + fail_accesses(error, resolved),
                None => if self.fills_by_interrupt(stat) {
                    // Reading the status cleared this one, so the next wake comes from the FIFO draining again
                    // or from the burst finishing. Stop asking once there is nothing left to add.
                    self.fill_accesses(ops, status.tx_room) + (if self.moved + self.fill(status.tx_room)
                        == self.plan.group.total {
                        seq![Access::Mask(Event::TransmitTrigger.sources())]
                    } else {
                        Seq::empty()
                    })
                } else if self.plan.group.write && stat == IidxStat::Ctxdonefg {
                    seq![Access::StoreImask(CpuInt::empty())]
                } else if !self.plan.group.write && stat == IidxStat::Crxdonefg && self.wanted(status) == 0 {
                    self.conclude_accesses(self.moved as int, resolved)
                } else {
                    Seq::empty()
                },
            },
            Phase::Recover(_, _) => recover_accesses(self.phase, status.csr.idle, imask, resolved, fifo),
            _ => Seq::empty(),
        }
    }

    /// Poll a burst that runs by interrupt, with the waker registered and then `IIDX` read, and the status
    /// and `IMASK` with it.
    pub fn poll_by_interrupt(
        &mut self,
        ops: &[Operation],
        i2c: &mut I2c,
        stat: IidxStat,
        status: Status,
        imask: CpuInt,
        bus: &mut Bus<Access>,
    ) -> (progress: Progress)
        requires
            old(self).fits(ops@),
        ensures
            final(self).fits(ops@),
            *final(i2c) == *old(i2c),
            final(self).plan == old(self).plan,
            final(self).phase == old(self).next_by_interrupt(stat, status),
            final(self).moved == (if old(self).fills_by_interrupt(stat) {
                old(self).moved + old(self).fill(status.tx_room)
            } else {
                old(self).moved as int
            }),
            final(bus)@ == old(bus)@ + old(self).interrupt_accesses(
                ops@,
                stat,
                status,
                imask,
                old(i2c).resolved(),
                old(i2c).fifo(),
            ),
            progress == final(self).phase.progress(),
    {
        let ghost before = *self;
        let ghost resolved = i2c.resolved();
        let ghost fifo = i2c.fifo();

        assert(bus@ + Seq::<Access>::empty() =~= bus@);
        match self.phase {
            Phase::Waiting => {
                let fault = match stat {
                    IidxStat::Cnackfg => Some(nack_kind(status.csr)),
                    IidxStat::Carblostfg => Some(Error::Arbitration),
                    IidxStat::Timeouta => Some(Error::Timeout),
                    _ => None,
                };

                match fault {
                    Some(error) => {
                        i2c.disarm(bus);
                        self.recover_after(error, i2c, bus);
                    },
                    None => {
                        if self.plan.group.write {
                            self.on_transmit(ops, i2c, stat, status.tx_room, bus);
                        } else {
                            self.on_receive(i2c, stat, status.rx_count, bus);
                        }
                    },
                }
            },
            Phase::Recover(_, _) => {
                self.release_bus(status.csr.idle, imask, i2c, bus);
            },
            _ => {},
        }
        assert(bus@ =~= old(bus)@ + before.interrupt_accesses(ops@, stat, status, imask, resolved, fifo));
        self.progress()
    }

    fn on_transmit(&mut self, ops: &[Operation], i2c: &mut I2c, stat: IidxStat, room: u8, bus: &mut Bus<Access>)
        requires
            old(self).fits(ops@),
            old(self).plan.group.write,
            old(self).phase is Waiting,
        ensures
            final(self).fits(ops@),
            *final(i2c) == *old(i2c),
            final(self).plan == old(self).plan,
            final(self).phase == (if stat == IidxStat::Ctxdonefg {
                Phase::Done
            } else {
                Phase::Waiting
            }),
            final(self).moved == (if stat == IidxStat::Ctxfifotrg {
                old(self).moved + old(self).fill(room)
            } else {
                old(self).moved as int
            }),
            final(bus)@ == old(bus)@ + (match stat {
                IidxStat::Ctxfifotrg => old(self).fill_accesses(ops@, room) + (if old(self).moved + old(self).fill(room)
                    == old(self).plan.group.total {
                    seq![Access::Mask(Event::TransmitTrigger.sources())]
                } else {
                    Seq::empty()
                }),
                IidxStat::Ctxdonefg => seq![Access::StoreImask(CpuInt::empty())],
                _ => Seq::empty(),
            }),
    {
        let ghost filled = self.fill_accesses(ops@, room);

        match stat {
            IidxStat::Ctxfifotrg => {
                self.top_up(ops, room, bus);
                if self.moved == self.plan.group.total {
                    bus.push(Access::Mask(Event::TransmitTrigger.mask()));
                    assert(bus@ =~= old(bus)@ + (filled + seq![Access::Mask(Event::TransmitTrigger.sources())]));
                } else {
                    assert(filled + Seq::<Access>::empty() =~= filled);
                }
            },
            IidxStat::Ctxdonefg => {
                i2c.disarm(bus);
                self.phase = Phase::Done;
            },
            _ => {},
        }
    }

    fn on_receive(&mut self, i2c: &mut I2c, stat: IidxStat, count: u8, bus: &mut Bus<Access>)
        requires
            !old(self).plan.group.write,
            old(self).phase is Waiting,
            old(self).moved <= old(self).plan.group.total,
        ensures
            *final(i2c) == *old(i2c),
            ({
                let wanted = fewer(count as int, old(self).plan.group.total - old(self).moved);

                &&& *final(self) == (Burst {
                    phase: match stat {
                        IidxStat::Crxfifotrg => if wanted == 0 {
                            Phase::Waiting
                        } else {
                            Phase::Taking(wanted as usize, Resume::Wait)
                        },
                        IidxStat::Crxdonefg => if wanted == 0 {
                            old(self).concluded_phase(old(self).moved as int)
                        } else {
                            Phase::Taking(wanted as usize, Resume::Conclude)
                        },
                        _ => Phase::Waiting,
                    },
                    ..*old(self)
                })
                &&& final(bus)@ == old(bus)@ + (if stat == IidxStat::Crxdonefg && wanted == 0 {
                    old(self).conclude_accesses(old(self).moved as int, old(i2c).resolved())
                } else {
                    Seq::empty()
                })
            }),
    {
        let wanted: usize = drain_rx(self.plan.group.total - self.moved, count);

        match stat {
            IidxStat::Crxfifotrg => {
                if wanted != 0 {
                    self.phase = Phase::Taking(wanted, Resume::Wait);
                }
            },
            IidxStat::Crxdonefg => {
                if wanted != 0 {
                    self.phase = Phase::Taking(wanted, Resume::Conclude);
                } else {
                    self.conclude(i2c, bus);
                }
            },
            _ => {},
        }
    }

    /// Whether dropping the burst here leaves one running that nobody services.
    pub open spec fn in_flight(self) -> bool {
        self.phase is Waiting || self.phase is Taking
    }

    /// Drop a burst that runs by interrupt.
    ///
    /// Part-way, this deliberately does not release the bus: a STOP-only command is only legal after a
    /// finished transaction, and waiting for the burst to end is unbounded. Masking matters on its own: an
    /// armed interrupt with nothing left to consume it fires into a handler that only wakes. The next
    /// transfer finishes the job, with a reset.
    pub fn cancel(self, i2c: &mut I2c, bus: &mut Bus<Access>)
        ensures
            final(i2c).same_but_abandoned(old(i2c)),
            final(i2c).is_abandoned() == (old(i2c).is_abandoned() || self.in_flight()),
            final(bus)@ == (if self.in_flight() {
                old(bus)@.push(Access::StoreImask(CpuInt::empty()))
            } else {
                old(bus)@
            }),
    {
        match self.phase {
            Phase::Waiting | Phase::Taking(_, _) => {
                i2c.disarm(bus);
                i2c.mark_abandoned();
            },
            _ => {},
        }
    }
}

/// What is wrong with the length of a transfer, if anything.
pub open spec fn length_error(len: int) -> Option<Error> {
    if len == 0 {
        Some(Error::ZeroLengthTransfer)
    } else if len > MAX_TRANSFER_LEN {
        Some(Error::TransferLengthIsOverLimit)
    } else {
        None
    }
}

/// The plan for one operation by itself.
pub open spec fn single_plan(ops: Seq<Operation>, op: usize, address: Address, restart: bool, send_stop: bool) -> Plan {
    Plan {
        address,
        group: Group {
            start: op,
            end: (op + 1) as usize,
            write: ops[op as int].writes(),
            total: ops[op as int].bytes().len() as usize,
        },
        restart,
        send_stop,
    }
}

/// The phase a recovery is in after a poll.
pub open spec fn recovering(phase: Phase, idle: bool) -> Phase {
    match phase {
        Phase::Recover(error, wait) => if wait.answer(idle) is Some {
            Phase::Failed(error)
        } else {
            Phase::Recover(error, wait.after(idle))
        },
        _ => phase,
    }
}

/// What a poll of a recovery asks for.
pub open spec fn recover_accesses(phase: Phase, idle: bool, imask: CpuInt, resolved: Resolved, fifo: usize) -> Seq<
    Access,
> {
    match phase {
        Phase::Recover(_, wait) => if wait.answer(idle) is Some {
            flush_accesses(fifo, imask)
        } else {
            wait.accesses(idle, resolved.half_period_cycles as u32)
        },
        _ => Seq::empty(),
    }
}

/// What a cursor has before it is the tail of its run.
proof fn lemma_rest_is_a_tail(ops: Seq<Operation>, cursor: GroupCursor, start: int, end: int)
    requires
        start <= cursor.op,
        cursor.within(ops, end),
    ensures
        cursor.rest(ops, end).len() <= flat(ops, start, end).len(),
        cursor.rest(ops, end) == flat(ops, start, end).skip(
            flat(ops, start, end).len() - cursor.rest(ops, end).len(),
        ),
{
    let whole = flat(ops, start, end);
    let rest = cursor.rest(ops, end);
    flat_splits(ops, start, cursor.op as int, end);
    assert(rest =~= whole.skip(whole.len() - rest.len()));
}

/// One stretch of what operations hold, after some of it was overwritten.
proof fn lemma_stretch(
    before: Seq<Operation>,
    after: Seq<Operation>,
    from: int,
    end: int,
    at: int,
    bytes: Seq<u8>,
)
    requires
        same_shape(after, before),
        0 <= from <= end <= before.len(),
        0 <= at,
        at + bytes.len() <= flat(before, 0, before.len() as int).len(),
        flat(after, 0, after.len() as int) == stored(flat(before, 0, before.len() as int), at, bytes),
    ensures
        flat(after, from, end).len() == flat(before, from, end).len(),
        forall|i: int|
            0 <= i < flat(before, from, end).len() ==> #[trigger] flat(after, from, end)[i] == stored(
                flat(before, 0, before.len() as int),
                at,
                bytes,
            )[flat(before, 0, from).len() + i],
{
    let n = before.len() as int;
    shapes_have_lengths(after, before, from, end);
    shapes_have_lengths(after, before, 0, from);
    flat_splits(after, 0, from, n);
    flat_splits(after, from, end, n);
    flat_splits(before, 0, from, n);
    flat_splits(before, from, end, n);
    assert forall|i: int| 0 <= i < flat(before, from, end).len() implies #[trigger] flat(after, from, end)[i] == stored(
        flat(before, 0, n),
        at,
        bytes,
    )[flat(before, 0, from).len() + i] by {
        assert(flat(after, 0, n)[flat(after, 0, from).len() + i] == flat(after, from, end)[i]);
    }
}

/// What delivering bytes to a burst does to the buffers of its run, and of everything else.
proof fn lemma_delivered(
    before: Seq<Operation>,
    after: Seq<Operation>,
    burst: Burst,
    cursor: GroupCursor,
    bytes: Seq<u8>,
)
    requires
        burst.fits(before),
        !burst.plan.group.write,
        bytes.len() <= burst.plan.group.total - burst.moved,
        same_shape(after, before),
        cursor.within(after, burst.plan.group.end as int),
        cursor.op >= burst.cursor.op,
        cursor.rest(after, burst.plan.group.end as int).len() == burst.cursor.rest(
            before,
            burst.plan.group.end as int,
        ).len() - bytes.len(),
        flat(after, 0, after.len() as int) == stored(
            flat(before, 0, before.len() as int),
            burst.cursor.offset(before),
            bytes,
        ),
    ensures
        burst.bytes(after) == stored(burst.bytes(before), burst.moved as int, bytes),
        one_way(after, burst.plan.group.start as int, burst.plan.group.end as int, false),
        cursor.rest(after, burst.plan.group.end as int) == burst.bytes(after).skip(burst.moved + bytes.len()),
        forall|i: int|
            0 <= i < before.len() && !(burst.plan.group.start <= i < burst.plan.group.end)
                ==> #[trigger] after[i].bytes() == before[i].bytes(),
{
    let n = before.len() as int;
    let start = burst.plan.group.start as int;
    let end = burst.plan.group.end as int;
    let at = burst.cursor.offset(before);
    let all = flat(before, 0, n);
    offset_and_rest_add_up(before, burst.cursor, end);
    flat_splits(before, 0, start, end);
    flat_splits(before, 0, end, n);
    assert(at == flat(before, 0, start).len() + burst.moved);
    lemma_stretch(before, after, start, end, at, bytes);
    assert(burst.bytes(after) =~= stored(burst.bytes(before), burst.moved as int, bytes)) by {
        assert forall|i: int| 0 <= i < burst.bytes(before).len() implies burst.bytes(after)[i] == stored(
            burst.bytes(before),
            burst.moved as int,
            bytes,
        )[i] by {
            assert(all[flat(before, 0, start).len() + i] == burst.bytes(before)[i]);
        }
    }
    assert(one_way(after, start, end, false)) by {
        assert forall|i: int| start <= i < end && (#[trigger] after[i]).bytes().len() > 0 implies after[i].writes()
            == false by {
            assert(before[i].writes() == after[i].writes());
        }
    }
    lemma_rest_is_a_tail(after, cursor, start, end);
    assert forall|i: int| 0 <= i < n && !(start <= i < end) implies
        #[trigger] after[i].bytes() == before[i].bytes() by {
        lemma_stretch(before, after, i, i + 1, at, bytes);
        assert(flat(after, i + 1, i + 1) =~= Seq::<u8>::empty());
        assert(flat(before, i + 1, i + 1) =~= Seq::<u8>::empty());
        assert(flat(after, i, i + 1) =~= after[i].bytes());
        assert(flat(before, i, i + 1) =~= before[i].bytes());
        flat_splits(before, 0, i, n);
        flat_splits(before, i, i + 1, n);
        if i < start {
            flat_splits(before, 0, i, start);
            flat_splits(before, i, i + 1, start);
        } else {
            flat_splits(before, 0, end, i);
        }
        assert forall|k: int| 0 <= k < before[i].bytes().len() implies after[i].bytes()[k] == before[i].bytes()[k] by {
            assert(flat(after, i, i + 1)[k] == stored(all, at, bytes)[flat(before, 0, i).len() + k]);
            assert(all[flat(before, 0, i).len() + k] == before[i].bytes()[k]);
        }
        assert(after[i].bytes() =~= before[i].bytes());
    }
}

/// The bytes a sequence of accesses queues, in order.
pub open spec fn sent(accesses: Seq<Access>) -> Seq<u8>
    decreases accesses.len(),
{
    if accesses.len() == 0 {
        Seq::empty()
    } else {
        match accesses.last() {
            Access::Txdata(byte) => sent(accesses.drop_last()).push(byte),
            _ => sent(accesses.drop_last()),
        }
    }
}

/// What two sequences of accesses queue, one after the other.
pub proof fn sent_adds_up(a: Seq<Access>, b: Seq<Access>)
    ensures
        sent(a + b) == sent(a) + sent(b),
    decreases b.len(),
{
    if b.len() == 0 {
        assert(a + b =~= a);
        assert(sent(a) + sent(b) =~= sent(a));
    } else {
        assert((a + b).drop_last() =~= a + b.drop_last());
        sent_adds_up(a, b.drop_last());
        assert(sent(a + b) =~= sent(a) + sent(b));
    }
}

proof fn lemma_sent_queued(bytes: Seq<u8>)
    ensures
        sent(queued(bytes)) == bytes,
    decreases bytes.len(),
{
    if bytes.len() == 0 {
        assert(bytes =~= Seq::<u8>::empty());
    } else {
        assert(queued(bytes).drop_last() =~= queued(bytes.drop_last()));
        lemma_sent_queued(bytes.drop_last());
        assert(bytes.drop_last().push(bytes.last()) =~= bytes);
    }
}

proof fn lemma_nothing_sent(accesses: Seq<Access>)
    requires
        forall|i: int| 0 <= i < accesses.len() ==> !(#[trigger] accesses[i] is Txdata),
    ensures
        sent(accesses) == Seq::<u8>::empty(),
    decreases accesses.len(),
{
    if accesses.len() > 0 {
        lemma_nothing_sent(accesses.drop_last());
        assert(!(accesses[accesses.len() - 1] is Txdata));
    }
}

/// A blocking burst after a run of polls, and what they asked for, where nothing is delivered in between.
pub open spec fn polled(
    burst: Burst,
    ops: Seq<Operation>,
    statuses: Seq<Status>,
    imask: CpuInt,
    resolved: Resolved,
    fifo: usize,
) -> (int, Phase, Seq<Access>)
    decreases statuses.len(),
{
    if statuses.len() == 0 {
        (burst.moved as int, burst.phase, Seq::empty())
    } else {
        let (moved, phase, asked) = polled(burst, ops, statuses.drop_last(), imask, resolved, fifo);
        let now = Burst { moved: moved as usize, phase, ..burst };
        let status = statuses.last();

        (
            if now.fills(status) {
                moved + now.fill(status.tx_room)
            } else {
                moved
            },
            now.next_phase(status),
            asked + now.accesses(ops, status, imask, resolved, fifo),
        )
    }
}

/// A blocking write puts the run's bytes into the FIFO in order, each of them once: whatever the controller
/// reports along the way, what was queued is what the count says. And it only says it succeeded once that is
/// all of them.
pub proof fn write_sends_every_byte_once(
    burst: Burst,
    ops: Seq<Operation>,
    statuses: Seq<Status>,
    imask: CpuInt,
    resolved: Resolved,
    fifo: usize,
)
    requires
        burst.fits(ops),
        burst.plan.group.write,
        burst == Burst::at_start(burst.plan),
    ensures
        ({
            let (moved, phase, asked) = polled(burst, ops, statuses, imask, resolved, fifo);

            &&& 0 <= moved <= burst.plan.group.total
            &&& sent(asked) == burst.bytes(ops).take(moved)
            &&& phase is Done ==> sent(asked) == burst.bytes(ops)
            &&& !(phase is Taking) && !(phase is Waiting) && !(phase is Short)
        }),
    decreases statuses.len(),
{
    let bytes = burst.bytes(ops);
    if statuses.len() == 0 {
        assert(bytes.take(0) =~= Seq::<u8>::empty());
    } else {
        write_sends_every_byte_once(burst, ops, statuses.drop_last(), imask, resolved, fifo);
        let (moved, phase, asked) = polled(burst, ops, statuses.drop_last(), imask, resolved, fifo);
        let now = Burst { moved: moved as usize, phase, ..burst };
        let status = statuses.last();
        let step = now.accesses(ops, status, imask, resolved, fifo);
        poll_queues_what_it_counts(now, ops, status, imask, resolved, fifo);
        sent_adds_up(asked, step);
        let (moved1, phase1, asked1) = polled(burst, ops, statuses, imask, resolved, fifo);
        assert(bytes.take(moved) + bytes.subrange(moved, moved1) =~= bytes.take(moved1));
        if moved1 == burst.plan.group.total {
            assert(bytes.take(moved1) =~= bytes);
        }
    }
}

/// What a poll of a blocking burst queues: the bytes between the count before and the count after, and nothing
/// else.
pub proof fn poll_queues_what_it_counts(
    burst: Burst,
    ops: Seq<Operation>,
    status: Status,
    imask: CpuInt,
    resolved: Resolved,
    fifo: usize,
)
    requires
        burst.plan.group.total == burst.bytes(ops).len(),
        burst.moved <= burst.plan.group.total,
    ensures
        sent(burst.accesses(ops, status, imask, resolved, fifo)) == burst.bytes(ops).subrange(
            burst.moved as int,
            if burst.fills(status) {
                burst.moved + burst.fill(status.tx_room)
            } else {
                burst.moved as int
            },
        ),
{
    let filled = if burst.fills(status) {
        burst.fill_accesses(ops, status.tx_room)
    } else {
        Seq::empty()
    };
    let bytes = burst.bytes(ops).subrange(burst.moved as int, burst.moved + burst.fill(status.tx_room));
    let all = burst.accesses(ops, status, imask, resolved, fifo);
    if burst.fills(status) {
        lemma_sent_queued(bytes);
        if burst.phase is Prime {
            let rest = if burst.plan.restart {
                begin_accesses(burst.plan, resolved)
            } else {
                Seq::empty()
            };
            sent_adds_up(filled, rest);
            lemma_nothing_sent(rest);
            assert(bytes + Seq::<u8>::empty() =~= bytes);
        } else {
            assert(check_accesses(status) + filled =~= filled);
        }
    } else {
        lemma_nothing_sent(all);
        assert(burst.bytes(ops).subrange(burst.moved as int, burst.moved as int) =~= Seq::<u8>::empty());
    }
}

/// A burst by interrupt after a run of polls, and what they asked for, where nothing is delivered in between.
/// Each poll has its own readings of `IIDX`, of the status and of `IMASK`.
pub open spec fn polled_by_interrupt(
    burst: Burst,
    ops: Seq<Operation>,
    readings: Seq<(IidxStat, Status, CpuInt)>,
    resolved: Resolved,
    fifo: usize,
) -> (int, Phase, Seq<Access>)
    decreases readings.len(),
{
    if readings.len() == 0 {
        (burst.moved as int, burst.phase, Seq::empty())
    } else {
        let (moved, phase, asked) = polled_by_interrupt(burst, ops, readings.drop_last(), resolved, fifo);
        let now = Burst { moved: moved as usize, phase, ..burst };
        let (stat, status, imask) = readings.last();

        (
            if now.fills_by_interrupt(stat) {
                moved + now.fill(status.tx_room)
            } else {
                moved
            },
            now.next_by_interrupt(stat, status),
            asked + now.interrupt_accesses(ops, stat, status, imask, resolved, fifo),
        )
    }
}

/// What a poll by interrupt queues: the bytes between the count before and the count after, and nothing else.
pub proof fn interrupt_queues_what_it_counts(
    burst: Burst,
    ops: Seq<Operation>,
    stat: IidxStat,
    status: Status,
    imask: CpuInt,
    resolved: Resolved,
    fifo: usize,
)
    requires
        burst.plan.group.total == burst.bytes(ops).len(),
        burst.moved <= burst.plan.group.total,
    ensures
        sent(burst.interrupt_accesses(ops, stat, status, imask, resolved, fifo)) == burst.bytes(ops).subrange(
            burst.moved as int,
            if burst.fills_by_interrupt(stat) {
                burst.moved + burst.fill(status.tx_room)
            } else {
                burst.moved as int
            },
        ),
{
    let all = burst.interrupt_accesses(ops, stat, status, imask, resolved, fifo);
    if burst.fills_by_interrupt(stat) {
        let bytes = burst.bytes(ops).subrange(burst.moved as int, burst.moved + burst.fill(status.tx_room));
        let rest = if burst.moved + burst.fill(status.tx_room) == burst.plan.group.total {
            seq![Access::Mask(Event::TransmitTrigger.sources())]
        } else {
            Seq::<Access>::empty()
        };
        lemma_sent_queued(bytes);
        lemma_nothing_sent(rest);
        sent_adds_up(queued(bytes), rest);
        assert(bytes + Seq::<u8>::empty() =~= bytes);
    } else {
        lemma_nothing_sent(all);
        assert(burst.bytes(ops).subrange(burst.moved as int, burst.moved as int) =~= Seq::<u8>::empty());
    }
}

/// A write by interrupt puts the run's bytes into the FIFO in order, each of them once, from its launch on:
/// whatever the controller reports along the way, what was queued is what the count says, and that is all of
/// them once the count has reached the end.
pub proof fn interrupt_write_sends_every_byte_once(
    burst: Burst,
    ops: Seq<Operation>,
    room: u8,
    readings: Seq<(IidxStat, Status, CpuInt)>,
    resolved: Resolved,
    fifo: usize,
)
    requires
        burst.fits(ops),
        burst.plan.group.write,
        burst == Burst::at_start(burst.plan),
    ensures
        ({
            let launched = Burst { moved: burst.fill(room) as usize, phase: Phase::Waiting, ..burst };
            let (moved, phase, asked) = polled_by_interrupt(launched, ops, readings, resolved, fifo);
            let all = burst.launch_accesses(ops, room) + asked;

            &&& burst.fill(room) <= moved <= burst.plan.group.total
            &&& sent(all) == burst.bytes(ops).take(moved)
            &&& moved == burst.plan.group.total ==> sent(all) == burst.bytes(ops)
            &&& phase is Waiting || phase is Done || phase is Recover || phase is Failed
        }),
    decreases readings.len(),
{
    let bytes = burst.bytes(ops);
    let launched = Burst { moved: burst.fill(room) as usize, phase: Phase::Waiting, ..burst };
    let opening = burst.launch_accesses(ops, room);
    assert(bytes.take(bytes.len() as int) =~= bytes);
    if readings.len() == 0 {
        let primed = burst.fill_accesses(ops, room);
        let armed = Access::Unmask(write_set(burst.moved + burst.fill(room) < burst.plan.group.total));
        let rest = seq![armed] + start_accesses(burst.plan);
        assert(opening =~= primed + rest);
        lemma_sent_queued(bytes.subrange(0, burst.fill(room)));
        lemma_nothing_sent(rest);
        sent_adds_up(primed, rest);
        assert(bytes.subrange(0, burst.fill(room)) + Seq::<u8>::empty() =~= bytes.take(burst.fill(room)));
        assert(opening + Seq::<Access>::empty() =~= opening);
    } else {
        let before = readings.drop_last();
        interrupt_write_sends_every_byte_once(burst, ops, room, before, resolved, fifo);
        let (moved, phase, asked) = polled_by_interrupt(launched, ops, before, resolved, fifo);
        let now = Burst { moved: moved as usize, phase, ..launched };
        let (stat, status, imask) = readings.last();
        let step = now.interrupt_accesses(ops, stat, status, imask, resolved, fifo);
        interrupt_queues_what_it_counts(now, ops, stat, status, imask, resolved, fifo);
        assert(opening + (asked + step) =~= (opening + asked) + step);
        sent_adds_up(opening + asked, step);
        let (moved1, phase1, asked1) = polled_by_interrupt(launched, ops, readings, resolved, fifo);
        assert(bytes.take(moved) + bytes.subrange(moved, moved1) =~= bytes.take(moved1));
    }
}

/// A receiving burst after a run of polls: how many bytes it has moved, how far it has got, what the run's
/// buffers hold, and what was delivered, joined.
///
/// Each step is a poll with its readings, and the bytes that are delivered if it asks for any.
pub open spec fn received(
    burst: Burst,
    buffer: Seq<u8>,
    by_interrupt: bool,
    steps: Seq<(IidxStat, Status, Seq<u8>)>,
) -> (int, Phase, Seq<u8>, Seq<u8>)
    decreases steps.len(),
{
    if steps.len() == 0 {
        (burst.moved as int, burst.phase, buffer, Seq::empty())
    } else {
        let (moved, phase, held, joined) = received(burst, buffer, by_interrupt, steps.drop_last());
        let now = Burst { moved: moved as usize, phase, ..burst };
        let (stat, status, bytes) = steps.last();
        let next = if by_interrupt {
            now.next_by_interrupt(stat, status)
        } else {
            now.next_phase(status)
        };

        if next is Taking {
            (
                moved + bytes.len(),
                (Burst { phase: next, ..now }).delivered_phase(bytes.len() as int),
                stored(held, moved, bytes),
                joined + bytes,
            )
        } else {
            (moved, next, held, joined)
        }
    }
}

/// Whether each poll of a run that asks for bytes gets as many as it asked for.
pub open spec fn answered(
    burst: Burst,
    buffer: Seq<u8>,
    by_interrupt: bool,
    steps: Seq<(IidxStat, Status, Seq<u8>)>,
) -> bool
    decreases steps.len(),
{
    steps.len() > 0 ==> {
        let (moved, phase, _, _) = received(burst, buffer, by_interrupt, steps.drop_last());
        let now = Burst { moved: moved as usize, phase, ..burst };
        let (stat, status, bytes) = steps.last();
        let next = if by_interrupt {
            now.next_by_interrupt(stat, status)
        } else {
            now.next_phase(status)
        };

        &&& answered(burst, buffer, by_interrupt, steps.drop_last())
        &&& next matches Phase::Taking(count, _) ==> bytes.len() == count
    }
}

/// A read keeps every byte it is handed, once and in order, blocking or by interrupt: whatever the controller
/// reports along the way, the deliveries joined are the start of the run, and the rest of it is untouched. And it
/// only says it succeeded once they are the whole of the run.
pub proof fn read_keeps_every_byte_once(
    burst: Burst,
    buffer: Seq<u8>,
    by_interrupt: bool,
    steps: Seq<(IidxStat, Status, Seq<u8>)>,
)
    requires
        !burst.plan.group.write,
        burst.moved == 0,
        burst.phase is Prime || burst.phase is Waiting,
        buffer.len() == burst.plan.group.total,
        answered(burst, buffer, by_interrupt, steps),
    ensures
        ({
            let (moved, phase, held, joined) = received(burst, buffer, by_interrupt, steps);

            &&& moved == joined.len()
            &&& 0 <= moved <= burst.plan.group.total
            &&& held == joined + buffer.skip(moved)
            &&& phase is Done ==> held == joined
            &&& phase !is Taking
        }),
    decreases steps.len(),
{
    if steps.len() == 0 {
        assert(buffer =~= Seq::<u8>::empty() + buffer.skip(0));
    } else {
        let before = steps.drop_last();
        read_keeps_every_byte_once(burst, buffer, by_interrupt, before);
        let (moved, phase, held, joined) = received(burst, buffer, by_interrupt, before);
        let (moved1, phase1, held1, joined1) = received(burst, buffer, by_interrupt, steps);
        assert(held1 =~= joined1 + buffer.skip(moved1));
        if phase1 is Done {
            assert(moved1 == burst.plan.group.total);
            assert(held1 =~= joined1);
        }
    }
}

/// Bytes are kept in the order they arrive in: two deliveries leave what one of both would have left.
pub proof fn deliveries_keep_their_order(before: Seq<u8>, at: int, first: Seq<u8>, second: Seq<u8>)
    requires
        0 <= at,
        at + first.len() + second.len() <= before.len(),
    ensures
        stored(stored(before, at, first), at + first.len(), second) == stored(before, at, first + second),
        stored(before, 0, first + second).take((first.len() + second.len()) as int) == first + second || at > 0,
{
    assert(stored(stored(before, at, first), at + first.len(), second) =~= stored(before, at, first + second));
    if at == 0 {
        assert(stored(before, 0, first + second).take((first.len() + second.len()) as int) =~= first + second);
    }
}

/// A receiving burst says it succeeded only once every byte of its run is in, blocking or by interrupt.
pub proof fn read_succeeds_only_when_full(burst: Burst, stat: IidxStat, status: Status, count: int)
    requires
        !burst.plan.group.write,
        burst.moved <= burst.plan.group.total,
        !(burst.phase is Done),
        burst.phase matches Phase::Taking(taken, _) ==> count == taken && burst.moved + count <= burst.plan.group.total,
    ensures
        burst.next_phase(status) !is Done,
        burst.next_by_interrupt(stat, status) is Done ==> burst.moved == burst.plan.group.total,
        burst.phase is Taking && burst.delivered_phase(count) is Done ==> burst.moved + count
            == burst.plan.group.total,
{
}

/// A timeout is answered with a reset, and any other failure with a STOP and then a flush of the FIFOs: by the
/// time a burst says that it failed, the peripheral is fit for the next one.
pub proof fn failure_leaves_the_peripheral_usable(
    phase: Phase,
    error: Error,
    idle: bool,
    imask: CpuInt,
    resolved: Resolved,
    fifo: usize,
)
    ensures
        error == Error::Timeout ==> Phase::failing(error) == Phase::Failed(error) && fail_accesses(error, resolved)
            == reset_accesses(resolved),
        error != Error::Timeout ==> Phase::failing(error) is Recover && fail_accesses(error, resolved)
            == stop_accesses(),
        phase is Recover && recovering(phase, idle) is Failed ==> recover_accesses(phase, idle, imask, resolved, fifo)
            == flush_accesses(fifo, imask),
{
}

/// A burst that is over by interrupt leaves nothing armed.
pub proof fn burst_disarms(
    burst: Burst,
    ops: Seq<Operation>,
    stat: IidxStat,
    status: Status,
    imask: CpuInt,
    resolved: Resolved,
    fifo: usize,
)
    requires
        burst.phase is Waiting,
        burst.next_by_interrupt(stat, status) !is Waiting,
        burst.next_by_interrupt(stat, status) !is Taking,
    ensures
        burst.interrupt_accesses(ops, stat, status, imask, resolved, fifo).len() > 0,
        burst.interrupt_accesses(ops, stat, status, imask, resolved, fifo)[0] == Access::StoreImask(CpuInt::empty()),
        forall|i: int|
            0 < i < burst.interrupt_accesses(ops, stat, status, imask, resolved, fifo).len() ==> !(
            #[trigger] burst.interrupt_accesses(ops, stat, status, imask, resolved, fifo)[i] is Unmask),
{
}

/// A burst opens as it is planned, with the whole run as its length. The last byte of a read is the transfer's last and
/// is not acknowledged, which is what makes the target let go of the bus; a write leaves that alone. The STOP goes
/// with the burst exactly where the plan ends the transaction.
pub proof fn burst_opens_as_planned(plan: Plan)
    requires
        plan.group.total <= MAX_TRANSFER_LEN,
    ensures
        ({
            let asked = start_accesses(plan);
            let n = asked.len() as int;

            &&& n >= 2
            &&& asked[n - 2] is Csa && asked[n - 1] is Cctr
            &&& plan.restart && !plan.group.write <==> asked[0] is Delay
            &&& forall|i: int|
                0 <= i < n ==> opens_burst(
                    #[trigger] asked[i],
                    plan.address,
                    plan.group.write,
                    plan.group.total as int,
                    if plan.group.write {
                        None
                    } else {
                        Some(false)
                    },
                    plan.send_stop,
                )
            &&& forall|i: int|
                0 <= i < n ==> (#[trigger] asked[i] matches Access::Cctr(cctr) ==> {
                    &&& cctr.start
                    &&& cctr.cblen == plan.group.total
                    &&& cctr.stop == plan.send_stop
                    &&& !plan.group.write ==> cctr.ack == Some(false)
                    &&& plan.group.write ==> cctr.ack is None
                })
        }),
{
    low_level::burst_opens_as_asked(
        plan.address,
        plan.group.total as u16,
        plan.restart,
        false,
        plan.send_stop,
    );
}

/// Whether an access asks for no START that is not the planned one.
pub open spec fn starts_only_as_planned(access: Access, plan: Plan) -> bool {
    access matches Access::Cctr(cctr) ==> cctr.start ==> {
        &&& cctr.cblen == plan.group.total
        &&& cctr.stop == plan.send_stop
        &&& cctr.burstrun == Some(true)
        &&& !plan.group.write ==> cctr.ack == Some(false)
        &&& plan.group.write ==> cctr.ack is None
    }
}

/// What a failure and a recovery ask for holds no START.
proof fn lemma_cleaning_up_starts_nothing(
    error: Error,
    phase: Phase,
    idle: bool,
    imask: CpuInt,
    resolved: Resolved,
    fifo: usize,
)
    ensures
        forall|i: int|
            0 <= i < fail_accesses(error, resolved).len() ==> !(#[trigger] fail_accesses(error, resolved)[i]
                matches Access::Cctr(cctr) && cctr.start),
        forall|i: int|
            0 <= i < recover_accesses(phase, idle, imask, resolved, fifo).len() ==> !(#[trigger] recover_accesses(
                phase,
                idle,
                imask,
                resolved,
                fifo,
            )[i] is Cctr),
{
}

/// What beginning a burst asks for holds the planned START, next to last.
proof fn lemma_begins_with_the_planned_start(plan: Plan, resolved: Resolved)
    requires
        plan.group.total <= MAX_TRANSFER_LEN,
    ensures
        ({
            let begin = begin_accesses(plan, resolved);

            &&& begin.len() >= 3
            &&& begin[begin.len() - 2] matches Access::Cctr(cctr) && cctr.start
            &&& forall|i: int| 0 <= i < begin.len() ==> starts_only_as_planned(#[trigger] begin[i], plan)
        }),
{
    let opening = start_accesses(plan);
    let begin = begin_accesses(plan, resolved);
    burst_opens_as_planned(plan);
    assert forall|i: int| 0 <= i < begin.len() implies starts_only_as_planned(#[trigger] begin[i], plan) by {
        if i < opening.len() {
            assert(begin[i] == opening[i]);
        }
    }
    assert(begin[begin.len() - 2] == opening[opening.len() - 1]);
}

/// Whether a blocking burst may ask for its START now: at once where it continues a transaction, and once the
/// controller is idle or has timed out where it opens one.
pub open spec fn may_start(burst: Burst, status: Status) -> bool {
    ||| burst.phase is Prime && burst.plan.restart
    ||| burst.phase is Idle && (status.csr.idle || status.timeouta)
}

/// Every START a blocking burst asks for is the planned one, and it asks for one exactly where it may.
pub proof fn every_start_is_the_planned_one(
    burst: Burst,
    ops: Seq<Operation>,
    status: Status,
    imask: CpuInt,
    resolved: Resolved,
    fifo: usize,
)
    requires
        burst.plan.group.total <= MAX_TRANSFER_LEN,
    ensures
        ({
            let asked = burst.accesses(ops, status, imask, resolved, fifo);

            &&& forall|i: int| 0 <= i < asked.len() ==> starts_only_as_planned(#[trigger] asked[i], burst.plan)
            &&& may_start(burst, status) <==> exists|i: int|
                0 <= i < asked.len() && (#[trigger] asked[i] matches Access::Cctr(cctr) && cctr.start)
        }),
{
    let asked = burst.accesses(ops, status, imask, resolved, fifo);
    let filled = if burst.fills(status) {
        burst.fill_accesses(ops, status.tx_room)
    } else {
        Seq::empty()
    };
    assert forall|i: int| 0 <= i < filled.len() implies (#[trigger] filled[i]) is Txdata by {}
    lemma_begins_with_the_planned_start(burst.plan, resolved);
    let begin = begin_accesses(burst.plan, resolved);
    if may_start(burst, status) {
        let from = if burst.phase is Prime {
            filled.len() as int
        } else {
            0
        };
        assert(asked =~= (if burst.phase is Prime {
            filled
        } else {
            Seq::empty()
        }) + begin);
        assert forall|i: int| 0 <= i < asked.len() implies starts_only_as_planned(#[trigger] asked[i], burst.plan) by {
            if i >= from {
                assert(asked[i] == begin[i - from]);
            } else {
                assert(asked[i] == filled[i]);
            }
        }
        assert(asked[asked.len() - 2] == begin[begin.len() - 2]);
    } else {
        let error = match error_of(status) {
            Err(error) => error,
            Ok(_) => Error::Bus,
        };
        lemma_cleaning_up_starts_nothing(error, burst.phase, status.csr.idle, imask, resolved, fifo);
        let failing = fail_accesses(error, resolved);
        let check = check_accesses(status);
        assert forall|i: int| 0 <= i < asked.len() implies !(#[trigger] asked[i] matches Access::Cctr(cctr)
            && cctr.start) by {
            if burst.phase is Run && i >= check.len() && error_of(status) is Err {
                assert(asked[i] == failing[i - check.len()]);
            }
        }
    }
}

/// By interrupt, a burst asks for its START in its launch, and for none after that.
pub proof fn only_the_launch_starts(
    burst: Burst,
    ops: Seq<Operation>,
    stat: IidxStat,
    status: Status,
    imask: CpuInt,
    resolved: Resolved,
    fifo: usize,
    room: u8,
)
    requires
        burst.plan.group.total <= MAX_TRANSFER_LEN,
    ensures
        ({
            let asked = burst.launch_accesses(ops, room);

            &&& forall|i: int| 0 <= i < asked.len() ==> starts_only_as_planned(#[trigger] asked[i], burst.plan)
            &&& asked.last() matches Access::Cctr(cctr) && cctr.start
        }),
        ({
            let asked = burst.interrupt_accesses(ops, stat, status, imask, resolved, fifo);

            forall|i: int|
                0 <= i < asked.len() ==> !(#[trigger] asked[i] matches Access::Cctr(cctr) && cctr.start)
        }),
{
    burst_opens_as_planned(burst.plan);
    let opening = start_accesses(burst.plan);
    let launch = burst.launch_accesses(ops, room);
    let before = launch.len() - opening.len();
    assert forall|i: int| 0 <= i < launch.len() implies starts_only_as_planned(#[trigger] launch[i], burst.plan) by {
        if i >= before {
            assert(launch[i] == opening[i - before]);
        }
    }
    assert(launch.last() == opening.last());
    let error = match Burst::fault(stat, status) {
        Some(error) => error,
        None => Error::Bus,
    };
    lemma_cleaning_up_starts_nothing(error, burst.phase, status.csr.idle, imask, resolved, fifo);
    let asked = burst.interrupt_accesses(ops, stat, status, imask, resolved, fifo);
    let failing = fail_accesses(error, resolved);
    assert forall|i: int| 0 <= i < asked.len() implies !(#[trigger] asked[i] matches Access::Cctr(cctr)
        && cctr.start) by {
        if burst.phase is Waiting && i >= 1 && (Burst::fault(stat, status) is Some || (stat is Crxdonefg
            && !burst.plan.group.write)) {
            assert(asked[i] == failing[i - 1]);
        }
    }
}

/// A blocking burst gives the address phase the time to settle, and nothing else, between the START and where the
/// status means something.
pub proof fn start_is_given_time_to_settle(plan: Plan, resolved: Resolved)
    ensures
        ({
            let asked = begin_accesses(plan, resolved);
            let n = asked.len() as int;

            &&& n >= 3
            &&& asked[n - 3] is Csa
            &&& asked[n - 2] matches Access::Cctr(cctr) && cctr.start
            &&& asked[n - 1] matches Access::Delay(cycles) && cycles == resolved.settle_cycles
            &&& asked.drop_last() == start_accesses(plan)
        }),
{
    assert(begin_accesses(plan, resolved).drop_last() =~= start_accesses(plan));
}

/// How a blocking burst moves on: it waits for the controller to be idle unless it continues a transaction; it succeeds
/// exactly once everything of a write is queued and the controller is done with it and reports no error; whatever
/// error the controller reports is the one it fails with; one that stops early without saying why is a bus error;
/// and a read asks for as much as there is and as is left.
pub proof fn blocking_burst_moves_on(burst: Burst, status: Status)
    requires
        burst.moved <= burst.plan.group.total,
    ensures
        ({
            let next = burst.next_phase(status);
            let write = burst.plan.group.write;
            let left = burst.plan.group.total - burst.moved;
            let running = write && left == 0 && status.csr.busy && !status.timeouta;

            &&& burst.phase is Prime ==> (next is Run <==> burst.plan.restart) && (next is Idle
                <==> !burst.plan.restart)
            &&& burst.phase is Idle ==> (next is Run <==> status.csr.idle || status.timeouta) && (next is Run || next
                is Idle)
            &&& burst.phase is Run && running ==> next is Run
            &&& burst.phase is Run && !running ==> {
                &&& status.timeouta ==> next == Phase::Failed(Error::Timeout)
                &&& !status.timeouta && status.csr.arblst ==> (next matches Phase::Recover(error, _) && error
                    is Arbitration)
                &&& !status.timeouta && !status.csr.arblst && status.csr.err ==> (next matches Phase::Recover(error, _)
                    && error == nack_of(status.csr))
            }
            &&& burst.phase is Run && !status.timeouta && !status.csr.arblst && !status.csr.err ==> {
                &&& next is Done <==> write && left == 0 && !status.csr.busy
                &&& write && left > 0 && status.csr.busy ==> next is Run
                &&& write && left > 0 && !status.csr.busy ==> (next matches Phase::Recover(error, _) && error is Bus)
                &&& !write && (left == 0 || status.rx_count == 0) ==> next is Short
                &&& !write && left > 0 && status.rx_count > 0 ==> (next matches Phase::Taking(count, resume) && {
                    &&& resume is Short
                    &&& 0 < count <= left && count <= status.rx_count
                    &&& count == left || count == status.rx_count
                })
            }
            &&& burst.phase is Short && (status.csr.busy || status.rx_count > 0) ==> next is Run
            &&& burst.phase is Short && !status.csr.busy && status.rx_count == 0 ==> (next matches Phase::Recover(
                error,
                _,
            ) && error is Bus)
            &&& burst.phase matches Phase::Recover(why, wait) ==> {
                &&& status.csr.idle || wait.waited >= 4 ==> next == Phase::Failed(why)
                &&& !status.csr.idle && wait.waited < 4 ==> next == Phase::Recover(
                    why,
                    IdleWait { waited: (wait.waited + 1) as u8 },
                )
            }
            &&& burst.phase is Done || burst.phase is Failed || burst.phase is Taking || burst.phase is Waiting ==> next
                == burst.phase
        }),
{
}

/// How a burst by interrupt moves on: a fault ends it with the error it stands for; a write succeeds exactly on the
/// event that it is done; a read asks for as much as there is and as is left, and succeeds once it is done with
/// nothing missing; one that is done with something missing is a bus error; and any other event leaves it waiting.
pub proof fn interrupt_burst_moves_on(burst: Burst, stat: IidxStat, status: Status)
    requires
        burst.phase is Waiting,
        burst.moved <= burst.plan.group.total,
    ensures
        ({
            let next = burst.next_by_interrupt(stat, status);
            let write = burst.plan.group.write;
            let left = burst.plan.group.total - burst.moved;
            let some = left > 0 && status.rx_count > 0;

            &&& stat is Timeouta ==> next == Phase::Failed(Error::Timeout)
            &&& stat is Carblostfg ==> (next matches Phase::Recover(error, _) && error is Arbitration)
            &&& stat is Cnackfg ==> (next matches Phase::Recover(error, _) && error == nack_of(status.csr))
            &&& write ==> (next is Done <==> stat is Ctxdonefg)
            &&& write && !(stat is Ctxdonefg || stat is Timeouta || stat is Carblostfg || stat is Cnackfg) ==> next
                is Waiting
            &&& !write && (stat is Crxfifotrg || stat is Crxdonefg) && some ==> (next matches Phase::Taking(
                count,
                resume,
            ) && {
                &&& 0 < count <= left && count <= status.rx_count
                &&& count == left || count == status.rx_count
                &&& resume is Wait <==> stat is Crxfifotrg
                &&& resume is Conclude <==> stat is Crxdonefg
            })
            &&& !write && stat is Crxfifotrg && !some ==> next is Waiting
            &&& !write && stat is Crxdonefg && left == 0 ==> next is Done
            &&& !write && stat is Crxdonefg && left > 0 && status.rx_count == 0 ==> (next matches Phase::Recover(
                error,
                _,
            ) && error is Bus)
            &&& !write && !(stat is Crxfifotrg || stat is Crxdonefg || stat is Timeouta || stat is Carblostfg || stat
                is Cnackfg) ==> next is Waiting
        }),
{
}

/// Once its bytes are in, a burst succeeds if they were all of it; otherwise a blocking one asks what is left to come,
/// one by interrupt waits on, and one whose bytes were its tail is a bus error, with a STOP. Its interrupts are
/// off by then.
pub proof fn delivery_moves_on(burst: Burst, count: int, resolved: Resolved)
    requires
        burst.phase is Taking,
    ensures
        ({
            let next = burst.delivered_phase(count);
            let asked = burst.deliver_accesses(count, resolved);
            let full = burst.moved + count >= burst.plan.group.total;
            let resume = burst.phase->Taking_1;

            &&& resume is Wait ==> next is Waiting && asked.len() == 0
            &&& resume is Short ==> (next is Done <==> burst.moved + count == burst.plan.group.total) && (next is Done
                || next is Short) && asked.len() == 0
            &&& resume is Conclude ==> {
                &&& next is Done <==> full
                &&& !full ==> (next matches Phase::Recover(error, _) && error is Bus)
                &&& asked.len() > 0
                &&& asked[0] matches Access::StoreImask(set) && set == CpuInt::empty()
                &&& full ==> asked.len() == 1
                &&& !full ==> asked.len() == 3 && (asked[2] matches Access::Cctr(cctr) && cctr.stop && !cctr.start)
            }
        }),
{
}

/// What a failure is answered with: a timeout with a reset that puts the configuration back, and is over with it; any
/// other with a STOP, a wait of at most four half-periods, and then a flush of both FIFOs.
pub proof fn failures_are_cleaned_up_after(
    error: Error,
    idle: bool,
    wait: IdleWait,
    imask: CpuInt,
    resolved: Resolved,
    fifo: usize,
)
    ensures
        error is Timeout ==> {
            &&& Phase::failing(error) == Phase::Failed(error)
            &&& fail_accesses(error, resolved).len() == 11
            &&& fail_accesses(error, resolved)[0] is Reset
            &&& forall|i: int|
                3 <= i < 11 ==> low_level::sets_up(#[trigger] fail_accesses(error, resolved)[i], resolved)
        },
        !(error is Timeout) ==> {
            &&& Phase::failing(error) == Phase::Recover(error, IdleWait { waited: 0 })
            &&& fail_accesses(error, resolved).len() == 2
            &&& fail_accesses(error, resolved)[1] matches Access::Cctr(cctr) && cctr.stop && !cctr.start
        },
        idle || wait.waited >= 4 ==> {
            let asked = recover_accesses(Phase::Recover(error, wait), idle, imask, resolved, fifo);

            asked.len() == 6 && (asked[1] matches Access::Flush { txflush, rxflush } && txflush && rxflush)
        },
        !idle && wait.waited < 4 ==> recover_accesses(Phase::Recover(error, wait), idle, imask, resolved, fifo) == seq![
            Access::Delay(resolved.half_period_cycles as u32),
        ],
{
    low_level::reset_puts_the_configuration_back(resolved);
}

/// A launch arms what ends the burst and what keeps it going before it starts: the completion of its direction, the
/// three faults, the trigger that delivers a read, and the one that tops up a write only where bytes are left to
/// queue. What is queued is queued before that.
pub proof fn launch_arms_before_it_starts(burst: Burst, ops: Seq<Operation>, room: u8)
    requires
        burst.fits(ops),
    ensures
        ({
            let asked = burst.launch_accesses(ops, room);
            let at = if burst.plan.group.write {
                burst.fill(room)
            } else {
                0
            };

            &&& 0 <= at < asked.len()
            &&& forall|i: int| 0 <= i < at ==> (#[trigger] asked[i]) is Txdata
            &&& asked[at] matches Access::Unmask(set) && {
                &&& set.cnack && set.carblost && set.timeouta
                &&& set.ctxdone == burst.plan.group.write
                &&& set.crxdone == !burst.plan.group.write
                &&& set.crxfifotrg == !burst.plan.group.write
                &&& set.ctxfifotrg == (burst.plan.group.write && burst.moved + burst.fill(room)
                    < burst.plan.group.total)
                &&& !set.ctxempty && !set.crxfifofull && !set.cstart && !set.cstop
            }
            &&& asked.skip(at + 1) == start_accesses(burst.plan)
        }),
{
    let asked = burst.launch_accesses(ops, room);
    let at = if burst.plan.group.write {
        burst.fill(room)
    } else {
        0
    };
    assert(asked.skip(at + 1) =~= start_accesses(burst.plan));
}

/// A fill takes what the FIFO has room for, and no more than is left.
pub proof fn fill_is_what_fits(burst: Burst, room: u8)
    requires
        burst.moved <= burst.plan.group.total,
    ensures
        0 <= burst.fill(room) <= room,
        burst.fill(room) <= burst.plan.group.total - burst.moved,
        burst.fill(room) == room || burst.fill(room) == burst.plan.group.total - burst.moved,
{
}

/// What a burst asks of its caller in each phase.
pub proof fn phases_ask_for_what_they_need(phase: Phase)
    ensures
        phase.progress() is Park <==> phase is Waiting,
        phase.progress() is Take <==> phase is Taking,
        phase matches Phase::Taking(count, _) ==> phase.progress() == Progress::Take(count),
        phase is Done <==> phase.progress() == Progress::Ready(Ok::<(), Error>(())),
        phase matches Phase::Failed(error) ==> phase.progress() == Progress::Ready(Err::<(), Error>(error)),
        phase.progress() is Ready <==> phase is Done || phase is Failed,
{
}

/// A burst begins at the start of its run with nothing moved, and the plan of one operation covers exactly that
/// operation.
pub proof fn burst_begins_at_its_run(
    ops: Seq<Operation>,
    op: usize,
    address: Address,
    restart: bool,
    send_stop: bool,
)
    requires
        op < ops.len() <= usize::MAX,
        ops[op as int].bytes().len() <= usize::MAX,
    ensures
        ({
            let plan = single_plan(ops, op, address, restart, send_stop);
            let burst = Burst::at_start(plan);

            &&& burst.plan == plan && burst.moved == 0 && burst.phase is Prime
            &&& burst.cursor.op == op && burst.cursor.pos == 0
            &&& plan.address == address && plan.restart == restart && plan.send_stop == send_stop
            &&& plan.group.start == op && plan.group.end == op + 1
            &&& plan.group.write <==> ops[op as int] is Write
            &&& plan.group.total == ops[op as int].bytes().len()
            &&& burst.bytes(ops) == ops[op as int].bytes()
        }),
{
    assert(flat(ops, op + 1, op + 1) =~= Seq::<u8>::empty());
    assert(flat(ops, op as int, op + 1) =~= ops[op as int].bytes());
}

/// A burst carries between one and 4095 bytes, and is refused for the reason it does not.
pub proof fn lengths_are_one_to_4095(len: int)
    requires
        len >= 0,
    ensures
        length_error(len) is None <==> 1 <= len <= 4095,
        length_error(len) == Some(Error::ZeroLengthTransfer) <==> len == 0,
        length_error(len) == Some(Error::TransferLengthIsOverLimit) <==> len > 4095,
{
}

/// Dropping a burst leaves one running exactly where it waits for an interrupt or for its bytes.
pub proof fn waiting_bursts_are_in_flight(burst: Burst)
    ensures
        burst.in_flight() <==> burst.phase is Waiting || burst.phase is Taking,
{
}

/// A blocking burst cleans up exactly where it fails: the poll that finds a timeout ends with the last register of a
/// reset, the poll that finds any other failure ends with a STOP, and one that goes on or succeeds sends neither.
pub proof fn failing_poll_cleans_up(
    burst: Burst,
    ops: Seq<Operation>,
    status: Status,
    imask: CpuInt,
    resolved: Resolved,
    fifo: usize,
)
    requires
        burst.fits(ops),
        burst.phase is Run || burst.phase is Short,
    ensures
        ({
            let next = burst.next_phase(status);
            let asked = burst.accesses(ops, status, imask, resolved, fifo);

            &&& next is Recover ==> asked.len() > 0 && (asked.last() matches Access::Cctr(cctr) && cctr.stop
                && !cctr.start)
            &&& next is Failed ==> asked.len() > 0 && asked.last() is Ccr
            &&& !(next is Recover || next is Failed) ==> forall|i: int|
                0 <= i < asked.len() ==> !((#[trigger] asked[i]) is Cctr || asked[i] is Reset || asked[i] is Power)
        }),
{
    let next = burst.next_phase(status);
    let asked = burst.accesses(ops, status, imask, resolved, fifo);
    low_level::reset_puts_the_configuration_back(resolved);
    low_level::lone_stop_only_stops();
    let stop = stop_accesses();
    let reset = reset_accesses(resolved);
    if next is Recover {
        assert(asked.last() == stop.last());
    } else if next is Failed {
        assert(asked.last() == reset.last());
    }
}

/// A burst by interrupt cleans up exactly where it fails, and masks everything it armed exactly where it is over: the
/// event that fails it first disarms it, and then resets after a timeout and stops after anything else; one that leaves
/// it waiting does neither.
pub proof fn failing_interrupt_cleans_up(
    burst: Burst,
    ops: Seq<Operation>,
    stat: IidxStat,
    status: Status,
    imask: CpuInt,
    resolved: Resolved,
    fifo: usize,
)
    requires
        burst.fits(ops),
        burst.phase is Waiting,
    ensures
        ({
            let next = burst.next_by_interrupt(stat, status);
            let asked = burst.interrupt_accesses(ops, stat, status, imask, resolved, fifo);

            &&& next is Recover ==> asked.len() > 0 && asked[0] == Access::StoreImask(CpuInt::empty()) && (
            asked.last() matches Access::Cctr(cctr) && cctr.stop && !cctr.start)
            &&& next is Failed ==> asked.len() > 0 && asked[0] == Access::StoreImask(CpuInt::empty()) && asked.last()
                is Ccr
            &&& next is Done ==> asked == seq![Access::StoreImask(CpuInt::empty())]
            &&& next is Waiting || next is Taking ==> forall|i: int|
                0 <= i < asked.len() ==> !((#[trigger] asked[i]) is Cctr || asked[i] is Reset || asked[i] is Power
                    || asked[i] is StoreImask)
        }),
{
    let next = burst.next_by_interrupt(stat, status);
    let asked = burst.interrupt_accesses(ops, stat, status, imask, resolved, fifo);
    low_level::reset_puts_the_configuration_back(resolved);
    low_level::lone_stop_only_stops();
    let stop = stop_accesses();
    let reset = reset_accesses(resolved);
    if next is Recover {
        assert(asked.last() == stop.last());
    } else if next is Failed {
        assert(asked.last() == reset.last());
    }
}

} // verus!
