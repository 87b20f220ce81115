//! Waiting on an edge.

use super::{Access, AnyPin, Edge, EdgeWait, Polarity, Port};
use crate::bits::{bit_set, read_bit};
use crate::bus::Bus;
use vstd::prelude::*;

verus! {

/// Holds a pin's edge detection armed for one wait, and disarms it however the wait ends.
pub struct EdgeArm {
    port: Port,
    /// The level a level wait is settling for, or [`None`] for an edge wait.
    settled_high: Option<bool>,
    /// Whether [`EdgeArm::arm`] has run.
    armed: bool,
    waiter: EdgeWait,
}

impl EdgeArm {
    #[verifier::type_invariant]
    spec fn bit_in_range(self) -> bool {
        self.waiter.bit < 32
    }

    /// A wait on `pin` that has not been armed.
    pub closed spec fn for_pin(pin: AnyPin, edge: Edge, settled_high: Option<bool>) -> EdgeArm {
        EdgeArm {
            port: pin.block(),
            settled_high,
            armed: false,
            waiter: EdgeWait { bit: pin.bit_index(), edge },
        }
    }

    /// The port of the pin waited on.
    pub closed spec fn port(&self) -> Port {
        self.port
    }

    /// The level waited for, or [`None`] where an edge is.
    pub closed spec fn settled_high(&self) -> Option<bool> {
        self.settled_high
    }

    /// Whether the pin has been armed.
    pub closed spec fn armed(&self) -> bool {
        self.armed
    }

    /// What the port's interrupt matches against.
    pub closed spec fn waiter(&self) -> EdgeWait {
        self.waiter
    }

    /// What arming asks for. The unmask is last, so the waiter is reachable and the waker is stored
    /// before any edge can be reported.
    pub open spec fn arm_accesses(&self, both: bool) -> Seq<Access> {
        seq![
            Access::Acquire,
            Access::Polarity(self.port(), self.waiter().bit, self.waiter().edge.armed_polarity(both)),
            Access::ClearEdge(self.port(), self.waiter().bit),
            Access::LinkWaiter(self.port(), self.waiter()),
            Access::FastWake(self.port(), self.waiter().bit, true),
            Access::Unmask(self.port(), self.waiter().bit, true),
            Access::Release,
        ]
    }

    /// What ending an armed wait asks for. Unlinking is last: with the pin masked, nothing can be
    /// walking the list or about to read the waiter.
    pub open spec fn disarm_accesses(&self) -> Seq<Access> {
        seq![
            Access::Acquire,
            Access::FastWake(self.port(), self.waiter().bit, false),
            Access::Unmask(self.port(), self.waiter().bit, false),
            Access::ClearEdge(self.port(), self.waiter().bit),
            Access::UnlinkWaiter(self.port(), self.waiter().bit),
            Access::Release,
        ]
    }

    /// Describe a wait without touching the hardware. [`EdgeArm::arm`] is what starts it.
    pub fn new(pin: AnyPin, edge: Edge, settled_high: Option<bool>) -> (arm: Self)
        ensures
            arm == EdgeArm::for_pin(pin, edge, settled_high),
            arm.port() == pin.block(),
            arm.waiter() == (EdgeWait { bit: pin.bit_index(), edge }),
            arm.settled_high() == settled_high,
            !arm.armed(),
    {
        EdgeArm {
            port: pin.block(),
            settled_high,
            armed: false,
            waiter: EdgeWait { bit: pin.bit_index(), edge },
        }
    }

    /// Whether the pin reads high in `din`, a reading of `DIN31_0`.
    pub fn is_high(&self, din: u32) -> (high: bool)
        ensures
            high == bit_set(din, self.waiter().bit),
    {
        proof {
            use_type_invariant(self);
        }
        read_bit(din, self.waiter.bit)
    }

    /// Start the wait: select the edge, publish the waiter, and let the interrupt through.
    ///
    /// `both` is whether `GPIO_ERR_01` applies, which forces both directions to be detected.
    pub fn arm(&mut self, both: bool, bus: &mut Bus<Access>)
        ensures
            final(self).armed(),
            final(self).port() == old(self).port(),
            final(self).waiter() == old(self).waiter(),
            final(self).settled_high() == old(self).settled_high(),
            final(bus)@ == old(bus)@ + old(self).arm_accesses(both),
    {
        proof {
            use_type_invariant(&*self);
        }
        self.armed = true;

        let polarity = if both {
            Polarity::RiseFall
        } else {
            self.waiter.edge.polarity()
        };
        let port: Port = self.port;
        let bit: u8 = self.waiter.bit;

        bus.push(Access::Acquire);
        bus.push(Access::Polarity(port, bit, polarity));
        // Drop edges from before the wait, after the polarity write so that selecting the event
        // cannot leave a status bit behind.
        bus.push(Access::ClearEdge(port, bit));
        bus.push(Access::LinkWaiter(port, self.waiter));
        // Without fast wake the input synchronizer is unclocked in STOP and STANDBY, which loses the
        // edge rather than delaying it.
        bus.push(Access::FastWake(port, bit, true));
        bus.push(Access::Unmask(port, bit, true));
        bus.push(Access::Release);
    }

    /// End the wait.
    ///
    /// A wait that was never armed has nothing to undo, and clearing the pin's status would throw away
    /// an edge the pin is not even unmasked for.
    pub fn release(self, bus: &mut Bus<Access>)
        ensures
            final(bus)@ == (if self.armed() {
                old(bus)@ + self.disarm_accesses()
            } else {
                old(bus)@
            }),
    {
        if !self.armed {
            return;
        }
        bus.push(Access::Acquire);
        bus.push(Access::FastWake(self.port, self.waiter.bit, false));
        bus.push(Access::Unmask(self.port, self.waiter.bit, false));
        // An edge that arrived while masked left this set with nobody to consume it.
        bus.push(Access::ClearEdge(self.port, self.waiter.bit));
        bus.push(Access::UnlinkWaiter(self.port, self.waiter.bit));
        bus.push(Access::Release);
    }
}

/// What a poll of a [`Park`] has just learnt.
#[derive(Clone, Copy, PartialEq, Eq, Debug, Structural)]
pub enum Wait {
    /// The wait is being polled, and the interrupt has or has not reported yet.
    Polled {
        /// Whether the wait is still outstanding.
        outstanding: bool,
    },
    /// The accesses that arm the pin have been made, and then `DIN31_0` was read.
    Armed {
        /// The reading.
        din: u32,
    },
    /// The waker has been registered again, and then the wait looked at again.
    Registered {
        /// Whether the wait is still outstanding.
        outstanding: bool,
    },
}

/// What a poll of a [`Park`] does next.
#[derive(Clone, Copy, PartialEq, Eq, Debug, Structural)]
pub enum Dispatch {
    /// Make the accesses on the bus, read `DIN31_0`, and report [`Wait::Armed`].
    Arm,
    /// Register the waker, and report [`Wait::Registered`].
    Register,
    /// The wait is over.
    Ready,
    /// The wait continues.
    Pending,
}

/// Park until the interrupt reports the edge, arming the pin on the first poll.
///
/// An edge wait has nothing to check before arming: the edge that completes it arrives after the pin is
/// unmasked. A level wait promises that it returns once the pin is at that level, however it got there.
/// Arming clears the edge status, so a level that arrives before the arm takes its edge with it;
/// re-testing the level right after arming closes that window.
pub struct Park {
    arm: EdgeArm,
}

impl Park {
    /// A wait on `pin` that has not been polled.
    pub closed spec fn for_pin(pin: AnyPin, edge: Edge, settled_high: Option<bool>) -> Park {
        Park { arm: EdgeArm::for_pin(pin, edge, settled_high) }
    }

    /// The edge detection this wait holds.
    pub closed spec fn arm(&self) -> EdgeArm {
        self.arm
    }

    /// Whether a pin reading as in `din` is what a level wait is for.
    pub open spec fn settled(&self, din: u32) -> bool {
        self.arm().settled_high() == Some(bit_set(din, self.arm().waiter().bit))
    }

    /// What a poll that has learnt this does next.
    pub open spec fn next(&self, event: Wait) -> Dispatch {
        match event {
            Wait::Polled { outstanding } => if !self.arm().armed() {
                Dispatch::Arm
            } else if outstanding {
                Dispatch::Register
            } else {
                Dispatch::Ready
            },
            Wait::Armed { din } => if self.settled(din) {
                Dispatch::Ready
            } else {
                Dispatch::Pending
            },
            Wait::Registered { outstanding } => if outstanding {
                Dispatch::Pending
            } else {
                Dispatch::Ready
            },
        }
    }

    /// The wait until a pin is high, where it is not high already.
    pub open spec fn until_high(pin: AnyPin, din: u32) -> Option<Park> {
        if bit_set(din, pin.bit_index()) {
            None
        } else {
            Some(Park::for_pin(pin, Edge::Rising, Some(true)))
        }
    }

    /// The wait until a pin is low, where it is not low already.
    pub open spec fn until_low(pin: AnyPin, din: u32) -> Option<Park> {
        if bit_set(din, pin.bit_index()) {
            Some(Park::for_pin(pin, Edge::Falling, Some(false)))
        } else {
            None
        }
    }

    /// The wait for the next rising edge of a pin.
    pub open spec fn until_rise(pin: AnyPin) -> Park {
        Park::for_pin(pin, Edge::Rising, None)
    }

    /// The wait for the next falling edge of a pin.
    pub open spec fn until_fall(pin: AnyPin) -> Park {
        Park::for_pin(pin, Edge::Falling, None)
    }

    /// The wait for the next edge of a pin.
    pub open spec fn until_change(pin: AnyPin) -> Park {
        Park::for_pin(pin, Edge::Any, None)
    }

    /// Describe a wait on `pin`.
    pub fn new(pin: AnyPin, edge: Edge, settled_high: Option<bool>) -> (park: Self)
        ensures
            park == Park::for_pin(pin, edge, settled_high),
            park.arm() == EdgeArm::for_pin(pin, edge, settled_high),
            park.arm().port() == pin.block(),
            park.arm().waiter() == (EdgeWait { bit: pin.bit_index(), edge }),
            park.arm().settled_high() == settled_high,
            !park.arm().armed(),
    {
        Park { arm: EdgeArm::new(pin, edge, settled_high) }
    }

    /// Carry a poll on by one step.
    ///
    /// A poll starts with [`Wait::Polled`] and goes on until this answers [`Dispatch::Ready`] or
    /// [`Dispatch::Pending`].
    pub fn poll(&mut self, event: Wait, both: bool, bus: &mut Bus<Access>) -> (next: Dispatch)
        ensures
            next == old(self).next(event),
            final(bus)@ == (if next == Dispatch::Arm {
                old(bus)@ + old(self).arm().arm_accesses(both)
            } else {
                old(bus)@
            }),
            next != Dispatch::Arm ==> *final(self) == *old(self),
            next == Dispatch::Arm ==> final(self).arm().armed(),
            final(self).arm().port() == old(self).arm().port(),
            final(self).arm().waiter() == old(self).arm().waiter(),
            final(self).arm().settled_high() == old(self).arm().settled_high(),
    {
        match event {
            Wait::Polled { outstanding } => {
                if !self.arm.armed {
                    self.arm.arm(both, bus);
                    Dispatch::Arm
                } else if outstanding {
                    // A spurious poll, or one from a different waker than the wait was armed with.
                    // Registering before looking again loses no edge that lands in between.
                    Dispatch::Register
                } else {
                    Dispatch::Ready
                }
            },
            Wait::Armed { din } => {
                if let Some(high) = self.arm.settled_high {
                    if self.arm.is_high(din) == high {
                        return Dispatch::Ready;
                    }
                }
                Dispatch::Pending
            },
            Wait::Registered { outstanding } => {
                if outstanding {
                    Dispatch::Pending
                } else {
                    Dispatch::Ready
                }
            },
        }
    }

    /// End the wait, whether or not it completed.
    pub fn release(self, bus: &mut Bus<Access>)
        ensures
            final(bus)@ == (if self.arm().armed() {
                old(bus)@ + self.arm().disarm_accesses()
            } else {
                old(bus)@
            }),
    {
        self.arm.release(bus);
    }
}

/// The first wait in `waiters` that is on pin `bit`.
pub open spec fn waiter_on(waiters: Seq<EdgeWait>, bit: u8) -> Option<nat>
    decreases waiters.len(),
{
    if waiters.len() == 0 {
        None
    } else if waiters[0].bit == bit {
        Some(0)
    } else {
        match waiter_on(waiters.drop_first(), bit) {
            Some(index) => Some((index + 1) as nat),
            None => None,
        }
    }
}

/// The pin an `IIDX` index names. Indices are one-based, zero having been spent on "nothing pending".
pub open spec fn indexed_bit(stat: u8) -> u8 {
    ((stat - 1) % 32) as u8
}

/// Whether the edge on `bit` goes the way some wait there did not ask for.
///
/// Only where both edges are latched: elsewhere the polarity did the filtering, and the level can have
/// moved on since the edge.
pub open spec fn edge_rejected(waiters: Seq<EdgeWait>, bit: u8, level: u32, both: bool) -> bool {
    match waiter_on(waiters, bit) {
        Some(index) => both && !waiters[index as int].edge.accepts_spec(bit_set(level, bit)),
        None => false,
    }
}

/// Whether an interrupt was answered: where it names a pin and the edge there is not passed over, the pin is masked and
/// the wait on it, if there is one, is complete.
pub open spec fn answered(
    port: Port,
    stat: u8,
    level: u32,
    both: bool,
    waiters: Seq<EdgeWait>,
    complete: Option<usize>,
    before: Seq<Access>,
    after: Seq<Access>,
) -> bool {
    let bit = indexed_bit(stat);

    if stat == 0 || edge_rejected(waiters, bit, level, both) {
        &&& complete is None
        &&& after == before
    } else {
        &&& after == before.push(Access::Unmask(port, bit, false))
        &&& match waiter_on(waiters, bit) {
            Some(index) => complete is Some && complete->0 == index,
            None => complete is None,
        }
    }
}

/// Skipping waits on other pins does not change which wait is found.
proof fn lemma_waiter_on_skips(waiters: Seq<EdgeWait>, bit: u8, skipped: int)
    requires
        0 <= skipped <= waiters.len(),
        forall|i: int| 0 <= i < skipped ==> waiters[i].bit != bit,
    ensures
        waiter_on(waiters, bit) == (match waiter_on(waiters.skip(skipped), bit) {
            Some(index) => Some((index + skipped) as nat),
            None => None,
        }),
    decreases skipped,
{
    if skipped == 0 {
        assert(waiters.skip(0) =~= waiters);
    } else {
        let rest = waiters.drop_first();
        assert forall|i: int| 0 <= i < skipped - 1 implies rest[i].bit != bit by {
            assert(rest[i] == waiters[i + 1]);
        }
        lemma_waiter_on_skips(rest, bit, skipped - 1);
        assert(rest.skip(skipped - 1) =~= waiters.skip(skipped));
    }
}

/// Classify the edge that has arrived on `port` and answer the wait it satisfies.
///
/// `stat` is the port's `IIDX`: the lowest pending enabled pin, one-based, which reading it cleared.
/// `level` is a reading of `DIN31_0`, which only matters where both edges are latched, and `waiters`
/// is the port's list. Returns the position of the wait that is complete.
///
/// One pin per entry: while any pin is still pending the handler is entered again.
pub fn irq_handler(
    port: Port,
    stat: u8,
    level: u32,
    both: bool,
    waiters: &[EdgeWait],
    bus: &mut Bus<Access>,
) -> (complete: Option<usize>)
    ensures
        answered(port, stat, level, both, waiters@, complete, old(bus)@, final(bus)@),
{
    if stat == 0 {
        return None;
    }
    let index: u8 = stat - 1;
    let bit: u8 = index & 31;
    assert(index & 31 == index % 32) by (bit_vector);

    let mut found: Option<usize> = None;
    let mut next: usize = 0;

    while next < waiters.len()
        invariant_except_break
            found is None,
            forall|i: int| 0 <= i < next ==> waiters@[i].bit != bit,
            next == waiters@.len() ==> waiter_on(waiters@, bit) is None,
        invariant
            next <= waiters@.len(),
        ensures
            match waiter_on(waiters@, bit) {
                Some(index) => found is Some && found->0 == index && index < waiters@.len(),
                None => found is None,
            },
        decreases waiters.len() - next,
    {
        if waiters[next].bit == bit {
            proof {
                lemma_waiter_on_skips(waiters@, bit, next as int);
                assert(waiters@.skip(next as int)[0] == waiters@[next as int]);
            }
            found = Some(next);
            break;
        }
        next += 1;
        proof {
            if next == waiters@.len() {
                lemma_waiter_on_skips(waiters@, bit, next as int);
            }
        }
    }

    // An edge the other way leaves the wait standing, so it continues without the task ever being
    // woken.
    if let Some(waiter) = found {
        if both && !waiters[waiter].edge.accepts(read_bit(level, bit)) {
            return None;
        }
    }
    // Nothing left to report until the task arms the next wait, so keep this pin out of here.
    bus.push(Access::Unmask(port, bit, false));
    found
}

/// Interrupt handler for a GPIO port.
///
/// One type serves every port: which port a call is for follows from the interrupt it was bound to.
pub struct InterruptHandler;

impl InterruptHandler {
    /// Service the interrupt of `port`. See [`irq_handler`].
    pub fn on_interrupt(
        port: Port,
        stat: u8,
        level: u32,
        both: bool,
        waiters: &[EdgeWait],
        bus: &mut Bus<Access>,
    ) -> (complete: Option<usize>)
        ensures
            answered(port, stat, level, both, waiters@, complete, old(bus)@, final(bus)@),
    {
        irq_handler(port, stat, level, both, waiters, bus)
    }
}

/// How a wait goes on: its first poll arms the pin; the level it is for, read once the pin is armed, ends it; and after
/// that only the interrupt's report does, looked for again once the waker is registered.
pub proof fn waits_go_on_until_they_are_reported(park: Park, event: Wait)
    ensures
        event is Polled && !park.arm().armed() <==> park.next(event) is Arm,
        event matches Wait::Polled { outstanding } ==> park.arm().armed() ==> {
            &&& park.next(event) is Register <==> outstanding
            &&& park.next(event) is Ready <==> !outstanding
        },
        event matches Wait::Armed { din } ==> {
            &&& park.next(event) is Ready <==> (park.arm().settled_high() matches Some(high) && high == bit_set(
                din,
                park.arm().waiter().bit,
            ))
            &&& park.next(event) is Ready || park.next(event) is Pending
        },
        event matches Wait::Registered { outstanding } ==> {
            &&& park.next(event) is Pending <==> outstanding
            &&& park.next(event) is Ready <==> !outstanding
        },
{
}

/// A wait for a level is needed exactly where the pin is not there already. It is on that pin, for the edge that gets
/// there, and over once the pin reads that level; a wait for an edge is on that pin, for that edge, and for no
/// level.
pub proof fn level_waits_are_for_the_edge_that_gets_there(pin: AnyPin, edge: Edge, din: u32)
    ensures
        Park::until_high(pin, din) is None <==> bit_set(din, pin.bit_index()),
        Park::until_low(pin, din) is None <==> !bit_set(din, pin.bit_index()),
        Park::until_high(pin, din) matches Some(park) ==> {
            &&& park.arm().port() == pin.block() && park.arm().waiter().bit == pin.bit_index()
            &&& park.arm().waiter().edge is Rising && park.arm().settled_high() == Some(true) && !park.arm().armed()
        },
        Park::until_low(pin, din) matches Some(park) ==> {
            &&& park.arm().port() == pin.block() && park.arm().waiter().bit == pin.bit_index()
            &&& park.arm().waiter().edge is Falling && park.arm().settled_high() == Some(false) && !park.arm().armed()
        },
        ({
            let park = Park::for_pin(pin, edge, None);

            &&& park.arm().port() == pin.block() && park.arm().waiter().bit == pin.bit_index()
            &&& park.arm().waiter().edge == edge && park.arm().settled_high() is None && !park.arm().armed()
        }),
{
}

/// An interrupt masks the pin it names and completes the wait on it, and no other; where it names none, or an edge
/// its pin's wait did not ask for, it does neither.
pub proof fn interrupt_completes_the_wait_on_its_pin(
    port: Port,
    stat: u8,
    level: u32,
    both: bool,
    waiters: Seq<EdgeWait>,
    complete: Option<usize>,
    before: Seq<Access>,
    after: Seq<Access>,
)
    requires
        answered(port, stat, level, both, waiters, complete, before, after),
        stat <= 32,
    ensures
        stat == 0 ==> complete is None && after == before,
        after == before || after == before.push(Access::Unmask(port, (stat - 1) as u8, false)),
        stat > 0 && !both ==> after.len() == before.len() + 1,
        complete matches Some(index) ==> {
            &&& after.len() == before.len() + 1
            &&& Some(index as nat) == waiter_on(waiters, (stat - 1) as u8)
            &&& both && waiters[index as int].edge is Rising ==> bit_set(level, (stat - 1) as u8)
            &&& both && waiters[index as int].edge is Falling ==> !bit_set(level, (stat - 1) as u8)
        },
        complete is None && stat > 0 && !both ==> waiter_on(waiters, (stat - 1) as u8) is None,
{
}

/// A wait for an edge is for the edge it is named for, of the pin it is on: it latches that one where edges can be told
/// apart, an edge the other way is not reported to it, and no level ends it.
pub proof fn edge_waits_are_for_their_edge(pin: AnyPin, din: u32)
    ensures
        ({
            let rise = Park::until_rise(pin).arm();
            let fall = Park::until_fall(pin).arm();
            let change = Park::until_change(pin).arm();

            &&& rise.port() == pin.block() && fall.port() == pin.block() && change.port() == pin.block()
            &&& rise.waiter().bit == pin.bit_index() && fall.waiter().bit == pin.bit_index() && change.waiter().bit
                == pin.bit_index()
            &&& rise.waiter().edge.armed_polarity(false) is Rise
            &&& fall.waiter().edge.armed_polarity(false) is Fall
            &&& change.waiter().edge.armed_polarity(false) is RiseFall
            &&& rise.waiter().edge.accepts_spec(true) && !rise.waiter().edge.accepts_spec(false)
            &&& fall.waiter().edge.accepts_spec(false) && !fall.waiter().edge.accepts_spec(true)
            &&& change.waiter().edge.accepts_spec(true) && change.waiter().edge.accepts_spec(false)
            &&& !rise.armed() && !fall.armed() && !change.armed()
        }),
        Park::until_rise(pin).next(Wait::Armed { din }) is Pending,
        Park::until_fall(pin).next(Wait::Armed { din }) is Pending,
        Park::until_change(pin).next(Wait::Armed { din }) is Pending,
{
}

} // verus!
