//! What the pin operations come to, on a model of the registers.

use super::{
    edge_rejected, indexed_bit, waiter_on, Access, AnyPin, DriveStrength, Edge, EdgeArm, EdgeWait, Level, Park, Pincm,
    Polarity, Port, Pull, WakeLevel, DISCONNECT_PF,
};
use crate::bits::bit_set;
use vstd::prelude::*;

verus! {

/// A pin, by port and bit.
pub type PinId = (Port, u8);

/// The GPIO and IOMUX registers, as far as the pin operations write them.
#[verifier::ext_equal]
pub struct PortRegs {
    /// Pins whose `DOUT` bit is set.
    pub dout: Set<PinId>,
    /// Pins whose output driver is enabled.
    pub doe: Set<PinId>,
    /// Pins with a latched edge.
    pub ris: Set<PinId>,
    /// Pins whose edges reach the CPU.
    pub imask: Set<PinId>,
    /// Pins whose input synchroniser stays clocked in STOP and STANDBY.
    pub fastwake: Set<PinId>,
    /// Pins with a wait linked into their port's list.
    pub waiting: Set<PinId>,
    /// Edges each pin latches.
    pub polarity: Map<PinId, Polarity>,
    /// Pin control registers, by index.
    pub pincm: Map<u8, Pincm>,
}

impl PortRegs {
    /// The registers after one access.
    pub open spec fn after(self, access: Access) -> PortRegs {
        match access {
            Access::Pincm(index, update) => PortRegs {
                pincm: self.pincm.insert(index, update.applied_to(self.pincm[index])),
                ..self
            },
            Access::StorePincm(index, value) => PortRegs { pincm: self.pincm.insert(index, value), ..self },
            Access::DoeSet(port, bit) => PortRegs { doe: self.doe.insert((port, bit)), ..self },
            Access::DoeClear(port, bit) => PortRegs { doe: self.doe.remove((port, bit)), ..self },
            Access::DoutSet(port, bit) => PortRegs { dout: self.dout.insert((port, bit)), ..self },
            Access::DoutClear(port, bit) => PortRegs { dout: self.dout.remove((port, bit)), ..self },
            Access::DoutToggle(port, bit) => PortRegs {
                dout: if self.dout.contains((port, bit)) {
                    self.dout.remove((port, bit))
                } else {
                    self.dout.insert((port, bit))
                },
                ..self
            },
            Access::Polarity(port, bit, polarity) => PortRegs {
                polarity: self.polarity.insert((port, bit), polarity),
                ..self
            },
            Access::ClearEdge(port, bit) => PortRegs { ris: self.ris.remove((port, bit)), ..self },
            Access::FastWake(port, bit, on) => PortRegs {
                fastwake: if on {
                    self.fastwake.insert((port, bit))
                } else {
                    self.fastwake.remove((port, bit))
                },
                ..self
            },
            Access::Unmask(port, bit, on) => PortRegs {
                imask: if on {
                    self.imask.insert((port, bit))
                } else {
                    self.imask.remove((port, bit))
                },
                ..self
            },
            Access::LinkWaiter(port, wait) => PortRegs { waiting: self.waiting.insert((port, wait.bit)), ..self },
            Access::UnlinkWaiter(port, bit) => PortRegs { waiting: self.waiting.remove((port, bit)), ..self },
            _ => self,
        }
    }

    /// The registers after a list of accesses, in order.
    pub open spec fn run(self, accesses: Seq<Access>) -> PortRegs
        decreases accesses.len(),
    {
        if accesses.len() == 0 {
            self
        } else {
            self.run(accesses.drop_last()).after(accesses.last())
        }
    }
}

/// Which pin the registers know `pin` by.
pub open spec fn id(pin: AnyPin) -> PinId {
    (pin.block(), pin.bit_index())
}

/// The output level a pin is set to is the level it is then set to, and no other pin's level moves.
pub proof fn level_reads_back(regs: PortRegs, pin: AnyPin, level: Level)
    ensures
        regs.run(seq![pin.level_access(level)]).dout.contains(id(pin)) <==> level == Level::High,
        forall|other: PinId|
            other != id(pin) ==> (#[trigger] regs.run(seq![pin.level_access(level)]).dout.contains(other)
                <==> regs.dout.contains(other)),
{
    reveal_with_fuel(PortRegs::run, 9);
}

/// Toggling flips a pin's level, moves no other pin's, and toggling twice changes nothing.
pub proof fn toggling_twice_restores(regs: PortRegs, pin: AnyPin)
    ensures
        ({
            let toggle = Access::DoutToggle(pin.block(), pin.bit_index());
            let once = regs.run(seq![toggle]);

            &&& once.dout.contains(id(pin)) <==> !regs.dout.contains(id(pin))
            &&& once.dout.remove(id(pin)) == regs.dout.remove(id(pin))
            &&& regs.run(seq![toggle, toggle]) == regs
        }),
{
    reveal_with_fuel(PortRegs::run, 9);
    let toggle = Access::DoutToggle(pin.block(), pin.bit_index());
    let twice = regs.run(seq![toggle, toggle]);
    assert(twice.dout =~= regs.dout);
}

/// A pin's level is remembered while it is not an output: no change of direction moves any level.
pub proof fn level_is_remembered(regs: PortRegs, pin: AnyPin)
    ensures
        regs.run(pin.input_accesses()).dout == regs.dout,
        regs.run(pin.output_accesses()).dout == regs.dout,
        regs.run(pin.open_drain_accesses()).dout == regs.dout,
        regs.run(pin.disconnect_accesses()).dout == regs.dout,
{
    reveal_with_fuel(PortRegs::run, 9);
}

/// The pin an output driver is built on is at its initial level before it is driven.
pub proof fn output_starts_at_its_level(regs: PortRegs, pin: AnyPin, level: Level)
    ensures
        ({
            let levelled = regs.run(seq![pin.level_access(level)]);
            let driven = regs.run(seq![pin.level_access(level)] + pin.output_accesses());

            &&& levelled.doe == regs.doe
            &&& levelled.dout.contains(id(pin)) <==> level == Level::High
            &&& driven.doe == regs.doe.insert(id(pin))
            &&& driven.dout == levelled.dout
        }),
{
    reveal_with_fuel(PortRegs::run, 9);
    let first = seq![pin.level_access(level)];
    let rest = pin.output_accesses();
    assert(first + rest =~= first.push(rest[0]).push(rest[1]));
}

/// A disconnected pin is connected to nothing, reads nothing, and is neither pulled nor inverted.
pub proof fn disconnected_pin_is_floating(regs: PortRegs, pin: AnyPin)
    ensures
        ({
            let pincm = regs.run(pin.disconnect_accesses()).pincm[pin.pin_cm()];

            &&& pincm.pf == DISCONNECT_PF
            &&& !pincm.pc
            &&& !pincm.inena
            &&& !pincm.hiz1
            &&& !pincm.pipu
            &&& !pincm.pipd
            &&& !pincm.inv
        }),
        forall|index: u8|
            index != pin.pin_cm() ==> #[trigger] regs.run(pin.disconnect_accesses()).pincm[index]
                == regs.pincm[index],
{
    reveal_with_fuel(PortRegs::run, 9);
}

/// An open-drain pin drives low, floats for a one, can be read, and has no pull.
pub proof fn open_drain_pin_has_no_pull(regs: PortRegs, pin: AnyPin)
    ensures
        ({
            let after = regs.run(pin.open_drain_accesses());
            let pincm = after.pincm[pin.pin_cm()];

            &&& after.doe.contains(id(pin))
            &&& pincm.hiz1
            &&& pincm.inena
            &&& pincm.pc
            &&& !pincm.pipu
            &&& !pincm.pipd
        }),
{
    reveal_with_fuel(PortRegs::run, 9);
}

/// Enabling a pin's interrupt selects its edge, drops what it had latched and unmasks it; disabling it
/// again masks it and drops what it latched, leaving the selection alone. Neither touches another pin.
pub proof fn enabled_edge_is_delivered(regs: PortRegs, pin: AnyPin, edge: Edge, both: bool)
    ensures
        ({
            let enabled = regs.run(pin.enable_accesses(edge, both));
            let disabled = enabled.run(pin.disable_accesses());

            &&& enabled == PortRegs {
                polarity: regs.polarity.insert(id(pin), edge.armed_polarity(both)),
                ris: regs.ris.remove(id(pin)),
                fastwake: regs.fastwake.insert(id(pin)),
                imask: regs.imask.insert(id(pin)),
                ..regs
            }
            &&& disabled == PortRegs {
                ris: enabled.ris.remove(id(pin)),
                imask: enabled.imask.remove(id(pin)),
                ..enabled
            }
        }),
{
    reveal_with_fuel(PortRegs::run, 9);
}

/// A wait that is armed and then given up leaves its pin masked, with nothing latched, no fast wake and
/// no wait linked, and leaves every other pin as it was.
pub proof fn cancelled_wait_leaves_pin_masked(regs: PortRegs, arm: EdgeArm, both: bool)
    ensures
        ({
            let pin = (arm.port(), arm.waiter().bit);
            let armed = regs.run(arm.arm_accesses(both));

            &&& armed.imask.contains(pin)
            &&& armed.waiting.contains(pin)
            &&& armed.run(arm.disarm_accesses()) == PortRegs {
                polarity: regs.polarity.insert(pin, arm.waiter().edge.armed_polarity(both)),
                ris: regs.ris.remove(pin),
                fastwake: regs.fastwake.remove(pin),
                imask: regs.imask.remove(pin),
                waiting: regs.waiting.remove(pin),
                ..regs
            }
        }),
{
    reveal_with_fuel(PortRegs::run, 9);
    let pin = (arm.port(), arm.waiter().bit);
    let ended = regs.run(arm.arm_accesses(both)).run(arm.disarm_accesses());
    assert(ended.ris =~= regs.ris.remove(pin));
    assert(ended.fastwake =~= regs.fastwake.remove(pin));
    assert(ended.imask =~= regs.imask.remove(pin));
    assert(ended.waiting =~= regs.waiting.remove(pin));
}

/// Whether an access is a read-modify-write of a register the port's other pins share.
pub open spec fn shared(access: Access) -> bool {
    match access {
        Access::Polarity(..) | Access::FastWake(..) | Access::Unmask(..) => true,
        _ => false,
    }
}

/// Whether access `at` is made inside a critical section.
pub open spec fn in_section(accesses: Seq<Access>, at: int) -> bool {
    exists|entered: int|
        0 <= entered < at && #[trigger] accesses[entered] == Access::Acquire && forall|i: int|
            entered < i < at ==> #[trigger] accesses[i] != Access::Release
}

/// Whether every read-modify-write of a shared register is made inside a critical section.
pub open spec fn guarded(accesses: Seq<Access>) -> bool {
    forall|at: int| 0 <= at < accesses.len() && shared(#[trigger] accesses[at]) ==> in_section(accesses, at)
}

/// Whether a pin is unmasked only once everything else about it has been set up.
pub open spec fn unmasks_last(accesses: Seq<Access>) -> bool {
    forall|at: int, later: int|
        0 <= at < later < accesses.len() && #[trigger] accesses[at] is Unmask ==> #[trigger] accesses[later]
            == Access::Release
}

/// Enabling, disabling, arming and disarming a pin change the registers it shares with its port's other
/// pins only inside a critical section, and what lets an edge through comes last.
pub proof fn edges_are_guarded(pin: AnyPin, edge: Edge, both: bool, arm: EdgeArm)
    ensures
        guarded(pin.enable_accesses(edge, both)),
        guarded(pin.disable_accesses()),
        guarded(arm.arm_accesses(both)),
        guarded(arm.disarm_accesses()),
        unmasks_last(pin.enable_accesses(edge, both)),
        unmasks_last(arm.arm_accesses(both)),
{
    assert(pin.enable_accesses(edge, both)[0] == Access::Acquire);
    assert(pin.disable_accesses()[0] == Access::Acquire);
    assert(arm.arm_accesses(both)[0] == Access::Acquire);
    assert(arm.disarm_accesses()[0] == Access::Acquire);
}

/// The wait an interrupt answers is on the pin the interrupt names, and is the first such wait; where
/// it answers none, no wait is on that pin.
pub proof fn answered_wait_is_on_the_pin(waiters: Seq<EdgeWait>, bit: u8)
    ensures
        match waiter_on(waiters, bit) {
            Some(index) => {
                &&& index < waiters.len()
                &&& waiters[index as int].bit == bit
                &&& forall|i: int| 0 <= i < index ==> (#[trigger] waiters[i]).bit != bit
            },
            None => forall|i: int| 0 <= i < waiters.len() ==> (#[trigger] waiters[i]).bit != bit,
        },
    decreases waiters.len(),
{
    if waiters.len() > 0 && waiters[0].bit != bit {
        let rest = waiters.drop_first();
        answered_wait_is_on_the_pin(rest, bit);
        assert forall|i: int| 0 < i < waiters.len() implies #[trigger] waiters[i] == rest[i - 1] by {}
    }
}

/// A wait for any edge accepts what a wait for a rising edge or one for a falling edge accepts, and
/// those two never accept the same edge.
pub proof fn edges_partition(level: bool)
    ensures
        Edge::Any.accepts_spec(level) <==> (Edge::Rising.accepts_spec(level) || Edge::Falling.accepts_spec(level)),
        !(Edge::Rising.accepts_spec(level) && Edge::Falling.accepts_spec(level)),
{
}

/// Selecting a pull enables that one and not the other, and selecting an inversion sets it; neither changes anything
/// else.
pub proof fn pull_is_the_one_selected(regs: PortRegs, pin: AnyPin, pull: Pull, invert: bool)
    ensures
        ({
            let before = regs.pincm[pin.pin_cm()];
            let after = regs.run(seq![pin.pull_access(pull)]);

            &&& after == PortRegs {
                pincm: regs.pincm.insert(
                    pin.pin_cm(),
                    Pincm { pipu: pull is Up, pipd: pull is Down, ..before },
                ),
                ..regs
            }
        }),
        ({
            let before = regs.pincm[pin.pin_cm()];
            let after = regs.run(seq![pin.inversion_access(invert)]);

            &&& after == PortRegs { pincm: regs.pincm.insert(pin.pin_cm(), Pincm { inv: invert, ..before }), ..regs }
        }),
{
    reveal_with_fuel(PortRegs::run, 9);
}

/// An input is connected to the port and read, is not driven, and drives no level of its own; its pull and inversion
/// are left as they were.
pub proof fn input_pin_is_read_and_not_driven(regs: PortRegs, pin: AnyPin)
    ensures
        ({
            let before = regs.pincm[pin.pin_cm()];
            let after = regs.run(pin.input_accesses());

            &&& after == PortRegs {
                doe: regs.doe.remove(id(pin)),
                pincm: regs.pincm.insert(
                    pin.pin_cm(),
                    Pincm { pf: 1, pc: true, inena: true, hiz1: false, ..before },
                ),
                ..regs
            }
        }),
{
    reveal_with_fuel(PortRegs::run, 9);
}

/// An output is connected to the port and driven both ways, and is not read.
pub proof fn output_pin_is_driven(regs: PortRegs, pin: AnyPin)
    ensures
        ({
            let before = regs.pincm[pin.pin_cm()];
            let after = regs.run(pin.output_accesses());

            &&& after == PortRegs {
                doe: regs.doe.insert(id(pin)),
                pincm: regs.pincm.insert(
                    pin.pin_cm(),
                    Pincm { pf: 1, pc: true, inena: false, hiz1: false, ..before },
                ),
                ..regs
            }
        }),
{
    reveal_with_fuel(PortRegs::run, 9);
}

/// An interrupt's index names the pin one below it, so that every pin of a port has one and none has zero.
pub proof fn index_names_the_pin_below_it(stat: u8)
    requires
        1 <= stat <= 32,
    ensures
        indexed_bit(stat) == stat - 1,
{
}

/// An edge is passed over exactly where both are latched and the wait on its pin asked for the other one.
pub proof fn edges_are_passed_over_for_a_wait(waiters: Seq<EdgeWait>, bit: u8, level: u32, both: bool)
    ensures
        edge_rejected(waiters, bit, level, both) <==> both && (waiter_on(waiters, bit) matches Some(index) && {
            ||| waiters[index as int].edge is Rising && !bit_set(level, bit)
            ||| waiters[index as int].edge is Falling && bit_set(level, bit)
        }),
{
}

/// A wait for a level is over once the pin reads that level, and a wait for an edge is not over on any.
pub proof fn level_waits_settle_at_their_level(park: Park, din: u32)
    ensures
        park.settled(din) <==> (park.arm().settled_high() matches Some(high) && high == bit_set(
            din,
            park.arm().waiter().bit,
        )),
{
}

/// A pad drives as hard, has the hysteresis and is connected to the function it was asked to, and each of these changes
/// nothing else about it.
pub proof fn pad_controls_are_the_ones_selected(
    regs: PortRegs,
    pin: AnyPin,
    strength: DriveStrength,
    enable: bool,
    pf: u8,
)
    ensures
        ({
            let before = regs.pincm[pin.pin_cm()];

            &&& regs.run(seq![pin.drive_access(strength)]).pincm[pin.pin_cm()] == Pincm {
                drv: strength is High,
                ..before
            }
            &&& regs.run(seq![pin.hysteresis_access(enable)]).pincm[pin.pin_cm()] == Pincm { hysten: enable, ..before }
            &&& regs.run(seq![pin.function_access(pf)]).pincm[pin.pin_cm()] == Pincm { pf, pc: true, ..before }
        }),
{
    reveal_with_fuel(PortRegs::run, 9);
}

/// A pin armed to wake the device compares with the level it was armed for, and one disarmed wakes it on none.
pub proof fn wake_is_on_the_level_armed_for(regs: PortRegs, pin: AnyPin, level: WakeLevel)
    ensures
        ({
            let before = regs.pincm[pin.pin_cm()];
            let armed = regs.run(seq![pin.wake_access(level)]).pincm[pin.pin_cm()];
            let disarmed = regs.run(seq![pin.no_wake_access()]).pincm[pin.pin_cm()];

            &&& armed == Pincm { wuen: true, wcomp: level is High, ..before }
            &&& disarmed == Pincm { wuen: false, ..before }
        }),
{
    reveal_with_fuel(PortRegs::run, 9);
}

/// A pin armed for a wait reports the edges the wait is for, from then on and in every sleep level: what was latched
/// before is dropped, its synchroniser stays clocked, its edges reach the CPU, and the wait linked for them is this
/// one. Nothing else of any pin changes.
pub proof fn armed_wait_is_reported(regs: PortRegs, arm: EdgeArm, both: bool)
    ensures
        ({
            let pin = (arm.port(), arm.waiter().bit);
            let armed = regs.run(arm.arm_accesses(both));

            &&& armed.polarity == regs.polarity.insert(pin, armed.polarity[pin])
            &&& arm.waiter().edge is Rising && !both ==> armed.polarity[pin] is Rise
            &&& arm.waiter().edge is Falling && !both ==> armed.polarity[pin] is Fall
            &&& arm.waiter().edge is Any || both ==> armed.polarity[pin] is RiseFall
            &&& armed.ris == regs.ris.remove(pin)
            &&& armed.fastwake == regs.fastwake.insert(pin)
            &&& armed.imask == regs.imask.insert(pin)
            &&& armed.waiting == regs.waiting.insert(pin)
            &&& armed.dout == regs.dout
            &&& armed.doe == regs.doe
            &&& armed.pincm == regs.pincm
            &&& arm.arm_accesses(both).contains(Access::LinkWaiter(arm.port(), arm.waiter()))
        }),
{
    reveal_with_fuel(PortRegs::run, 9);
    assert(arm.arm_accesses(both)[3] == Access::LinkWaiter(arm.port(), arm.waiter()));
}

} // verus!
