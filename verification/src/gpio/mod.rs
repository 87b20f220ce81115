//! General-purpose I/O.
//!
//! [`Input`], [`Output`], [`OutputOpenDrain`] and [`Flex`], which is all three at once. `Input`,
//! `OutputOpenDrain` and `Flex` take a mode parameter: the blocking flavour hands its edges to an
//! application's own handler, the [`Async`](crate::mode::Async) flavour waits for them.
//!
//! # Waiting on an edge
//!
//! A wait is a [`Park`]. Its first poll arms the pin, and [`InterruptHandler`] is what completes it. A wait
//! for a level tests the level again once the pin is armed, because arming drops an edge that arrived
//! between the caller's own test and the arm.

mod flex;
pub mod model;
mod pins;
mod wait;

pub use flex::{Flex, ShutdownWake, WakeLevel};
pub use pins::{Input, Output, OutputOpenDrain};
pub use wait::{
    answered, edge_rejected, indexed_bit, interrupt_completes_the_wait_on_its_pin, irq_handler,
    level_waits_are_for_the_edge_that_gets_there, waiter_on, waits_go_on_until_they_are_reported, Dispatch, EdgeArm,
    InterruptHandler, Park, Wait,
};

use crate::bits::{bit_set, read_bit};
use crate::bus::Bus;
use vstd::prelude::*;

verus! {

/// Represents a digital input or output level.
#[derive(Debug, Eq, PartialEq, Clone, Copy, Structural)]
pub enum Level {
    /// Logical low.
    Low,
    /// Logical high.
    High,
}

impl Level {
    /// The level a register bit stands for.
    pub open spec fn of(high: bool) -> Level {
        if high {
            Level::High
        } else {
            Level::Low
        }
    }
}

impl From<bool> for Level {
    fn from(val: bool) -> (level: Self) {
        match val {
            true => Level::High,
            false => Level::Low,
        }
    }
}

impl vstd::std_specs::convert::FromSpecImpl<bool> for Level {
    open spec fn obeys_from_spec() -> bool {
        true
    }

    open spec fn from_spec(val: bool) -> Self {
        Level::of(val)
    }
}

impl From<Level> for bool {
    fn from(level: Level) -> (high: bool) {
        match level {
            Level::Low => false,
            Level::High => true,
        }
    }
}

impl vstd::std_specs::convert::FromSpecImpl<Level> for bool {
    open spec fn obeys_from_spec() -> bool {
        true
    }

    open spec fn from_spec(level: Level) -> Self {
        level == Level::High
    }
}

/// Represents a pull setting for an input.
#[derive(Debug, Clone, Copy, Eq, PartialEq, Structural)]
pub enum Pull {
    /// No pull.
    NoPull,
    /// Internal pull-up resistor. Not every pad has one: see [`Pad::pullup`].
    Up,
    /// Internal pull-down resistor. Every structure has one.
    Down,
}

/// How hard an output drives.
///
/// Only the high-drive and high-speed structures have this: see [`Pad::drive_strength`].
#[derive(Debug, Clone, Copy, Eq, PartialEq, Structural)]
pub enum DriveStrength {
    /// The reset default, and all a standard-drive pin can do.
    Low,
    /// The high-drive output.
    High,
}

/// A GPIO bank with up to 32 pins.
#[derive(Debug, Clone, Copy, Eq, PartialEq, Structural)]
pub enum Port {
    /// Port A.
    PortA,
    /// Port B.
    PortB,
    /// Port C.
    PortC,
}

impl Port {
    /// Position of the port, counting from port A.
    pub open spec fn index(self) -> int {
        match self {
            Port::PortA => 0,
            Port::PortB => 1,
            Port::PortC => 2,
        }
    }
}

/// Ports on the widest part.
pub const PORT_COUNT: u8 = 3;

/// Which edge to detect.
#[derive(Clone, Copy, PartialEq, Eq, Debug, Structural)]
pub enum Edge {
    /// A transition from low to high.
    Rising,
    /// A transition from high to low.
    Falling,
    /// Either transition.
    Any,
}

/// Which edges a pin latches, as the `POLARITY` registers encode it.
#[derive(Clone, Copy, PartialEq, Eq, Debug, Structural)]
pub enum Polarity {
    /// No edge is latched.
    Disable,
    /// A rising edge is latched.
    Rise,
    /// A falling edge is latched.
    Fall,
    /// Both edges are latched.
    RiseFall,
}

impl Polarity {
    /// The two-bit encoding.
    pub open spec fn bits_spec(self) -> u32 {
        match self {
            Polarity::Disable => 0,
            Polarity::Rise => 1,
            Polarity::Fall => 2,
            Polarity::RiseFall => 3,
        }
    }

    /// The two-bit encoding.
    pub fn bits(self) -> (bits: u32)
        ensures
            bits == self.bits_spec(),
    {
        match self {
            Polarity::Disable => 0,
            Polarity::Rise => 1,
            Polarity::Fall => 2,
            Polarity::RiseFall => 3,
        }
    }
}

impl Edge {
    /// The polarity that latches exactly this edge.
    pub open spec fn polarity_spec(self) -> Polarity {
        match self {
            Edge::Rising => Polarity::Rise,
            Edge::Falling => Polarity::Fall,
            Edge::Any => Polarity::RiseFall,
        }
    }

    /// The polarity that latches exactly this edge.
    pub fn polarity(self) -> (polarity: Polarity)
        ensures
            polarity == self.polarity_spec(),
    {
        match self {
            Edge::Rising => Polarity::Rise,
            Edge::Falling => Polarity::Fall,
            Edge::Any => Polarity::RiseFall,
        }
    }

    /// The polarity a wait for this edge programs.
    ///
    /// `both` is whether `GPIO_ERR_01` applies. Its case 2 loses every STANDBY1 wake after the first
    /// unless the pin detects both edges, so there the direction is filtered in software.
    pub open spec fn armed_polarity(self, both: bool) -> Polarity {
        if both {
            Polarity::RiseFall
        } else {
            self.polarity_spec()
        }
    }

    /// Whether an edge that left the pin reading `level` is one this wait asked for.
    pub open spec fn accepts_spec(self, level: bool) -> bool {
        match self {
            Edge::Rising => level,
            Edge::Falling => !level,
            Edge::Any => true,
        }
    }

    /// Whether an edge that left the pin reading `level` is one this wait asked for.
    pub fn accepts(self, level: bool) -> (accepted: bool)
        ensures
            accepted == self.accepts_spec(level),
    {
        match self {
            Edge::Rising => level,
            Edge::Falling => !level,
            Edge::Any => true,
        }
    }
}

/// What a pad's IO structure implements.
///
/// Writing a control the structure lacks is accepted and does nothing, so the methods that write one
/// ask for a pad that has it.
#[derive(Clone, Copy, PartialEq, Eq, Debug, Structural)]
pub struct Pad {
    /// `PINCM.PIPU` connects a pullup. The 5 V tolerant open-drain structure has none.
    pub pullup: bool,
    /// `PINCM.DRV` changes the drive strength.
    pub drive_strength: bool,
    /// `PINCM.HYSTEN` switches input hysteresis.
    pub hysteresis: bool,
    /// `PINCM.WUEN` and `PINCM.WCOMP` reach a wake controller.
    pub wakeup: bool,
}

impl Pad {
    /// Whether `pull` is one this pad can apply.
    pub open spec fn can_pull_spec(self, pull: Pull) -> bool {
        pull != Pull::Up || self.pullup
    }

    /// Whether `pull` is one this pad can apply.
    #[verifier::when_used_as_spec(can_pull_spec)]
    pub fn can_pull(self, pull: Pull) -> (can: bool)
        ensures
            can == self.can_pull(pull),
    {
        !matches!(pull, Pull::Up) || self.pullup
    }
}

/// The fields of one `PINCM` register.
#[derive(Clone, Copy, PartialEq, Eq, Debug, Structural)]
pub struct Pincm {
    /// Pin function.
    pub pf: u8,
    /// Whether the pad is connected to the peripheral.
    pub pc: bool,
    /// Input enable.
    pub inena: bool,
    /// Data inversion.
    pub inv: bool,
    /// Drive high-impedance for a one.
    pub hiz1: bool,
    /// Pull-up enable.
    pub pipu: bool,
    /// Pull-down enable.
    pub pipd: bool,
    /// Drive strength.
    pub drv: bool,
    /// Hysteresis enable.
    pub hysten: bool,
    /// Wake enable.
    pub wuen: bool,
    /// Level the wake logic compares with.
    pub wcomp: bool,
}

impl Pincm {
    /// Every field clear: nothing connected, nothing pulled.
    pub open spec fn zero_spec() -> Pincm {
        Pincm {
            pf: 0,
            pc: false,
            inena: false,
            inv: false,
            hiz1: false,
            pipu: false,
            pipd: false,
            drv: false,
            hysten: false,
            wuen: false,
            wcomp: false,
        }
    }

    /// Every field clear: nothing connected, nothing pulled.
    #[verifier::when_used_as_spec(zero_spec)]
    pub fn zero() -> (value: Pincm)
        ensures
            value == Pincm::zero(),
    {
        Pincm {
            pf: 0,
            pc: false,
            inena: false,
            inv: false,
            hiz1: false,
            pipu: false,
            pipd: false,
            drv: false,
            hysten: false,
            wuen: false,
            wcomp: false,
        }
    }
}

/// The fields a read-modify-write of a `PINCM` register changes. [`None`] leaves a field alone.
#[derive(Clone, Copy, PartialEq, Eq, Debug, Structural)]
pub struct PincmUpdate {
    /// Pin function.
    pub pf: Option<u8>,
    /// Whether the pad is connected to the peripheral.
    pub pc: Option<bool>,
    /// Input enable.
    pub inena: Option<bool>,
    /// Data inversion.
    pub inv: Option<bool>,
    /// Drive high-impedance for a one.
    pub hiz1: Option<bool>,
    /// Pull-up enable.
    pub pipu: Option<bool>,
    /// Pull-down enable.
    pub pipd: Option<bool>,
    /// Drive strength.
    pub drv: Option<bool>,
    /// Hysteresis enable.
    pub hysten: Option<bool>,
    /// Wake enable.
    pub wuen: Option<bool>,
    /// Level the wake logic compares with.
    pub wcomp: Option<bool>,
}

impl PincmUpdate {
    /// An update that changes nothing.
    pub open spec fn unchanged_spec() -> PincmUpdate {
        PincmUpdate {
            pf: None,
            pc: None,
            inena: None,
            inv: None,
            hiz1: None,
            pipu: None,
            pipd: None,
            drv: None,
            hysten: None,
            wuen: None,
            wcomp: None,
        }
    }

    /// An update that changes nothing.
    #[verifier::when_used_as_spec(unchanged_spec)]
    pub fn unchanged() -> (value: PincmUpdate)
        ensures
            value == PincmUpdate::unchanged(),
    {
        PincmUpdate {
            pf: None,
            pc: None,
            inena: None,
            inv: None,
            hiz1: None,
            pipu: None,
            pipd: None,
            drv: None,
            hysten: None,
            wuen: None,
            wcomp: None,
        }
    }

    /// The register after this update.
    pub open spec fn applied_to(self, reg: Pincm) -> Pincm {
        Pincm {
            pf: self.pf.unwrap_or(reg.pf),
            pc: self.pc.unwrap_or(reg.pc),
            inena: self.inena.unwrap_or(reg.inena),
            inv: self.inv.unwrap_or(reg.inv),
            hiz1: self.hiz1.unwrap_or(reg.hiz1),
            pipu: self.pipu.unwrap_or(reg.pipu),
            pipd: self.pipd.unwrap_or(reg.pipd),
            drv: self.drv.unwrap_or(reg.drv),
            hysten: self.hysten.unwrap_or(reg.hysten),
            wuen: self.wuen.unwrap_or(reg.wuen),
            wcomp: self.wcomp.unwrap_or(reg.wcomp),
        }
    }

    /// The register after this update.
    pub fn apply(self, reg: Pincm) -> (updated: Pincm)
        ensures
            updated == self.applied_to(reg),
    {
        Pincm {
            pf: self.pf.unwrap_or(reg.pf),
            pc: self.pc.unwrap_or(reg.pc),
            inena: self.inena.unwrap_or(reg.inena),
            inv: self.inv.unwrap_or(reg.inv),
            hiz1: self.hiz1.unwrap_or(reg.hiz1),
            pipu: self.pipu.unwrap_or(reg.pipu),
            pipd: self.pipd.unwrap_or(reg.pipd),
            drv: self.drv.unwrap_or(reg.drv),
            hysten: self.hysten.unwrap_or(reg.hysten),
            wuen: self.wuen.unwrap_or(reg.wuen),
            wcomp: self.wcomp.unwrap_or(reg.wcomp),
        }
    }
}

/// The pin function to disconnect peripherals from the pin.
///
/// This is also the pin function used to connect to analog peripherals, such as an ADC.
pub const DISCONNECT_PF: u8 = 0;

/// The pin function for the GPIO peripheral.
pub const GPIO_PF: u8 = 1;

/// One access to a GPIO port or to the IOMUX.
#[derive(Clone, Copy, PartialEq, Eq, Debug, Structural)]
pub enum Access {
    /// Enter a critical section.
    Acquire,
    /// Leave the critical section.
    Release,
    /// Assert the port's reset and clear its sticky flag.
    Reset(Port),
    /// Switch the port's power enable.
    Power(Port, bool),
    /// Spin for this many CPU cycles.
    Delay(u32),
    /// Read-modify-write of one `PINCM` register, by index.
    Pincm(u8, PincmUpdate),
    /// Store of a whole `PINCM` register, by index.
    StorePincm(u8, Pincm),
    /// Write one bit of `DOESET31_0`.
    DoeSet(Port, u8),
    /// Write one bit of `DOECLR31_0`.
    DoeClear(Port, u8),
    /// Write one bit of `DOUTSET31_0`.
    DoutSet(Port, u8),
    /// Write one bit of `DOUTCLR31_0`.
    DoutClear(Port, u8),
    /// Write one bit of `DOUTTGL31_0`.
    DoutToggle(Port, u8),
    /// Read-modify-write of one pin's field in the polarity registers, by [`polarity_register`].
    Polarity(Port, u8, Polarity),
    /// Write one bit of `ICLR`.
    ClearEdge(Port, u8),
    /// Read-modify-write of one bit of `FASTWAKE`.
    FastWake(Port, u8, bool),
    /// Read-modify-write of one bit of `IMASK`.
    Unmask(Port, u8, bool),
    /// Store the waker of a wait and link it into its port's list.
    LinkWaiter(Port, EdgeWait),
    /// Unlink a wait from its port's list.
    UnlinkWaiter(Port, u8),
}

/// What the port's interrupt matches a wake against: which pin, and which edges that wait accepts.
#[derive(Clone, Copy, PartialEq, Eq, Debug, Structural)]
pub struct EdgeWait {
    /// Which pin within the port.
    pub bit: u8,
    /// Which edges this wait accepts.
    pub edge: Edge,
}

/// Type-erased GPIO pin.
#[derive(Clone, Copy, PartialEq, Eq, Debug, Structural)]
pub struct AnyPin {
    pin_port: u8,
    pin_cm: u8,
    pad: Pad,
}

impl AnyPin {
    #[verifier::type_invariant]
    spec fn names_a_pin(self) -> bool {
        self.pin_port < 96
    }

    /// `port * 32 + bit`.
    pub closed spec fn pin_port_spec(&self) -> u8 {
        self.pin_port
    }

    /// Index of the pin's `PINCM` register.
    pub closed spec fn pin_cm_spec(&self) -> u8 {
        self.pin_cm
    }

    /// What the pad implements.
    pub closed spec fn pad_spec(&self) -> Pad {
        self.pad
    }

    /// The port the pin is on.
    pub open spec fn block_spec(&self) -> Port {
        if self.pin_port() < 32 {
            Port::PortA
        } else if self.pin_port() < 64 {
            Port::PortB
        } else {
            Port::PortC
        }
    }

    /// The pin's bit within its port.
    pub open spec fn bit_index_spec(&self) -> u8 {
        self.pin_port() % 32
    }

    /// Name a pin by its number, with what the chip's pin table says of it.
    ///
    /// The pin has to be one the chip has, and not one another driver uses: a second handle is only
    /// good for reaching the pin's pending edge.
    pub fn steal(pin_port: u8, pin_cm: u8, pad: Pad) -> (pin: Self)
        requires
            pin_port < 32 * PORT_COUNT,
        ensures
            pin.pin_port() == pin_port,
            pin.pin_cm() == pin_cm,
            pin.pad() == pad,
    {
        AnyPin { pin_port, pin_cm, pad }
    }

    /// `port * 32 + bit`.
    #[verifier::when_used_as_spec(pin_port_spec)]
    pub fn pin_port(&self) -> (pin_port: u8)
        ensures
            pin_port == self.pin_port(),
            pin_port < 96,
    {
        proof {
            use_type_invariant(self);
        }
        self.pin_port
    }

    /// The index of this pin in PINCM (pin control management) registers.
    #[verifier::when_used_as_spec(pin_cm_spec)]
    pub fn pin_cm(&self) -> (pin_cm: u8)
        ensures
            pin_cm == self.pin_cm(),
    {
        self.pin_cm
    }

    /// What the pad implements.
    #[verifier::when_used_as_spec(pad_spec)]
    pub fn pad(&self) -> (pad: Pad)
        ensures
            pad == self.pad(),
    {
        self.pad
    }

    /// The pin's bit within its port.
    #[verifier::when_used_as_spec(bit_index_spec)]
    pub fn bit_index(&self) -> (bit: u8)
        ensures
            bit == self.bit_index(),
            bit < 32,
            bit == self.pin_port() % 32,
    {
        self.pin_port() % 32
    }

    /// The port the pin is on.
    #[verifier::when_used_as_spec(block_spec)]
    pub fn block(&self) -> (port: Port)
        ensures
            port == self.block(),
            port.index() == self.pin_port() as int / 32,
    {
        let pin_port: u8 = self.pin_port();

        if pin_port < 32 {
            Port::PortA
        } else if pin_port < 64 {
            Port::PortB
        } else {
            Port::PortC
        }
    }

    /// Whether an edge is latched for this pin, whether or not it is unmasked.
    ///
    /// `ris` is a reading of the port's `RIS`, which neither clears the pin nor disturbs the port's
    /// `IIDX` ordering.
    pub fn is_pending(&self, ris: u32) -> (pending: bool)
        ensures
            pending == bit_set(ris, self.bit_index()),
    {
        read_bit(ris, self.bit_index())
    }

    /// Drop a latched edge without acting on it.
    pub fn clear_pending(&self, bus: &mut Bus<Access>)
        ensures
            final(bus)@ == old(bus)@.push(Access::ClearEdge(self.block(), self.bit_index())),
    {
        bus.push(Access::ClearEdge(self.block(), self.bit_index()));
    }

    /// Whether an edge is latched, clearing it.
    ///
    /// `ris` is a reading of the port's `RIS` taken inside the critical section that also performs the
    /// access, so an edge that arrives between the two is reported on the next entry.
    pub fn take_active(&self, ris: u32, bus: &mut Bus<Access>) -> (pending: bool)
        ensures
            pending == bit_set(ris, self.bit_index()),
            final(bus)@ == (if pending {
                old(bus)@.push(Access::ClearEdge(self.block(), self.bit_index()))
            } else {
                old(bus)@
            }),
    {
        let pending = read_bit(ris, self.bit_index());

        if pending {
            bus.push(Access::ClearEdge(self.block(), self.bit_index()));
        }
        pending
    }

    /// Hand the pad to an analog peripheral.
    ///
    /// The whole register rather than a read-modify-write: `PC` is what connects the pad to a
    /// peripheral at all, and `INENA`, `INV` and `HIZ1` have no business surviving either.
    pub fn set_as_analog(&self) -> (access: Access)
        ensures
            access == Access::StorePincm(self.pin_cm(), Pincm::zero()),
    {
        Access::StorePincm(self.pin_cm(), Pincm::zero())
    }

    /// Set the pin as "disconnected", ie doing nothing and consuming the lowest
    /// amount of power possible.
    ///
    /// Also disables the internal weak pull-up and pull-down resistors.
    pub fn set_as_disconnected(&self) -> (access: Access)
        ensures
            access == Access::StorePincm(self.pin_cm(), Pincm::zero()),
    {
        self.set_as_analog()
    }

    /// Hand the pad to the peripheral function `pf`.
    pub fn set_as_pf(&self, pf: u8, ty: PfType) -> (access: Access)
        requires
            self.pad().can_pull(ty.pull()),
        ensures
            access == Access::Pincm(self.pin_cm(), ty.update(pf)),
    {
        set_pf(self.pin_cm(), self.pad(), pf, ty)
    }

    /// Change how the pad is configured, keeping the peripheral function it has.
    ///
    /// `pincm` is a reading of the pad's register.
    pub fn update_pf(&self, pincm: Pincm, ty: PfType) -> (access: Access)
        requires
            self.pad().can_pull(ty.pull()),
        ensures
            access == Access::Pincm(self.pin_cm(), ty.update(pincm.pf)),
    {
        set_pf(self.pin_cm(), self.pad(), pincm.pf, ty)
    }
}

/// How the pad is configured while a peripheral function drives it.
///
/// The function number decides which peripheral reaches the pin; this decides the direction, the
/// pull and whether the signal is inverted on the way through.
#[derive(Copy, Clone, PartialEq, Eq, Debug, Structural)]
pub struct PfType {
    pull: Pull,
    input: bool,
    invert: bool,
}

impl PfType {
    /// The pull applied to the pad.
    pub closed spec fn pull_spec(self) -> Pull {
        self.pull
    }

    /// The pull applied to the pad.
    #[verifier::when_used_as_spec(pull_spec)]
    pub fn pull(self) -> (pull: Pull)
        ensures
            pull == self.pull(),
    {
        self.pull
    }

    /// Whether the peripheral reads the pin.
    pub closed spec fn reads(self) -> bool {
        self.input
    }

    /// Whether the signal is inverted.
    pub closed spec fn inverts(self) -> bool {
        self.invert
    }

    /// What handing the pad to function `pf` changes in its `PINCM`.
    pub open spec fn update(self, pf: u8) -> PincmUpdate {
        PincmUpdate {
            pf: Some(pf),
            pc: Some(true),
            pipu: Some(self.pull() == Pull::Up),
            pipd: Some(self.pull() == Pull::Down),
            inena: Some(self.reads()),
            inv: Some(self.inverts()),
            ..PincmUpdate::unchanged()
        }
    }

    /// The peripheral reads the pin.
    pub fn input(pull: Pull, invert: bool) -> (ty: Self)
        ensures
            ty.pull() == pull,
            ty.reads(),
            ty.inverts() == invert,
    {
        PfType { pull, input: true, invert }
    }

    /// The peripheral drives the pin.
    pub fn output(pull: Pull, invert: bool) -> (ty: Self)
        ensures
            ty.pull() == pull,
            !ty.reads(),
            ty.inverts() == invert,
    {
        PfType { pull, input: false, invert }
    }
}

/// Hand the pad behind `pincm` to the peripheral function `pf`.
pub fn set_pf(pincm: u8, pad: Pad, pf: u8, ty: PfType) -> (access: Access)
    requires
        pad.can_pull(ty.pull()),
    ensures
        access == Access::Pincm(pincm, ty.update(pf)),
{
    Access::Pincm(
        pincm,
        PincmUpdate {
            pf: Some(pf),
            pc: Some(true),
            pipu: Some(ty.pull == Pull::Up),
            pipd: Some(ty.pull == Pull::Down),
            inena: Some(ty.input),
            inv: Some(ty.invert),
            ..PincmUpdate::unchanged()
        },
    )
}

/// The field of pin `bit` in the polarity register that holds it.
///
/// Each of the two registers holds sixteen two-bit fields; pins from 16 up are in the second.
pub open spec fn polarity_field(reg: u32, bit: u8) -> u32 {
    (reg >> ((bit % 16) * 2) as u32) & 3
}

/// Select which edges a pin latches, leaving everything else about its port alone.
///
/// `reg` is a reading of the polarity register that holds the pin's field: `POLARITY15_0` below pin 16,
/// and `POLARITY31_16` from there up. The result is what to write back.
pub fn polarity_register(reg: u32, bit: u8, polarity: Polarity) -> (updated: u32)
    requires
        bit < 32,
    ensures
        polarity_field(updated, bit) == polarity.bits_spec(),
        forall|other: u8|
            other < 32 && other % 16 != bit % 16 ==> #[trigger] polarity_field(updated, other) == polarity_field(
                reg,
                other,
            ),
{
    let shift: u32 = ((bit % 16) * 2) as u32;
    let bits: u32 = polarity.bits();
    let updated: u32 = (reg & !(3u32 << shift)) | (bits << shift);

    assert(((reg & !(3u32 << shift)) | (bits << shift)) >> shift & 3 == bits) by (bit_vector)
        requires
            shift <= 30,
            bits <= 3,
    ;
    assert forall|other: u8| other < 32 && other % 16 != bit % 16 implies #[trigger] polarity_field(updated, other)
        == polarity_field(reg, other) by {
        let at = ((other % 16) * 2) as u32;
        assert(((reg & !(3u32 << shift)) | (bits << shift)) >> at & 3 == (reg >> at) & 3) by (bit_vector)
            requires
                shift <= 30,
                at <= 30,
                shift % 2 == 0,
                at % 2 == 0,
                at != shift,
                bits <= 3,
        ;
    }
    updated
}

/// What resetting and powering up a port asks for.
pub open spec fn power_up_accesses(port: Port) -> Seq<Access> {
    seq![Access::Reset(port), Access::Power(port, true), Access::Delay(16)]
}

/// Reset a port and power it up.
///
/// The registers behind `PWREN` stay isolated for a few ULPCLK cycles and a write that lands in that
/// window is dropped, so nothing may follow before the delay.
pub fn init(port: Port, bus: &mut Bus<Access>)
    ensures
        final(bus)@ == old(bus)@ + power_up_accesses(port),
{
    bus.push(Access::Reset(port));
    bus.push(Access::Power(port, true));
    bus.push(Access::Delay(16));
}

/// An optional [`AnyPin`].
///
/// No chip has a pin numbered [`MaybeAnyPin::NO_PIN`], so that number stands for there being none and
/// no discriminant is spent on it.
pub struct MaybeAnyPin {
    pin_port: u8,
    pin_cm: u8,
    pad: Pad,
}

impl MaybeAnyPin {
    #[verifier::type_invariant]
    spec fn names_a_pin_or_none(self) -> bool {
        self.pin_port < 96 || self.pin_port == 255
    }

    /// No pin. `port * 32 + bit` reaches 95 on the widest part, so this is unreachable by construction.
    pub const NO_PIN: u8 = 255;

    /// The pin held, if there is one.
    pub closed spec fn held(&self) -> Option<AnyPin> {
        if self.pin_port == 255 {
            None
        } else {
            Some(AnyPin { pin_port: self.pin_port, pin_cm: self.pin_cm, pad: self.pad })
        }
    }

    /// Take ownership of `pin`, if there is one.
    pub fn new(pin: Option<AnyPin>) -> (maybe: Self)
        ensures
            maybe.held() == pin,
    {
        match pin {
            Some(pin) => {
                proof {
                    use_type_invariant(&pin);
                }
                MaybeAnyPin { pin_port: pin.pin_port, pin_cm: pin.pin_cm, pad: pin.pad }
            },
            None => Self::none(),
        }
    }

    /// No pin.
    pub fn none() -> (maybe: Self)
        ensures
            maybe.held() is None,
    {
        MaybeAnyPin {
            pin_port: Self::NO_PIN,
            pin_cm: 0,
            pad: Pad { pullup: false, drive_strength: false, hysteresis: false, wakeup: false },
        }
    }

    /// Give the pin back, so a driver can hand it to its caller.
    pub fn into_peri(self) -> (pin: Option<AnyPin>)
        ensures
            pin == self.held(),
    {
        self.pin()
    }

    /// Borrow the pin for a while.
    pub fn reborrow(&mut self) -> (borrowed: MaybeAnyPin)
        ensures
            borrowed.held() == old(self).held(),
            *final(self) == *old(self),
    {
        proof {
            use_type_invariant(&*self);
        }
        MaybeAnyPin { pin_port: self.pin_port, pin_cm: self.pin_cm, pad: self.pad }
    }

    /// Whether a pin was given.
    pub fn is_some(&self) -> (some: bool)
        ensures
            some == self.held() is Some,
    {
        self.pin_port != Self::NO_PIN
    }

    /// The pin, for the register-level methods on [`AnyPin`].
    pub fn pin(&self) -> (pin: Option<AnyPin>)
        ensures
            pin == self.held(),
    {
        proof {
            use_type_invariant(self);
        }
        if self.is_some() {
            Some(AnyPin { pin_port: self.pin_port, pin_cm: self.pin_cm, pad: self.pad })
        } else {
            None
        }
    }
}

/// What a chip's pin metadata says: where each pin's `PINCM` is, and what its pad implements.
pub struct PinTable {
    /// Pin number and `PINCM` index of every pin the chip has.
    pub pincm: Vec<(u8, u8)>,
    /// `PINCM` indices of the pads with no pullup.
    pub without_pullup: Vec<u8>,
    /// `PINCM` indices of the pads with drive-strength control.
    pub with_drive_strength: Vec<u8>,
    /// `PINCM` indices of the pads with hysteresis control.
    pub with_hysteresis: Vec<u8>,
    /// `PINCM` indices of the pads with wakeup logic, or [`None`] where the device's data does not say.
    pub with_wakeup: Option<Vec<u8>>,
}

/// Whether `list` holds `wanted`.
fn contains(list: &[u8], wanted: u8) -> (found: bool)
    ensures
        found == list@.contains(wanted),
{
    let mut next: usize = 0;

    while next < list.len()
        invariant
            next <= list@.len(),
            forall|i: int| 0 <= i < next ==> list@[i] != wanted,
        decreases list.len() - next,
    {
        if list[next] == wanted {
            return true;
        }
        next += 1;
    }
    false
}

/// The `PINCM` index a table has for a pin: that of its first row for it.
pub open spec fn mapped(table: Seq<(u8, u8)>, pin_port: u8) -> Option<u8>
    decreases table.len(),
{
    if table.len() == 0 {
        None
    } else if table[0].0 == pin_port {
        Some(table[0].1)
    } else {
        mapped(table.drop_first(), pin_port)
    }
}

impl PinTable {
    /// The index of a pin's `PINCM` register, or [`None`] for a pin the chip does not have.
    ///
    /// Some parts have these all over the place, so there is no formula for them.
    pub fn gpio_pincm(&self, pin_port: u8) -> (pincm: Option<u8>)
        ensures
            pincm == mapped(self.pincm@, pin_port),
    {
        let mut next: usize = 0;

        assert(self.pincm@.skip(0) =~= self.pincm@);
        while next < self.pincm.len()
            invariant
                next <= self.pincm@.len(),
                mapped(self.pincm@, pin_port) == mapped(self.pincm@.skip(next as int), pin_port),
            decreases self.pincm.len() - next,
        {
            assert(self.pincm@.skip(next as int).drop_first() =~= self.pincm@.skip(next + 1));
            if self.pincm[next].0 == pin_port {
                return Some(self.pincm[next].1);
            }
            next += 1;
        }
        None
    }

    /// Name a pin by its number, or [`None`] for a pin the chip does not have.
    pub fn pin(&self, pin_port: u8) -> (pin: Option<AnyPin>)
        requires
            pin_port < 32 * PORT_COUNT,
        ensures
            match mapped(self.pincm@, pin_port) {
                Some(pincm) => pin matches Some(pin) && {
                    &&& pin.pin_port() == pin_port
                    &&& pin.pin_cm() == pincm
                    &&& pin.pad().pullup == !self.without_pullup@.contains(pincm)
                    &&& pin.pad().drive_strength == self.with_drive_strength@.contains(pincm)
                    &&& pin.pad().hysteresis == self.with_hysteresis@.contains(pincm)
                    &&& pin.pad().wakeup == self.wakes(pincm)
                },
                None => pin is None,
            },
    {
        match self.gpio_pincm(pin_port) {
            Some(pincm) => Some(AnyPin::steal(pin_port, pincm, self.pad(pincm))),
            None => None,
        }
    }

    /// Whether `pincm`'s IO structure implements a pullup.
    pub fn has_pullup(&self, pincm: u8) -> (has: bool)
        ensures
            has == !self.without_pullup@.contains(pincm),
    {
        !contains(self.without_pullup.as_slice(), pincm)
    }

    /// Whether `pincm`'s IO structure implements `PINCM.DRV`.
    pub fn has_drive_strength(&self, pincm: u8) -> (has: bool)
        ensures
            has == self.with_drive_strength@.contains(pincm),
    {
        contains(self.with_drive_strength.as_slice(), pincm)
    }

    /// Whether `pincm`'s IO structure implements `PINCM.HYSTEN`.
    pub fn has_hysteresis(&self, pincm: u8) -> (has: bool)
        ensures
            has == self.with_hysteresis@.contains(pincm),
    {
        contains(self.with_hysteresis.as_slice(), pincm)
    }

    /// Whether `pincm`'s IO structure has wakeup logic. Where the device's data does not say, every pad is
    /// accepted rather than none.
    pub open spec fn wakes(&self, pincm: u8) -> bool {
        match self.with_wakeup {
            Some(list) => list@.contains(pincm),
            None => true,
        }
    }

    /// Whether `pincm`'s IO structure has wakeup logic.
    pub fn has_wakeup(&self, pincm: u8) -> (has: bool)
        ensures
            has == self.wakes(pincm),
    {
        match &self.with_wakeup {
            Some(list) => contains(list.as_slice(), pincm),
            None => true,
        }
    }

    /// What the pad behind `pincm` implements.
    pub fn pad(&self, pincm: u8) -> (pad: Pad)
        ensures
            pad.pullup == !self.without_pullup@.contains(pincm),
            pad.drive_strength == self.with_drive_strength@.contains(pincm),
            pad.hysteresis == self.with_hysteresis@.contains(pincm),
            pad.wakeup == self.wakes(pincm),
    {
        Pad {
            pullup: self.has_pullup(pincm),
            drive_strength: self.has_drive_strength(pincm),
            hysteresis: self.has_hysteresis(pincm),
            wakeup: self.has_wakeup(pincm),
        }
    }
}

/// A level is that of its register bit, and a wait for an edge latches exactly what it asks for, or both edges where
/// those have to be told apart in software: then it accepts the edge that left the pin at the level it goes to.
pub proof fn edges_latch_what_they_ask_for(edge: Edge, both: bool, level: bool)
    ensures
        Level::of(level) is High <==> level,
        Level::of(level) is Low <==> !level,
        edge.armed_polarity(both) is Rise <==> edge is Rising && !both,
        edge.armed_polarity(both) is Fall <==> edge is Falling && !both,
        edge.armed_polarity(both) is RiseFall <==> edge is Any || both,
        !(edge.armed_polarity(both) is Disable),
        edge.polarity_spec() == edge.armed_polarity(false),
        edge is Rising ==> (edge.accepts_spec(level) <==> level),
        edge is Falling ==> (edge.accepts_spec(level) <==> !level),
        edge is Any ==> edge.accepts_spec(level),
{
}

/// The encoding of what a pin latches has a bit for each edge.
pub proof fn polarity_has_a_bit_for_each_edge(polarity: Polarity)
    ensures
        polarity.bits_spec() <= 3,
        polarity.bits_spec() % 2 == 1 <==> polarity is Rise || polarity is RiseFall,
        polarity.bits_spec() >= 2 <==> polarity is Fall || polarity is RiseFall,
{
}

/// A pin's number is its port's, thirty-two a port, and its bit within it.
pub proof fn pins_are_numbered_by_port(pin: AnyPin)
    requires
        pin.pin_port() < 96,
    ensures
        pin.block().index() * 32 + pin.bit_index() == pin.pin_port(),
        pin.bit_index() < 32,
        Port::PortA.index() == 0 && Port::PortB.index() == 1 && Port::PortC.index() == 2,
{
}

/// An update changes the fields it names to what it names, and leaves the others as they were.
pub proof fn updates_change_what_they_name(update: PincmUpdate, reg: Pincm)
    ensures
        ({
            let after = update.applied_to(reg);

            &&& after.pf == match update.pf {
                Some(value) => value,
                None => reg.pf,
            }
            &&& after.pc == match update.pc {
                Some(value) => value,
                None => reg.pc,
            }
            &&& after.inena == match update.inena {
                Some(value) => value,
                None => reg.inena,
            }
            &&& after.inv == match update.inv {
                Some(value) => value,
                None => reg.inv,
            }
            &&& after.hiz1 == match update.hiz1 {
                Some(value) => value,
                None => reg.hiz1,
            }
            &&& after.pipu == match update.pipu {
                Some(value) => value,
                None => reg.pipu,
            }
            &&& after.pipd == match update.pipd {
                Some(value) => value,
                None => reg.pipd,
            }
            &&& after.drv == match update.drv {
                Some(value) => value,
                None => reg.drv,
            }
            &&& after.hysten == match update.hysten {
                Some(value) => value,
                None => reg.hysten,
            }
            &&& after.wuen == match update.wuen {
                Some(value) => value,
                None => reg.wuen,
            }
            &&& after.wcomp == match update.wcomp {
                Some(value) => value,
                None => reg.wcomp,
            }
        }),
        PincmUpdate::unchanged().applied_to(reg) == reg,
{
}

/// A pad handed to a peripheral is connected to its function, with the pull and inversion it was given and read where
/// it is to be, and keeps everything else about it.
pub proof fn pads_are_handed_over_as_asked(ty: PfType, pf: u8, reg: Pincm)
    ensures
        ({
            let after = ty.update(pf).applied_to(reg);

            &&& after.pf == pf && after.pc
            &&& after.pipu <==> ty.pull() is Up
            &&& after.pipd <==> ty.pull() is Down
            &&& after.inena == ty.reads()
            &&& after.inv == ty.inverts()
            &&& after.hiz1 == reg.hiz1 && after.drv == reg.drv && after.hysten == reg.hysten
            &&& after.wuen == reg.wuen && after.wcomp == reg.wcomp
        }),
{
}

/// Every pad can be left alone or pulled down; one without a pull-up cannot be pulled up.
pub proof fn pull_ups_can_be_missing(pad: Pad, pull: Pull)
    ensures
        pad.can_pull(pull) <==> pull is NoPull || pull is Down || pad.pullup,
{
}

/// A clear register connects a pad to nothing, reads nothing and pulls nowhere.
pub proof fn clear_pad_does_nothing()
    ensures
        ({
            let clear = Pincm::zero();

            &&& clear.pf == DISCONNECT_PF && !clear.pc && !clear.inena && !clear.inv && !clear.hiz1
            &&& !clear.pipu && !clear.pipd && !clear.drv && !clear.hysten && !clear.wuen && !clear.wcomp
        }),
        DISCONNECT_PF == 0,
        GPIO_PF == 1,
{
}

/// A pin's register is the one of the first row for it, and a chip has no register exactly for the pins it has no row
/// for.
pub proof fn pins_have_the_register_of_their_first_row(table: Seq<(u8, u8)>, pin_port: u8)
    ensures
        mapped(table, pin_port) is None <==> forall|i: int|
            0 <= i < table.len() ==> (#[trigger] table[i]).0 != pin_port,
        mapped(table, pin_port) matches Some(pincm) ==> exists|i: int|
            #![trigger table[i]]
            {
                &&& 0 <= i < table.len()
                &&& table[i] == (pin_port, pincm)
                &&& forall|j: int| 0 <= j < i ==> (#[trigger] table[j]).0 != pin_port
            },
    decreases table.len(),
{
    if table.len() > 0 && table[0].0 != pin_port {
        let rest = table.drop_first();
        pins_have_the_register_of_their_first_row(rest, pin_port);
        assert forall|i: int| 0 <= i < rest.len() implies #[trigger] rest[i] == table[i + 1] by {}
        if mapped(table, pin_port) is None {
            assert forall|i: int| 0 <= i < table.len() implies (#[trigger] table[i]).0 != pin_port by {
                if i > 0 {
                    assert(rest[i - 1].0 != pin_port);
                }
            }
        } else {
            let pincm = mapped(table, pin_port)->Some_0;
            let i = choose|i: int|
                #![trigger rest[i]]
                {
                    &&& 0 <= i < rest.len()
                    &&& rest[i] == (pin_port, pincm)
                    &&& forall|j: int| 0 <= j < i ==> (#[trigger] rest[j]).0 != pin_port
                };
            assert(table[i + 1] == (pin_port, pincm));
            assert forall|j: int| 0 <= j < i + 1 implies (#[trigger] table[j]).0 != pin_port by {
                if j > 0 {
                    assert(rest[j - 1].0 != pin_port);
                }
            }
        }
    } else if table.len() > 0 {
        assert(table[0] == (pin_port, table[0].1));
    }
}

/// A port is out of reset before it is powered, and powered for longer than the isolation takes to lift before
/// anything else is asked of it. No other port is touched.
pub proof fn port_is_powered_before_it_is_used(port: Port)
    ensures
        power_up_accesses(port).len() == 3,
        power_up_accesses(port)[0] matches Access::Reset(which) && which == port,
        power_up_accesses(port)[1] matches Access::Power(which, on) && which == port && on,
        power_up_accesses(port)[2] matches Access::Delay(cycles) && cycles == 16,
{
}

} // verus!
