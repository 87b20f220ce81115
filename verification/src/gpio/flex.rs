//! The flexible pin, and waking from SHUTDOWN.

use super::{
    Access, AnyPin, DriveStrength, Edge, Level, Park, PfType, PincmUpdate, Port, Pull, DISCONNECT_PF, GPIO_PF,
};
use crate::bits::{bit_set, read_bit};
use crate::bus::Bus;
use crate::mode::{Async, Blocking, Mode};
use core::marker::PhantomData;
use vstd::prelude::*;

verus! {

/// What each pin operation asks of the port and of the IOMUX.
impl AnyPin {
    /// Select a pull.
    pub open spec fn pull_access(&self, pull: Pull) -> Access {
        Access::Pincm(
            self.pin_cm(),
            PincmUpdate {
                pipd: Some(pull == Pull::Down),
                pipu: Some(pull == Pull::Up),
                ..PincmUpdate::unchanged()
            },
        )
    }

    /// Select an inversion.
    pub open spec fn inversion_access(&self, invert: bool) -> Access {
        Access::Pincm(self.pin_cm(), PincmUpdate { inv: Some(invert), ..PincmUpdate::unchanged() })
    }

    /// Select how hard the pad drives.
    pub open spec fn drive_access(&self, strength: DriveStrength) -> Access {
        Access::Pincm(
            self.pin_cm(),
            PincmUpdate { drv: Some(strength == DriveStrength::High), ..PincmUpdate::unchanged() },
        )
    }

    /// Switch the input's hysteresis.
    pub open spec fn hysteresis_access(&self, enable: bool) -> Access {
        Access::Pincm(self.pin_cm(), PincmUpdate { hysten: Some(enable), ..PincmUpdate::unchanged() })
    }

    /// Connect the pad to a function, by its number.
    pub open spec fn function_access(&self, pf: u8) -> Access {
        Access::Pincm(self.pin_cm(), PincmUpdate { pf: Some(pf), pc: Some(true), ..PincmUpdate::unchanged() })
    }

    /// Let a level on the pad wake the device.
    pub open spec fn wake_access(&self, level: WakeLevel) -> Access {
        Access::Pincm(
            self.pin_cm(),
            PincmUpdate { wcomp: Some(level == WakeLevel::High), wuen: Some(true), ..PincmUpdate::unchanged() },
        )
    }

    /// Let no level on the pad wake the device.
    pub open spec fn no_wake_access(&self) -> Access {
        Access::Pincm(self.pin_cm(), PincmUpdate { wuen: Some(false), ..PincmUpdate::unchanged() })
    }

    /// Connect the pad to the GPIO port, with its input buffer and open-drain behaviour as given.
    pub open spec fn connect_access(&self, hiz1: bool, inena: bool) -> Access {
        Access::Pincm(
            self.pin_cm(),
            PincmUpdate {
                pf: Some(GPIO_PF),
                hiz1: Some(hiz1),
                pc: Some(true),
                inena: Some(inena),
                ..PincmUpdate::unchanged()
            },
        )
    }

    /// Connect the pad to nothing.
    pub open spec fn disconnect_access(&self) -> Access {
        Access::Pincm(
            self.pin_cm(),
            PincmUpdate {
                pf: Some(DISCONNECT_PF),
                hiz1: Some(false),
                pc: Some(false),
                inena: Some(false),
                ..PincmUpdate::unchanged()
            },
        )
    }

    /// Put the pin into input mode.
    pub open spec fn input_accesses(&self) -> Seq<Access> {
        seq![self.connect_access(false, true), Access::DoeClear(self.block(), self.bit_index())]
    }

    /// Put the pin into output mode.
    pub open spec fn output_accesses(&self) -> Seq<Access> {
        seq![self.connect_access(false, false), Access::DoeSet(self.block(), self.bit_index())]
    }

    /// Put the pin into input and open-drain output mode, with no pull.
    pub open spec fn open_drain_accesses(&self) -> Seq<Access> {
        seq![
            self.connect_access(true, true),
            Access::DoeSet(self.block(), self.bit_index()),
            self.pull_access(Pull::NoPull),
        ]
    }

    /// Disconnect the pin, with no pull and no inversion.
    pub open spec fn disconnect_accesses(&self) -> Seq<Access> {
        seq![self.disconnect_access(), self.pull_access(Pull::NoPull), self.inversion_access(false)]
    }

    /// Set the output level.
    pub open spec fn level_access(&self, level: Level) -> Access {
        match level {
            Level::Low => Access::DoutClear(self.block(), self.bit_index()),
            Level::High => Access::DoutSet(self.block(), self.bit_index()),
        }
    }

    /// Latch an edge and let it reach the CPU: select it, drop what was latched before, keep the input
    /// synchroniser clocked in STOP and STANDBY, and unmask the pin last.
    pub open spec fn enable_accesses(&self, edge: Edge, both: bool) -> Seq<Access> {
        seq![
            Access::Acquire,
            Access::Polarity(self.block(), self.bit_index(), edge.armed_polarity(both)),
            Access::ClearEdge(self.block(), self.bit_index()),
            Access::FastWake(self.block(), self.bit_index(), true),
            Access::Unmask(self.block(), self.bit_index(), true),
            Access::Release,
        ]
    }

    /// Mask the pin and drop what it latched.
    pub open spec fn disable_accesses(&self) -> Seq<Access> {
        seq![
            Access::Acquire,
            Access::Unmask(self.block(), self.bit_index(), false),
            Access::ClearEdge(self.block(), self.bit_index()),
            Access::Release,
        ]
    }
}

/// GPIO flexible pin.
///
/// This pin can either be a disconnected, input, or output pin, or both. The level register bit will remain
/// set while not in output mode, so the pin's level will be 'remembered' when it is not in output
/// mode.
pub struct Flex<M: Mode> {
    pin: AnyPin,
    mode: PhantomData<M>,
}

impl Flex<Blocking> {
    /// Wrap the pin in a `Flex`.
    ///
    /// The pin remains disconnected. The initial output level is unspecified, but can be changed
    /// before the pin is put into output mode.
    pub fn new(pin: AnyPin) -> (flex: Self)
        ensures
            flex.pin() == pin,
    {
        Flex { pin, mode: PhantomData }
    }

    /// Latch this pin's edges and let them reach the CPU.
    ///
    /// For an application that writes its own handler. The port's NVIC line is not touched: that
    /// belongs to whoever owns the vector.
    ///
    /// `both` is whether `GPIO_ERR_01` applies. There both edges are latched whatever `edge` asks for;
    /// classify with [`Flex::get_level`] in the handler.
    pub fn enable_interrupt(&mut self, edge: Edge, both: bool, bus: &mut Bus<Access>)
        ensures
            *final(self) == *old(self),
            final(bus)@ == old(bus)@ + old(self).pin().enable_accesses(edge, both),
    {
        let block: Port = self.pin.block();
        let bit: u8 = self.pin.bit_index();

        let polarity = if both {
            super::Polarity::RiseFall
        } else {
            edge.polarity()
        };

        bus.push(Access::Acquire);
        bus.push(Access::Polarity(block, bit, polarity));
        // After the polarity write, so selecting the event cannot leave a status bit behind.
        bus.push(Access::ClearEdge(block, bit));
        bus.push(Access::FastWake(block, bit, true));
        // Last, so nothing is delivered before the pin is fully set up.
        bus.push(Access::Unmask(block, bit, true));
        bus.push(Access::Release);
    }

    /// Stop this pin's edges reaching the CPU, and drop any already latched.
    ///
    /// Leaves the selected edges and `FASTWAKE` alone, so a later [`Flex::enable_interrupt`] with the
    /// same edge is just the unmask.
    pub fn disable_interrupt(&mut self, bus: &mut Bus<Access>)
        ensures
            *final(self) == *old(self),
            final(bus)@ == old(bus)@ + old(self).pin().disable_accesses(),
    {
        let block: Port = self.pin.block();
        let bit: u8 = self.pin.bit_index();

        bus.push(Access::Acquire);
        bus.push(Access::Unmask(block, bit, false));
        bus.push(Access::ClearEdge(block, bit));
        bus.push(Access::Release);
    }

    /// Whether an edge is latched for this pin in `ris`, whether or not it is unmasked.
    pub fn is_pending(&self, ris: u32) -> (pending: bool)
        ensures
            pending == bit_set(ris, self.pin().bit_index()),
    {
        self.pin.is_pending(ris)
    }

    /// Drop a latched edge without acting on it.
    pub fn clear_pending(&mut self, bus: &mut Bus<Access>)
        ensures
            *final(self) == *old(self),
            final(bus)@ == old(bus)@.push(Access::ClearEdge(old(self).pin().block(), old(self).pin().bit_index())),
    {
        self.pin.clear_pending(bus);
    }

    /// Whether an edge is latched in `ris`, clearing it.
    pub fn take_active(&mut self, ris: u32, bus: &mut Bus<Access>) -> (pending: bool)
        ensures
            *final(self) == *old(self),
            pending == bit_set(ris, old(self).pin().bit_index()),
            final(bus)@ == (if pending {
                old(bus)@.push(Access::ClearEdge(old(self).pin().block(), old(self).pin().bit_index()))
            } else {
                old(bus)@
            }),
    {
        self.pin.take_active(ris, bus)
    }
}

impl<M: Mode> Flex<M> {
    /// The pin behind this driver.
    pub closed spec fn pin(&self) -> AnyPin {
        self.pin
    }

    /// Set the pin's pull.
    pub fn set_pull(&mut self, pull: Pull, bus: &mut Bus<Access>)
        requires
            old(self).pin().pad().can_pull(pull),
        ensures
            *final(self) == *old(self),
            final(bus)@ == old(bus)@.push(old(self).pin().pull_access(pull)),
    {
        bus.push(
            Access::Pincm(
                self.pin.pin_cm(),
                PincmUpdate {
                    pipd: Some(matches!(pull, Pull::Down)),
                    pipu: Some(matches!(pull, Pull::Up)),
                    ..PincmUpdate::unchanged()
                },
            ),
        );
    }

    /// Set how hard the pin drives when it is an output.
    ///
    /// Only a pad whose IO structure has drive-strength control takes it.
    pub fn set_drive_strength(&mut self, strength: DriveStrength, bus: &mut Bus<Access>)
        requires
            old(self).pin().pad().drive_strength,
        ensures
            *final(self) == *old(self),
            final(bus)@ == old(bus)@.push(old(self).pin().drive_access(strength)),
    {
        bus.push(
            Access::Pincm(
                self.pin.pin_cm(),
                PincmUpdate { drv: Some(matches!(strength, DriveStrength::High)), ..PincmUpdate::unchanged() },
            ),
        );
    }

    /// Turn input hysteresis on or off.
    ///
    /// Only a pad whose IO structure has hysteresis control takes it. It is on by default there, and
    /// turning it off is what a fast edge from a clean driver wants.
    pub fn set_hysteresis(&mut self, enable: bool, bus: &mut Bus<Access>)
        requires
            old(self).pin().pad().hysteresis,
        ensures
            *final(self) == *old(self),
            final(bus)@ == old(bus)@.push(old(self).pin().hysteresis_access(enable)),
    {
        bus.push(
            Access::Pincm(self.pin.pin_cm(), PincmUpdate { hysten: Some(enable), ..PincmUpdate::unchanged() }),
        );
    }

    /// Put the pin into input mode.
    ///
    /// The pull setting is left unchanged.
    pub fn set_as_input(&mut self, bus: &mut Bus<Access>)
        ensures
            *final(self) == *old(self),
            final(bus)@ == old(bus)@ + old(self).pin().input_accesses(),
    {
        self.connect(false, true, bus);
        bus.push(Access::DoeClear(self.pin.block(), self.pin.bit_index()));
    }

    /// Put the pin into output mode.
    ///
    /// The pin level will be whatever was set before (or low by default). If you want it to begin
    /// at a specific level, call `set_high`/`set_low` on the pin first.
    pub fn set_as_output(&mut self, bus: &mut Bus<Access>)
        ensures
            *final(self) == *old(self),
            final(bus)@ == old(bus)@ + old(self).pin().output_accesses(),
    {
        self.connect(false, false, bus);
        bus.push(Access::DoeSet(self.pin.block(), self.pin.bit_index()));
    }

    /// Hand the pin to a peripheral function, and stop driving it from here.
    ///
    /// `pf` is the function number for the peripheral and signal wanted. A number that does not name a
    /// function on this pin selects nothing and the pin goes quiet.
    pub fn set_as_af(&mut self, pf: u8, ty: PfType, bus: &mut Bus<Access>)
        requires
            old(self).pin().pad().can_pull(ty.pull()),
        ensures
            *final(self) == *old(self),
            final(bus)@ == old(bus)@.push(Access::Pincm(old(self).pin().pin_cm(), ty.update(pf))),
    {
        bus.push(self.pin.set_as_pf(pf, ty));
    }

    /// Put the pin into input + open-drain output mode.
    ///
    /// The hardware will drive the line low if you set it to low, and will leave it floating if you set
    /// it to high, in which case you can read the input to figure out whether another device
    /// is driving the line low.
    ///
    /// The internal weak pull-up and pull-down resistors will be disabled.
    pub fn set_as_input_output(&mut self, bus: &mut Bus<Access>)
        ensures
            *final(self) == *old(self),
            final(bus)@ == old(bus)@ + old(self).pin().open_drain_accesses(),
    {
        self.connect(true, true, bus);
        // Required for open-drain to drive low.
        bus.push(Access::DoeSet(self.pin.block(), self.pin.bit_index()));
        self.set_pull(Pull::NoPull, bus);
    }

    /// Set the pin as "disconnected", ie doing nothing and consuming the lowest
    /// amount of power possible.
    ///
    /// This also disables the internal weak pull-up and pull-down resistors.
    pub fn set_as_disconnected(&mut self, bus: &mut Bus<Access>)
        ensures
            *final(self) == *old(self),
            final(bus)@ == old(bus)@ + old(self).pin().disconnect_accesses(),
    {
        bus.push(
            Access::Pincm(
                self.pin.pin_cm(),
                PincmUpdate {
                    pf: Some(DISCONNECT_PF),
                    hiz1: Some(false),
                    pc: Some(false),
                    inena: Some(false),
                    ..PincmUpdate::unchanged()
                },
            ),
        );
        self.set_pull(Pull::NoPull, bus);
        self.set_inversion(false, bus);
    }

    /// Connect the pad to the GPIO port.
    fn connect(&mut self, hiz1: bool, inena: bool, bus: &mut Bus<Access>)
        ensures
            *final(self) == *old(self),
            final(bus)@ == old(bus)@.push(old(self).pin().connect_access(hiz1, inena)),
    {
        bus.push(
            Access::Pincm(
                self.pin.pin_cm(),
                PincmUpdate {
                    pf: Some(GPIO_PF),
                    hiz1: Some(hiz1),
                    pc: Some(true),
                    inena: Some(inena),
                    ..PincmUpdate::unchanged()
                },
            ),
        );
    }

    /// Configure the logic inversion of this pin.
    ///
    /// Logic inversion applies to both the input and output path of this pin.
    pub fn set_inversion(&mut self, invert: bool, bus: &mut Bus<Access>)
        ensures
            *final(self) == *old(self),
            final(bus)@ == old(bus)@.push(old(self).pin().inversion_access(invert)),
    {
        bus.push(Access::Pincm(self.pin.pin_cm(), PincmUpdate { inv: Some(invert), ..PincmUpdate::unchanged() }));
    }

    /// Put the pin into the PF mode, unchecked.
    ///
    /// This is completely unchecked, it can attach the pin to literally any peripheral, so use with
    /// care. In addition the pin peripheral is connected in the iomux. The function number is six bits
    /// wide.
    pub fn set_pf_unchecked(&mut self, pf: u8, bus: &mut Bus<Access>)
        requires
            pf < 64,
        ensures
            *final(self) == *old(self),
            final(bus)@ == old(bus)@.push(old(self).pin().function_access(pf)),
    {
        bus.push(
            Access::Pincm(
                self.pin.pin_cm(),
                // If the PF is manually set, connect the pin
                PincmUpdate { pf: Some(pf), pc: Some(true), ..PincmUpdate::unchanged() },
            ),
        );
    }

    /// Get whether the pin input level is high, in a reading of `DIN31_0`.
    pub fn is_high(&self, din: u32) -> (high: bool)
        ensures
            high == bit_set(din, self.pin().bit_index()),
    {
        read_bit(din, self.pin.bit_index())
    }

    /// Get whether the pin input level is low, in a reading of `DIN31_0`.
    pub fn is_low(&self, din: u32) -> (low: bool)
        ensures
            low == !bit_set(din, self.pin().bit_index()),
    {
        !self.is_high(din)
    }

    /// Returns current pin level, in a reading of `DIN31_0`.
    pub fn get_level(&self, din: u32) -> (level: Level)
        ensures
            level == Level::of(bit_set(din, self.pin().bit_index())),
    {
        Level::from(self.is_high(din))
    }

    /// Set the output as high.
    pub fn set_high(&mut self, bus: &mut Bus<Access>)
        ensures
            *final(self) == *old(self),
            final(bus)@ == old(bus)@.push(old(self).pin().level_access(Level::High)),
    {
        bus.push(Access::DoutSet(self.pin.block(), self.pin.bit_index()));
    }

    /// Set the output as low.
    pub fn set_low(&mut self, bus: &mut Bus<Access>)
        ensures
            *final(self) == *old(self),
            final(bus)@ == old(bus)@.push(old(self).pin().level_access(Level::Low)),
    {
        bus.push(Access::DoutClear(self.pin.block(), self.pin.bit_index()));
    }

    /// Toggle pin output
    pub fn toggle(&mut self, bus: &mut Bus<Access>)
        ensures
            *final(self) == *old(self),
            final(bus)@ == old(bus)@.push(Access::DoutToggle(old(self).pin().block(), old(self).pin().bit_index())),
    {
        bus.push(Access::DoutToggle(self.pin.block(), self.pin.bit_index()));
    }

    /// Set the output level.
    pub fn set_level(&mut self, level: Level, bus: &mut Bus<Access>)
        ensures
            *final(self) == *old(self),
            final(bus)@ == old(bus)@.push(old(self).pin().level_access(level)),
    {
        match level {
            Level::Low => self.set_low(bus),
            Level::High => self.set_high(bus),
        }
    }

    /// Get the current pin output level, in a reading of `DOUT31_0`.
    pub fn get_output_level(&self, dout: u32) -> (level: Level)
        ensures
            level == Level::of(bit_set(dout, self.pin().bit_index())),
    {
        Level::from(self.is_set_high(dout))
    }

    /// Is the output level high, in a reading of `DOUT31_0`?
    pub fn is_set_high(&self, dout: u32) -> (high: bool)
        ensures
            high == bit_set(dout, self.pin().bit_index()),
    {
        read_bit(dout, self.pin.bit_index())
    }

    /// Is the output level low, in a reading of `DOUT31_0`?
    pub fn is_set_low(&self, dout: u32) -> (low: bool)
        ensures
            low == !bit_set(dout, self.pin().bit_index()),
    {
        !self.is_set_high(dout)
    }

    /// Give the driver up: the pin is left disconnected.
    pub fn release(self, bus: &mut Bus<Access>)
        ensures
            final(bus)@ == old(bus)@ + self.pin().disconnect_accesses(),
    {
        let mut pin = self;
        pin.set_as_disconnected(bus);
    }
}

impl Flex<Async> {
    /// Wrap the pin in a `Flex` that can wait for an edge.
    ///
    /// Every port on the chip has to have its interrupt bound: a pin's port is a run-time value, and a
    /// wait armed on a port with no handler would never complete.
    pub fn new_async(pin: AnyPin) -> (flex: Self)
        ensures
            flex.pin() == pin,
    {
        Flex { pin, mode: PhantomData }
    }

    /// Wait until the pin is high. If it is already high in `din`, there is nothing to wait for.
    pub fn wait_for_high(&mut self, din: u32) -> (wait: Option<Park>)
        ensures
            *final(self) == *old(self),
            wait == Park::until_high(old(self).pin(), din),
    {
        if self.is_high(din) {
            return None;
        }
        Some(self.wait_inner(Edge::Rising, Some(true)))
    }

    /// Wait until the pin is low. If it is already low in `din`, there is nothing to wait for.
    pub fn wait_for_low(&mut self, din: u32) -> (wait: Option<Park>)
        ensures
            *final(self) == *old(self),
            wait == Park::until_low(old(self).pin(), din),
    {
        if self.is_low(din) {
            return None;
        }
        Some(self.wait_inner(Edge::Falling, Some(false)))
    }

    /// Wait for the pin to undergo a transition from low to high.
    pub fn wait_for_rising_edge(&mut self) -> (wait: Park)
        ensures
            *final(self) == *old(self),
            wait == Park::until_rise(old(self).pin()),
    {
        self.wait_inner(Edge::Rising, None)
    }

    /// Wait for the pin to undergo a transition from high to low.
    pub fn wait_for_falling_edge(&mut self) -> (wait: Park)
        ensures
            *final(self) == *old(self),
            wait == Park::until_fall(old(self).pin()),
    {
        self.wait_inner(Edge::Falling, None)
    }

    /// Wait for the pin to undergo any transition, i.e low to high OR high to low.
    pub fn wait_for_any_edge(&mut self) -> (wait: Park)
        ensures
            *final(self) == *old(self),
            wait == Park::until_change(old(self).pin()),
    {
        self.wait_inner(Edge::Any, None)
    }

    /// Wait for the pin to undergo a transition, choosing which one at run time.
    pub fn wait_for_edge(&mut self, edge: Edge) -> (wait: Park)
        ensures
            *final(self) == *old(self),
            wait == Park::for_pin(old(self).pin(), edge, None),
    {
        self.wait_inner(edge, None)
    }

    /// Describe a wait. It is armed by its first poll.
    fn wait_inner(&mut self, edge: Edge, settled_high: Option<bool>) -> (wait: Park)
        ensures
            *final(self) == *old(self),
            wait == Park::for_pin(old(self).pin(), edge, settled_high),
    {
        Park::new(self.pin, edge, settled_high)
    }
}

/// The level on a pin that wakes the device from SHUTDOWN.
#[derive(Debug, Clone, Copy, PartialEq, Eq, Structural)]
pub enum WakeLevel {
    /// Wake when the pin is driven low.
    Low,
    /// Wake when the pin is driven high.
    High,
}

/// Arms a wake-capable pin to bring the device out of SHUTDOWN.
///
/// SHUTDOWN powers the GPIO peripheral down, so the wake controller watches the pin instead, and waking
/// is a reset rather than a resume. Only pins with wakeup logic can do this.
pub struct ShutdownWake {
    pin: AnyPin,
}

impl ShutdownWake {
    /// The pin that wakes the device.
    pub closed spec fn pin(&self) -> AnyPin {
        self.pin
    }

    /// Wake the device from SHUTDOWN when `pin` reaches `level`.
    ///
    /// Pull the pin to the opposite level first if it would otherwise float, since the comparison is
    /// against the pin, not an edge.
    pub fn new(pin: AnyPin, level: WakeLevel, bus: &mut Bus<Access>) -> (wake: Self)
        requires
            pin.pad().wakeup,
        ensures
            wake.pin() == pin,
            final(bus)@ == old(bus)@.push(pin.wake_access(level)),
    {
        bus.push(
            Access::Pincm(
                pin.pin_cm(),
                PincmUpdate {
                    wcomp: Some(matches!(level, WakeLevel::High)),
                    wuen: Some(true),
                    ..PincmUpdate::unchanged()
                },
            ),
        );
        ShutdownWake { pin }
    }

    /// Disarm the pin.
    pub fn release(self, bus: &mut Bus<Access>)
        ensures
            final(bus)@ == old(bus)@.push(self.pin().no_wake_access()),
    {
        bus.push(
            Access::Pincm(self.pin.pin_cm(), PincmUpdate { wuen: Some(false), ..PincmUpdate::unchanged() }),
        );
    }
}

} // verus!
