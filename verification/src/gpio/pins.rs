//! Input, output and open-drain drivers.

use super::{Access, AnyPin, DriveStrength, Edge, Flex, Level, Park, Pull};
use crate::bits::bit_set;
use crate::bus::Bus;
use crate::mode::{Async, Blocking, Mode};
use vstd::prelude::*;

verus! {

/// GPIO input driver.
pub struct Input<M: Mode> {
    pin: Flex<M>,
}

impl Input<Blocking> {
    /// Create GPIO input driver for a pin with the provided [Pull] configuration.
    pub fn new(pin: AnyPin, pull: Pull, bus: &mut Bus<Access>) -> (input: Self)
        requires
            pin.pad().can_pull(pull),
        ensures
            input.pin() == pin,
            final(bus)@ == old(bus)@ + pin.input_accesses().push(pin.pull_access(pull)),
    {
        Input { pin: Self::configure(Flex::new(pin), pull, bus) }
    }

    /// Latch this pin's edges and let them reach the CPU. See [`Flex::enable_interrupt`].
    pub fn enable_interrupt(&mut self, edge: Edge, both: bool, bus: &mut Bus<Access>)
        ensures
            *final(self) == *old(self),
            final(bus)@ == old(bus)@ + old(self).pin().enable_accesses(edge, both),
    {
        self.pin.enable_interrupt(edge, both, bus);
    }

    /// Stop this pin's edges reaching the CPU. See [`Flex::disable_interrupt`].
    pub fn disable_interrupt(&mut self, bus: &mut Bus<Access>)
        ensures
            *final(self) == *old(self),
            final(bus)@ == old(bus)@ + old(self).pin().disable_accesses(),
    {
        self.pin.disable_interrupt(bus);
    }

    /// Whether an edge is latched for this pin in `ris`. See [`Flex::is_pending`].
    pub fn is_pending(&self, ris: u32) -> (pending: bool)
        ensures
            pending == bit_set(ris, self.pin().bit_index()),
    {
        self.pin.is_pending(ris)
    }

    /// Drop a latched edge without acting on it. See [`Flex::clear_pending`].
    pub fn clear_pending(&mut self, bus: &mut Bus<Access>)
        ensures
            *final(self) == *old(self),
            final(bus)@ == old(bus)@.push(Access::ClearEdge(old(self).pin().block(), old(self).pin().bit_index())),
    {
        self.pin.clear_pending(bus);
    }

    /// Whether an edge is latched in `ris`, clearing it. See [`Flex::take_active`].
    pub fn take_active(&mut self, ris: u32, bus: &mut Bus<Access>) -> (pending: bool)
        ensures
            *final(self) == *old(self),
            pending == bit_set(ris, old(self).pin().bit_index()),
            final(bus)@ == (if pending {
                old(bus)@.push(Access::ClearEdge(old(self).pin().block(), old(self).pin().bit_index()))
            } else {
                old(bus)@
            }),
    {
        self.pin.take_active(ris, bus)
    }
}

impl Input<Async> {
    /// Create a GPIO input driver that can wait for an edge.
    pub fn new_async(pin: AnyPin, pull: Pull, bus: &mut Bus<Access>) -> (input: Self)
        requires
            pin.pad().can_pull(pull),
        ensures
            input.pin() == pin,
            final(bus)@ == old(bus)@ + pin.input_accesses().push(pin.pull_access(pull)),
    {
        Input { pin: Self::configure(Flex::new_async(pin), pull, bus) }
    }

    /// Wait until the pin is high. If it is already high in `din`, there is nothing to wait for.
    pub fn wait_for_high(&mut self, din: u32) -> (wait: Option<Park>)
        ensures
            *final(self) == *old(self),
            wait == Park::until_high(old(self).pin(), din),
    {
        self.pin.wait_for_high(din)
    }

    /// Wait until the pin is low. If it is already low in `din`, there is nothing to wait for.
    pub fn wait_for_low(&mut self, din: u32) -> (wait: Option<Park>)
        ensures
            *final(self) == *old(self),
            wait == Park::until_low(old(self).pin(), din),
    {
        self.pin.wait_for_low(din)
    }

    /// Wait for the pin to undergo a transition from low to high.
    pub fn wait_for_rising_edge(&mut self) -> (wait: Park)
        ensures
            *final(self) == *old(self),
            wait == Park::until_rise(old(self).pin()),
    {
        self.pin.wait_for_rising_edge()
    }

    /// Wait for the pin to undergo a transition from high to low.
    pub fn wait_for_falling_edge(&mut self) -> (wait: Park)
        ensures
            *final(self) == *old(self),
            wait == Park::until_fall(old(self).pin()),
    {
        self.pin.wait_for_falling_edge()
    }

    /// Wait for the pin to undergo any transition, i.e low to high OR high to low.
    pub fn wait_for_any_edge(&mut self) -> (wait: Park)
        ensures
            *final(self) == *old(self),
            wait == Park::until_change(old(self).pin()),
    {
        self.pin.wait_for_any_edge()
    }

    /// Wait for the pin to undergo a transition, choosing which one at run time.
    pub fn wait_for_edge(&mut self, edge: Edge) -> (wait: Park)
        ensures
            *final(self) == *old(self),
            wait == Park::for_pin(old(self).pin(), edge, None),
    {
        self.pin.wait_for_edge(edge)
    }
}

impl<M: Mode> Input<M> {
    /// The pin behind this driver.
    pub closed spec fn pin(&self) -> AnyPin {
        self.pin.pin()
    }

    fn configure(pin: Flex<M>, pull: Pull, bus: &mut Bus<Access>) -> (configured: Flex<M>)
        requires
            pin.pin().pad().can_pull(pull),
        ensures
            configured == pin,
            final(bus)@ == old(bus)@ + pin.pin().input_accesses().push(pin.pin().pull_access(pull)),
    {
        let mut pin = pin;
        pin.set_as_input(bus);
        pin.set_pull(pull, bus);
        pin
    }

    /// Get whether the pin input level is high, in a reading of `DIN31_0`.
    pub fn is_high(&self, din: u32) -> (high: bool)
        ensures
            high == bit_set(din, self.pin().bit_index()),
    {
        self.pin.is_high(din)
    }

    /// Get whether the pin input level is low, in a reading of `DIN31_0`.
    pub fn is_low(&self, din: u32) -> (low: bool)
        ensures
            low == !bit_set(din, self.pin().bit_index()),
    {
        self.pin.is_low(din)
    }

    /// Get the current pin input level, in a reading of `DIN31_0`.
    pub fn get_level(&self, din: u32) -> (level: Level)
        ensures
            level == Level::of(bit_set(din, self.pin().bit_index())),
    {
        self.pin.get_level(din)
    }

    /// Configure the logic inversion of this pin.
    ///
    /// Logic inversion applies to the input path of this pin.
    pub fn set_inversion(&mut self, invert: bool, bus: &mut Bus<Access>)
        ensures
            *final(self) == *old(self),
            final(bus)@ == old(bus)@.push(old(self).pin().inversion_access(invert)),
    {
        self.pin.set_inversion(invert, bus);
    }

    /// Give the driver up: the pin returns to its floating state.
    pub fn release(self, bus: &mut Bus<Access>)
        ensures
            final(bus)@ == old(bus)@ + self.pin().disconnect_accesses(),
    {
        self.pin.release(bus);
    }
}

/// GPIO output driver.
///
/// The pin returns to its floating state when the driver is given up.
pub struct Output {
    pin: Flex<Blocking>,
}

impl Output {
    /// The pin behind this driver.
    pub closed spec fn pin(&self) -> AnyPin {
        self.pin.pin()
    }

    /// Set how hard the pin drives. See [`Flex::set_drive_strength`].
    pub fn set_drive_strength(&mut self, strength: DriveStrength, bus: &mut Bus<Access>)
        requires
            old(self).pin().pad().drive_strength,
        ensures
            *final(self) == *old(self),
            final(bus)@ == old(bus)@.push(old(self).pin().drive_access(strength)),
    {
        self.pin.set_drive_strength(strength, bus);
    }

    /// Create GPIO output driver for a pin with the provided [Level] configuration.
    ///
    /// The level is set before the pin drives it.
    pub fn new(pin: AnyPin, initial_output: Level, bus: &mut Bus<Access>) -> (output: Self)
        ensures
            output.pin() == pin,
            final(bus)@ == old(bus)@.push(pin.level_access(initial_output)) + pin.output_accesses(),
    {
        let mut pin = Flex::new(pin);
        pin.set_level(initial_output, bus);
        pin.set_as_output(bus);
        Output { pin }
    }

    /// Set the output as high.
    pub fn set_high(&mut self, bus: &mut Bus<Access>)
        ensures
            *final(self) == *old(self),
            final(bus)@ == old(bus)@.push(old(self).pin().level_access(Level::High)),
    {
        self.pin.set_high(bus);
    }

    /// Set the output as low.
    pub fn set_low(&mut self, bus: &mut Bus<Access>)
        ensures
            *final(self) == *old(self),
            final(bus)@ == old(bus)@.push(old(self).pin().level_access(Level::Low)),
    {
        self.pin.set_low(bus);
    }

    /// Set the output level.
    pub fn set_level(&mut self, level: Level, bus: &mut Bus<Access>)
        ensures
            *final(self) == *old(self),
            final(bus)@ == old(bus)@.push(old(self).pin().level_access(level)),
    {
        self.pin.set_level(level, bus);
    }

    /// Is the output pin set as high, in a reading of `DOUT31_0`?
    pub fn is_set_high(&self, dout: u32) -> (high: bool)
        ensures
            high == bit_set(dout, self.pin().bit_index()),
    {
        self.pin.is_set_high(dout)
    }

    /// Is the output pin set as low, in a reading of `DOUT31_0`?
    pub fn is_set_low(&self, dout: u32) -> (low: bool)
        ensures
            low == !bit_set(dout, self.pin().bit_index()),
    {
        self.pin.is_set_low(dout)
    }

    /// What level output is set to, in a reading of `DOUT31_0`.
    pub fn get_output_level(&self, dout: u32) -> (level: Level)
        ensures
            level == Level::of(bit_set(dout, self.pin().bit_index())),
    {
        self.pin.get_output_level(dout)
    }

    /// Toggle pin output
    pub fn toggle(&mut self, bus: &mut Bus<Access>)
        ensures
            *final(self) == *old(self),
            final(bus)@ == old(bus)@.push(Access::DoutToggle(old(self).pin().block(), old(self).pin().bit_index())),
    {
        self.pin.toggle(bus);
    }

    /// Configure the logic inversion of this pin.
    ///
    /// Logic inversion applies to the output path of this pin.
    pub fn set_inversion(&mut self, invert: bool, bus: &mut Bus<Access>)
        ensures
            *final(self) == *old(self),
            final(bus)@ == old(bus)@.push(old(self).pin().inversion_access(invert)),
    {
        self.pin.set_inversion(invert, bus);
    }

    /// Give the driver up: the pin returns to its floating state.
    pub fn release(self, bus: &mut Bus<Access>)
        ensures
            final(bus)@ == old(bus)@ + self.pin().disconnect_accesses(),
    {
        self.pin.release(bus);
    }
}

/// GPIO output open-drain driver.
///
/// The pin returns to its floating state when the driver is given up.
pub struct OutputOpenDrain<M: Mode> {
    pin: Flex<M>,
}

impl OutputOpenDrain<Blocking> {
    /// Create a new GPIO open drain output driver for a pin with the provided [Level].
    pub fn new(pin: AnyPin, initial_output: Level, bus: &mut Bus<Access>) -> (output: Self)
        ensures
            output.pin() == pin,
            final(bus)@ == old(bus)@.push(pin.level_access(initial_output)) + pin.open_drain_accesses(),
    {
        OutputOpenDrain { pin: Self::configure(Flex::new(pin), initial_output, bus) }
    }

    /// Latch this pin's edges and let them reach the CPU. See [`Flex::enable_interrupt`].
    pub fn enable_interrupt(&mut self, edge: Edge, both: bool, bus: &mut Bus<Access>)
        ensures
            *final(self) == *old(self),
            final(bus)@ == old(bus)@ + old(self).pin().enable_accesses(edge, both),
    {
        self.pin.enable_interrupt(edge, both, bus);
    }

    /// Stop this pin's edges reaching the CPU. See [`Flex::disable_interrupt`].
    pub fn disable_interrupt(&mut self, bus: &mut Bus<Access>)
        ensures
            *final(self) == *old(self),
            final(bus)@ == old(bus)@ + old(self).pin().disable_accesses(),
    {
        self.pin.disable_interrupt(bus);
    }

    /// Whether an edge is latched for this pin in `ris`. See [`Flex::is_pending`].
    pub fn is_pending(&self, ris: u32) -> (pending: bool)
        ensures
            pending == bit_set(ris, self.pin().bit_index()),
    {
        self.pin.is_pending(ris)
    }

    /// Drop a latched edge without acting on it. See [`Flex::clear_pending`].
    pub fn clear_pending(&mut self, bus: &mut Bus<Access>)
        ensures
            *final(self) == *old(self),
            final(bus)@ == old(bus)@.push(Access::ClearEdge(old(self).pin().block(), old(self).pin().bit_index())),
    {
        self.pin.clear_pending(bus);
    }

    /// Whether an edge is latched in `ris`, clearing it. See [`Flex::take_active`].
    pub fn take_active(&mut self, ris: u32, bus: &mut Bus<Access>) -> (pending: bool)
        ensures
            *final(self) == *old(self),
            pending == bit_set(ris, old(self).pin().bit_index()),
            final(bus)@ == (if pending {
                old(bus)@.push(Access::ClearEdge(old(self).pin().block(), old(self).pin().bit_index()))
            } else {
                old(bus)@
            }),
    {
        self.pin.take_active(ris, bus)
    }
}

impl OutputOpenDrain<Async> {
    /// Create a new GPIO open drain output driver that can wait for an edge.
    pub fn new_async(pin: AnyPin, initial_output: Level, bus: &mut Bus<Access>) -> (output: Self)
        ensures
            output.pin() == pin,
            final(bus)@ == old(bus)@.push(pin.level_access(initial_output)) + pin.open_drain_accesses(),
    {
        OutputOpenDrain { pin: Self::configure(Flex::new_async(pin), initial_output, bus) }
    }

    /// Wait until the pin is high. If it is already high in `din`, there is nothing to wait for.
    pub fn wait_for_high(&mut self, din: u32) -> (wait: Option<Park>)
        ensures
            *final(self) == *old(self),
            wait == Park::until_high(old(self).pin(), din),
    {
        self.pin.wait_for_high(din)
    }

    /// Wait until the pin is low. If it is already low in `din`, there is nothing to wait for.
    pub fn wait_for_low(&mut self, din: u32) -> (wait: Option<Park>)
        ensures
            *final(self) == *old(self),
            wait == Park::until_low(old(self).pin(), din),
    {
        self.pin.wait_for_low(din)
    }

    /// Wait for the pin to undergo a transition from low to high.
    pub fn wait_for_rising_edge(&mut self) -> (wait: Park)
        ensures
            *final(self) == *old(self),
            wait == Park::until_rise(old(self).pin()),
    {
        self.pin.wait_for_rising_edge()
    }

    /// Wait for the pin to undergo a transition from high to low.
    pub fn wait_for_falling_edge(&mut self) -> (wait: Park)
        ensures
            *final(self) == *old(self),
            wait == Park::until_fall(old(self).pin()),
    {
        self.pin.wait_for_falling_edge()
    }

    /// Wait for the pin to undergo any transition, i.e low to high OR high to low.
    pub fn wait_for_any_edge(&mut self) -> (wait: Park)
        ensures
            *final(self) == *old(self),
            wait == Park::until_change(old(self).pin()),
    {
        self.pin.wait_for_any_edge()
    }

    /// Wait for the pin to undergo a transition, choosing which one at run time.
    pub fn wait_for_edge(&mut self, edge: Edge) -> (wait: Park)
        ensures
            *final(self) == *old(self),
            wait == Park::for_pin(old(self).pin(), edge, None),
    {
        self.pin.wait_for_edge(edge)
    }
}

impl<M: Mode> OutputOpenDrain<M> {
    /// The pin behind this driver.
    pub closed spec fn pin(&self) -> AnyPin {
        self.pin.pin()
    }

    fn configure(pin: Flex<M>, initial_output: Level, bus: &mut Bus<Access>) -> (configured: Flex<M>)
        ensures
            configured == pin,
            final(bus)@ == old(bus)@.push(pin.pin().level_access(initial_output)) + pin.pin().open_drain_accesses(),
    {
        let mut pin = pin;
        pin.set_level(initial_output, bus);
        pin.set_as_input_output(bus);
        pin
    }

    /// Turn input hysteresis on or off. See [`Flex::set_hysteresis`].
    pub fn set_hysteresis(&mut self, enable: bool, bus: &mut Bus<Access>)
        requires
            old(self).pin().pad().hysteresis,
        ensures
            *final(self) == *old(self),
            final(bus)@ == old(bus)@.push(old(self).pin().hysteresis_access(enable)),
    {
        self.pin.set_hysteresis(enable, bus);
    }

    /// Get whether the pin input level is high, in a reading of `DIN31_0`.
    pub fn is_high(&self, din: u32) -> (high: bool)
        ensures
            high == bit_set(din, self.pin().bit_index()),
    {
        !self.pin.is_low(din)
    }

    /// Get whether the pin input level is low, in a reading of `DIN31_0`.
    pub fn is_low(&self, din: u32) -> (low: bool)
        ensures
            low == !bit_set(din, self.pin().bit_index()),
    {
        self.pin.is_low(din)
    }

    /// Get the current pin input level, in a reading of `DIN31_0`.
    pub fn get_level(&self, din: u32) -> (level: Level)
        ensures
            level == Level::of(bit_set(din, self.pin().bit_index())),
    {
        self.pin.get_level(din)
    }

    /// Set the output as high.
    pub fn set_high(&mut self, bus: &mut Bus<Access>)
        ensures
            *final(self) == *old(self),
            final(bus)@ == old(bus)@.push(old(self).pin().level_access(Level::High)),
    {
        self.pin.set_high(bus);
    }

    /// Set the output as low.
    pub fn set_low(&mut self, bus: &mut Bus<Access>)
        ensures
            *final(self) == *old(self),
            final(bus)@ == old(bus)@.push(old(self).pin().level_access(Level::Low)),
    {
        self.pin.set_low(bus);
    }

    /// Set the output level.
    pub fn set_level(&mut self, level: Level, bus: &mut Bus<Access>)
        ensures
            *final(self) == *old(self),
            final(bus)@ == old(bus)@.push(old(self).pin().level_access(level)),
    {
        self.pin.set_level(level, bus);
    }

    /// Is the output pin set as high, in a reading of `DOUT31_0`?
    pub fn is_set_high(&self, dout: u32) -> (high: bool)
        ensures
            high == bit_set(dout, self.pin().bit_index()),
    {
        self.pin.is_set_high(dout)
    }

    /// Is the output pin set as low, in a reading of `DOUT31_0`?
    pub fn is_set_low(&self, dout: u32) -> (low: bool)
        ensures
            low == !bit_set(dout, self.pin().bit_index()),
    {
        self.pin.is_set_low(dout)
    }

    /// What level output is set to, in a reading of `DOUT31_0`.
    pub fn get_output_level(&self, dout: u32) -> (level: Level)
        ensures
            level == Level::of(bit_set(dout, self.pin().bit_index())),
    {
        self.pin.get_output_level(dout)
    }

    /// Toggle pin output
    pub fn toggle(&mut self, bus: &mut Bus<Access>)
        ensures
            *final(self) == *old(self),
            final(bus)@ == old(bus)@.push(Access::DoutToggle(old(self).pin().block(), old(self).pin().bit_index())),
    {
        self.pin.toggle(bus);
    }

    /// Configure the logic inversion of this pin.
    ///
    /// One control serves both directions, so this inverts what the pin drives and what it reads back.
    pub fn set_inversion(&mut self, invert: bool, bus: &mut Bus<Access>)
        ensures
            *final(self) == *old(self),
            final(bus)@ == old(bus)@.push(old(self).pin().inversion_access(invert)),
    {
        self.pin.set_inversion(invert, bus);
    }

    /// Give the driver up: the pin returns to its floating state.
    pub fn release(self, bus: &mut Bus<Access>)
        ensures
            final(bus)@ == old(bus)@ + self.pin().disconnect_accesses(),
    {
        self.pin.release(bus);
    }
}

} // verus!
