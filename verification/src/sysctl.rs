//! What the drivers need to know of the clock tree and of sleep.

use vstd::prelude::*;

verus! {

/// Rates of the clock tree, in hertz. Zero means the clock is off.
#[derive(Clone, Copy, PartialEq, Eq, Debug, Structural)]
pub struct Clocks {
    /// CPU clock.
    pub mclk: u32,
    /// Clock of the low-power bus.
    pub ulpclk: u32,
    /// Middle-frequency clock.
    pub mfclk: u32,
    /// Low-frequency clock.
    pub lfclk: u32,
    /// System oscillator.
    pub sysosc: u32,
    /// High-frequency clock.
    pub hfclk: u32,
}

impl Clocks {
    /// The tree a device comes out of reset with.
    pub open spec fn reset_spec() -> Clocks {
        Clocks {
            mclk: 32_000_000,
            ulpclk: 32_000_000,
            mfclk: 0,
            lfclk: 32_768,
            sysosc: 32_000_000,
            hfclk: 0,
        }
    }

    /// The tree a device comes out of reset with.
    #[verifier::when_used_as_spec(reset_spec)]
    pub fn reset() -> (value: Clocks)
        ensures
            value == Clocks::reset(),
    {
        Clocks {
            mclk: 32_000_000,
            ulpclk: 32_000_000,
            mfclk: 0,
            lfclk: 32_768,
            sysosc: 32_000_000,
            hfclk: 0,
        }
    }
}

/// How deep the device sleeps, shallowest first.
#[derive(Clone, Copy, PartialEq, Eq, Debug, Structural)]
pub enum SleepLevel {
    /// STOP0.
    Stop0,
    /// STOP1.
    Stop1,
    /// STOP2.
    Stop2,
    /// STANDBY0.
    Standby0,
    /// STANDBY1.
    Standby1,
}

impl SleepLevel {
    /// Position in the order from shallow to deep.
    pub open spec fn depth_spec(self) -> int {
        match self {
            SleepLevel::Stop0 => 0,
            SleepLevel::Stop1 => 1,
            SleepLevel::Stop2 => 2,
            SleepLevel::Standby0 => 3,
            SleepLevel::Standby1 => 4,
        }
    }

    /// Position in the order from shallow to deep.
    pub fn depth(self) -> (depth: u8)
        ensures
            depth == self.depth_spec(),
    {
        match self {
            SleepLevel::Stop0 => 0,
            SleepLevel::Stop1 => 1,
            SleepLevel::Stop2 => 2,
            SleepLevel::Standby0 => 3,
            SleepLevel::Standby1 => 4,
        }
    }

    /// Whether a floor keeps the device out of `level`: it blocks its own level and all deeper ones.
    pub open spec fn blocks(floor: Option<SleepLevel>, level: SleepLevel) -> bool {
        match floor {
            Some(floor) => floor.depth_spec() <= level.depth_spec(),
            None => false,
        }
    }

    /// The one floor that blocks whatever either of two floors blocks.
    pub open spec fn stricter_spec(a: Option<SleepLevel>, b: Option<SleepLevel>) -> Option<SleepLevel> {
        match (a, b) {
            (Some(x), Some(y)) => if y.depth_spec() < x.depth_spec() { Some(y) } else { Some(x) },
            (Some(x), None) => Some(x),
            (None, y) => y,
        }
    }

    /// The one floor that blocks whatever either of two floors blocks.
    pub fn stricter(a: Option<SleepLevel>, b: Option<SleepLevel>) -> (floor: Option<SleepLevel>)
        ensures
            floor == Self::stricter_spec(a, b),
    {
        match (a, b) {
            (Some(x), Some(y)) => if y.depth() < x.depth() {
                Some(y)
            } else {
                Some(x)
            },
            (Some(x), None) => Some(x),
            (None, y) => y,
        }
    }
}

/// The stricter of two floors blocks exactly the levels that one of them blocks.
pub proof fn stricter_blocks_either(a: Option<SleepLevel>, b: Option<SleepLevel>, level: SleepLevel)
    ensures
        SleepLevel::blocks(SleepLevel::stricter_spec(a, b), level) <==> (SleepLevel::blocks(a, level)
            || SleepLevel::blocks(b, level)),
{
}

/// Each level is deeper than the one named before it, and a floor blocks its own level and every deeper one.
pub proof fn levels_get_deeper(floor: SleepLevel, level: SleepLevel)
    ensures
        SleepLevel::Stop0.depth_spec() < SleepLevel::Stop1.depth_spec(),
        SleepLevel::Stop1.depth_spec() < SleepLevel::Stop2.depth_spec(),
        SleepLevel::Stop2.depth_spec() < SleepLevel::Standby0.depth_spec(),
        SleepLevel::Standby0.depth_spec() < SleepLevel::Standby1.depth_spec(),
        SleepLevel::blocks(Some(floor), level) <==> floor.depth_spec() <= level.depth_spec(),
        SleepLevel::blocks(Some(floor), floor),
        !SleepLevel::blocks(None, level),
{
}

/// The stricter of two floors is one of them, and there is none only where there were none.
pub proof fn stricter_is_one_of_the_two(a: Option<SleepLevel>, b: Option<SleepLevel>)
    ensures
        SleepLevel::stricter_spec(a, b) == a || SleepLevel::stricter_spec(a, b) == b,
        SleepLevel::stricter_spec(a, b) is None <==> a is None && b is None,
{
}

/// Out of reset the CPU and its bus run from SYSOSC, and neither MFCLK nor HFCLK is on.
pub proof fn reset_tree_runs_from_sysosc()
    ensures
        Clocks::reset().mclk == Clocks::reset().sysosc,
        Clocks::reset().ulpclk == Clocks::reset().sysosc,
        Clocks::reset().sysosc == 32_000_000,
        Clocks::reset().lfclk == 32_768,
        Clocks::reset().mfclk == 0 && Clocks::reset().hfclk == 0,
{
}

} // verus!
