//! Executor platform that idles into a sleep rather than spinning.
//!
//! The decisions behind the two executors: what pending a task does, what the idle does, and when an
//! interrupt executor may be started or asked for a spawner.

use crate::bits::{bit_set, lemma_one_bit};
use vstd::prelude::*;

verus! {

/// The context that names the thread-mode executor. No interrupt has this number.
pub const THREAD_PENDER: usize = usize::MAX;

/// Which executors a build has.
#[derive(Debug, Clone, Copy, PartialEq, Eq, Structural)]
pub struct Executors {
    /// The thread-mode executor.
    pub thread: bool,
    /// The interrupt-mode executor.
    pub interrupt: bool,
}

/// What pending a task does.
#[derive(Debug, Clone, Copy, PartialEq, Eq, Structural)]
pub enum Pend {
    /// Raise the flag that the thread-mode executor tests before it sleeps.
    SignalThread,
    /// Write this mask to the interrupt set-pending register.
    SetPending(u32),
    /// Nothing: the build has no executor to pend.
    Nothing,
}

/// What pending the executor that `context` names does.
pub open spec fn pended(context: usize, executors: Executors) -> Pend {
    if executors.thread && (!executors.interrupt || context == THREAD_PENDER) {
        Pend::SignalThread
    } else if executors.interrupt {
        Pend::SetPending(1u32 << ((context % 32) as u32))
    } else {
        Pend::Nothing
    }
}

/// Pend the executor that `context` names: [`THREAD_PENDER`], or an interrupt number.
///
/// The core implements 32 interrupts, so the set-pending register is a single word.
pub fn pender(context: usize, executors: Executors) -> (pend: Pend)
    ensures
        pend == pended(context, executors),
{
    if executors.thread && (!executors.interrupt || context == THREAD_PENDER) {
        return Pend::SignalThread;
    }
    if executors.interrupt {
        assert(context & 31 == context % 32) by (bit_vector);
        return Pend::SetPending(1u32 << ((context & 31) as u32));
    }
    Pend::Nothing
}

/// Pending an interrupt number pends that line and no other.
pub proof fn line_is_pended_alone(line: u8, other: u8)
    requires
        line < 32,
        other < 32,
    ensures
        bit_set(1u32 << line, other) <==> line == other,
{
    lemma_one_bit(line, other);
}

/// What the thread-mode executor does after a poll, inside the critical section.
#[derive(Debug, Clone, Copy, PartialEq, Eq, Structural)]
pub enum Idle {
    /// Poll again: work was signalled.
    Poll,
    /// Enter the deepest sleep the wake guards allow.
    DeepSleep,
    /// A plain `WFI`, with the prefetcher suspended across it.
    Wfi,
}

/// What to do after a poll, given whether work was signalled.
pub open spec fn idled(signalled: bool, low_power: bool) -> Idle {
    if signalled {
        Idle::Poll
    } else if low_power {
        Idle::DeepSleep
    } else {
        Idle::Wfi
    }
}

/// Thread-mode executor that sleeps on idle.
///
/// The sleep is entered with interrupts masked, so a task woken between the poll and the sleep would
/// otherwise be missed. The pender instead sets a flag that the executor tests inside the same critical
/// section.
pub struct Executor {
    signalled: bool,
}

impl Executor {
    /// Whether work has been signalled since the last idle.
    pub closed spec fn signalled(&self) -> bool {
        self.signalled
    }

    /// Create a new Executor.
    pub fn new() -> (executor: Self)
        ensures
            !executor.signalled(),
    {
        Executor { signalled: false }
    }

    /// Signal that there is work.
    pub fn signal(&mut self)
        ensures
            final(self).signalled(),
    {
        self.signalled = true;
    }

    /// What to do after a poll. Takes the signal, if there is one, so a signal raised before this is
    /// never slept through.
    pub fn idle(&mut self, low_power: bool) -> (idle: Idle)
        ensures
            !final(self).signalled(),
            idle == idled(old(self).signalled(), low_power),
    {
        if self.signalled {
            self.signalled = false;
            Idle::Poll
        } else if low_power {
            Idle::DeepSleep
        } else {
            Idle::Wfi
        }
    }
}

impl Default for Executor {
    fn default() -> (executor: Self)
        ensures
            !executor.signalled(),
    {
        Self::new()
    }
}

/// Interrupt-mode executor: whether it has been started, and on which interrupt.
pub struct InterruptExecutor {
    irq: Option<u16>,
}

impl InterruptExecutor {
    /// The interrupt the executor was started on, if it was.
    pub closed spec fn irq(&self) -> Option<u16> {
        self.irq
    }

    /// Create a new, not started `InterruptExecutor`.
    pub fn new() -> (executor: Self)
        ensures
            executor.irq() is None,
    {
        InterruptExecutor { irq: None }
    }

    /// Start the executor on interrupt `irq`, and return the context its tasks pend it by.
    ///
    /// An executor is started once.
    pub fn start(&mut self, irq: u16) -> (context: usize)
        requires
            old(self).irq() is None,
        ensures
            final(self).irq() == Some(irq),
            context == irq,
    {
        self.irq = Some(irq);
        irq as usize
    }

    /// Whether the executor has been started: until then it may not be polled from its interrupt, nor be
    /// asked for a spawner.
    pub fn is_started(&self) -> (started: bool)
        ensures
            started == self.irq() is Some,
    {
        self.irq.is_some()
    }

    /// The context that tasks spawned on this executor pend it by. The executor has to be started.
    pub fn spawner(&self) -> (context: usize)
        requires
            self.irq() is Some,
        ensures
            context == self.irq()->0,
    {
        self.irq.unwrap() as usize
    }
}

impl Default for InterruptExecutor {
    fn default() -> (executor: Self)
        ensures
            executor.irq() is None,
    {
        Self::new()
    }
}

/// No interrupt is mistaken for the thread-mode executor: an executor started on one is pended through
/// the set-pending register.
pub proof fn no_interrupt_is_the_thread_context(irq: u16)
    ensures
        irq != THREAD_PENDER,
{
    assert(usize::MAX >= 0xffff_ffff) by {
        assert(usize::BITS == 32 || usize::BITS == 64);
    }
}

/// An interrupt's context pends its own line and no other, wherever the build has an interrupt executor; the thread
/// context signals the thread executor; with one executor alone every context is its; and without any nothing is
/// pended.
pub proof fn contexts_pend_their_own_executor(irq: u16, line: u8, context: usize, executors: Executors)
    requires
        irq < 32,
        line < 32,
    ensures
        executors.interrupt ==> (pended(irq as usize, executors) matches Pend::SetPending(mask) && (bit_set(mask, line)
            <==> line == irq)),
        executors.thread ==> pended(THREAD_PENDER, executors) is SignalThread,
        executors.thread && !executors.interrupt ==> pended(context, executors) is SignalThread,
        !executors.thread && !executors.interrupt <==> pended(context, executors) is Nothing,
{
    no_interrupt_is_the_thread_context(irq);
    lemma_one_bit(irq as u8, line);
    assert(1u32 << (irq as u8) == 1u32 << (irq as u32));
}

/// Work that was signalled is polled for before any sleep, and the sleep is deep exactly where that is wanted.
pub proof fn signalled_work_is_not_slept_through(signalled: bool, low_power: bool)
    ensures
        idled(signalled, low_power) is Poll <==> signalled,
        idled(signalled, low_power) is DeepSleep <==> !signalled && low_power,
        idled(signalled, low_power) is Wfi <==> !signalled && !low_power,
{
}

} // verus!
