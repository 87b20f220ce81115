//! Debug subsystem (DEBUGSS).
//!
//! Knowing whether a debug probe is attached, and a message channel to one.
//!
//! # Two different questions
//!
//! [`Debugss::debug_access_enabled`] is "now": `SPECIAL_AUTH.AHBAPEN` is a level. The latched flags are
//! "since", and they are edges: they report a probe arriving or leaving during the window, not one
//! attached throughout it.
//!
//! # The mailbox
//!
//! A 32-bit word each way between this CPU and an attached debug probe, one word deep in each direction.
//! The register names are the probe's: `TXD` is what the probe transmits, so the CPU reads it; `RXD` is
//! what the probe receives, so the CPU writes it. [`Debugss::try_receive`] reads and
//! [`Debugss::try_send`] writes, from the caller's point of view.
//!
//! Backpressure is visible in both directions and neither has a queue. Reading a word from the probe is
//! the only thing that clears it.

use crate::bus::Bus;
use vstd::prelude::*;

verus! {

/// What the debug subsystem last reported about a probe.
#[derive(Debug, Clone, Copy, PartialEq, Eq, Structural)]
pub enum ProbeEvent {
    /// A probe attached, and the debug subsystem powered up because of it.
    Attached,
    /// A probe disconnected, and the debug subsystem powered down.
    Detached,
}

/// The two probe flags of the interrupt registers.
#[derive(Debug, Clone, Copy, PartialEq, Eq, Structural)]
pub struct Flags {
    /// A probe attached.
    pub pwrupifg: bool,
    /// A probe detached.
    pub pwrdwnifg: bool,
}

/// Whether one direction of the mailbox holds a word that has not been read.
#[derive(Debug, Clone, Copy, PartialEq, Eq, Structural)]
pub enum Buffer {
    /// Nothing is waiting.
    Empty,
    /// A word is waiting.
    Full,
}

/// One access to the debug subsystem.
#[derive(Debug, Clone, Copy, PartialEq, Eq, Structural)]
pub enum Access {
    /// Write `IMASK`.
    Imask(Flags),
    /// Read-modify-write of `IMASK` that adds these flags.
    Unmask(Flags),
    /// Write `ICLR` with these flags.
    Iclr(Flags),
    /// Write `RXD`.
    Rxd(u32),
    /// Read-modify-write of `RXCTL.RECEIVE_FLAGS`.
    ReceiveFlags(u8),
    /// Wake the task that waits for the interrupt.
    Wake,
}

/// Interrupt handler.
pub struct InterruptHandler;

impl InterruptHandler {
    /// Mask rather than clear.
    ///
    /// The latched flag is both what wakes the waiter and what tells it which edge arrived, and the
    /// handler has no way to hand a value over. The waiting task is woken next.
    pub fn handle(bus: &mut Bus<Access>)
        ensures
            final(bus)@ == old(bus)@ + seq![
                Access::Imask(Flags { pwrupifg: false, pwrdwnifg: false }),
                Access::Wake,
            ],
    {
        bus.push(Access::Imask(Flags { pwrupifg: false, pwrdwnifg: false }));
        bus.push(Access::Wake);
    }
}

/// What a wait reports from the latched flags. Attach is reported first when both are pending: the flags
/// carry no sequence.
pub open spec fn reported(ris: Flags) -> Option<ProbeEvent> {
    if ris.pwrupifg {
        Some(ProbeEvent::Attached)
    } else if ris.pwrdwnifg {
        Some(ProbeEvent::Detached)
    } else {
        None
    }
}

/// The flag that stands for an event.
pub open spec fn flag_of(event: ProbeEvent) -> Flags {
    Flags { pwrupifg: event == ProbeEvent::Attached, pwrdwnifg: event == ProbeEvent::Detached }
}

/// The latched flags once those in `cleared` are cleared.
pub open spec fn after_clearing(ris: Flags, cleared: Flags) -> Flags {
    Flags { pwrupifg: ris.pwrupifg && !cleared.pwrupifg, pwrdwnifg: ris.pwrdwnifg && !cleared.pwrdwnifg }
}

/// What a wait that found this asks for.
pub open spec fn wait_access(event: Option<ProbeEvent>) -> Access {
    match event {
        Some(event) => Access::Iclr(flag_of(event)),
        None => Access::Unmask(Flags { pwrupifg: true, pwrdwnifg: true }),
    }
}

/// What giving the probe a word comes to.
pub open spec fn sending(word: u32, receive: Buffer) -> Result<(), u32> {
    if receive == Buffer::Full {
        Err(word)
    } else {
        Ok(())
    }
}

/// What giving the probe a word asks for.
pub open spec fn send_accesses(word: u32, receive: Buffer) -> Seq<Access> {
    if receive == Buffer::Full {
        Seq::empty()
    } else {
        seq![Access::Rxd(word)]
    }
}

/// The debug subsystem.
///
/// One driver for the whole peripheral, because its interrupt sources are bits of a single register set:
/// two drivers would each read-modify-write `IMASK`. There is nothing to power on or reset.
pub struct Debugss {
    _private: (),
}

impl Debugss {
    /// Claim the debug subsystem.
    ///
    /// The latched flags are left alone, so an attach that happened before this call is still reported.
    /// Call [`clear`](Self::clear) to start from a known state.
    pub fn new() -> Self {
        Debugss { _private: () }
    }

    /// Claim the debug subsystem with its interrupt bound, so a change can be awaited.
    pub fn new_async() -> Self {
        Debugss { _private: () }
    }

    /// Whether a probe has attached since [`clear`](Self::clear) was last called, in a reading of `RIS`.
    ///
    /// A probe that attached and detached again inside the window still reads true afterwards. One
    /// attached before the window and still attached after raises no edge and reads false.
    pub fn attached_since_cleared(&self, ris: Flags) -> (attached: bool)
        ensures
            attached == ris.pwrupifg,
    {
        ris.pwrupifg
    }

    /// Whether a probe has detached since [`clear`](Self::clear) was last called, in a reading of `RIS`.
    pub fn detached_since_cleared(&self, ris: Flags) -> (detached: bool)
        ensures
            detached == ris.pwrdwnifg,
    {
        ris.pwrdwnifg
    }

    /// Forget both, so the next reading describes a window starting now.
    pub fn clear(&mut self, bus: &mut Bus<Access>)
        ensures
            *final(self) == *old(self),
            final(bus)@ == old(bus)@.push(Access::Iclr(Flags { pwrupifg: true, pwrdwnifg: true })),
    {
        bus.push(Access::Iclr(Flags { pwrupifg: true, pwrdwnifg: true }));
    }

    /// Whether the core's debug access is enabled, in a reading of `SPECIAL_AUTH.AHBAPEN`.
    pub fn debug_access_enabled(&self, ahbapen: bool) -> (enabled: bool)
        ensures
            enabled == ahbapen,
    {
        ahbapen
    }

    /// Whether a probe arrived or left during the window, in a reading of `RIS`.
    ///
    /// Not "the window was clean": a probe attached for the whole window raises no edge.
    pub fn disturbed(&self, ris: Flags) -> (disturbed: bool)
        ensures
            disturbed == (ris.pwrupifg || ris.pwrdwnifg),
    {
        ris.pwrupifg || ris.pwrdwnifg
    }

    /// Poll for the next attach or detach, with the waker registered and then `RIS` read.
    ///
    /// Reports at once if one is already latched. Taking it clears that flag and leaves the other
    /// alone, so a probe that came and went is reported as two events by two calls. Otherwise the
    /// interrupt is armed and the wait goes on.
    pub fn wait_for_change(&mut self, ris: Flags, bus: &mut Bus<Access>) -> (event: Option<ProbeEvent>)
        ensures
            *final(self) == *old(self),
            event == reported(ris),
            final(bus)@ == old(bus)@.push(wait_access(event)),
    {
        if ris.pwrupifg {
            bus.push(Access::Iclr(Flags { pwrupifg: true, pwrdwnifg: false }));
            return Some(ProbeEvent::Attached);
        }
        if ris.pwrdwnifg {
            bus.push(Access::Iclr(Flags { pwrupifg: false, pwrdwnifg: true }));
            return Some(ProbeEvent::Detached);
        }
        // Armed only while something is waiting. The handler masks when it fires, so this is what
        // re-arms it.
        bus.push(Access::Unmask(Flags { pwrupifg: true, pwrdwnifg: true }));
        None
    }

    /// Take a word the probe has sent, if there is one.
    ///
    /// `transmit` is a reading of `TXCTL.TRANSMIT`, and `txd` reads `TXD`. The read is what clears the
    /// pending flag, so it is made exactly when a word is there.
    pub fn try_receive<F: FnOnce() -> u32>(&mut self, transmit: Buffer, txd: F) -> (word: Option<u32>)
        requires
            txd.requires(()),
        ensures
            *final(self) == *old(self),
            word is Some <==> transmit == Buffer::Full,
            word is Some ==> txd.ensures((), word->0),
    {
        if !matches!(transmit, Buffer::Full) {
            return None;
        }
        Some(txd())
    }

    /// The flags the probe set alongside its last word, in a reading of `TXCTL`: 31 bits, above the
    /// `TRANSMIT` bit.
    pub fn received_flags(&self, txctl: u32) -> (flags: u32)
        ensures
            flags == txctl / 2,
    {
        assert(txctl >> 1 == txctl / 2) by (bit_vector);
        txctl >> 1
    }

    /// Give the probe a word, if the last one has been collected.
    ///
    /// `receive` is a reading of `RXCTL.RECEIVE`. Returns the word back when the channel is still full:
    /// there is no queue, and overwriting would drop a word the probe has not seen.
    pub fn try_send(&mut self, word: u32, receive: Buffer, bus: &mut Bus<Access>) -> (sent: Result<(), u32>)
        ensures
            *final(self) == *old(self),
            sent == sending(word, receive),
            final(bus)@ == old(bus)@ + send_accesses(word, receive),
    {
        assert(bus@ + Seq::<Access>::empty() =~= bus@);
        if matches!(receive, Buffer::Full) {
            return Err(word);
        }
        bus.push(Access::Rxd(word));
        Ok(())
    }

    /// Whether a word given to the probe is still waiting to be collected, in a reading of
    /// `RXCTL.RECEIVE`.
    pub fn send_pending(&self, receive: Buffer) -> (pending: bool)
        ensures
            pending == (receive == Buffer::Full),
    {
        matches!(receive, Buffer::Full)
    }

    /// Set the flags the probe reads alongside the next word.
    ///
    /// Seven bits, against 31 in the other direction. Values above are a caller error rather than
    /// a truncation, because a flag silently dropped is indistinguishable from one never set.
    pub fn send_flags(&mut self, flags: u8, bus: &mut Bus<Access>)
        requires
            flags < 0x80,
        ensures
            *final(self) == *old(self),
            final(bus)@ == old(bus)@.push(Access::ReceiveFlags(flags)),
    {
        bus.push(Access::ReceiveFlags(flags));
    }
}

/// A probe that came and went between two waits is reported as two events, attach first: the first wait
/// takes one flag and leaves the other, and a third has nothing to report.
pub proof fn both_edges_are_two_events()
    ensures
        ({
            let both = Flags { pwrupifg: true, pwrdwnifg: true };
            let one = after_clearing(both, flag_of(reported(both)->0));
            let none = after_clearing(one, flag_of(reported(one)->0));

            &&& reported(both) == Some(ProbeEvent::Attached)
            &&& reported(one) == Some(ProbeEvent::Detached)
            &&& reported(none) is None
        }),
{
}

/// A wait reports an event exactly where the window was disturbed, and what it takes is a flag that was
/// raised.
pub proof fn every_event_is_reported(ris: Flags)
    ensures
        reported(ris) is Some <==> (ris.pwrupifg || ris.pwrdwnifg),
        reported(ris) is Some ==> {
            let rest = after_clearing(ris, flag_of(reported(ris)->0));

            &&& rest != ris
            &&& rest.pwrupifg ==> ris.pwrupifg
            &&& rest.pwrdwnifg ==> ris.pwrdwnifg
        },
{
}

/// Each event stands for its own flag, an attach before a detach, and clearing an event's flag leaves the other as it
/// was.
pub proof fn events_stand_for_their_flags(ris: Flags, event: ProbeEvent)
    ensures
        reported(ris) == Some(ProbeEvent::Attached) <==> ris.pwrupifg,
        reported(ris) == Some(ProbeEvent::Detached) <==> !ris.pwrupifg && ris.pwrdwnifg,
        flag_of(event).pwrupifg <==> event is Attached,
        flag_of(event).pwrdwnifg <==> event is Detached,
        event is Attached ==> !after_clearing(ris, flag_of(event)).pwrupifg && after_clearing(
            ris,
            flag_of(event),
        ).pwrdwnifg == ris.pwrdwnifg,
        event is Detached ==> !after_clearing(ris, flag_of(event)).pwrdwnifg && after_clearing(
            ris,
            flag_of(event),
        ).pwrupifg == ris.pwrupifg,
{
}

/// A word is written exactly where the last one has been collected, and handed back where it has not: none is ever
/// overwritten or lost.
pub proof fn words_are_sent_or_handed_back(word: u32, receive: Buffer)
    ensures
        sending(word, receive) is Ok <==> receive is Empty,
        sending(word, receive) matches Err(back) ==> back == word && send_accesses(word, receive).len() == 0,
        sending(word, receive) is Ok ==> send_accesses(word, receive) == seq![Access::Rxd(word)],
{
}

/// A wait that reports an event takes that event's flag and leaves the other; one that reports none arms both.
pub proof fn wait_takes_what_it_reports(event: Option<ProbeEvent>)
    ensures
        event == Some(ProbeEvent::Attached) ==> (wait_access(event) matches Access::Iclr(flags) && flags.pwrupifg
            && !flags.pwrdwnifg),
        event == Some(ProbeEvent::Detached) ==> (wait_access(event) matches Access::Iclr(flags) && !flags.pwrupifg
            && flags.pwrdwnifg),
        event is None ==> (wait_access(event) matches Access::Unmask(flags) && flags.pwrupifg && flags.pwrdwnifg),
{
}

} // verus!
