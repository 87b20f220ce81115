//! The register accesses a driver asks for, in order.

use vstd::prelude::*;

verus! {

/// The accesses driver methods have asked for, oldest first.
///
/// `A` is the access type of one peripheral. Nothing here reaches hardware: whoever owns the
/// peripheral performs the accesses, in this order and without leaving one out.
pub struct Bus<A> {
    log: Vec<A>,
}

impl<A> View for Bus<A> {
    type V = Seq<A>;

    closed spec fn view(&self) -> Seq<A> {
        self.log@
    }
}

impl<A> Bus<A> {
    /// A bus on which nothing has been asked for.
    pub fn new() -> (bus: Self)
        ensures
            bus@ == Seq::<A>::empty(),
    {
        Bus { log: Vec::new() }
    }

    /// Ask for one more access.
    pub fn push(&mut self, access: A)
        ensures
            final(self)@ == old(self)@.push(access),
    {
        self.log.push(access);
    }

    /// Everything asked for so far.
    pub fn accesses(&self) -> (accesses: &[A])
        ensures
            accesses@ == self@,
    {
        self.log.as_slice()
    }

    /// Take everything asked for so far, leaving the bus empty.
    pub fn take(&mut self) -> (accesses: Vec<A>)
        ensures
            accesses@ == old(self)@,
            final(self)@ == Seq::<A>::empty(),
    {
        let mut taken: Vec<A> = Vec::new();
        std::mem::swap(&mut taken, &mut self.log);
        taken
    }
}

} // verus!
