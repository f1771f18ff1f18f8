//! The limit on body bytes that are buffered over all requests.

use vstd::prelude::*;

use crate::limits::MAX_BUFFERED_BODY;

verus! {

/// The body bytes that are buffered at the moment: request bodies until their
/// request ends, response bodies until they are delivered.
#[derive(Debug)]
pub struct BodyBudget {
    used: usize,
}

impl View for BodyBudget {
    type V = nat;

    closed spec fn view(&self) -> nat {
        self.used as nat
    }
}

impl BodyBudget {
    /// No more bytes are buffered than the limit allows.
    #[verifier::type_invariant]
    spec fn within_limit(self) -> bool {
        self.used <= MAX_BUFFERED_BODY
    }

    /// A budget with nothing buffered.
    pub fn new() -> (budget: Self)
        ensures
            budget@ == 0,
    {
        BodyBudget { used: 0 }
    }

    /// How many bytes are buffered.
    pub fn used(&self) -> (used: usize)
        ensures
            used == self@,
            used <= MAX_BUFFERED_BODY,
    {
        proof {
            use_type_invariant(self);
        }
        self.used
    }

    /// Sets `bytes` aside, unless fewer are left.
    pub fn try_reserve(&mut self, bytes: usize) -> (reserved: bool)
        ensures
            reserved <==> old(self)@ + bytes <= MAX_BUFFERED_BODY,
            reserved ==> final(self)@ == old(self)@ + bytes,
            !reserved ==> final(self)@ == old(self)@,
            final(self)@ <= MAX_BUFFERED_BODY,
    {
        proof {
            use_type_invariant(&*self);
        }
        if bytes > MAX_BUFFERED_BODY - self.used {
            return false;
        }
        self.used = self.used + bytes;
        true
    }

    /// Gives back `bytes` that were set aside.
    pub fn release(&mut self, bytes: usize)
        requires
            bytes <= old(self)@,
        ensures
            final(self)@ == old(self)@ - bytes,
    {
        proof {
            use_type_invariant(&*self);
        }
        self.used = self.used - bytes;
    }
}

} // verus!
