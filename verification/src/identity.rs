//! Handing out identities.

use vstd::prelude::*;

verus! {

/// The source of identities: it hands out 1, 2, 3, ... in that order, each
/// once, whatever becomes of the objects that got them.
pub struct IdentityCounter {
    next: u32,
}

impl View for IdentityCounter {
    type V = u32;

    /// The identity that is handed out next.
    closed spec fn view(&self) -> u32 {
        self.next
    }
}

impl IdentityCounter {
    /// 0 is never an identity: the counter starts at 1 and only grows.
    #[verifier::type_invariant]
    spec fn started(self) -> bool {
        self.next >= 1
    }

    /// A counter whose first identity is 1.
    pub fn new() -> (counter: IdentityCounter)
        ensures
            counter@ == 1,
    {
        IdentityCounter { next: 1 }
    }

    /// The identity that is handed out next.
    pub fn peek(&self) -> (id: u32)
        ensures
            id == self@,
            id >= 1,
    {
        proof {
            use_type_invariant(self);
        }
        self.next
    }

    /// Hands out the next identity and moves on to the one after it.
    pub fn issue(&mut self) -> (id: u32)
        requires
            old(self)@ < u32::MAX,
        ensures
            id == old(self)@,
            id >= 1,
            final(self)@ == id + 1,
    {
        proof {
            use_type_invariant(&*self);
        }
        let id: u32 = self.next;
        self.next = id + 1;
        id
    }
}

} // verus!
