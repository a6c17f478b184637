use vstd::prelude::*;

verus! {

/// The error of [`Allocator::reserve`]: every identifier has been issued.
#[derive(Clone, Copy, Debug, PartialEq, Eq, Structural)]
pub struct Overflow;

/// Hands out identifiers 0, 1, 2, ... one at a time, never the same twice.
///
/// The counter holds the next identifier to issue. The largest `u32` is
/// never issued: once the counter reaches it, `reserve` fails.
pub struct Allocator {
    next_id: u32,
}

impl View for Allocator {
    type V = nat;

    /// The next identifier to issue.
    closed spec fn view(&self) -> nat {
        self.next_id as nat
    }
}

impl Allocator {
    /// A fresh allocator, whose first identifier is 0.
    pub fn new() -> (a: Allocator)
        ensures
            a@ == 0,
    {
        Allocator { next_id: 0 }
    }

    /// An allocator whose next identifier is `next_id`.
    pub fn starting_at(next_id: u32) -> (a: Allocator)
        ensures
            a@ == next_id,
    {
        Allocator { next_id }
    }

    /// The next identifier to issue, without issuing it.
    pub fn peek(&self) -> (r: u32)
        ensures
            r == self@,
    {
        self.next_id
    }

    /// The counter always fits in a `u32`.
    pub proof fn lemma_fits(&self)
        ensures
            self@ <= u32::MAX,
    {
    }

    /// Issues the next identifier and advances the counter by one; fails,
    /// leaving the counter as it was, when the counter is at `u32::MAX`.
    pub fn reserve(&mut self) -> (r: Result<u32, Overflow>)
        ensures
            old(self)@ == u32::MAX ==> r == Err::<u32, Overflow>(Overflow) && final(self)@ == old(self)@,
            old(self)@ < u32::MAX ==> r == Ok::<u32, Overflow>(old(self)@ as u32) && final(self)@ == old(self)@ + 1,
    {
        match self.next_id.checked_add(1) {
            None => Err(Overflow),
            Some(next) => {
                let id = self.next_id;
                self.next_id = next;
                Ok(id)
            },
        }
    }
}

} // verus!
