use std::collections::HashMap;
use vstd::prelude::*;

use crate::allocator::Allocator;
use crate::fingerprint::{dna_of, kitty_dna, AccountId};

verus! {

broadcast use vstd::std_specs::hash::group_hash_axioms;

/// A kitty: its 16-byte DNA, fixed when it is created.
#[derive(Clone, Copy, Debug)]
pub struct Kitty {
    pub dna: [u8; 16],
}

impl View for Kitty {
    type V = Seq<u8>;

    open spec fn view(&self) -> Seq<u8> {
        self.dna@
    }
}

impl PartialEq for Kitty {
    fn eq(&self, other: &Kitty) -> (r: bool) {
        let mut i: usize = 0;
        while i < 16
            invariant
                i <= 16,
                forall|j: int| 0 <= j < i ==> self.dna@[j] == other.dna@[j],
            decreases 16 - i,
        {
            if self.dna[i] != other.dna[i] {
                return false;
            }
            i = i + 1;
        }
        assert(self.dna@ =~= other.dna@);
        true
    }
}

impl vstd::std_specs::cmp::PartialEqSpecImpl for Kitty {
    open spec fn obeys_eq_spec() -> bool {
        true
    }

    open spec fn eq_spec(&self, other: &Kitty) -> bool {
        self.dna@ == other.dna@
    }
}

impl Eq for Kitty {
}

/// What the registry reports to its observers.
#[derive(Clone, Copy, Debug)]
pub enum Event {
    /// A kitty was created: its identifier and its owner.
    KittyCreated(u32, AccountId),
}

impl PartialEq for Event {
    fn eq(&self, other: &Event) -> (r: bool) {
        match (self, other) {
            (Event::KittyCreated(id1, who1), Event::KittyCreated(id2, who2)) => {
                *id1 == *id2 && who1.eq(who2)
            },
        }
    }
}

impl vstd::std_specs::cmp::PartialEqSpecImpl for Event {
    open spec fn obeys_eq_spec() -> bool {
        true
    }

    open spec fn eq_spec(&self, other: &Event) -> bool {
        *self == *other
    }
}

impl Eq for Event {
}

/// Why a creation failed.
#[derive(Clone, Copy, Debug, PartialEq, Eq, Structural)]
pub enum Error {
    /// Every identifier has been issued.
    CapacityExceeded,
}

/// The kitty registry: the identifier counter, the kitties indexed by
/// owner and identifier, and the events deposited so far.
pub struct Pallet {
    next_kitty: Allocator,
    kitties: HashMap<u32, (AccountId, Kitty)>,
    events: Vec<Event>,
}

/// What a call `create(who)` on `pre` that returned `r` and left `post`
/// must satisfy.
///
/// When the counter is at `u32::MAX` the call fails and changes nothing.
/// Otherwise it returns the counter's value `id`, advances the counter by
/// one, stores under `(who, id)` a kitty whose DNA is `dna_of(id, who)`,
/// and deposits `KittyCreated(id, who)`.
pub open spec fn create_outcome(pre: Pallet, who: AccountId, r: Result<u32, Error>, post: Pallet) -> bool {
    if pre.next_id() == u32::MAX {
        &&& r == Err::<u32, Error>(Error::CapacityExceeded)
        &&& post.next_id() == pre.next_id()
        &&& post.index() == pre.index()
        &&& post.deposited() == pre.deposited()
    } else {
        let id = pre.next_id() as u32;
        &&& r == Ok::<u32, Error>(id)
        &&& post.next_id() == pre.next_id() + 1
        &&& !pre.index().contains_key((who, id))
        &&& post.index() == pre.index().insert((who, id), dna_of(id, who))
        &&& post.deposited() == pre.deposited().push(Event::KittyCreated(id, who))
    }
}

impl Pallet {
    /// The next identifier that `create` will issue.
    pub closed spec fn next_id(&self) -> nat {
        self.next_kitty@
    }

    /// The ownership index: the DNA of each kitty, keyed by owner and
    /// identifier.
    pub closed spec fn index(&self) -> Map<(AccountId, u32), Seq<u8>> {
        Map::new(
            |k: (AccountId, u32)| self.kitties@.contains_key(k.1) && self.kitties@[k.1].0 == k.0,
            |k: (AccountId, u32)| self.kitties@[k.1].1@,
        )
    }

    /// The events deposited so far, oldest first.
    pub closed spec fn deposited(&self) -> Seq<Event> {
        self.events@
    }

    /// Every stored kitty has an identifier that was issued before.
    pub closed spec fn wf(&self) -> bool {
        forall|id: u32| #[trigger] self.kitties@.contains_key(id) ==> id < self.next_kitty@
    }

    /// The counter always fits in a `u32`.
    pub proof fn lemma_next_id_fits(&self)
        ensures
            self.next_id() <= u32::MAX,
    {
        self.next_kitty.lemma_fits();
    }

    /// No identifier is held by two owners.
    pub proof fn lemma_one_owner_per_id(&self, owner1: AccountId, owner2: AccountId, id: u32)
        requires
            self.index().contains_key((owner1, id)),
            self.index().contains_key((owner2, id)),
        ensures
            owner1 == owner2,
    {
    }

    /// Every kitty in the index has an identifier that was already issued.
    pub proof fn lemma_stored_ids_were_issued(&self, owner: AccountId, id: u32)
        requires
            self.wf(),
            self.index().contains_key((owner, id)),
        ensures
            id < self.next_id(),
    {
    }

    /// An empty registry whose first identifier is 0.
    pub fn new() -> (p: Pallet)
        ensures
            p.wf(),
            p.next_id() == 0,
            p.index() == Map::<(AccountId, u32), Seq<u8>>::empty(),
            p.deposited() == Seq::<Event>::empty(),
    {
        Pallet::starting_at(0)
    }

    /// An empty registry whose first identifier is `next_id`.
    pub fn starting_at(next_id: u32) -> (p: Pallet)
        ensures
            p.wf(),
            p.next_id() == next_id,
            p.index() == Map::<(AccountId, u32), Seq<u8>>::empty(),
            p.deposited() == Seq::<Event>::empty(),
    {
        let p = Pallet {
            next_kitty: Allocator::starting_at(next_id),
            kitties: HashMap::new(),
            events: Vec::new(),
        };
        assert(p.index() =~= Map::<(AccountId, u32), Seq<u8>>::empty());
        p
    }

    /// The next identifier that `create` will issue.
    pub fn next_kitty(&self) -> (r: u32)
        ensures
            r == self.next_id(),
    {
        self.next_kitty.peek()
    }

    /// The kitty that `owner` holds under identifier `id`, if any.
    pub fn get_kitties(&self, owner: &AccountId, id: u32) -> (r: Option<Kitty>)
        ensures
            r is Some <==> self.index().contains_key((*owner, id)),
            r matches Some(k) ==> k@ == self.index()[(*owner, id)],
    {
        match self.kitties.get(&id) {
            Some(entry) => {
                if entry.0 == *owner {
                    Some(entry.1)
                } else {
                    None
                }
            },
            None => None,
        }
    }

    /// The events deposited so far, oldest first.
    pub fn events(&self) -> (r: &[Event])
        ensures
            r@ == self.deposited(),
    {
        self.events.as_slice()
    }

    /// Creates a kitty owned by `who` and returns its identifier.
    ///
    /// The kitty takes the next identifier; its DNA is the BLAKE2b-128
    /// digest of the encoded identifier followed by the owner's bytes, so it
    /// depends on nothing else: no random seed enters it. The kitty is stored under `(who, id)` and
    /// `KittyCreated(id, who)` is deposited. When every identifier has been
    /// issued, the call fails with `CapacityExceeded` and changes nothing.
    pub fn create(&mut self, who: AccountId) -> (r: Result<u32, Error>)
        requires
            old(self).wf(),
        ensures
            final(self).wf(),
            create_outcome(*old(self), who, r, *final(self)),
    {
        proof {
            self.next_kitty.lemma_fits();
        }
        let id = match self.next_kitty.reserve() {
            Err(_) => {
                return Err(Error::CapacityExceeded);
            },
            Ok(id) => id,
        };
        let ghost pre = *old(self);
        assert(!pre.kitties@.contains_key(id));
        let kitty = Kitty { dna: kitty_dna(id, &who) };
        self.kitties.insert(id, (who, kitty));
        self.events.push(Event::KittyCreated(id, who));
        assert(self.index() =~= pre.index().insert((who, id), dna_of(id, who)));
        Ok(id)
    }
}

} // verus!
