use vstd::prelude::*;

use crate::fingerprint::{blake2_128_of, dna_of, dna_preimage, lemma_dna_preimages_differ, AccountId};
use crate::registry::{create_outcome, Error, Pallet};

verus! {

/// `states` records a run of `create` calls: the call `create(owners[i])`
/// on `states[i]` returned `results[i]` and left `states[i + 1]`.
pub open spec fn is_create_run(
    states: Seq<Pallet>,
    owners: Seq<AccountId>,
    results: Seq<Result<u32, Error>>,
) -> bool {
    &&& states.len() == results.len() + 1
    &&& owners.len() == results.len()
    &&& forall|i: int|
        0 <= i < results.len() ==> create_outcome(states[i], owners[i], #[trigger] results[i], states[i + 1])
}

/// Along a run the counter never goes down, it rises by one at each
/// success, and each success returns the counter's value before the call.
proof fn lemma_run_counter(
    states: Seq<Pallet>,
    owners: Seq<AccountId>,
    results: Seq<Result<u32, Error>>,
    k: int,
)
    requires
        is_create_run(states, owners, results),
        0 <= k <= results.len(),
    ensures
        states[k].next_id() >= states[0].next_id(),
        (forall|i: int| 0 <= i < k ==> #[trigger] results[i] is Ok) ==> states[k].next_id()
            == states[0].next_id() + k,
    decreases k,
{
    if k > 0 {
        lemma_run_counter(states, owners, results, k - 1);
        assert(create_outcome(states[k - 1], owners[k - 1], results[k - 1], states[k]));
        if forall|i: int| 0 <= i < k ==> #[trigger] results[i] is Ok {
            assert(results[k - 1] is Ok);
        }
    }
}

/// Starting from a fresh counter, `n` successful creations in a row return
/// `0, 1, ..., n - 1` in that order, so no two of them return the same
/// identifier.
pub proof fn lemma_ids_are_contiguous(
    states: Seq<Pallet>,
    owners: Seq<AccountId>,
    results: Seq<Result<u32, Error>>,
)
    requires
        is_create_run(states, owners, results),
        states[0].next_id() == 0,
        forall|i: int| 0 <= i < results.len() ==> #[trigger] results[i] is Ok,
    ensures
        forall|i: int| 0 <= i < results.len() ==> #[trigger] results[i] == Ok::<u32, Error>(i as u32),
        forall|i: int, j: int| 0 <= i < j < results.len() ==> results[i] != results[j],
{
    assert forall|i: int| 0 <= i < results.len() implies #[trigger] results[i] == Ok::<u32, Error>(i as u32) by {
        lemma_run_counter(states, owners, results, i);
        assert(create_outcome(states[i], owners[i], results[i], states[i + 1]));
        states[i].lemma_next_id_fits();
    }
    lemma_run_counter(states, owners, results, results.len() as int);
    states[results.len() as int].lemma_next_id_fits();
    assert forall|i: int, j: int| 0 <= i < j < results.len() implies results[i] != results[j] by {
        assert(results[i] == Ok::<u32, Error>(i as u32));
        assert(results[j] == Ok::<u32, Error>(j as u32));
    }
}

/// Once a call has returned identifier `k`, the counter stands at `k + 1`,
/// and no later call, whatever its owner and whether or not earlier ones
/// failed, returns `k` or any identifier below it.
pub proof fn lemma_no_reissue(
    pre: Pallet,
    who: AccountId,
    k: u32,
    states: Seq<Pallet>,
    owners: Seq<AccountId>,
    results: Seq<Result<u32, Error>>,
)
    requires
        create_outcome(pre, who, Ok::<u32, Error>(k), states[0]),
        is_create_run(states, owners, results),
    ensures
        states[0].next_id() == k + 1,
        forall|i: int| 0 <= i < results.len() ==> (#[trigger] results[i] matches Ok(j) ==> j > k),
{
    pre.lemma_next_id_fits();
    assert forall|i: int| 0 <= i < results.len() implies (#[trigger] results[i] matches Ok(j) ==> j > k) by {
        lemma_run_counter(states, owners, results, i);
        assert(create_outcome(states[i], owners[i], results[i], states[i + 1]));
        states[i].lemma_next_id_fits();
    }
}

/// After `create(who)` returns `Ok(id)`, the ownership index holds under
/// `(who, id)` exactly the DNA computed from `id` and `who`.
pub proof fn lemma_created_kitty_is_stored(pre: Pallet, who: AccountId, id: u32, post: Pallet)
    requires
        create_outcome(pre, who, Ok::<u32, Error>(id), post),
    ensures
        post.index().contains_key((who, id)),
        post.index()[(who, id)] == dna_of(id, who),
{
    pre.lemma_next_id_fits();
}

/// Two successful creations that return different identifiers, with the
/// same owner or not, store DNA hashed from different bytes.
pub proof fn lemma_created_dna_inputs_differ(
    pre1: Pallet,
    who1: AccountId,
    id1: u32,
    post1: Pallet,
    pre2: Pallet,
    who2: AccountId,
    id2: u32,
    post2: Pallet,
)
    requires
        create_outcome(pre1, who1, Ok::<u32, Error>(id1), post1),
        create_outcome(pre2, who2, Ok::<u32, Error>(id2), post2),
        id1 != id2,
    ensures
        post1.index()[(who1, id1)] == blake2_128_of(dna_preimage(id1, who1)),
        post2.index()[(who2, id2)] == blake2_128_of(dna_preimage(id2, who2)),
        dna_preimage(id1, who1) != dna_preimage(id2, who2),
{
    lemma_created_kitty_is_stored(pre1, who1, id1, post1);
    lemma_created_kitty_is_stored(pre2, who2, id2, post2);
    lemma_dna_preimages_differ(id1, who1, id2, who2);
}

/// A failed creation leaves the counter, the ownership index and the
/// events as they were, and it fails exactly when the counter is at its
/// largest value.
pub proof fn lemma_failure_changes_nothing(pre: Pallet, who: AccountId, r: Result<u32, Error>, post: Pallet)
    requires
        create_outcome(pre, who, r, post),
    ensures
        r is Err <==> pre.next_id() == u32::MAX,
        r is Err ==> r == Err::<u32, Error>(Error::CapacityExceeded) && post.next_id() == pre.next_id()
            && post.index() == pre.index() && post.deposited() == pre.deposited(),
{
}

} // verus!
