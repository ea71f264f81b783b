use vstd::prelude::*;

verus! {

/// Hands out accessory identifiers: `1`, `2`, `3`, ... in order.
///
/// The counter wraps around after `u64::MAX`, like an atomic `fetch_add`.
pub struct IdCounter {
    next: u64,
}

impl View for IdCounter {
    type V = u64;

    /// The identifier that the next call of `next_id` hands out.
    closed spec fn view(&self) -> u64 {
        self.next
    }
}

/// The successor of an identifier, wrapping around at `u64::MAX`.
pub open spec fn id_successor(id: u64) -> u64 {
    if id == u64::MAX {
        0
    } else {
        (id + 1) as u64
    }
}

impl IdCounter {
    /// A fresh counter; its first identifier is `1`.
    pub fn new() -> (counter: IdCounter)
        ensures
            counter@ == 1,
    {
        IdCounter { next: 1 }
    }
}

/// Returns the next identifier and advances the counter.
pub fn next_id(counter: &mut IdCounter) -> (id: u64)
    ensures
        id == old(counter)@,
        final(counter)@ == id_successor(id),
{
    let id = counter.next;
    if counter.next == u64::MAX {
        counter.next = 0;
    } else {
        counter.next = counter.next + 1;
    }
    id
}

/// The identifier that the `k`-th call of `next_id` hands out (counting
/// from `0`) on a counter whose next identifier is `start`.
pub open spec fn id_after(start: u64, k: nat) -> u64
    decreases k,
{
    if k == 0 {
        start
    } else {
        id_successor(id_after(start, (k - 1) as nat))
    }
}

/// A fresh counter hands out `1, 2, ..., n` over its first `n` calls (as
/// long as `n < u64::MAX`): the `k`-th call gives `k + 1`, so the identifiers
/// are pairwise distinct and together are exactly `1..=n`.
pub proof fn lemma_fresh_counter_run(n: nat)
    requires
        n < u64::MAX,
    ensures
        forall|k: nat| k < n ==> #[trigger] id_after(1, k) == k + 1,
        forall|j: nat, k: nat| j < k < n ==> #[trigger] id_after(1, j) != #[trigger] id_after(1, k),
        Seq::new(n, |k: int| id_after(1, k as nat) as int) == Seq::new(n, |k: int| k + 1),
    decreases n,
{
    if n > 0 {
        lemma_fresh_counter_run((n - 1) as nat);
        if n >= 2 {
            assert(id_after(1, (n - 2) as nat) == n - 1);
        }
        assert(id_after(1, (n - 1) as nat) == n);
    }
    assert(Seq::new(n, |k: int| id_after(1, k as nat) as int) =~= Seq::new(n, |k: int| k + 1));
}

/// A run of calls follows `id_after`: if each call on a counter hands out
/// what it held and advances it (the contract of `next_id`), the `k`-th
/// identifier handed out is `id_after(start, k)`.
pub proof fn lemma_counter_run(start: u64, held: Seq<u64>)
    requires
        held.len() >= 1,
        held[0] == start,
        forall|k: int| 0 <= k < held.len() - 1 ==> #[trigger] held[k + 1] == id_successor(held[k]),
    ensures
        forall|k: int| 0 <= k < held.len() ==> #[trigger] held[k] == id_after(start, k as nat),
    decreases held.len(),
{
    if held.len() > 1 {
        let prev = held.drop_last();
        assert forall|k: int| 0 <= k < prev.len() - 1 implies #[trigger] prev[k + 1] == id_successor(prev[k]) by {
            assert(held[k + 1] == id_successor(held[k]));
        }
        lemma_counter_run(start, prev);
        assert forall|k: int| 0 <= k < held.len() implies #[trigger] held[k] == id_after(start, k as nat) by {
            if k < prev.len() {
                assert(prev[k] == id_after(start, k as nat));
            } else {
                assert(prev[k - 1] == id_after(start, (k - 1) as nat));
                assert(held[(k - 1) + 1] == id_successor(held[k - 1]));
            }
        }
    }
}

} // verus!
