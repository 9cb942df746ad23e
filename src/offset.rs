use vstd::prelude::*;

verus! {

/// The offset that follows an update id: one more, held at the largest `u64`.
pub open spec fn next_after(id: u64) -> nat {
    if id < u64::MAX {
        (id + 1) as nat
    } else {
        u64::MAX as nat
    }
}

/// The offset after advancing from `start` past each id of `ids` in turn.
pub open spec fn batch_offset(start: nat, ids: Seq<u64>) -> nat
    decreases ids.len(),
{
    if ids.len() == 0 {
        start
    } else {
        let before = batch_offset(start, ids.drop_last());
        let n = next_after(ids.last());
        if n > before {
            n
        } else {
            before
        }
    }
}

/// The offset after one poll tick: a failed tick (`None`) leaves it where it was.
pub open spec fn tick_offset(start: nat, batch: Option<Seq<u64>>) -> nat {
    match batch {
        Some(ids) => batch_offset(start, ids),
        None => start,
    }
}

/// Batch boundaries do not matter: two batches in turn leave the offset where their
/// concatenation does.
pub proof fn lemma_batches_compose(start: nat, a: Seq<u64>, b: Seq<u64>)
    ensures
        batch_offset(batch_offset(start, a), b) == batch_offset(start, a + b),
    decreases b.len(),
{
    if b.len() > 0 {
        lemma_batches_compose(start, a, b.drop_last());
        assert((a + b).drop_last() =~= a + b.drop_last());
    }
}

/// The offset is the largest of the start and each id plus one, so it does not depend on
/// the order in which the ids came.
pub proof fn lemma_offset_is_max(start: nat, ids: Seq<u64>)
    requires
        forall|i: int| 0 <= i < ids.len() ==> #[trigger] ids[i] < u64::MAX,
    ensures
        batch_offset(start, ids) >= start,
        forall|i: int| 0 <= i < ids.len() ==> batch_offset(start, ids) >= #[trigger] ids[i] + 1,
        batch_offset(start, ids) == start || exists|i: int|
            0 <= i < ids.len() && batch_offset(start, ids) == #[trigger] ids[i] + 1,
    decreases ids.len(),
{
    if ids.len() > 0 {
        let init = ids.drop_last();
        lemma_offset_is_max(start, init);
        assert forall|i: int| 0 <= i < ids.len() implies batch_offset(start, ids) >= #[trigger] ids[i]
            + 1 by {
            if i < ids.len() - 1 {
                assert(init[i] == ids[i]);
            }
        }
        if batch_offset(start, ids) != start {
            if batch_offset(start, ids) == batch_offset(start, init) {
                let j = choose|j: int|
                    0 <= j < init.len() && batch_offset(start, init) == #[trigger] init[j] + 1;
                assert(ids[j] == init[j]);
            } else {
                assert(batch_offset(start, ids) == ids[ids.len() - 1] + 1);
            }
        }
    }
}

/// A failed tick does not hold back the next one: a success after a failure advances the
/// offset from where it stood before the failure.
pub proof fn lemma_failed_tick_resumes(start: nat, ids: Seq<u64>)
    ensures
        tick_offset(tick_offset(start, None), Some(ids)) == batch_offset(start, ids),
{
}

/// The lower bound for the next poll: one past the highest update id seen.
pub struct OffsetTracker {
    next: u64,
}

impl OffsetTracker {
    pub closed spec fn value(&self) -> nat {
        self.next as nat
    }

    pub fn new(start: u64) -> (r: OffsetTracker)
        ensures
            r.value() == start,
    {
        OffsetTracker { next: start }
    }

    pub fn read(&self) -> (r: u64)
        ensures
            r == self.value(),
    {
        self.next
    }

    /// Moves the offset up to `new_min_next`; it never moves down.
    pub fn advance(&mut self, new_min_next: u64)
        ensures
            final(self).value() == if new_min_next > old(self).value() {
                new_min_next as nat
            } else {
                old(self).value()
            },
    {
        if new_min_next > self.next {
            self.next = new_min_next;
        }
    }

    /// Advances past the update `id`.
    pub fn advance_past(&mut self, id: u64)
        ensures
            final(self).value() == if next_after(id) > old(self).value() {
                next_after(id)
            } else {
                old(self).value()
            },
    {
        let n = if id < u64::MAX {
            id + 1
        } else {
            u64::MAX
        };
        self.advance(n);
    }
}

} // verus!
