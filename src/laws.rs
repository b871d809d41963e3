use vstd::prelude::*;
use crate::inbox::{record_spec, take_spec};
use crate::relay::{DropEvent, relay_spec};

verus! {

/// The inbox contents after applying `ops` to contents `held`, where
/// `Some(batch)` stands for `record(batch)` and `None` for `take()`.
pub open spec fn run_from(held: Seq<String>, ops: Seq<Option<Seq<String>>>) -> Seq<String>
    decreases ops.len(),
{
    if ops.len() == 0 {
        held
    } else {
        let prev = run_from(held, ops.drop_last());
        match ops.last() {
            Some(batch) => record_spec(prev, batch),
            None => take_spec(prev).1,
        }
    }
}

/// The batch of the most recent `record` since the last `take`, or nothing
/// when no `record` came after it. Since every `record` replaces, that
/// `record` is the last operation, if there is one.
pub open spec fn latest_batch(ops: Seq<Option<Seq<String>>>) -> Seq<String> {
    if ops.len() > 0 && ops.last() is Some {
        ops.last()->Some_0
    } else {
        Seq::empty()
    }
}

/// Starting from an empty inbox, after any mix of `record` and `take` calls a
/// `take` returns exactly the batch of the latest `record` since the previous
/// `take`, and nothing when there was none.
pub proof fn lemma_take_returns_latest_batch(ops: Seq<Option<Seq<String>>>)
    ensures
        take_spec(run_from(Seq::empty(), ops)).0 == latest_batch(ops),
{
    if ops.len() > 0 {
        assert(ops.drop_last().len() < ops.len());
    }
}

/// After `record(batch)`, a first `take` returns `batch` and a second one,
/// with no `record` between them, returns nothing.
pub proof fn lemma_take_twice(held: Seq<String>, batch: Seq<String>)
    ensures
        take_spec(record_spec(held, batch)).0 == batch,
        take_spec(take_spec(record_spec(held, batch)).1).0 == Seq::<String>::empty(),
{
}

/// A second `record` before any `take` overwrites the first batch: the next
/// `take` returns the second batch only.
pub proof fn lemma_record_overwrites(held: Seq<String>, first: Seq<String>, second: Seq<String>)
    ensures
        take_spec(record_spec(record_spec(held, first), second)).0 == second,
{
}

/// Hover and cancel events leave the inbox contents as they were, whatever
/// they were.
pub proof fn lemma_hover_and_cancel_keep_inbox(held: Seq<String>, e: DropEvent)
    requires
        e is Hovered || e is Cancelled,
    ensures
        relay_spec(held, e).0 == held,
{
}

} // verus!
