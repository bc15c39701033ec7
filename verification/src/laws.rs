//! The batcher's coalescing and rotation laws, stated over whole call
//! sequences and proved once and for all.

use vstd::prelude::*;

use crate::batcher::BatcherView;

verus! {

/// The state after a sequence of appends, applied in order; each item is a
/// value together with its optional callback.
pub open spec fn after_appends<T, C>(
    s: BatcherView<T, C>,
    items: Seq<(T, Option<C>)>,
) -> BatcherView<T, C>
    decreases items.len(),
{
    if items.len() == 0 {
        s
    } else {
        after_appends(s, items.drop_last()).after_append(items.last().0, items.last().1)
    }
}

/// The values of a sequence of appends, in submission order.
pub open spec fn values_of<T, C>(items: Seq<(T, Option<C>)>) -> Seq<T>
    decreases items.len(),
{
    if items.len() == 0 {
        Seq::empty()
    } else {
        values_of(items.drop_last()).push(items.last().0)
    }
}

/// The callbacks supplied by a sequence of appends, in registration order.
pub open spec fn callbacks_of<T, C>(items: Seq<(T, Option<C>)>) -> Seq<C>
    decreases items.len(),
{
    if items.len() == 0 {
        Seq::empty()
    } else {
        match items.last().1 {
            Some(c) => callbacks_of(items.drop_last()).push(c),
            None => callbacks_of(items.drop_last()),
        }
    }
}

/// Immediate launch: an append on an idle, well-formed batcher flips it to
/// running, and the supplied callback — if any — becomes the sole callback of
/// the batch now in flight (the launched batch itself is the singleton of the
/// appended value, as `Batcher::append` and `Batcher::appendcb` ensure).
pub proof fn lemma_immediate_launch<T, C>(s0: BatcherView<T, C>, value: T, callback: Option<C>)
    requires
        s0.wf(),
        !s0.running,
    ensures
        ({
            let s1 = s0.after_append(value, callback);
            &&& s1.wf()
            &&& s1.running
            &&& match callback {
                Some(c) => s1.callbacks == Seq::empty().push(c),
                None => s1.callbacks == Seq::<C>::empty(),
            }
        }),
{
    assert(s0.callbacks =~= Seq::<C>::empty());
}

/// Coalescing: all values appended while a batch is in flight land in the one
/// follow-up batch, in submission order, alongside their callbacks in
/// registration order; the in-flight batch's own callbacks are untouched. The
/// completion that follows launches exactly that follow-up batch (nonempty
/// case), rotates the queued callbacks in for it, and leaves both pending
/// buffers drained.
pub proof fn lemma_coalescing<T, C>(s0: BatcherView<T, C>, items: Seq<(T, Option<C>)>)
    requires
        s0.wf(),
        s0.running,
        s0.pending_batch.len() == 0,
    ensures
        ({
            let s1 = after_appends(s0, items);
            &&& s1.wf()
            &&& s1.running
            &&& s1.pending_batch == values_of(items)
            &&& s1.pending_batch.len() == items.len()
            &&& s1.pending_callbacks == callbacks_of(items)
            &&& s1.callbacks == s0.callbacks
            &&& items.len() == 0 ==> s1.done_settles()
            &&& items.len() > 0 ==> {
                &&& !s1.done_settles()
                &&& s1.after_done().running
                &&& s1.after_done().pending_batch.len() == 0
                &&& s1.after_done().callbacks == callbacks_of(items)
            }
        }),
    decreases items.len(),
{
    if items.len() == 0 {
        assert(s0.pending_batch =~= values_of::<T, C>(items));
        assert(s0.pending_callbacks =~= callbacks_of::<T, C>(items));
    } else {
        lemma_coalescing(s0, items.drop_last());
    }
}

/// Callback rotation: a callback attached to the append that launched a batch
/// stays that batch's sole callback through any number of queued appends — so
/// the matching `done` hands back exactly that callback to notify — while the
/// queued appends' callbacks are rotated in for the follow-up batch and are
/// notified only by the following `done`.
pub proof fn lemma_callback_rotation<T, C>(
    s0: BatcherView<T, C>,
    value: T,
    callback: C,
    items: Seq<(T, Option<C>)>,
)
    requires
        s0.wf(),
        !s0.running,
    ensures
        ({
            let s1 = s0.after_append(value, Some(callback));
            let s2 = after_appends(s1, items);
            &&& s1.callbacks == Seq::empty().push(callback)
            &&& s2.callbacks == Seq::empty().push(callback)
            &&& s2.after_done().callbacks == callbacks_of(items)
        }),
{
    let s1 = s0.after_append(value, Some(callback));
    lemma_coalescing(s1, items);
}

/// Idle settling: when `done` finds nothing queued, the batcher goes idle
/// (no further launch), is well formed again, and the very next append
/// launches immediately.
pub proof fn lemma_idle_settles<T, C>(s: BatcherView<T, C>, value: T, callback: Option<C>)
    requires
        s.wf(),
        s.running,
        s.done_settles(),
    ensures
        !s.after_done().running,
        s.after_done().wf(),
        s.after_done().after_append(value, callback).running,
{
}

/// Chaining: with appends arriving during two successive long runs, each
/// `done` launches the follow-up batch at once — the batcher never passes
/// through idle — and each launched batch holds exactly the values appended
/// after the previous launch, nothing older.
pub proof fn lemma_chaining<T, C>(
    s0: BatcherView<T, C>,
    first: Seq<(T, Option<C>)>,
    second: Seq<(T, Option<C>)>,
)
    requires
        s0.wf(),
        s0.running,
        s0.pending_batch.len() == 0,
        first.len() > 0,
        second.len() > 0,
    ensures
        ({
            let s1 = after_appends(s0, first);
            let s2 = after_appends(s1.after_done(), second);
            &&& !s1.done_settles()
            &&& s1.pending_batch == values_of(first)
            &&& s1.after_done().running
            &&& !s2.done_settles()
            &&& s2.pending_batch == values_of(second)
            &&& s2.after_done().running
        }),
{
    lemma_coalescing(s0, first);
    let s1 = after_appends(s0, first);
    lemma_coalescing(s1.after_done(), second);
}

} // verus!
