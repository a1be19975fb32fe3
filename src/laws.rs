use vstd::prelude::*;
use vstd::multiset::Multiset;
use crate::dispatcher::{on_delivery, on_submit, Dispatcher};
use crate::job::CallbackRef;
use crate::sandbox::{candidate_of, ends_with_separator, has_parent_component, resolved, within_root};
use crate::whitelist::permitted;

verus! {

broadcast use vstd::seq_lib::group_to_multiset_ensures;

/// The state after queueing callback-bound jobs with the callbacks `hs`, in order.
pub open spec fn submit_all(s: Dispatcher, hs: Seq<CallbackRef>) -> Dispatcher
    decreases hs.len(),
{
    if hs.len() == 0 {
        s
    } else {
        on_submit(submit_all(s, hs.drop_last()), hs.last())
    }
}

/// The state after delivering the completions of the callbacks `hs`, in order.
pub open spec fn deliver_all(s: Dispatcher, hs: Seq<CallbackRef>) -> Dispatcher
    decreases hs.len(),
{
    if hs.len() == 0 {
        s
    } else {
        on_delivery(deliver_all(s, hs.drop_last()), hs.last())
    }
}

/// Whether each delivery of `hs`, in turn, is of a callback still owed: the
/// condition under which the tick hook may deliver it.
pub open spec fn deliverable(s: Dispatcher, hs: Seq<CallbackRef>) -> bool
    decreases hs.len(),
{
    hs.len() == 0 || (deliverable(s, hs.drop_last()) && deliver_all(
        s,
        hs.drop_last(),
    ).outstanding@.count(hs.last()) > 0)
}

/// An identifier that ends in a separator, leaves the sandbox root, climbs to a
/// parent directory, or names a file type outside the whitelist resolves to no
/// path, and is therefore refused
/// by `async_write` and `async_append` with `FSASYNC_ERR_FILEOPEN`.
pub proof fn lemma_invalid_identifier_refused(name: Seq<char>)
    requires
        ends_with_separator(name) || !within_root(candidate_of(name)) || has_parent_component(
            candidate_of(name),
        ) || !permitted(candidate_of(name)),
    ensures
        resolved(name) is None,
{
}

/// In every consistent state the counter is zero exactly when no callback is
/// owed, and, while the completion bridge is open, the tick hook is subscribed
/// exactly while the counter is above zero.
pub proof fn lemma_counter_zero_iff_nothing_owed(s: Dispatcher)
    requires
        s.wf(),
    ensures
        s.pending == 0 <==> s.outstanding@ == Multiset::<CallbackRef>::empty(),
        !s.closed ==> (s.subscribed <==> s.pending > 0),
{
    if s.pending == 0 {
        assert(s.outstanding@ =~= Multiset::empty());
    }
}

/// Queueing a callback-bound job keeps the state consistent.
pub proof fn lemma_submit_keeps_wf(s: Dispatcher, h: CallbackRef)
    requires
        s.wf(),
        s.pending < usize::MAX,
    ensures
        on_submit(s, h).wf(),
        on_submit(s, h).subscribed,
{
}

/// Delivering the completion of an owed callback keeps the state consistent; the
/// counter never goes below zero, and the hook is left subscribed only while
/// callbacks remain owed.
pub proof fn lemma_delivery_keeps_wf(s: Dispatcher, h: CallbackRef)
    requires
        s.wf(),
        s.outstanding@.count(h) > 0,
    ensures
        on_delivery(s, h).wf(),
        s.pending >= 1,
        on_delivery(s, h).pending == s.pending - 1,
        on_delivery(s, h).subscribed ==> on_delivery(s, h).pending > 0,
{
}

proof fn lemma_submit_all(s: Dispatcher, hs: Seq<CallbackRef>)
    requires
        s.wf(),
        s.pending + hs.len() <= usize::MAX,
    ensures
        submit_all(s, hs).wf(),
        submit_all(s, hs).pending == s.pending + hs.len(),
        submit_all(s, hs).outstanding@ == s.outstanding@.add(hs.to_multiset()),
    decreases hs.len(),
{
    if hs.len() > 0 {
        lemma_submit_all(s, hs.drop_last());
        assert(hs.drop_last().push(hs.last()) =~= hs);
        assert(submit_all(s, hs).outstanding@ =~= s.outstanding@.add(hs.to_multiset()));
    } else {
        assert forall|x: CallbackRef| hs.to_multiset().count(x) == 0 by {
            assert(!hs.contains(x));
        }
        assert(s.outstanding@.add(hs.to_multiset()) =~= s.outstanding@);
    }
}

proof fn lemma_deliver_prefix(t: Dispatcher, owed: Multiset<CallbackRef>, p: Seq<CallbackRef>)
    requires
        t.wf(),
        t.outstanding@ == owed,
        forall|x: CallbackRef| p.to_multiset().count(x) <= owed.count(x),
    ensures
        deliverable(t, p),
        deliver_all(t, p).wf(),
        deliver_all(t, p).pending == t.pending - p.len(),
        forall|x: CallbackRef| #[trigger]
            deliver_all(t, p).outstanding@.count(x) == owed.count(x) - p.to_multiset().count(x),
    decreases p.len(),
{
    if p.len() > 0 {
        let q = p.drop_last();
        assert(q.push(p.last()) =~= p);
        assert forall|x: CallbackRef| q.to_multiset().count(x) <= owed.count(x) by {
            assert(p.to_multiset().count(x) >= q.to_multiset().count(x));
        }
        lemma_deliver_prefix(t, owed, q);
        let d = deliver_all(t, q);
        assert(d.outstanding@.count(p.last()) > 0);
        lemma_delivery_keeps_wf(d, p.last());
    }
}

/// Each callback of a batch of queued jobs with distinct callbacks is delivered
/// exactly once. Starting from a state with nothing owed, after queueing the
/// batch, the completions can be delivered in any order (every permutation of
/// the batch is deliverable, each step of a callback still owed); afterwards
/// the counter is zero, nothing is owed, the hook is unsubscribed, and no
/// further delivery of any callback is possible. `Dispatcher::submit` and
/// `Dispatcher::poll` change the state exactly as `on_submit` and `on_delivery`
/// do, so this holds of every run of those calls.
pub proof fn lemma_batch_delivered_once(
    s: Dispatcher,
    hs: Seq<CallbackRef>,
    order: Seq<CallbackRef>,
)
    requires
        s.wf(),
        s.pending == 0,
        hs.no_duplicates(),
        hs.len() <= usize::MAX,
        order.to_multiset() == hs.to_multiset(),
    ensures
        forall|i: int| 0 <= i < hs.len() ==> submit_all(s, hs).outstanding@.count(hs[i]) == 1,
        deliverable(submit_all(s, hs), order),
        deliver_all(submit_all(s, hs), order).pending == 0,
        deliver_all(submit_all(s, hs), order).outstanding@ == Multiset::<CallbackRef>::empty(),
        !deliver_all(submit_all(s, hs), order).subscribed,
        forall|h: CallbackRef| !deliverable(submit_all(s, hs), order.push(h)),
{
    lemma_submit_all(s, hs);
    let t = submit_all(s, hs);
    assert(s.outstanding@ =~= Multiset::empty());
    assert(t.outstanding@ =~= hs.to_multiset());
    hs.lemma_multiset_has_no_duplicates();
    assert forall|i: int| 0 <= i < hs.len() implies t.outstanding@.count(hs[i]) == 1 by {
        assert(hs.contains(hs[i]));
    }
    lemma_deliver_prefix(t, hs.to_multiset(), order);
    let e = deliver_all(t, order);
    assert(e.outstanding@ =~= Multiset::empty());
    assert forall|h: CallbackRef| !deliverable(t, order.push(h)) by {
        assert(order.push(h).drop_last() =~= order);
    }
}

} // verus!
