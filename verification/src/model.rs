use vstd::prelude::*;

verus! {

/// The observable state of one worker: its ordinal identity and whether the
/// pool still owns its thread of execution (true until the thread is joined).
#[verifier::ext_equal]
pub ghost struct WorkerView {
    pub id: int,
    pub running: bool,
}

/// The observable state of a pool: whether it still accepts submissions, the
/// state of each worker in ordinal order, and the ordinals whose thread
/// handles have been handed to a join closure, in the order that happened,
/// over the pool's whole life.
#[verifier::ext_equal]
pub ghost struct PoolView {
    pub accepting: bool,
    pub workers: Seq<WorkerView>,
    pub joined: Seq<int>,
}

/// Worker `i` carries ordinal identity `i`.
pub open spec fn ids_in_order(ws: Seq<WorkerView>) -> bool {
    forall|i: int| 0 <= i < ws.len() ==> (#[trigger] ws[i]).id == i
}

/// How many workers still own a thread.
pub open spec fn running_count(ws: Seq<WorkerView>) -> int
    decreases ws.len(),
{
    if ws.len() == 0 {
        0
    } else {
        running_count(ws.drop_last()) + if ws.last().running {
            1int
        } else {
            0int
        }
    }
}

/// The identities of the workers that still own a thread, in the order the
/// workers stand — the order a teardown joins them in.
pub open spec fn running_ordinals(ws: Seq<WorkerView>) -> Seq<int>
    decreases ws.len(),
{
    if ws.len() == 0 {
        Seq::empty()
    } else if ws.last().running {
        running_ordinals(ws.drop_last()).push(ws.last().id)
    } else {
        running_ordinals(ws.drop_last())
    }
}

/// Every worker runs.
pub open spec fn all_running(ws: Seq<WorkerView>) -> bool {
    forall|i: int| 0 <= i < ws.len() ==> (#[trigger] ws[i]).running
}

/// No worker owns a thread any more: each has been joined.
pub open spec fn all_stopped(ws: Seq<WorkerView>) -> bool {
    forall|i: int| 0 <= i < ws.len() ==> !(#[trigger] ws[i]).running
}

/// A freshly constructed pool of the given size: it accepts submissions, its
/// workers carry the ordinals 0..size and all run, and it has joined nothing.
pub open spec fn fresh_pool(v: PoolView, size: int) -> bool {
    &&& v.accepting
    &&& v.joined == Seq::<int>::empty()
    &&& v.workers.len() == size
    &&& ids_in_order(v.workers)
    &&& all_running(v.workers)
}

/// A pool past teardown: submission is closed and every worker is joined.
pub open spec fn torn_down(v: PoolView) -> bool {
    &&& !v.accepting
    &&& all_stopped(v.workers)
}

/// What one teardown does to a pool: it relinquishes the sending handle, it
/// keeps every worker under its identity but takes its thread, and it joins
/// exactly the workers whose thread was still owned on entry, once each, in
/// the order they stand.
pub open spec fn teardown_relates(pre: PoolView, post: PoolView) -> bool {
    &&& !post.accepting
    &&& post.workers.len() == pre.workers.len()
    &&& forall|i: int|
        0 <= i < pre.workers.len() ==> (#[trigger] post.workers[i]).id == pre.workers[i].id
    &&& all_stopped(post.workers)
    &&& post.joined == pre.joined + running_ordinals(pre.workers)
}

pub proof fn lemma_running_count_all_stopped(ws: Seq<WorkerView>)
    requires
        all_stopped(ws),
    ensures
        running_count(ws) == 0,
    decreases ws.len(),
{
    if ws.len() > 0 {
        assert(all_stopped(ws.drop_last()));
        lemma_running_count_all_stopped(ws.drop_last());
    }
}

/// The running count never exceeds the worker count and is never negative.
pub proof fn lemma_running_count_bounds(ws: Seq<WorkerView>)
    ensures
        0 <= running_count(ws) <= ws.len(),
    decreases ws.len(),
{
    if ws.len() > 0 {
        lemma_running_count_bounds(ws.drop_last());
    }
}

pub proof fn lemma_running_ordinals_all_stopped(ws: Seq<WorkerView>)
    requires
        all_stopped(ws),
    ensures
        running_ordinals(ws) == Seq::<int>::empty(),
    decreases ws.len(),
{
    if ws.len() > 0 {
        assert(all_stopped(ws.drop_last()));
        lemma_running_ordinals_all_stopped(ws.drop_last());
    }
}

/// In a pool whose workers carry the ordinals 0..len and all run, the
/// ordinals still to be joined are exactly 0..len, in ascending order.
pub proof fn lemma_running_ordinals_fresh(ws: Seq<WorkerView>)
    requires
        ids_in_order(ws),
        all_running(ws),
    ensures
        running_ordinals(ws) == Seq::new(ws.len(), |i: int| i),
    decreases ws.len(),
{
    if ws.len() == 0 {
        assert(running_ordinals(ws) =~= Seq::new(0, |i: int| i));
    } else {
        let prefix = ws.drop_last();
        assert(ids_in_order(prefix));
        assert(all_running(prefix));
        lemma_running_ordinals_fresh(prefix);
        assert(ws.last().id == ws.len() - 1);
        assert(running_ordinals(ws) =~= Seq::new(ws.len(), |i: int| i));
    }
}

/// Law: tearing down a freshly constructed pool of size `size` joins each of
/// its workers exactly once — the joined ordinals are exactly 0..size, in
/// ascending (ordinal) order — and leaves the pool torn down.
pub proof fn lemma_teardown_joins_each_worker_once(pre: PoolView, post: PoolView, size: int)
    requires
        fresh_pool(pre, size),
        teardown_relates(pre, post),
    ensures
        post.joined == Seq::new(size as nat, |i: int| i),
        torn_down(post),
        ids_in_order(post.workers),
{
    lemma_running_ordinals_fresh(pre.workers);
    assert(pre.joined + running_ordinals(pre.workers) =~= Seq::new(size as nat, |i: int| i));
    assert forall|i: int| 0 <= i < post.workers.len() implies (#[trigger] post.workers[i]).id
        == i by {
        assert(pre.workers[i].id == i);
    }
}

/// Law: once a teardown has taken place, the pool no longer accepts
/// submissions — no new job can enter the queue through it.
pub proof fn lemma_no_submission_after_teardown(pre: PoolView, post: PoolView)
    requires
        teardown_relates(pre, post),
    ensures
        !post.accepting,
{
}

/// Law: a teardown of a pool that is already torn down changes nothing — it
/// joins no worker again and leaves every worker exactly as it was.
pub proof fn lemma_teardown_idempotent(pre: PoolView, post: PoolView)
    requires
        torn_down(pre),
        teardown_relates(pre, post),
    ensures
        post == pre,
{
    lemma_running_ordinals_all_stopped(pre.workers);
    assert(pre.joined + running_ordinals(pre.workers) =~= pre.joined);
    assert forall|i: int| 0 <= i < post.workers.len() implies post.workers[i]
        == pre.workers[i] by {
        assert(post.workers[i].id == pre.workers[i].id);
        assert(!post.workers[i].running && !pre.workers[i].running);
        assert(post.workers[i] =~= pre.workers[i]);
    }
    assert(post.workers =~= pre.workers);
    assert(post =~= pre);
}

} // verus!
