//! A bounded-concurrency task pool over `futures::stream::FuturesUnordered`.
//!
//! A pool owns a FIFO queue of not-yet-started tasks and an in-flight set of
//! at most `pool_size` tasks, the latter backed by the unordered completion
//! multiplexer `FuturesUnordered`. The pool only decides when tasks enter and
//! leave the multiplexer: admission ("fill") and the two handoff steps that a
//! batch drain and a streaming pull are built from. Everything that must
//! await — driving a batch to completion, pulling the next finished task —
//! lives with the caller, who gets the multiplexer handed out by value.

use vstd::multiset::Multiset;
use vstd::prelude::*;

mod active_set;

use active_set::ActiveSet;

verus! {

broadcast use vstd::multiset::group_multiset_axioms, vstd::multiset::lemma_multiset_empty_len, vstd::seq_lib::group_to_multiset_ensures;

/// A bounded-concurrency task pool: a FIFO queue of pending tasks plus an
/// in-flight set of at most `pool_size` tasks.
#[verifier::reject_recursive_types(T)]
pub struct VectorFuturePool<T> {
    /// Tasks not yet admitted, front first; admission takes from the front.
    pub elements: Vec<T>,
    /// The greatest number of tasks in flight at once. With `pool_size == 0`
    /// nothing is ever admitted: a degenerate but well-defined configuration.
    pub pool_size: usize,
    future_pool: ActiveSet<T>,
}

impl<T> VectorFuturePool<T> {
    /// The queue of tasks not yet admitted, front first.
    pub closed spec fn pending(&self) -> Seq<T> {
        self.elements@
    }

    /// The concurrency bound, as a mathematical integer.
    pub closed spec fn capacity(&self) -> nat {
        self.pool_size as nat
    }

    /// The multiset of tasks in flight. Their completion order is the
    /// multiplexer's business; only membership and count are modelled.
    pub closed spec fn active(&self) -> Multiset<T> {
        self.future_pool.tasks()
    }

    /// The multiplexer value that carries the in-flight set. It lets the
    /// handoff contracts say that `take_batch` returns the very multiplexer
    /// the pool held — the one the in-flight tasks live in — and that
    /// `restore_batch` installs or returns the one it was handed.
    pub closed spec fn mux_val(&self) -> futures::stream::FuturesUnordered<T> {
        self.future_pool.raw()
    }

    /// The pool's invariant: the in-flight set never exceeds the capacity.
    pub open spec fn wf(&self) -> bool {
        self.active().len() <= self.capacity()
    }

    /// How many in-flight slots are free.
    pub open spec fn room(&self) -> nat {
        if self.active().len() <= self.capacity() {
            (self.capacity() - self.active().len()) as nat
        } else {
            0
        }
    }

    /// How many tasks one fill admits from this state: pending tasks move
    /// into the free slots until either runs out.
    pub open spec fn fill_count(&self) -> nat {
        if self.pending().len() <= self.room() {
            self.pending().len()
        } else {
            self.room()
        }
    }

    /// Makes a pool that holds `elements` as its pending queue, with nothing
    /// in flight yet and `pool_size` as the concurrency bound.
    pub fn new(elements: Vec<T>, pool_size: usize) -> (pool: Self)
        ensures
            pool.pending() == elements@,
            pool.capacity() == pool_size,
            pool.active() == Multiset::<T>::empty(),
            pool.wf(),
    {
        VectorFuturePool { elements, pool_size, future_pool: ActiveSet::empty() }
    }

    /// Whether the pending queue is empty. This reports the queue alone:
    /// tasks may still be in flight. See `fully_drained` for both at once.
    pub fn is_empty(&self) -> (r: bool)
        ensures
            r == (self.pending().len() == 0),
    {
        self.elements.is_empty()
    }

    /// Admission ("fill"): moves tasks one at a time from the front of the
    /// pending queue into the in-flight set, until the set holds `pool_size`
    /// tasks or the queue runs out. Tasks are registered with the
    /// multiplexer, never polled, so this never blocks. There is no input
    /// constraint: with no free slot (in particular with a capacity of zero,
    /// or in an over-full state reached by writing the public fields by
    /// hand) nothing moves.
    ///
    /// The contract pins the step down exactly: the first `fill_count()`
    /// pending tasks, in order, move into the in-flight set; nothing else
    /// changes, no task is lost or duplicated, and the capacity bound is
    /// kept wherever it held. The last two clauses spell out the two shapes
    /// a fill from an idle pool takes: few enough pending tasks all go in
    /// flight, and more than the capacity fills the set exactly and leaves
    /// the rest untouched at the front of the queue.
    pub fn fill_pool(&mut self)
        ensures
            old(self).wf() ==> final(self).wf(),
            final(self).capacity() == old(self).capacity(),
            final(self).pending() == old(self).pending().skip(old(self).fill_count() as int),
            final(self).active() == old(self).active().add(
                old(self).pending().take(old(self).fill_count() as int).to_multiset(),
            ),
            final(self).active().len() == old(self).active().len() + old(self).fill_count(),
            old(self).wf() ==> final(self).pending().len() == 0 || final(self).active().len()
                == old(self).capacity(),
            final(self).pending().to_multiset().add(final(self).active()) == old(
                self,
            ).pending().to_multiset().add(old(self).active()),
            old(self).active().len() == 0 && old(self).pending().len() <= old(self).capacity()
                ==> final(self).pending().len() == 0 && final(self).active() == old(
                self,
            ).pending().to_multiset(),
            old(self).active().len() == 0 && old(self).pending().len() >= old(self).capacity()
                ==> final(self).active().len() == old(self).capacity() && final(self).pending()
                == old(self).pending().skip(old(self).capacity() as int),
    {
        let ghost pend0 = self.pending();
        let ghost act0 = self.active();
        let ghost cap = self.capacity();
        let ghost ps: usize = self.pool_size;
        let ghost mut moved: int = 0;
        proof {
            assert(pend0.take(0) =~= Seq::<T>::empty());
            assert(act0.add(pend0.take(0).to_multiset()) =~= act0);
        }
        while self.future_pool.task_count() < self.pool_size && self.elements.len() != 0
            invariant
                self.pool_size == ps,
                ps as nat == cap,
                0 <= moved <= pend0.len(),
                self.pending() == pend0.skip(moved),
                self.active() == act0.add(pend0.take(moved).to_multiset()),
                self.active().len() == act0.len() + moved,
                act0.len() <= cap ==> self.active().len() <= cap,
                act0.len() > cap ==> moved == 0,
            decreases self.elements.len(),
        {
            let task = self.elements.remove(0);
            proof {
                assert(task == pend0[moved]);
                assert(self.pending() =~= pend0.skip(moved + 1));
                assert(pend0.take(moved + 1) =~= pend0.take(moved).push(pend0[moved]));
            }
            self.future_pool.enroll(task);
            proof {
                assert(self.active() =~= act0.add(pend0.take(moved + 1).to_multiset()));
                moved = moved + 1;
            }
        }
        proof {
            assert(moved == old(self).fill_count()) by {
                if act0.len() > cap {
                    assert(moved == 0);
                } else if self.pending().len() == 0 {
                    assert(moved == pend0.len());
                } else {
                    assert(self.active().len() == cap);
                }
            }
            assert(pend0.take(moved) + pend0.skip(moved) =~= pend0);
            vstd::seq_lib::lemma_multiset_commutative(pend0.take(moved), pend0.skip(moved));
            assert(self.pending().to_multiset().add(self.active()) =~= pend0.to_multiset().add(
                act0,
            ));
            if act0.len() == 0 && pend0.len() <= cap {
                assert(pend0.take(moved) =~= pend0);
                assert(self.active() =~= pend0.to_multiset());
            }
        }
    }

    /// Batch handoff: hands the whole in-flight set out, as the very
    /// multiplexer that holds it (`old(self).active().len()` tasks, still
    /// registered and unpolled or part-run), and leaves the pool with
    /// nothing in flight. The caller is expected to drive the returned
    /// multiplexer to completion; the pending queue is untouched, so nothing
    /// can join a batch once it is taken.
    pub fn take_batch(&mut self) -> (batch: futures::stream::FuturesUnordered<T>)
        ensures
            batch == old(self).mux_val(),
            final(self).pending() == old(self).pending(),
            final(self).capacity() == old(self).capacity(),
            final(self).active() == Multiset::<T>::empty(),
            final(self).wf(),
    {
        self.future_pool.take_all()
    }

    /// Puts a multiplexer obtained from `take_batch`, and possibly partly
    /// drained since, back as the pool's in-flight set, for a caller that
    /// pulls completions one at a time rather than draining whole batches.
    /// Which tasks the multiplexer still holds is unknown to the pool, so
    /// only their number is tracked; a multiplexer larger than the capacity
    /// is refused and handed back unchanged, keeping the capacity bound.
    ///
    /// The in-flight set must be empty first: restoring over a non-empty set
    /// would abandon its tasks mid-flight.
    pub fn restore_batch(&mut self, batch: futures::stream::FuturesUnordered<T>) -> (r: Result<
        usize,
        futures::stream::FuturesUnordered<T>,
    >)
        requires
            old(self).active().len() == 0,
        ensures
            final(self).pending() == old(self).pending(),
            final(self).capacity() == old(self).capacity(),
            final(self).wf(),
            match r {
                Ok(n) => final(self).active().len() == n && n <= final(self).capacity()
                    && final(self).mux_val() == batch,
                Err(b) => final(self).active().len() == 0 && b == batch,
            },
    {
        let n = self.future_pool.reinstate(batch);
        if n <= self.pool_size {
            Ok(n)
        } else {
            let back = self.future_pool.take_all();
            Err(back)
        }
    }

    /// Enqueues one more task at the back of the pending queue. Tasks
    /// already pending or in flight are untouched, so a task appended
    /// mid-run is picked up by the next fill like any other.
    pub fn append(&mut self, task: T)
        ensures
            final(self).pending() == old(self).pending().push(task),
            final(self).capacity() == old(self).capacity(),
            final(self).active() == old(self).active(),
    {
        self.elements.push(task);
    }

    /// Whether nothing is left to do: no task pending and none in flight.
    pub fn fully_drained(&self) -> (r: bool)
        ensures
            r == (self.pending().len() == 0 && self.active().len() == 0),
    {
        self.elements.is_empty() && self.future_pool.task_count() == 0
    }

    /// The number of tasks waiting in the pending queue.
    pub fn pending_len(&self) -> (n: usize)
        ensures
            n == self.pending().len(),
    {
        self.elements.len()
    }

    /// The number of tasks in flight.
    pub fn active_len(&self) -> (n: usize)
        ensures
            n == self.active().len(),
    {
        self.future_pool.task_count()
    }
}

} // verus!
