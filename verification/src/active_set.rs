use vstd::multiset::Multiset;
use vstd::prelude::*;

verus! {

broadcast use vstd::multiset::group_multiset_axioms;

#[verifier::external_type_specification]
#[verifier::external_body]
#[verifier::reject_recursive_types(Fut)]
pub struct ExFuturesUnordered<Fut>(futures::stream::FuturesUnordered<Fut>);

/// The in-flight set: a thin boundary around `futures::stream::FuturesUnordered`,
/// the unordered completion multiplexer that actually drives the tasks.
/// Verified code sees only the multiset `tasks()` of what the multiplexer
/// currently holds; each method below relates one call of the multiplexer to
/// that model. Completion order is the multiplexer's business and is nowhere
/// modelled here.
#[verifier::reject_recursive_types(T)]
pub(crate) struct ActiveSet<T> {
    mux: futures::stream::FuturesUnordered<T>,
    model: Ghost<Multiset<T>>,
}

impl<T> ActiveSet<T> {
    /// The multiset of tasks now registered with the multiplexer.
    pub closed spec fn tasks(&self) -> Multiset<T> {
        self.model@
    }

    /// The multiplexer value itself, so that contracts can say a handoff
    /// returns the very multiplexer that carried the in-flight set, not some
    /// fresh one.
    pub closed spec fn raw(&self) -> futures::stream::FuturesUnordered<T> {
        self.mux
    }

    /// Relies on `FuturesUnordered::new`: the returned multiplexer holds no
    /// tasks, so a set that comes to hold it gets the empty model.
    #[verifier::external_body]
    fn fresh_mux() -> futures::stream::FuturesUnordered<T> {
        futures::stream::FuturesUnordered::new()
    }

    /// An in-flight set holding no tasks.
    pub(crate) fn empty() -> (s: Self)
        ensures
            s.tasks() == Multiset::<T>::empty(),
    {
        ActiveSet { mux: Self::fresh_mux(), model: Ghost(Multiset::empty()) }
    }

    /// Relies on `FuturesUnordered::len`: the number of in-flight tasks the
    /// multiplexer holds.
    #[verifier::external_body]
    pub(crate) fn task_count(&self) -> (n: usize)
        ensures
            n == self.tasks().len(),
    {
        self.mux.len()
    }

    /// Relies on `FuturesUnordered::push`: registers one more task with the
    /// multiplexer, without polling it.
    #[verifier::external_body]
    pub(crate) fn enroll(&mut self, task: T)
        ensures
            final(self).tasks() == old(self).tasks().insert(task),
    {
        self.mux.push(task);
    }

    /// Hands the whole multiplexer out — the very value that carries every
    /// in-flight task — and leaves a fresh empty one behind, with the model
    /// reset to match.
    pub(crate) fn take_all(&mut self) -> (batch: futures::stream::FuturesUnordered<T>)
        ensures
            batch == old(self).raw(),
            final(self).tasks() == Multiset::<T>::empty(),
    {
        let mut fresh = Self::fresh_mux();
        core::mem::swap(&mut self.mux, &mut fresh);
        self.model = Ghost(Multiset::empty());
        fresh
    }

    /// Relies on `FuturesUnordered::len`: the multiplexer handed in becomes
    /// the held one (meant for a multiplexer obtained from `take_all` and
    /// possibly partly drained since), so the new in-flight set has exactly
    /// as many tasks as the multiplexer reports; which tasks they are is not
    /// known here.
    #[verifier::external_body]
    pub(crate) fn reinstate(&mut self, batch: futures::stream::FuturesUnordered<T>) -> (n: usize)
        ensures
            final(self).raw() == batch,
            final(self).tasks().len() == n,
    {
        let n = batch.len();
        self.mux = batch;
        n
    }
}

} // verus!
