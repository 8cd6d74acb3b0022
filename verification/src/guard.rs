//! Entry to SQLite, one operation at a time.
//!
//! An operation that is suspended in JavaScript must not be entered upon by
//! another one, so a mutex guards all of SQLite. Cleanup that comes due where
//! nothing can suspend is put off, and done by whoever next gets the mutex,
//! before that operation begins.

use crate::error::VfsError;
use async_lock::{Mutex, MutexGuard};
use std::collections::VecDeque;
use vstd::prelude::*;

verus! {

/// `async_lock::Mutex`.
#[verifier::external_type_specification]
#[verifier::external_body]
#[verifier::reject_recursive_types(T)]
pub struct ExMutex<T: ?Sized>(Mutex<T>);

/// `async_lock::MutexGuard`: held as long as the mutex is.
#[verifier::external_type_specification]
#[verifier::external_body]
#[verifier::reject_recursive_types(T)]
pub struct ExMutexGuard<'a, T: ?Sized>(MutexGuard<'a, T>);

/// `Mutex::try_lock` of `async_lock` gives a guard if the mutex is free at this
/// time. Whether it is depends on who else holds it, so nothing is stated of
/// the answer.
pub assume_specification<'a, T: ?Sized>[ Mutex::<T>::try_lock ](mutex: &'a Mutex<T>) -> Option<
    MutexGuard<'a, T>,
>;

/// Cleanup that was put off, in the order in which it came due.
pub struct CleanupQueue<C> {
    queue: VecDeque<C>,
}

impl<C> View for CleanupQueue<C> {
    type V = Seq<C>;

    closed spec fn view(&self) -> Seq<C> {
        self.queue@
    }
}

impl<C> CleanupQueue<C> {
    /// The queue without any cleanup.
    pub fn new() -> (queue: CleanupQueue<C>)
        ensures
            queue@ == Seq::<C>::empty(),
    {
        CleanupQueue { queue: VecDeque::new() }
    }

    /// Puts a cleanup off until SQLite is entered next. It stays owned by the
    /// queue until then.
    pub fn defer(&mut self, cleanup: C)
        ensures
            final(self)@ == old(self)@.push(cleanup),
    {
        self.queue.push_back(cleanup);
    }
}

/// Exclusive entry to SQLite, held around one complete operation.
///
/// The guard is not reentrant: whoever holds it must not ask for it again.
pub struct SqliteGuard {
    guard: MutexGuard<'static, ()>,
}

impl View for SqliteGuard {
    type V = MutexGuard<'static, ()>;

    /// The guard of the mutex, which is held.
    closed spec fn view(&self) -> MutexGuard<'static, ()> {
        self.guard
    }
}

/// What came of asking for entry.
pub enum Entry<C> {
    /// Another operation is inside: wait for the mutex, and hand its guard to
    /// [`SqliteGuard::proceed`].
    Contended,
    /// This cleanup, which is the first one put off, comes first. It is to be
    /// run with the guard held, which then goes to [`SqliteGuard::drain`].
    Cleanup { guard: SqliteGuard, cleanup: C },
    /// The operation may begin.
    Entered(SqliteGuard),
}

/// What holding the mutex leads to: the first cleanup that was put off is to be
/// run, and the operation may begin if there is none.
pub open spec fn drained<C>(entry: Entry<C>, before: Seq<C>, after: Seq<C>) -> bool {
    if before.len() == 0 {
        entry is Entered && after == before
    } else {
        entry is Cleanup && entry->cleanup == before[0] && after == before.drop_first()
    }
}

/// What an attempt at the mutex leads to: without its guard there is no entry
/// and no cleanup, and otherwise that guard is held from here on.
pub open spec fn proceeded<C>(
    attempt: Option<MutexGuard<'static, ()>>,
    entry: Entry<C>,
    before: Seq<C>,
    after: Seq<C>,
) -> bool {
    match attempt {
        None => entry is Contended && after == before,
        Some(guard) => drained(entry, before, after) && (match entry {
            Entry::Contended => false,
            Entry::Cleanup { guard: held, cleanup: _ } => held@ == guard,
            Entry::Entered(held) => held@ == guard,
        }),
    }
}

impl SqliteGuard {
    /// Asks for entry to SQLite, by one attempt at the given mutex. Whether
    /// that gets the guard depends on who else holds it.
    pub fn lock<C>(mutex: &'static Mutex<()>, queue: &mut CleanupQueue<C>) -> (entry: Entry<C>)
        ensures
            exists|attempt: Option<MutexGuard<'static, ()>>| #[trigger]
                call_ensures(Mutex::<()>::try_lock, (mutex,), attempt) && proceeded(
                    attempt,
                    entry,
                    old(queue)@,
                    final(queue)@,
                ),
    {
        let attempt = mutex.try_lock();
        SqliteGuard::proceed(attempt, queue)
    }

    /// Goes on from an attempt at the mutex: without its guard there is no
    /// entry and no cleanup.
    pub fn proceed<C>(
        attempt: Option<MutexGuard<'static, ()>>,
        queue: &mut CleanupQueue<C>,
    ) -> (entry: Entry<C>)
        ensures
            proceeded(attempt, entry, old(queue)@, final(queue)@),
    {
        match attempt {
            None => Entry::Contended,
            Some(guard) => SqliteGuard { guard }.drain(queue),
        }
    }

    /// Takes the next cleanup out of the queue, or enters if there is none.
    ///
    /// A cleanup has left the queue before it is run, since it may suspend or
    /// put off more cleanup.
    pub fn drain<C>(self, queue: &mut CleanupQueue<C>) -> (entry: Entry<C>)
        ensures
            drained(entry, old(queue)@, final(queue)@),
            match entry {
                Entry::Contended => false,
                Entry::Cleanup { guard, cleanup: _ } => guard == self,
                Entry::Entered(guard) => guard == self,
            },
    {
        match queue.queue.pop_front() {
            Some(cleanup) => {
                assert(queue@ == old(queue)@.drop_first());
                Entry::Cleanup { guard: self, cleanup }
            },
            None => Entry::Entered(self),
        }
    }
}

/// Runs one complete operation on SQLite with the guard held, which the
/// operation is shown, and lets go of the guard.
pub fn with_sqlite<T, F: FnOnce(&SqliteGuard) -> T>(guard: SqliteGuard, operation: F) -> (r: Result<
    T,
    VfsError,
>)
    requires
        operation.requires((&guard,)),
    ensures
        r matches Ok(value) && operation.ensures((&guard,), value),
{
    let value = operation(&guard);
    Ok(value)
}

/// The queue after cleanups were taken out of it and run, each of which put off
/// more: the first one `deferred[0]`, and so on.
pub open spec fn after_cleanups<C>(queue: Seq<C>, deferred: Seq<Seq<C>>) -> Seq<C>
    decreases deferred.len(),
{
    if deferred.len() == 0 {
        queue
    } else {
        after_cleanups(queue, deferred.drop_last()).drop_first() + deferred.last()
    }
}

/// Cleanup runs in the order in which it was put off, what cleanup itself puts
/// off included: with as many run as `deferred` has entries, none of them out of
/// an empty queue, those that remain are all that were ever put off but the
/// first ones.
pub proof fn law_cleanup_in_order<C>(queue: Seq<C>, deferred: Seq<Seq<C>>)
    requires
        forall|k: int|
            0 <= k < deferred.len() ==> (#[trigger] after_cleanups(queue, deferred.take(k))).len()
                > 0,
    ensures
        deferred.len() <= (queue + deferred.flatten()).len(),
        after_cleanups(queue, deferred) == (queue + deferred.flatten()).skip(deferred.len() as int),
    decreases deferred.len(),
{
    if deferred.len() == 0 {
        assert(deferred.flatten() =~= Seq::empty());
        assert((queue + deferred.flatten()).skip(0) =~= queue);
    } else {
        let n = deferred.len() as int;
        let earlier = deferred.drop_last();
        assert forall|k: int| 0 <= k < earlier.len() implies (
        #[trigger] after_cleanups(queue, earlier.take(k))).len() > 0 by {
            assert(earlier.take(k) =~= deferred.take(k));
        }
        law_cleanup_in_order(queue, earlier);
        assert(deferred.take(n - 1) =~= earlier);
        assert(after_cleanups(queue, earlier).len() > 0);
        deferred.lemma_flatten_and_flatten_alt_are_equivalent();
        earlier.lemma_flatten_and_flatten_alt_are_equivalent();
        assert(deferred.flatten() == earlier.flatten() + deferred.last());
        assert(after_cleanups(queue, deferred) =~= (queue + deferred.flatten()).skip(n));
    }
}

/// Whoever holds the mutex enters exactly where no cleanup is left. A cleanup
/// taken out is the one put off first: put back before the others, it gives the
/// queue as it was, so that none is lost, run twice or passed over.
pub proof fn law_drain<C>(entry: Entry<C>, before: Seq<C>, after: Seq<C>)
    requires
        drained(entry, before, after),
    ensures
        entry is Entered <==> before.len() == 0,
        entry is Entered ==> after == before,
        entry is Cleanup <==> before.len() > 0,
        entry is Cleanup ==> seq![entry->cleanup] + after == before,
{
    if entry is Cleanup {
        assert(seq![entry->cleanup] + after =~= before);
    }
}

/// Without the mutex there is no entry, and no cleanup is touched; with it, its
/// guard is the one held.
pub proof fn law_entry<C>(
    attempt: Option<MutexGuard<'static, ()>>,
    entry: Entry<C>,
    before: Seq<C>,
    after: Seq<C>,
)
    requires
        proceeded(attempt, entry, before, after),
    ensures
        attempt is None <==> entry is Contended,
        attempt is None ==> after == before,
        attempt is Some && before.len() == 0 ==> entry is Entered && after == before,
        attempt is Some && before.len() > 0 ==> entry is Cleanup && seq![entry->cleanup] + after
            == before,
        entry matches Entry::Entered(held) ==> attempt == Some(held@),
        entry matches Entry::Cleanup { guard, cleanup } ==> attempt == Some(guard@),
{
    if attempt is Some {
        law_drain(entry, before, after);
    }
}

/// Cleanups are run in the order in which they were put off: where the entries
/// follow each other, each out of the queue that the one before left with what
/// its cleanup put off behind it, the cleanups run are those of the first queue
/// and then those put off, from the front on.
pub proof fn law_cleanups_run_in_order<C>(
    entries: Seq<Entry<C>>,
    queues: Seq<Seq<C>>,
    deferred: Seq<Seq<C>>,
    left: Seq<Seq<C>>,
    k: int,
)
    requires
        entries.len() == deferred.len() == left.len(),
        queues.len() == entries.len() + 1,
        forall|j: int| 0 <= j < entries.len() ==> #[trigger] entries[j] is Cleanup,
        forall|j: int|
            0 <= j < entries.len() ==> #[trigger] drained(entries[j], queues[j], left[j]),
        forall|j: int|
            0 <= j < entries.len() ==> #[trigger] queues[j + 1] == left[j] + deferred[j],
        0 <= k < entries.len(),
    ensures
        k < (queues[0] + deferred.flatten()).len(),
        entries[k]->cleanup == (queues[0] + deferred.flatten())[k],
{
    lemma_queue_at(entries, queues, deferred, left, k);
    let some = deferred.take(k);
    assert(drained(entries[k], queues[k], left[k]));
    law_drain(entries[k], queues[k], left[k]);
    assert(queues[k].len() > 0);
    assert(queues[k][0] == (queues[0] + some.flatten())[k]);
    assert(deferred == some + deferred.skip(k));
    vstd::seq_lib::lemma_flatten_concat(some, deferred.skip(k));
}

/// The queue before the cleanup at `k`.
proof fn lemma_queue_at<C>(
    entries: Seq<Entry<C>>,
    queues: Seq<Seq<C>>,
    deferred: Seq<Seq<C>>,
    left: Seq<Seq<C>>,
    k: int,
)
    requires
        entries.len() == deferred.len() == left.len(),
        queues.len() == entries.len() + 1,
        forall|j: int| 0 <= j < entries.len() ==> #[trigger] entries[j] is Cleanup,
        forall|j: int|
            0 <= j < entries.len() ==> #[trigger] drained(entries[j], queues[j], left[j]),
        forall|j: int|
            0 <= j < entries.len() ==> #[trigger] queues[j + 1] == left[j] + deferred[j],
        0 <= k <= entries.len(),
    ensures
        k <= (queues[0] + deferred.take(k).flatten()).len(),
        queues[k] == (queues[0] + deferred.take(k).flatten()).skip(k),
    decreases k,
{
    let some = deferred.take(k);
    if k == 0 {
        assert(some.flatten() =~= Seq::empty());
        assert((queues[0] + some.flatten()).skip(0) =~= queues[0]);
    } else {
        lemma_queue_at(entries, queues, deferred, left, k - 1);
        let fewer = deferred.take(k - 1);
        assert(drained(entries[k - 1], queues[k - 1], left[k - 1]));
        law_drain(entries[k - 1], queues[k - 1], left[k - 1]);
        assert(left[k - 1] =~= queues[k - 1].drop_first());
        assert(queues[(k - 1) + 1] == left[k - 1] + deferred[k - 1]);
        assert(some.drop_last() =~= fewer);
        some.lemma_flatten_and_flatten_alt_are_equivalent();
        fewer.lemma_flatten_and_flatten_alt_are_equivalent();
        assert(some.flatten() == fewer.flatten() + deferred[k - 1]);
        assert(queues[k] =~= (queues[0] + some.flatten()).skip(k));
    }
}

} // verus!
