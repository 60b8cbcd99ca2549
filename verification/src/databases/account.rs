//! The permits of a pool: who holds them while connections come and go.

use vstd::prelude::*;

use crate::databases::connection::{
    connections_held, connections_need_permits, permits_held, semaphore_permits, ConnectionView,
    PoolView, Released,
};

verus! {

/// The permits of a pool and of its clones, which share them, at one moment.
///
/// That a permit is taken only while one is free, and that a permit which is dropped is free
/// again, is what `tokio::sync::Semaphore` does; here it is how an account changes.
#[verifier::ext_equal]
pub struct Account<T> {
    /// How many permits nobody holds.
    pub free: nat,
    /// The permits of those that were granted one and wait for their connection.
    pub pending: Seq<tokio::sync::OwnedSemaphorePermit>,
    /// The connections that were handed out, as far as they are still held.
    pub out: Seq<ConnectionView<T>>,
}

/// What may happen next.
pub enum Move<T> {
    /// One who is to get a connection is granted this permit.
    Grant(tokio::sync::OwnedSemaphorePermit),
    /// The pool gives this connection to one of those that wait.
    Connect(int, T),
    /// The pool fails one of those that wait, whose permit is dropped.
    Fail(int),
    /// Something is run on one of the connections, which leaves it in this state.
    Run(int, T),
    /// One of the connections releases the next of its parts, which is dropped.
    Release(int),
}

impl<T> Account<T> {
    /// The account of a pool from which no connection was got yet.
    pub open spec fn open<P>(pool: PoolView<P>) -> Account<T> {
        Account {
            free: semaphore_permits(pool.semaphore),
            pending: Seq::empty(),
            out: Seq::empty(),
        }
    }

    /// The move can be made.
    pub open spec fn allows(self, next: Move<T>) -> bool {
        match next {
            Move::Grant(_) => self.free > 0,
            Move::Connect(i, _) => 0 <= i < self.pending.len(),
            Move::Fail(i) => 0 <= i < self.pending.len(),
            Move::Run(i, _) => 0 <= i < self.out.len() && self.out[i].connection is Some,
            Move::Release(i) => 0 <= i < self.out.len(),
        }
    }

    /// The account after the move.
    pub open spec fn after(self, next: Move<T>) -> Account<T> {
        match next {
            Move::Grant(permit) => Account {
                free: (self.free - 1) as nat,
                pending: self.pending.push(permit),
                ..self
            },
            Move::Connect(i, connection) => Account {
                pending: self.pending.remove(i),
                out: self.out.push(
                    ConnectionView { connection: Some(connection), permit: Some(self.pending[i]) },
                ),
                ..self
            },
            Move::Fail(i) => Account {
                free: self.free + 1,
                pending: self.pending.remove(i),
                ..self
            },
            Move::Run(i, connection) => Account {
                out: self.out.update(
                    i,
                    ConnectionView { connection: Some(connection), ..self.out[i] },
                ),
                ..self
            },
            Move::Release(i) => Account {
                free: if self.out[i].next_release() matches Some(Released::Permit(_)) {
                    self.free + 1
                } else {
                    self.free
                },
                out: self.out.update(i, self.out[i].after_release()),
                ..self
            },
        }
    }

    /// All of the moves can be made, one after the other.
    pub open spec fn allows_all(self, moves: Seq<Move<T>>) -> bool
        decreases moves.len(),
    {
        moves.len() == 0 || self.allows_all(moves.drop_last()) && self.after_all(
            moves.drop_last(),
        ).allows(moves.last())
    }

    /// The account after all of the moves.
    pub open spec fn after_all(self, moves: Seq<Move<T>>) -> Account<T>
        decreases moves.len(),
    {
        if moves.len() == 0 {
            self
        } else {
            self.after_all(moves.drop_last()).after(moves.last())
        }
    }

    /// How many permits there are: those that are free, those of the gets in progress, and those
    /// of the connections that are not fully released.
    pub open spec fn permits(self) -> nat {
        self.free + self.pending.len() + permits_held(self.out)
    }

    /// Each connection is held only while its permit is.
    pub open spec fn permits_outlive(self) -> bool {
        forall|i: int| 0 <= i < self.out.len() ==> (#[trigger] self.out[i]).permit_outlives()
    }
}

proof fn permits_held_after_update<T>(
    held: Seq<ConnectionView<T>>,
    i: int,
    view: ConnectionView<T>,
)
    requires
        0 <= i < held.len(),
    ensures
        permits_held(held.update(i, view)) + (if held[i].permit is Some { 1nat } else { 0 })
            == permits_held(held) + (if view.permit is Some { 1nat } else { 0 }),
    decreases held.len(),
{
    let updated = held.update(i, view);
    if i == held.len() - 1 {
        assert(updated.drop_last() =~= held.drop_last());
    } else {
        permits_held_after_update(held.drop_last(), i, view);
        assert(updated.drop_last() =~= held.drop_last().update(i, view));
    }
}

/// No move makes or loses a permit, and a connection stays held only while its permit is.
pub proof fn permits_are_conserved<T>(account: Account<T>, next: Move<T>)
    requires
        account.allows(next),
        account.permits_outlive(),
    ensures
        account.after(next).permits() == account.permits(),
        account.after(next).permits_outlive(),
{
    match next {
        Move::Connect(i, connection) => {
            let view = ConnectionView {
                connection: Some(connection),
                permit: Some(account.pending[i]),
            };
            assert(account.out.push(view).drop_last() =~= account.out);
        },
        Move::Run(i, connection) => {
            let view = ConnectionView { connection: Some(connection), ..account.out[i] };
            permits_held_after_update(account.out, i, view);
        },
        Move::Release(i) => {
            permits_held_after_update(account.out, i, account.out[i].after_release());
        },
        _ => {},
    }
}

proof fn permits_stay_conserved<T>(start: Account<T>, moves: Seq<Move<T>>)
    requires
        start.allows_all(moves),
        start.permits_outlive(),
    ensures
        start.after_all(moves).permits() == start.permits(),
        start.after_all(moves).permits_outlive(),
    decreases moves.len(),
{
    if moves.len() > 0 {
        permits_stay_conserved(start, moves.drop_last());
        permits_are_conserved(start.after_all(moves.drop_last()), moves.last());
    }
}

/// Whatever gets, runs and releases were made on a pool and its clones: the permits that are
/// free, those of the gets in progress and those of the connections not fully released add up to
/// the size of the pool. So no more connections are live than that, and while so many are live
/// none waits for its connection and no permit can be granted.
pub proof fn permits_add_up_to_the_pool_size<P, T>(
    pool: PoolView<P>,
    moves: Seq<Move<T>>,
    permit: tokio::sync::OwnedSemaphorePermit,
)
    requires
        pool.is_sized(),
        Account::<T>::open(pool).allows_all(moves),
    ensures
        ({
            let now = Account::<T>::open(pool).after_all(moves);
            &&& now.free + now.pending.len() + permits_held(now.out) == pool.config.pool_size
            &&& connections_held(now.out) <= pool.config.pool_size
            &&& connections_held(now.out) == pool.config.pool_size ==> now.pending.len() == 0
                && !now.allows(Move::Grant(permit))
        }),
{
    permits_stay_conserved(Account::<T>::open(pool), moves);
    connections_need_permits(Account::<T>::open(pool).after_all(moves).out);
}

/// While no more permits are held than the semaphore of a pool was made with, no more
/// connections are live than the pool has.
pub proof fn live_connections_are_bounded<P, T>(
    pool: PoolView<P>,
    held: Seq<ConnectionView<T>>,
)
    requires
        pool.is_sized(),
        permits_held(held) <= semaphore_permits(pool.semaphore),
        forall|i: int| 0 <= i < held.len() ==> (#[trigger] held[i]).permit_outlives(),
    ensures
        connections_held(held) <= pool.config.pool_size,
{
    connections_need_permits(held);
}

} // verus!
