//! Pools, their clones, and the connections they hand out.

use vstd::prelude::*;

use crate::databases::config::{Config, Error};
use crate::databases::connection::{
    semaphore_permits, settle_blocking, Connection, ConnectionPool, ConnectionRequest, GetError,
    Joined, PermitRequest, Released, Settled,
};
use crate::outcome::Outcome;
use crate::report::Report;

verus! {

/// A pool made from a configuration asks for a permit with the timeout that was configured, of a
/// semaphore with as many permits as were configured. With a permit, it asks for a connection of
/// the pool that was made, with the same timeout and under that permit.
pub proof fn pools_follow_their_config<K, P: Clone, F: FnOnce(&str) -> Result<P, Error>>(
    db: &str,
    config: Config,
    make_pool: F,
    pool: ConnectionPool<K, P>,
    request: PermitRequest,
    refusal: Option<&'static str>,
    permit: tokio::sync::OwnedSemaphorePermit,
    granted: Result<ConnectionRequest<P>, GetError>,
    dropped: &mut ConnectionPool<K, P>,
    taken: Option<P>,
)
    requires
        call_ensures(
            ConnectionPool::<K, P>::fairing::<F>,
            (db, Ok::<Config, String>(config), make_pool),
            Ok::<ConnectionPool<K, P>, Report>(pool),
        ),
        call_ensures(ConnectionPool::<K, P>::get, (&pool,), request),
        call_ensures(ConnectionPool::<K, P>::get_refusal, (&pool,), refusal),
        call_ensures(ConnectionPool::<K, P>::with_permit, (&pool, Some(permit)), granted),
        *dropped == pool,
        call_ensures(ConnectionPool::<K, P>::take_pool, (dropped,), taken),
    ensures
        request.timeout_secs == config.timeout,
        semaphore_permits(*request.semaphore) == config.pool_size,
        refusal is None,
        taken is Some,
        call_ensures(make_pool, (db,), Ok::<P, Error>(taken->0)),
        granted is Ok,
        granted->Ok_0.permit == permit,
        granted->Ok_0.timeout_secs == config.timeout,
        cloned(taken->0, granted->Ok_0.pool),
{
}

/// A pool of any size that a semaphore can count may be made, and none needs to be counted where
/// there is no configuration or what makes the pool fails.
pub proof fn pools_may_be_made<K, P, F: FnOnce(&str) -> Result<P, Error>>(
    db: &str,
    config: Result<Config, String>,
    make_pool: F,
)
    requires
        call_requires(make_pool, (db,)),
        ({
            ||| config is Err
            ||| config->Ok_0.pool_size <= usize::MAX / 8
            ||| forall|made: Result<P, Error>|
                #[trigger] call_ensures(make_pool, (db,), made) ==> made is Err
        }),
    ensures
        call_requires(ConnectionPool::<K, P>::fairing::<F>, (db, config, make_pool)),
{
}

/// A pool that cannot be made is reported with its name and with the reason, and what went wrong
/// is told apart: the configuration, the making of the pool, or the database's own manager. What
/// makes the pool alone decides whether there is one, once there is a configuration.
pub proof fn failed_pools_are_reported<K, P, F: FnOnce(&str) -> Result<P, Error>>(
    db: &str,
    config: Result<Config, String>,
    make_pool: F,
    made: Result<P, Error>,
    result: Result<ConnectionPool<K, P>, Report>,
)
    requires
        call_ensures(
            ConnectionPool::<K, P>::fairing::<F>,
            (db, config, make_pool),
            result,
        ),
        forall|other: Result<P, Error>| #[trigger] call_ensures(make_pool, (db,), other) ==> other
            == made,
    ensures
        result is Ok <==> config is Ok && made is Ok,
        result matches Err(report) ==> {
            &&& report.span is None
            &&& report.lines@.len() == 1
            &&& match (config, made) {
                (Err(reason), _) => report.lines@[0]@ == reason@ && report.heading@ == "database "@
                    + "config"@ + " error for pool named `"@ + db@ + "`"@,
                (Ok(_), Err(Error::Config(reason))) => report.lines@[0]@ == reason@
                    && report.heading@ == "database "@ + "config"@ + " error for pool named `"@
                    + db@ + "`"@,
                (Ok(_), Err(Error::Pool(reason))) => report.lines@[0]@ == reason@ && report.heading@
                    == "database "@ + "pool init"@ + " error for pool named `"@ + db@ + "`"@,
                (Ok(_), Err(Error::Custom(reason))) => report.lines@[0]@ == reason@
                    && report.heading@ == "database "@ + "pool manager"@
                    + " error for pool named `"@ + db@ + "`"@,
                _ => false,
            }
        },
{
    if let Err(report) = result {
        assert(report@.lines.len() == report.lines@.len());
        assert(report.lines@[0]@ == report@.lines[0]);
    }
}

/// A clone of a pool, and the pool that `get_pool` gives, asks for a permit of the same semaphore
/// and with the same timeout as the pool it was cloned from.
pub proof fn clones_ask_alike<K, P: Clone>(
    pool: ConnectionPool<K, P>,
    copy: ConnectionPool<K, P>,
    request: PermitRequest,
    copy_request: PermitRequest,
)
    requires
        ({
            ||| call_ensures(<ConnectionPool<K, P> as Clone>::clone, (&pool,), copy)
            ||| call_ensures(ConnectionPool::<K, P>::get_pool, (Some(&pool),), Some(copy))
        }),
        call_ensures(ConnectionPool::<K, P>::get, (&pool,), request),
        call_ensures(ConnectionPool::<K, P>::get, (&copy,), copy_request),
    ensures
        copy_request.timeout_secs == request.timeout_secs,
        *copy_request.semaphore == *request.semaphore,
{
}

/// A clone of a pool that was made from a configuration, and the pool that `get_pool` gives of
/// it, follows that configuration too.
pub proof fn clones_follow_the_config<K, P: Clone, F: FnOnce(&str) -> Result<P, Error>>(
    db: &str,
    config: Config,
    make_pool: F,
    pool: ConnectionPool<K, P>,
    copy: ConnectionPool<K, P>,
    request: PermitRequest,
    permit: tokio::sync::OwnedSemaphorePermit,
    granted: Result<ConnectionRequest<P>, GetError>,
)
    requires
        call_ensures(
            ConnectionPool::<K, P>::fairing::<F>,
            (db, Ok::<Config, String>(config), make_pool),
            Ok::<ConnectionPool<K, P>, Report>(pool),
        ),
        ({
            ||| call_ensures(<ConnectionPool<K, P> as Clone>::clone, (&pool,), copy)
            ||| call_ensures(ConnectionPool::<K, P>::get_pool, (Some(&pool),), Some(copy))
        }),
        call_ensures(ConnectionPool::<K, P>::get, (&copy,), request),
        call_ensures(ConnectionPool::<K, P>::with_permit, (&copy, Some(permit)), granted),
    ensures
        request.timeout_secs == config.timeout,
        semaphore_permits(*request.semaphore) == config.pool_size,
        granted is Ok,
        granted->Ok_0.timeout_secs == config.timeout,
        granted->Ok_0.permit == permit,
{
}

/// A clone of a pool, and the pool that `get_pool` gives, hands out connections of a clone of what
/// the pool does, and can as long as the pool could when it was cloned.
pub proof fn clones_hand_out_alike<K, P: Clone>(
    pool: &mut ConnectionPool<K, P>,
    copy: &mut ConnectionPool<K, P>,
    refusal: Option<&'static str>,
    copy_refusal: Option<&'static str>,
    taken: Option<P>,
    copy_taken: Option<P>,
)
    requires
        ({
            ||| call_ensures(<ConnectionPool<K, P> as Clone>::clone, (&*pool,), *copy)
            ||| call_ensures(ConnectionPool::<K, P>::get_pool, (Some(&*pool),), Some(*copy))
        }),
        call_ensures(ConnectionPool::<K, P>::get_refusal, (&*pool,), refusal),
        call_ensures(ConnectionPool::<K, P>::get_refusal, (&*copy,), copy_refusal),
        call_ensures(ConnectionPool::<K, P>::take_pool, (pool,), taken),
        call_ensures(ConnectionPool::<K, P>::take_pool, (copy,), copy_taken),
    ensures
        copy_refusal is None <==> refusal is None,
        copy_taken is Some <==> taken is Some,
        taken is Some ==> cloned(taken->0, copy_taken->0),
{
}

/// A pool is had of an application exactly if it manages one.
pub proof fn pools_are_had_if_managed<K, P: Clone>(
    managed: Option<&ConnectionPool<K, P>>,
    had: Option<ConnectionPool<K, P>>,
    request: Option<PermitRequest>,
)
    requires
        call_ensures(ConnectionPool::<K, P>::get_pool, (managed,), had),
        call_ensures(ConnectionPool::<K, P>::get_one, (managed,), request),
    ensures
        had is Some <==> managed is Some,
        request is Some <==> managed is Some,
{
}

/// Whoever gets a connection of the pool that an application manages, by itself or as a guard,
/// asks for the permit that the pool itself would ask for.
pub proof fn managed_pools_are_asked_alike<K, P, T>(
    pool: ConnectionPool<K, P>,
    database: &str,
    request: PermitRequest,
    one: Option<PermitRequest>,
    guarded: Result<PermitRequest, (Outcome<Connection<K, T>, ()>, Report)>,
)
    requires
        call_ensures(ConnectionPool::<K, P>::get, (&pool,), request),
        call_ensures(ConnectionPool::<K, P>::get_one, (Some(&pool),), one),
        call_ensures(Connection::<K, T>::from_request::<P>, (Some(&pool), database), guarded),
    ensures
        one is Some,
        *one->0.semaphore == *request.semaphore,
        one->0.timeout_secs == request.timeout_secs,
        guarded is Ok,
        *guarded->Ok_0.semaphore == *request.semaphore,
        guarded->Ok_0.timeout_secs == request.timeout_secs,
{
}

/// With a permit, a connection is asked for of what the pool holds, under that permit, and waited
/// for as long as for the permit.
pub proof fn permits_get_connections_of_the_pool<K, P: Clone>(
    pool: &mut ConnectionPool<K, P>,
    request: PermitRequest,
    permit: tokio::sync::OwnedSemaphorePermit,
    granted: Result<ConnectionRequest<P>, GetError>,
    held: Option<P>,
)
    requires
        call_ensures(ConnectionPool::<K, P>::get, (&*pool,), request),
        call_ensures(ConnectionPool::<K, P>::get_refusal, (&*pool,), None::<&'static str>),
        call_ensures(ConnectionPool::<K, P>::with_permit, (&*pool, Some(permit)), granted),
        call_ensures(ConnectionPool::<K, P>::take_pool, (pool,), held),
    ensures
        granted is Ok,
        granted->Ok_0.timeout_secs == request.timeout_secs,
        granted->Ok_0.permit == permit,
        held is Some,
        cloned(held->0, granted->Ok_0.pool),
{
}

/// Without a pool the guard fails as a fault of the server, and what is reported names the
/// database.
pub proof fn guards_fail_without_a_pool<K, P, T>(
    database: &str,
    guarded: Result<PermitRequest, (Outcome<Connection<K, T>, ()>, Report)>,
)
    requires
        call_ensures(
            Connection::<K, T>::from_request::<P>,
            (None::<&ConnectionPool<K, P>>, database),
            guarded,
        ),
    ensures
        guarded matches Err((outcome, report)) && {
            &&& outcome matches Outcome::Failure(failure) && failure.0.code == 500
            &&& report.span is None
            &&& report.heading@ == "Missing database fairing for `"@ + database@ + "`"@
            &&& report.lines@.len() == 0
        },
{
    let report = guarded->Err_0.1;
    assert(report@.lines.len() == report.lines@.len());
}

/// A pool that is not refused takes a permit. One whose connections were taken out for good is
/// refused, has nothing more to take out, and asks for permits as before.
pub proof fn taken_pools_are_refused<K, P: Clone>(
    pool: &mut ConnectionPool<K, P>,
    permit: Option<tokio::sync::OwnedSemaphorePermit>,
    refusal: Option<&'static str>,
    request: PermitRequest,
    taken: Option<P>,
    later: &mut ConnectionPool<K, P>,
    refusal_then: Option<&'static str>,
    request_then: PermitRequest,
    taken_then: Option<P>,
)
    requires
        call_ensures(ConnectionPool::<K, P>::get_refusal, (&*pool,), refusal),
        call_ensures(ConnectionPool::<K, P>::get, (&*pool,), request),
        call_ensures(ConnectionPool::<K, P>::take_pool, (pool,), taken),
        *later == *final(pool),
        call_ensures(ConnectionPool::<K, P>::get_refusal, (&*later,), refusal_then),
        call_ensures(ConnectionPool::<K, P>::get, (&*later,), request_then),
        call_ensures(ConnectionPool::<K, P>::take_pool, (later,), taken_then),
    ensures
        refusal is None ==> call_requires(
            ConnectionPool::<K, P>::with_permit,
            (&*old(pool), permit),
        ),
        refusal is None <==> taken is Some,
        taken_then is None,
        refusal_then matches Some(text) && text@
            == "internal invariant broken: self.pool is Some"@,
        *request_then.semaphore == *request.semaphore,
        request_then.timeout_secs == request.timeout_secs,
{
}

/// Without a permit in time there is no connection, whatever the pool holds, and that is told from
/// a failure of the pool, which tells its reason.
pub proof fn missing_connections_are_reported<K, P: Clone, T>(
    pool: ConnectionPool<K, P>,
    late: Result<ConnectionRequest<P>, GetError>,
    late_report: Report,
    request: ConnectionRequest<P>,
    reason: String,
    failed: Result<Connection<K, T>, GetError>,
    failed_report: Report,
)
    requires
        call_ensures(
            ConnectionPool::<K, P>::with_permit,
            (&pool, None::<tokio::sync::OwnedSemaphorePermit>),
            late,
        ),
        late matches Err(error) ==> call_ensures(GetError::report, (&error,), late_report),
        call_ensures(
            ConnectionRequest::<P>::finish::<K, T>,
            (request, Err::<T, String>(reason)),
            failed,
        ),
        failed matches Err(error) ==> call_ensures(GetError::report, (&error,), failed_report),
    ensures
        call_requires(
            ConnectionPool::<K, P>::with_permit,
            (&pool, None::<tokio::sync::OwnedSemaphorePermit>),
        ),
        late is Err,
        late_report.heading@ == "database connection retrieval timed out"@,
        late_report.span is None,
        late_report.lines@.len() == 0,
        failed is Err,
        failed_report.heading@ == "failed to get a database connection: "@ + reason@,
        failed_report.span is None,
        failed_report.lines@.len() == 0,
{
    assert(late_report@.lines.len() == late_report.lines@.len());
    assert(failed_report@.lines.len() == failed_report.lines@.len());
}

/// The connection that the pool gave is held under the permit that was granted: it is released
/// first, then that permit, and then nothing. It can be used until it is released.
pub proof fn connections_are_released_before_their_permits<K, P, T>(
    request: ConnectionRequest<P>,
    connection: T,
    got: Result<Connection<K, T>, GetError>,
    held: &mut Connection<K, T>,
    refusal: Option<&'static str>,
    first: Option<Released<T>>,
    spent: &mut Connection<K, T>,
    refusal_then: Option<&'static str>,
    second: Option<Released<T>>,
    empty: &mut Connection<K, T>,
    third: Option<Released<T>>,
)
    requires
        call_ensures(
            ConnectionRequest::<P>::finish::<K, T>,
            (request, Ok::<T, String>(connection)),
            got,
        ),
        got matches Ok(given) ==> *held == given,
        call_ensures(Connection::<K, T>::run_refusal, (&*held,), refusal),
        call_ensures(Connection::<K, T>::release_next, (held,), first),
        *spent == *final(held),
        call_ensures(Connection::<K, T>::run_refusal, (&*spent,), refusal_then),
        call_ensures(Connection::<K, T>::release_next, (spent,), second),
        *empty == *final(spent),
        call_ensures(Connection::<K, T>::release_next, (empty,), third),
    ensures
        got is Ok,
        refusal is None,
        first matches Some(Released::Connection(released)) && released == connection,
        refusal_then matches Some(text) && text@
            == "internal invariant broken: self.connection is Some"@,
        second matches Some(Released::Permit(released)) && released == request.permit,
        third is None,
{
}

/// Whatever runs on a connection runs on the one that the pool gave, its value is what is
/// returned, and the connection as it left it is the one that is released, before the permit that
/// it was held under.
pub proof fn runs_are_on_the_connection<K, P, T, F: FnOnce(&mut T) -> R, R>(
    request: ConnectionRequest<P>,
    connection: T,
    got: Result<Connection<K, T>, GetError>,
    held: &mut Connection<K, T>,
    refusal: Option<&'static str>,
    f: F,
    value: R,
    used: &mut Connection<K, T>,
    first: Option<Released<T>>,
    spent: &mut Connection<K, T>,
    second: Option<Released<T>>,
)
    requires
        call_ensures(
            ConnectionRequest::<P>::finish::<K, T>,
            (request, Ok::<T, String>(connection)),
            got,
        ),
        got matches Ok(given) ==> *held == given,
        call_ensures(Connection::<K, T>::run_refusal, (&*held,), refusal),
        call_ensures(Connection::<K, T>::run::<F, R>, (held, f), value),
        *used == *final(held),
        call_ensures(Connection::<K, T>::release_next, (used,), first),
        *spent == *final(used),
        call_ensures(Connection::<K, T>::release_next, (spent,), second),
    ensures
        refusal is None,
        first matches Some(Released::Connection(left)) && exists|lent: &mut T|
            *lent == connection && *final(lent) == left && #[trigger] call_ensures(
                f,
                (lent,),
                value,
            ),
        second matches Some(Released::Permit(released)) && released == request.permit,
{
}

/// Something can be run on a connection that is not refused, if it can be on every state of it.
pub proof fn runs_not_refused_may_be_made<K, T, F: FnOnce(&mut T) -> R, R>(
    held: &mut Connection<K, T>,
    refusal: Option<&'static str>,
    f: F,
)
    requires
        call_ensures(Connection::<K, T>::run_refusal, (&*held,), refusal),
        refusal is None,
        forall|lent: &mut T| #[trigger] call_requires(f, (lent,)),
    ensures
        call_requires(Connection::<K, T>::run::<F, R>, (held, f)),
{
}

/// The guard passes with the connection that was got, and fails as a service that is not available
/// where none was; whoever gets one connection by itself gets that one, or none.
pub proof fn guards_pass_with_the_connection<K, T>(
    got: Result<Connection<K, T>, GetError>,
    outcome: Outcome<Connection<K, T>, ()>,
    one: Option<Connection<K, T>>,
)
    requires
        call_ensures(Connection::<K, T>::guard, (got,), outcome),
        call_ensures(Connection::<K, T>::one, (got,), one),
    ensures
        got matches Ok(connection) ==> {
            &&& outcome matches Outcome::Success(passed) && passed == connection
            &&& one matches Some(had) && had == connection
        },
        got is Err ==> {
            &&& outcome matches Outcome::Failure(failure) && failure.0.code == 503
            &&& one is None
        },
{
}

/// What a job on a thread of its own returned is returned, and its panic is resumed: neither is
/// ever taken for the other.
pub proof fn jobs_are_settled<R, P>(joined: Joined<R, P>, settled: Settled<R, P>)
    requires
        call_ensures(settle_blocking::<R, P>, (joined,), settled),
    ensures
        joined matches Joined::Returned(value) ==> (settled matches Settled::Return(kept) && kept
            == value),
        joined matches Joined::Panicked(panic) ==> (settled matches Settled::Resume(kept) && kept
            == panic),
        joined is Cancelled ==> (settled matches Settled::Unreachable(text) && text@
            == "spawn_blocking tasks are never cancelled"@),
{
}

} // verus!
