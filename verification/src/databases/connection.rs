//! Connection pools, and the connections they hand out.

use std::marker::PhantomData;
use std::sync::Arc;

use vstd::prelude::*;

use crate::databases::config::{Config, Error};
use crate::outcome::{into_outcome, Outcome, Status};
use crate::report::{headline, join, Report, ReportView};

verus! {

/// The outside type `tokio::sync::Semaphore`: a count of permits to be taken and given back.
#[verifier::external_type_specification]
#[verifier::external_body]
pub struct ExSemaphore(tokio::sync::Semaphore);

/// The outside type `tokio::sync::OwnedSemaphorePermit`: a permit of a semaphore, given back as
/// it is dropped.
#[verifier::external_type_specification]
#[verifier::external_body]
pub struct ExOwnedSemaphorePermit(tokio::sync::OwnedSemaphorePermit);

/// The number of permits that a semaphore was made with.
pub uninterp spec fn semaphore_permits(semaphore: tokio::sync::Semaphore) -> nat;

/// A semaphore with `permits` permits.
///
/// Calls `tokio::sync::Semaphore::new`, which panics on more than an eighth of what a `usize`
/// can count. What is claimed: the semaphore is made with `permits` permits.
#[verifier::external_body]
fn new_semaphore(permits: usize) -> (semaphore: tokio::sync::Semaphore)
    requires
        permits <= usize::MAX / 8,
    ensures
        semaphore_permits(semaphore) == permits,
{
    tokio::sync::Semaphore::new(permits)
}

/// How a job that ran on a thread of its own ended.
pub enum Joined<R, P> {
    /// It returned.
    Returned(R),
    /// It panicked.
    Panicked(P),
    /// It was cancelled.
    Cancelled,
}

/// What the caller of the job does then.
pub enum Settled<R, P> {
    /// It returns what the job returned.
    Return(R),
    /// It panics as the job did.
    Resume(P),
    /// It panics with this message: something happened that never does.
    Unreachable(&'static str),
}

/// Propagates the end of a job that ran on a thread of its own, a panic included, to the code
/// that called for it.
pub fn settle_blocking<R, P>(joined: Joined<R, P>) -> (settled: Settled<R, P>)
    ensures
        match joined {
            Joined::Returned(value) => settled == Settled::<R, P>::Return(value),
            Joined::Panicked(panic) => settled == Settled::<R, P>::Resume(panic),
            Joined::Cancelled => settled matches Settled::Unreachable(text) && text@
                == "spawn_blocking tasks are never cancelled"@,
        },
{
    match joined {
        Joined::Returned(value) => Settled::Return(value),
        Joined::Panicked(panic) => Settled::Resume(panic),
        Joined::Cancelled => Settled::Unreachable("spawn_blocking tasks are never cancelled"),
    }
}

/// A pool of connections for the database `K`, which are kept in a `P`.
///
/// A semaphore of as many permits as the pool has connections is shared by all clones of the
/// pool: who is to get a connection first takes a permit.
pub struct ConnectionPool<K, P> {
    config: Config,
    // This is an 'Option' so that the pool can be dropped on a thread of its own.
    pool: Option<P>,
    semaphore: Arc<tokio::sync::Semaphore>,
    _marker: PhantomData<K>,
}

/// What a [`ConnectionPool`] holds.
pub struct PoolView<P> {
    pub config: Config,
    pub pool: Option<P>,
    pub semaphore: tokio::sync::Semaphore,
}

impl<K, P> View for ConnectionPool<K, P> {
    type V = PoolView<P>;

    closed spec fn view(&self) -> PoolView<P> {
        PoolView { config: self.config, pool: self.pool, semaphore: *self.semaphore }
    }
}

impl<P> PoolView<P> {
    /// The semaphore was made with as many permits as the pool has connections.
    pub open spec fn is_sized(self) -> bool {
        semaphore_permits(self.semaphore) == self.config.pool_size
    }

    /// `other` is a clone: it hands out connections of a clone of the same pool, under the same
    /// semaphore.
    pub open spec fn is_cloned_as(self, other: PoolView<P>) -> bool where P: Clone {
        &&& other.config == self.config
        &&& other.semaphore == self.semaphore
        &&& match (self.pool, other.pool) {
            (Some(pool), Some(copy)) => cloned(pool, copy),
            (None, None) => true,
            _ => false,
        }
    }
}

/// The report that something about the pool named `db` went wrong.
pub open spec fn pool_report(what: Seq<char>, db: Seq<char>, error: Seq<char>) -> ReportView {
    ReportView {
        span: None,
        heading: "database "@ + what + " error for pool named `"@ + db + "`"@,
        lines: seq![error],
    }
}

/// The report that the pool named `db` could not be made.
pub open spec fn attach_report(db: Seq<char>, error: Error) -> ReportView {
    match error {
        Error::Config(text) => pool_report("config"@, db, text@),
        Error::Pool(text) => pool_report("pool init"@, db, text@),
        Error::Custom(text) => pool_report("pool manager"@, db, text@),
    }
}

/// Reports that the pool named `db` could not be made.
fn report_attach(db: &str, error: Error) -> (report: Report)
    ensures
        report@ == attach_report(db@, error),
{
    let (what, text): (&'static str, String) = match error {
        Error::Config(text) => ("config", text),
        Error::Pool(text) => ("pool init", text),
        Error::Custom(text) => ("pool manager", text),
    };
    let mut heading = join("database ", what);
    heading.append(" error for pool named `");
    heading.append(db);
    heading.append("`");
    let mut lines: Vec<String> = Vec::new();
    lines.push(text);
    Report { span: None, heading, lines }
}

/// What is needed first to get a connection: a permit of the semaphore, to be waited for no
/// longer than the timeout.
pub struct PermitRequest {
    pub semaphore: Arc<tokio::sync::Semaphore>,
    pub timeout_secs: u64,
}

/// What is needed next to get a connection: one from the pool, to be waited for no longer than
/// the timeout. The permit is held meanwhile.
pub struct ConnectionRequest<P> {
    pub pool: P,
    pub timeout_secs: u64,
    pub permit: tokio::sync::OwnedSemaphorePermit,
}

/// Why a connection was not to be had.
#[derive(Debug)]
pub enum GetError {
    /// There was no permit in time.
    TimedOut,
    /// The pool gave none, for this reason.
    Failed(String),
}

/// The report that a connection was not to be had.
pub open spec fn get_report(error: GetError) -> ReportView {
    headline(
        match error {
            GetError::TimedOut => "database connection retrieval timed out"@,
            GetError::Failed(text) => "failed to get a database connection: "@ + text@,
        },
    )
}

impl GetError {
    /// Reports that a connection was not to be had.
    pub fn report(&self) -> (report: Report)
        ensures
            report@ == get_report(*self),
    {
        match self {
            GetError::TimedOut => Report::headline(
                "database connection retrieval timed out".to_owned(),
            ),
            GetError::Failed(text) => Report::headline(
                join("failed to get a database connection: ", text.as_str()),
            ),
        }
    }
}

impl<K, P: Clone> Clone for ConnectionPool<K, P> {
    fn clone(&self) -> (copy: Self)
        ensures
            self@.is_cloned_as(copy@),
    {
        ConnectionPool {
            config: self.config,
            pool: self.pool.clone(),
            semaphore: self.semaphore.clone(),
            _marker: PhantomData,
        }
    }
}

impl<K, P> ConnectionPool<K, P> {
    /// Attaches the pool named `db` to an application: given its configuration, makes it with
    /// `make_pool`. If there is no configuration or no pool is made, that is to be reported, and
    /// the application does not launch.
    pub fn fairing<F>(db: &str, config: Result<Config, String>, make_pool: F) -> (result: Result<
        Self,
        Report,
    >) where F: FnOnce(&str) -> Result<P, Error>
        requires
            config is Ok ==> make_pool.requires((db,)),
            config matches Ok(c) ==> c.pool_size <= usize::MAX / 8 || forall|made: Result<P, Error>|
                #[trigger] make_pool.ensures((db,), made) ==> made is Err,
        ensures
            match config {
                Err(text) => result matches Err(report) && report@ == pool_report(
                    "config"@,
                    db@,
                    text@,
                ),
                Ok(c) => exists|made: Result<P, Error>| #[trigger]
                    make_pool.ensures((db,), made) && match made {
                        Ok(pool) => {
                            &&& result matches Ok(attached) && attached@.config == c
                                && attached@.pool == Some(pool) && attached@.is_sized()
                        },
                        Err(error) => {
                            &&& result matches Err(report) && report@ == attach_report(db@, error)
                        },
                    },
            },
    {
        let config = match config {
            Ok(config) => config,
            Err(text) => {
                return Err(report_attach(db, Error::Config(text)));
            },
        };
        let pool_size = config.pool_size;
        match make_pool(db) {
            Ok(pool) => Ok(
                ConnectionPool {
                    config,
                    pool: Some(pool),
                    semaphore: Arc::new(new_semaphore(pool_size as usize)),
                    _marker: PhantomData,
                },
            ),
            Err(error) => Err(report_attach(db, error)),
        }
    }

    /// Starts to get a connection: asks for a permit.
    pub fn get(&self) -> (request: PermitRequest)
        ensures
            *request.semaphore == self@.semaphore,
            request.timeout_secs == self@.config.timeout,
    {
        PermitRequest {
            semaphore: self.semaphore.clone(),
            timeout_secs: self.config.timeout as u64,
        }
    }

    /// Why no connection can be got from the pool any more, if so.
    pub fn get_refusal(&self) -> (refusal: Option<&'static str>)
        ensures
            refusal is None <==> self@.pool is Some,
            refusal matches Some(text) ==> text@
                == "internal invariant broken: self.pool is Some"@,
    {
        if self.pool.is_some() {
            None
        } else {
            Some("internal invariant broken: self.pool is Some")
        }
    }

    /// Goes on to get a connection, with the permit that was asked for, if there was one in time.
    pub fn with_permit(&self, permit: Option<tokio::sync::OwnedSemaphorePermit>) -> (result: Result<
        ConnectionRequest<P>,
        GetError,
    >) where P: Clone
        requires
            permit is Some ==> self@.pool is Some,
        ensures
            match permit {
                None => result == Err::<ConnectionRequest<P>, GetError>(GetError::TimedOut),
                Some(permit) => {
                    &&& result matches Ok(request) && request.permit == permit && cloned(
                        self@.pool->0,
                        request.pool,
                    ) && request.timeout_secs == self@.config.timeout
                },
            },
    {
        match permit {
            None => Err(GetError::TimedOut),
            Some(permit) => {
                let pool = self.pool.as_ref().unwrap().clone();
                Ok(ConnectionRequest { pool, timeout_secs: self.config.timeout as u64, permit })
            },
        }
    }

    /// Starts to get a connection from the pool that the application manages; there is none to
    /// be had if it manages no such pool.
    pub fn get_one(managed: Option<&Self>) -> (request: Option<PermitRequest>)
        ensures
            request is Some <==> managed is Some,
            managed matches Some(pool) ==> *request->0.semaphore == pool@.semaphore
                && request->0.timeout_secs == pool@.config.timeout,
    {
        match managed {
            Some(pool) => Some(pool.get()),
            None => None,
        }
    }

    /// A clone of the pool that the application manages, if it manages one.
    pub fn get_pool(managed: Option<&Self>) -> (pool: Option<Self>) where P: Clone
        ensures
            match (managed, pool) {
                (Some(pool), Some(copy)) => pool@.is_cloned_as(copy@),
                (None, None) => true,
                _ => false,
            },
    {
        match managed {
            Some(pool) => Some(pool.clone()),
            None => None,
        }
    }

    /// Moves out what is to be dropped on a thread of its own as the pool is dropped.
    pub fn take_pool(&mut self) -> (pool: Option<P>)
        ensures
            pool == old(self)@.pool,
            final(self)@ == (PoolView { pool: None, ..old(self)@ }),
    {
        self.pool.take()
    }
}

/// A connection `T` to the database `K`, and the permit it is held under.
pub struct Connection<K, T> {
    connection: Option<T>,
    permit: Option<tokio::sync::OwnedSemaphorePermit>,
    _marker: PhantomData<K>,
}

/// What a [`Connection`] holds.
#[verifier::ext_equal]
pub struct ConnectionView<T> {
    pub connection: Option<T>,
    pub permit: Option<tokio::sync::OwnedSemaphorePermit>,
}

impl<K, T> View for Connection<K, T> {
    type V = ConnectionView<T>;

    closed spec fn view(&self) -> ConnectionView<T> {
        ConnectionView { connection: self.connection, permit: self.permit }
    }
}

/// A part of a [`Connection`] that is no longer held by it.
pub enum Released<T> {
    Connection(T),
    Permit(tokio::sync::OwnedSemaphorePermit),
}

impl<T> ConnectionView<T> {
    /// The connection is held only while the permit is.
    pub open spec fn permit_outlives(self) -> bool {
        self.connection is Some ==> self.permit is Some
    }

    /// The part that is released next.
    pub open spec fn next_release(self) -> Option<Released<T>> {
        if self.connection is Some {
            Some(Released::Connection(self.connection->0))
        } else if self.permit is Some {
            Some(Released::Permit(self.permit->0))
        } else {
            None
        }
    }

    /// The connection without the part that is released next.
    pub open spec fn after_release(self) -> ConnectionView<T> {
        if self.connection is Some {
            ConnectionView { connection: None, ..self }
        } else {
            ConnectionView { permit: None, ..self }
        }
    }
}

impl<P> ConnectionRequest<P> {
    /// Ends with the connection that the pool gave, or with the reason why it gave none. In
    /// that case the permit is given back.
    pub fn finish<K, T>(self, got: Result<T, String>) -> (result: Result<Connection<K, T>, GetError>)
        ensures
            match got {
                Ok(connection) => {
                    &&& result matches Ok(held) && held@ == (ConnectionView {
                        connection: Some(connection),
                        permit: Some(self.permit),
                    })
                },
                Err(text) => result == Err::<Connection<K, T>, GetError>(GetError::Failed(text)),
            },
    {
        match got {
            Ok(connection) => Ok(
                Connection {
                    connection: Some(connection),
                    permit: Some(self.permit),
                    _marker: PhantomData,
                },
            ),
            Err(text) => Err(GetError::Failed(text)),
        }
    }
}

impl<K, T> Connection<K, T> {
    /// Starts the request guard: asks for a permit of the pool that the application manages. If
    /// it manages no pool for the database `database`, that is to be reported, and the guard
    /// fails with status `InternalServerError` (`500`).
    pub fn from_request<P>(managed: Option<&ConnectionPool<K, P>>, database: &str) -> (request:
        Result<PermitRequest, (Outcome<Connection<K, T>, ()>, Report)>)
        ensures
            match managed {
                Some(pool) => {
                    &&& request matches Ok(r) && *r.semaphore == pool@.semaphore && r.timeout_secs
                        == pool@.config.timeout
                },
                None => {
                    &&& request matches Err(failed) && (failed.0 matches Outcome::Failure(failure)
                        && failure.0.code == 500) && failed.1@ == headline(
                        "Missing database fairing for `"@ + database@ + "`"@,
                    )
                },
            },
    {
        match managed {
            Some(pool) => Ok(pool.get()),
            None => {
                let mut heading = join("Missing database fairing for `", database);
                heading.append("`");
                Err(
                    (
                        Outcome::Failure((Status::internal_server_error(), ())),
                        Report::headline(heading),
                    ),
                )
            },
        }
    }

    /// Ends the request guard: it passes with the connection, or fails with status
    /// `ServiceUnavailable` (`503`) if none was to be had.
    pub fn guard(got: Result<Connection<K, T>, GetError>) -> (outcome: Outcome<
        Connection<K, T>,
        (),
    >)
        ensures
            match got {
                Ok(connection) => outcome == Outcome::<Connection<K, T>, ()>::Success(connection),
                Err(_) => outcome matches Outcome::Failure(failure) && failure.0.code == 503,
            },
    {
        let result: Result<Connection<K, T>, ()> = match got {
            Ok(connection) => Ok(connection),
            Err(_) => Err(()),
        };
        into_outcome(result, Status::service_unavailable())
    }

    /// Ends the getting of one connection: there is none if it was not to be had.
    pub fn one(got: Result<Connection<K, T>, GetError>) -> (connection: Option<Connection<K, T>>)
        ensures
            connection == (match got {
                Ok(connection) => Some(connection),
                Err(_) => None,
            }),
    {
        match got {
            Ok(connection) => Some(connection),
            Err(_) => None,
        }
    }

    /// Why nothing can be run on the connection any more, if so.
    pub fn run_refusal(&self) -> (refusal: Option<&'static str>)
        ensures
            refusal is None <==> self@.connection is Some,
            refusal matches Some(text) ==> text@
                == "internal invariant broken: self.connection is Some"@,
    {
        if self.connection.is_some() {
            None
        } else {
            Some("internal invariant broken: self.connection is Some")
        }
    }

    /// Runs `f` on the connection.
    pub fn run<F, R>(&mut self, f: F) -> (value: R) where F: FnOnce(&mut T) -> R
        requires
            old(self)@.connection is Some,
            forall|connection: &mut T|
                *connection == old(self)@.connection->0 ==> f.requires((connection,)),
        ensures
            final(self)@.connection is Some,
            final(self)@.permit == old(self)@.permit,
            exists|connection: &mut T|
                *connection == old(self)@.connection->0 && *final(connection)
                    == final(self)@.connection->0 && #[trigger] f.ensures((connection,), value),
    {
        f(self.connection.as_mut().unwrap())
    }

    /// Releases the next part: the connection first, so that the permit is only given back after
    /// it.
    pub fn release_next(&mut self) -> (part: Option<Released<T>>)
        ensures
            part == old(self)@.next_release(),
            final(self)@ == old(self)@.after_release(),
    {
        if let Some(connection) = self.connection.take() {
            return Some(Released::Connection(connection));
        }
        if let Some(permit) = self.permit.take() {
            return Some(Released::Permit(permit));
        }
        None
    }
}

/// How many of the connections still hold one.
pub open spec fn connections_held<T>(held: Seq<ConnectionView<T>>) -> nat
    decreases held.len(),
{
    if held.len() == 0 {
        0
    } else {
        connections_held(held.drop_last()) + (if held.last().connection is Some { 1nat } else { 0 })
    }
}

/// How many of the connections still hold a permit.
pub open spec fn permits_held<T>(held: Seq<ConnectionView<T>>) -> nat
    decreases held.len(),
{
    if held.len() == 0 {
        0
    } else {
        permits_held(held.drop_last()) + (if held.last().permit is Some { 1nat } else { 0 })
    }
}

/// However many connections are out, no more of them are held than permits.
pub proof fn connections_need_permits<T>(held: Seq<ConnectionView<T>>)
    requires
        forall|i: int| 0 <= i < held.len() ==> (#[trigger] held[i]).permit_outlives(),
    ensures
        connections_held(held) <= permits_held(held),
    decreases held.len(),
{
    if held.len() > 0 {
        connections_need_permits(held.drop_last());
    }
}

/// A connection is held only while its permit is: that holds of one that is handed out, and
/// releasing a part keeps it.
pub proof fn permit_outlives_the_connection<T>(
    connection: T,
    permit: tokio::sync::OwnedSemaphorePermit,
    held: ConnectionView<T>,
)
    ensures
        (ConnectionView { connection: Some(connection), permit: Some(permit) }).permit_outlives(),
        held.permit_outlives() ==> held.after_release().permit_outlives(),
{
}

/// The permit of a connection is given back only after the connection, and then nothing is left.
pub proof fn permit_is_released_last<T>(connection: T, permit: tokio::sync::OwnedSemaphorePermit)
    ensures
        ({
            let out = ConnectionView { connection: Some(connection), permit: Some(permit) };
            &&& out.next_release() == Some(Released::Connection(connection))
            &&& out.after_release().next_release() == Some(Released::<T>::Permit(permit))
            &&& out.after_release().after_release().next_release() is None
        }),
{
}

/// All clones of a pool hand out connections under one semaphore, which was made with as many
/// permits as the pool has connections.
pub proof fn clones_share_the_permits<P: Clone>(pool: PoolView<P>, copy: PoolView<P>)
    requires
        pool.is_sized(),
        pool.is_cloned_as(copy),
    ensures
        copy.semaphore == pool.semaphore,
        copy.is_sized(),
{
}

} // verus!
