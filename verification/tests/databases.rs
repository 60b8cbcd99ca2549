use std::sync::Arc;

use tokio::sync::{OwnedSemaphorePermit, Semaphore};

use rocket::databases::connection::{
    settle_blocking, Connection, ConnectionPool, ConnectionRequest, GetError, Joined, Released,
    Settled,
};
use rocket::databases::{Config, Error};
use rocket::outcome::Outcome;

struct Db;

type Pool = ConnectionPool<Db, String>;
type Conn = Connection<Db, Vec<u8>>;

fn pool(pool_size: u32) -> Pool {
    let config = Config { pool_size, timeout: 5 };
    match Pool::fairing("db", Ok(config), |name| Ok(format!("pool of {}", name))) {
        Ok(pool) => pool,
        Err(report) => panic!("{}", report.heading),
    }
}

fn permit(pool: &Pool) -> Option<OwnedSemaphorePermit> {
    pool.get().semaphore.try_acquire_owned().ok()
}

fn request(pool: &Pool) -> Result<ConnectionRequest<String>, GetError> {
    pool.with_permit(permit(pool))
}

fn connection(pool: &Pool) -> Conn {
    request(pool).ok().unwrap().finish(Ok(vec![1])).ok().unwrap()
}

#[test]
fn attached_pool_has_its_permits() {
    let pool = pool(3);
    let request = pool.get();
    assert_eq!(request.timeout_secs, 5);
    assert_eq!(request.semaphore.available_permits(), 3);
    assert!(pool.get_refusal().is_none());
}

#[test]
fn missing_configuration_is_reported() {
    let result = Pool::fairing("my_db", Err("missing `url`".to_string()), |_| {
        panic!("no pool is made without a configuration")
    });
    let report = result.err().unwrap();
    assert_eq!(report.span, None);
    assert_eq!(report.heading, "database config error for pool named `my_db`");
    assert_eq!(report.lines, vec!["missing `url`"]);
}

#[test]
fn failed_pools_are_reported() {
    let fails = |error: Error| {
        let config = Config { pool_size: 1, timeout: 1 };
        Pool::fairing("x", Ok(config), |_| Err(error)).err().unwrap()
    };
    let report = fails(Error::Config("a".to_string()));
    assert_eq!(report.heading, "database config error for pool named `x`");
    assert_eq!(report.lines, vec!["a"]);
    let report = fails(Error::Pool("b".to_string()));
    assert_eq!(report.heading, "database pool init error for pool named `x`");
    assert_eq!(report.lines, vec!["b"]);
    let report = fails(Error::Custom("c".to_string()));
    assert_eq!(report.heading, "database pool manager error for pool named `x`");
    assert_eq!(report.lines, vec!["c"]);
}

#[test]
fn connection_is_got_under_a_permit() {
    let pool = pool(2);
    let request = request(&pool).ok().unwrap();
    assert_eq!(request.pool, "pool of db");
    assert_eq!(request.timeout_secs, 5);
    assert_eq!(pool.get().semaphore.available_permits(), 1);
    let got: Result<Conn, GetError> = request.finish(Ok(vec![7]));
    let mut connection = got.ok().unwrap();
    assert!(connection.run_refusal().is_none());
    assert_eq!(connection.run(|c| c.remove(0)), 7);
    assert_eq!(connection.run(|c| c.len()), 0);
    assert_eq!(pool.get().semaphore.available_permits(), 1);
}

#[test]
fn late_permit_is_reported() {
    let pool = pool(1);
    let held = permit(&pool);
    assert!(held.is_some());
    let error = request(&pool).err().unwrap();
    assert!(matches!(error, GetError::TimedOut));
    assert_eq!(error.report().heading, "database connection retrieval timed out");
    assert!(error.report().lines.is_empty());
}

#[test]
fn failed_connection_gives_the_permit_back() {
    let pool = pool(1);
    let request = request(&pool).ok().unwrap();
    assert_eq!(pool.get().semaphore.available_permits(), 0);
    let got: Result<Conn, GetError> = request.finish(Err("refused".to_string()));
    let error = got.err().unwrap();
    assert_eq!(error.report().heading, "failed to get a database connection: refused");
    assert_eq!(pool.get().semaphore.available_permits(), 1);
}

#[test]
fn permit_is_given_back_after_the_connection() {
    let pool = pool(1);
    let mut connection = connection(&pool);
    assert_eq!(pool.get().semaphore.available_permits(), 0);
    match connection.release_next() {
        Some(Released::Connection(c)) => assert_eq!(c, vec![1]),
        _ => panic!("the connection comes first"),
    }
    assert_eq!(
        connection.run_refusal(),
        Some("internal invariant broken: self.connection is Some")
    );
    assert_eq!(pool.get().semaphore.available_permits(), 0);
    assert!(matches!(connection.release_next(), Some(Released::Permit(_))));
    assert_eq!(pool.get().semaphore.available_permits(), 1);
    assert!(connection.release_next().is_none());
}

#[test]
fn clones_share_their_permits() {
    let pool = pool(2);
    let copy = pool.clone();
    let held = permit(&copy);
    assert!(held.is_some());
    assert_eq!(pool.get().semaphore.available_permits(), 1);
    assert!(Arc::ptr_eq(&pool.get().semaphore, &copy.get().semaphore));
    assert_eq!(copy.get().timeout_secs, 5);
    let managed = Pool::get_pool(Some(&pool)).unwrap();
    assert!(Arc::ptr_eq(&pool.get().semaphore, &managed.get().semaphore));
    assert_eq!(request(&managed).ok().unwrap().pool, "pool of db");
    assert!(Pool::get_pool(None).is_none());
}

#[test]
fn one_connection_is_got_from_a_managed_pool() {
    let pool = pool(4);
    let semaphore: Arc<Semaphore> = Pool::get_one(Some(&pool)).unwrap().semaphore;
    assert!(Arc::ptr_eq(&semaphore, &pool.get().semaphore));
    assert!(Pool::get_one(None).is_none());
    let mut one = Conn::one(Ok(connection(&pool))).unwrap();
    assert_eq!(one.run(|c| c.clone()), vec![1]);
    assert!(Conn::one(Err(GetError::TimedOut)).is_none());
}

#[test]
fn dropped_pool_hands_out_nothing() {
    let mut pool = pool(1);
    assert_eq!(pool.take_pool(), Some("pool of db".to_string()));
    assert_eq!(pool.take_pool(), None);
    assert_eq!(pool.get_refusal(), Some("internal invariant broken: self.pool is Some"));
}

#[test]
fn late_permit_is_reported_whether_there_is_a_pool_or_not() {
    let mut pool = pool(1);
    pool.take_pool();
    assert!(matches!(pool.with_permit(None).err(), Some(GetError::TimedOut)));
}

#[test]
fn permits_add_up_to_the_pool_size() {
    let pool = pool(3);
    let free = || pool.get().semaphore.available_permits();
    let waiting = request(&pool).ok().unwrap();
    let mut live = vec![connection(&pool), connection(&pool)];
    assert_eq!(free() + 1 + live.len(), 3);
    assert!(request(&pool).is_err());
    let got: Result<Conn, GetError> = waiting.finish(Err("gone".to_string()));
    assert!(got.is_err());
    assert_eq!(free() + live.len(), 3);
    live.push(connection(&pool));
    assert!(request(&pool).is_err());
    live.pop();
    assert_eq!(free() + live.len(), 3);
    assert!(request(&pool).is_ok());
}

#[test]
fn guard_without_a_pool_fails() {
    let none: Option<&Pool> = None;
    let (outcome, report) = Conn::from_request(none, "app::Db").err().unwrap();
    match outcome {
        Outcome::Failure((status, ())) => assert_eq!(status.code, 500),
        _ => panic!("the guard fails"),
    }
    assert_eq!(report.heading, "Missing database fairing for `app::Db`");
    let pool = pool(1);
    let request = Conn::from_request(Some(&pool), "app::Db").ok().unwrap();
    assert_eq!(request.timeout_secs, 5);
}

#[test]
fn guard_passes_with_a_connection() {
    let pool = pool(1);
    assert!(matches!(Conn::guard(Ok(connection(&pool))), Outcome::Success(_)));
    match Conn::guard(Err(GetError::TimedOut)) {
        Outcome::Failure((status, ())) => assert_eq!(status.code, 503),
        _ => panic!("the guard fails"),
    }
}

#[test]
fn ends_of_jobs_are_propagated() {
    let returned: Joined<u8, &str> = Joined::Returned(4);
    assert!(matches!(settle_blocking(returned), Settled::Return(4)));
    let panicked: Joined<u8, &str> = Joined::Panicked("ouch");
    assert!(matches!(settle_blocking(panicked), Settled::Resume("ouch")));
    let cancelled: Joined<u8, &str> = Joined::Cancelled;
    let text = "spawn_blocking tasks are never cancelled";
    assert!(matches!(settle_blocking(cancelled), Settled::Unreachable(t) if t == text));
}
