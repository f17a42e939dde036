use deadpool::managed::{Manager as PoolManager, Metrics, Pool, PoolError, RecycleResult, TimeoutType};
use deadpool::Runtime;
use deadpool_surrealdb::manager::{Operation, Step};
use deadpool_surrealdb::{Config, Credentials, Error, Manager};
use std::future::Future;
use std::sync::atomic::{AtomicBool, AtomicUsize, Ordering};
use std::sync::Arc;
use std::time::{Duration, Instant};

/// A stand-in for the database: it counts the calls and answers as told.
struct Remote {
    reachable: AtomicBool,
    hangs: AtomicBool,
    refusals: AtomicUsize,
    connects: AtomicUsize,
    sign_ins: AtomicUsize,
    selections: AtomicUsize,
}

impl Remote {
    fn new() -> Arc<Remote> {
        Arc::new(Remote {
            reachable: AtomicBool::new(true),
            hangs: AtomicBool::new(false),
            refusals: AtomicUsize::new(0),
            connects: AtomicUsize::new(0),
            sign_ins: AtomicUsize::new(0),
            selections: AtomicUsize::new(0),
        })
    }

    fn answer(&self, operation: &Operation<'_>) -> Result<(), String> {
        match operation {
            Operation::Connect { .. } => {
                self.connects.fetch_add(1, Ordering::SeqCst);
                if self.reachable.load(Ordering::SeqCst) {
                    Ok(())
                } else {
                    Err("unreachable".to_string())
                }
            }
            Operation::SignIn(_) => {
                self.sign_ins.fetch_add(1, Ordering::SeqCst);
                let refuse = self
                    .refusals
                    .fetch_update(Ordering::SeqCst, Ordering::SeqCst, |left| left.checked_sub(1))
                    .is_ok();
                if refuse {
                    Err("denied".to_string())
                } else {
                    Ok(())
                }
            }
            Operation::Select { .. } => {
                self.selections.fetch_add(1, Ordering::SeqCst);
                Ok(())
            }
        }
    }
}

/// Runs the library's protocol against the stand-in, as a pool's manager.
struct Scripted {
    manager: Manager,
    remote: Arc<Remote>,
}

impl PoolManager for Scripted {
    type Type = usize;
    type Error = Error;

    async fn create(&self) -> Result<usize, Error> {
        if self.remote.hangs.load(Ordering::SeqCst) {
            tokio::time::sleep(Duration::from_secs(15)).await;
        }
        let mut operation = self.manager.create_first();
        loop {
            let stage = operation.stage();
            let outcome = self.remote.answer(&operation);
            match self.manager.create_next(stage, outcome) {
                Step::Perform(next) => operation = next,
                Step::Ready => return Ok(self.remote.connects.load(Ordering::SeqCst)),
                Step::Failed(error) => return Err(error),
            }
        }
    }

    async fn recycle(&self, _: &mut usize, _: &Metrics) -> RecycleResult<Error> {
        match self.manager.recycle_first() {
            None => Ok(()),
            Some(request) => {
                let outcome = self.remote.answer(&Operation::SignIn(request));
                self.manager.recycle_result(outcome)
            }
        }
    }
}

fn config(host: &str, max_connections: u32, connect_timeout: u64) -> Config {
    let mut cfg = Config::new(
        host.to_string(),
        "test".to_string(),
        "test".to_string(),
        Credentials::Root { user: "root".to_string(), pass: "root".to_string() },
    );
    cfg.max_connections = max_connections;
    cfg.connect_timeout = connect_timeout;
    cfg
}

fn pool(cfg: &Config, remote: &Arc<Remote>) -> Pool<Scripted> {
    let scripted = Scripted { manager: Manager::from_config(cfg), remote: remote.clone() };
    Pool::builder(scripted).config(cfg.pool_config()).runtime(Runtime::Tokio1).build().unwrap()
}

fn run<F: Future>(work: F) -> F::Output {
    tokio::runtime::Builder::new_current_thread().enable_time().build().unwrap().block_on(work)
}

#[test]
fn pool_takes_its_size_from_the_configuration() {
    let remote = Remote::new();
    let pool = pool(&config("ws://db:8000", 7, 1), &remote);
    assert_eq!(pool.status().max_size, 7);
    assert_eq!(pool.status().size, 0);
}

#[test]
fn pool_without_runtime_is_refused() {
    let cfg = config("ws://db:8000", 2, 1);
    let scripted = Scripted { manager: Manager::from_config(&cfg), remote: Remote::new() };
    let built = Pool::<Scripted>::builder(scripted).config(cfg.pool_config()).build();
    assert!(built.is_err());
}

#[test]
fn never_more_connections_than_the_maximum() {
    run(async {
        let remote = Remote::new();
        let pool = pool(&config("ws://db:8000", 2, 1), &remote);
        let first = pool.get().await.unwrap();
        let _second = pool.get().await.unwrap();
        assert_eq!(pool.status().size, 2);

        let asked = Instant::now();
        let third = pool.get().await;
        let waited = asked.elapsed();
        assert!(matches!(third, Err(PoolError::Timeout(TimeoutType::Wait))));
        assert!(waited >= Duration::from_millis(900), "gave up after {waited:?}");
        assert!(waited < Duration::from_secs(5), "gave up after {waited:?}");
        assert_eq!(pool.status().size, 2);
        assert_eq!(remote.connects.load(Ordering::SeqCst), 2);

        drop(first);
        let _fourth = pool.get().await.unwrap();
        assert_eq!(pool.status().size, 2);
        assert_eq!(remote.connects.load(Ordering::SeqCst), 2);
    });
}

#[test]
fn third_borrow_of_two_gives_up_after_five_seconds() {
    run(async {
        let remote = Remote::new();
        let pool = pool(&config("mem://", 2, 5), &remote);
        let _first = pool.get().await.unwrap();
        let _second = pool.get().await.unwrap();
        let asked = Instant::now();
        let third = pool.get().await;
        let waited = asked.elapsed();
        assert!(matches!(third, Err(PoolError::Timeout(TimeoutType::Wait))));
        assert!(waited >= Duration::from_millis(4900), "gave up after {waited:?}");
        assert!(waited < Duration::from_secs(8), "gave up after {waited:?}");
        assert_eq!(pool.status().size, 2);
    });
}

#[test]
fn waiting_borrower_is_served_on_release() {
    run(async {
        let remote = Remote::new();
        let pool = pool(&config("mem://", 1, 5), &remote);
        let held = pool.get().await.unwrap();
        let release = tokio::spawn(async move {
            tokio::time::sleep(Duration::from_millis(200)).await;
            drop(held);
        });
        let asked = Instant::now();
        let lease = pool.get().await;
        let waited = asked.elapsed();
        release.await.unwrap();
        assert!(lease.is_ok());
        assert!(waited >= Duration::from_millis(150), "served after {waited:?}");
        assert!(waited < Duration::from_secs(4), "served after {waited:?}");
        assert_eq!(remote.connects.load(Ordering::SeqCst), 1);
    });
}

#[test]
fn ten_borrowers_share_three_connections() {
    run(async {
        let remote = Remote::new();
        let pool = pool(&config("ws://db:8000", 3, 5), &remote);
        let live = Arc::new(AtomicUsize::new(0));
        let most = Arc::new(AtomicUsize::new(0));
        let mut borrowers = Vec::new();
        for _ in 0..10 {
            let pool = pool.clone();
            let live = live.clone();
            let most = most.clone();
            borrowers.push(tokio::spawn(async move {
                let lease = pool.get().await.unwrap();
                let now = live.fetch_add(1, Ordering::SeqCst) + 1;
                most.fetch_max(now, Ordering::SeqCst);
                assert!(pool.status().size <= 3);
                tokio::time::sleep(Duration::from_millis(20)).await;
                live.fetch_sub(1, Ordering::SeqCst);
                drop(lease);
            }));
        }
        for borrower in borrowers {
            borrower.await.unwrap();
        }
        assert_eq!(most.load(Ordering::SeqCst), 3);
        assert_eq!(remote.connects.load(Ordering::SeqCst), 3);
        assert_eq!(pool.status().size, 3);
        assert_eq!(pool.status().available, 3);
    });
}

#[test]
fn every_kind_of_credentials_gets_a_connection() {
    run(async {
        let kinds = [
            Credentials::Root { user: String::new(), pass: String::new() },
            Credentials::Namespace {
                user: "test".to_string(),
                pass: "test".to_string(),
                ns: "test".to_string(),
            },
            Credentials::Database {
                user: "test".to_string(),
                pass: "test".to_string(),
                ns: "test".to_string(),
                db: "test".to_string(),
            },
        ];
        for creds in kinds {
            let remote = Remote::new();
            let mut cfg = config("ws://db:8000", 2, 1);
            cfg.creds = creds;
            let pool = pool(&cfg, &remote);
            assert!(pool.get().await.is_ok());
            assert_eq!(remote.connects.load(Ordering::SeqCst), 1);
            assert_eq!(remote.sign_ins.load(Ordering::SeqCst), 1);
            assert_eq!(remote.selections.load(Ordering::SeqCst), 1);
        }
    });
}

#[test]
fn one_connection_is_reused() {
    run(async {
        let remote = Remote::new();
        let pool = pool(&config("ws://db:8000", 1, 1), &remote);
        for _ in 0..5 {
            let lease = pool.get().await.unwrap();
            assert_eq!(*lease, 1);
            drop(lease);
        }
        assert_eq!(remote.connects.load(Ordering::SeqCst), 1);
        assert_eq!(remote.selections.load(Ordering::SeqCst), 1);
        assert_eq!(remote.sign_ins.load(Ordering::SeqCst), 5);
        assert_eq!(pool.status().size, 1);
    });
}

#[test]
fn refused_credentials_leave_no_connection_behind() {
    run(async {
        let remote = Remote::new();
        remote.refusals.store(usize::MAX, Ordering::SeqCst);
        let pool = pool(&config("ws://db:8000", 2, 1), &remote);
        let before = pool.status().size;
        match pool.get().await {
            Err(PoolError::Backend(Error::Auth(detail))) => {
                assert_eq!(detail, "Root auth failed: denied")
            }
            Err(other) => panic!("expected an authentication error, got {other:?}"),
            Ok(_) => panic!("expected an authentication error, got a connection"),
        }
        assert_eq!(pool.status().size, before);
        assert_eq!(pool.status().available, 0);
        assert_eq!(remote.selections.load(Ordering::SeqCst), 0);

        remote.refusals.store(0, Ordering::SeqCst);
        let _first = pool.get().await.unwrap();
        let _second = pool.get().await.unwrap();
        assert_eq!(pool.status().size, 2);
    });
}

#[test]
fn in_memory_engine_is_never_signed_in_to() {
    run(async {
        let remote = Remote::new();
        remote.refusals.store(usize::MAX, Ordering::SeqCst);
        let pool = pool(&config("mem://", 2, 1), &remote);
        for _ in 0..3 {
            let first = pool.get().await.unwrap();
            let second = pool.get().await.unwrap();
            drop(first);
            drop(second);
        }
        assert_eq!(remote.sign_ins.load(Ordering::SeqCst), 0);
        assert_eq!(remote.connects.load(Ordering::SeqCst), 2);
        assert_eq!(remote.selections.load(Ordering::SeqCst), 2);
    });
}

#[test]
fn broken_connection_is_replaced_unseen() {
    run(async {
        let remote = Remote::new();
        let pool = pool(&config("ws://db:8000", 1, 1), &remote);
        let lease = pool.get().await.unwrap();
        assert_eq!(*lease, 1);
        drop(lease);

        remote.refusals.store(1, Ordering::SeqCst);
        let lease = pool.get().await.unwrap();
        assert_eq!(*lease, 2);
        assert_eq!(remote.connects.load(Ordering::SeqCst), 2);
        assert_eq!(pool.status().size, 1);
    });
}

#[test]
fn unreachable_address_fails_the_borrow() {
    run(async {
        let remote = Remote::new();
        remote.reachable.store(false, Ordering::SeqCst);
        let pool = pool(&config("ws://non-existent-host:8000", 2, 1), &remote);
        match pool.get().await {
            Err(PoolError::Backend(Error::Connect(detail))) => {
                assert_eq!(detail, "Failed to connect: unreachable")
            }
            Err(other) => panic!("expected a connect error, got {other:?}"),
            Ok(_) => panic!("expected a connect error, got a connection"),
        }
        assert_eq!(pool.status().size, 0);
        assert_eq!(remote.sign_ins.load(Ordering::SeqCst), 0);
    });
}

#[test]
fn silent_address_times_out() {
    run(async {
        let remote = Remote::new();
        remote.hangs.store(true, Ordering::SeqCst);
        let pool = pool(&config("ws://non-existent-host:8000", 2, 1), &remote);
        let asked = Instant::now();
        let lease = pool.get().await;
        let waited = asked.elapsed();
        assert!(matches!(lease, Err(PoolError::Timeout(TimeoutType::Create))));
        assert!(waited >= Duration::from_millis(900), "gave up after {waited:?}");
        assert!(waited < Duration::from_secs(5), "gave up after {waited:?}");
    });
}
