use bouvet::config::SandboxConfig;
use bouvet::pool::{Acquire, FillStep, PoolConfig, PoolStats, SandboxPool, FIRST_POOL_CID};
use bouvet::sandbox::{Sandbox, SandboxId};
use std::time::Duration;

#[test]
fn test_pool_config_defaults() {
    let config = PoolConfig::default();
    assert_eq!(config.min_size, 3);
    assert_eq!(config.max_concurrent_boots, 2);
    assert_eq!(config.fill_interval, Duration::from_secs(1));
}

#[test]
fn test_pool_stats_default() {
    let stats = PoolStats::default();
    assert_eq!(stats.warm_hits(), 0);
    assert_eq!(stats.cold_misses(), 0);
    assert_eq!(stats.created(), 0);
    assert_eq!(stats.destroyed(), 0);
}

#[test]
fn test_pool_new() {
    let config = PoolConfig::default();
    let pool: SandboxPool<u8> = SandboxPool::new(config);
    assert!(!pool.is_running());
}

#[test]
fn test_pool_size_empty() {
    let config = PoolConfig::default();
    let pool: SandboxPool<u8> = SandboxPool::new(config);
    assert_eq!(pool.size(), 0);
}

fn template() -> SandboxConfig {
    SandboxConfig::builder()
        .kernel("/k")
        .rootfs("/r")
        .chroot_path("/srv/box")
        .build()
        .unwrap()
}

fn pool_of(min_size: usize, max_concurrent_boots: usize) -> SandboxPool<u32> {
    SandboxPool::new(PoolConfig {
        min_size,
        max_concurrent_boots,
        fill_interval: Duration::from_millis(10),
        sandbox_config: template(),
    })
}

fn boot(config: SandboxConfig, handle: u32) -> Sandbox<u32> {
    Sandbox::ready(SandboxId(handle as u128), config, handle, 0)
}

fn configs(step: FillStep) -> Vec<SandboxConfig> {
    match step {
        FillStep::Boot(configs) => configs,
        FillStep::Exit => panic!("the filler ended"),
    }
}

#[test]
fn test_pool_warm_up() {
    let mut pool = pool_of(2, 2);
    assert!(pool.start());
    assert!(!pool.start());
    assert!(pool.is_running());
    assert_eq!(pool.config().min_size, 2);

    let boots = configs(pool.fill_tick());
    assert_eq!(boots.len(), 2);
    assert_eq!(boots[0].vsock_cid, FIRST_POOL_CID);
    assert_eq!(boots[1].vsock_cid, FIRST_POOL_CID + 1);
    assert_eq!(boots[0].kernel_path, "/k");
    assert_eq!(boots[0].chroot_path, "/srv/box");
    assert_eq!(pool.boots_in_flight(), 2);
    // Nothing more may start while both boots are under way.
    assert!(configs(pool.fill_tick()).is_empty());

    let mut handle: u32 = 0;
    for config in boots {
        assert!(pool.boot_may_proceed());
        handle += 1;
        assert!(pool.boot_finished(Some(boot(config, handle))).is_none());
    }
    assert_eq!(pool.boots_in_flight(), 0);
    assert_eq!(pool.size(), 2);
    assert_eq!(pool.stats().created(), 2);
    // The pool is full: a tick starts nothing.
    assert!(configs(pool.fill_tick()).is_empty());

    // Two acquisitions are served from the pool, in the order of arrival.
    for expected in 1..=2u32 {
        match pool.acquire_next() {
            Acquire::Candidate(sandbox) => {
                assert_eq!(*sandbox.handle(), expected);
                pool.settle(true);
            }
            Acquire::ColdStart(_) => panic!("the pool was warm"),
        }
        assert_eq!(pool.stats().warm_hits(), expected as u64);
    }
    assert_eq!(pool.size(), 0);
    // The third finds the pool empty.
    match pool.acquire_next() {
        Acquire::ColdStart(config) => assert_eq!(config.vsock_cid, FIRST_POOL_CID + 2),
        Acquire::Candidate(_) => panic!("the pool was empty"),
    }
    assert_eq!(pool.stats().cold_misses(), 1);
    assert_eq!(pool.stats().warm_hits(), 2);
    // A cold start is not counted as created by the pool.
    assert_eq!(pool.stats().created(), 2);
    assert_eq!(pool.stats().destroyed(), 0);
}

#[test]
fn test_pool_boot_concurrency_is_capped() {
    let mut pool = pool_of(5, 2);
    let first = configs(pool.fill_tick());
    assert_eq!(first.len(), 2);
    assert!(configs(pool.fill_tick()).is_empty());
    // One boot fails, one succeeds.
    assert!(pool.boot_finished(None).is_none());
    assert!(pool.boot_finished(Some(boot(template(), 1))).is_none());
    assert_eq!(pool.size(), 1);
    assert_eq!(pool.stats().created(), 1);
    let second = configs(pool.fill_tick());
    assert_eq!(second.len(), 2);
    assert_eq!(second[0].vsock_cid, FIRST_POOL_CID + 2);
    assert_eq!(second[1].vsock_cid, FIRST_POOL_CID + 3);
    // Ending more boots than were started leaves the count at zero.
    for _ in 0..4 {
        pool.boot_finished(None);
    }
    assert_eq!(pool.boots_in_flight(), 0);
}

#[test]
fn test_pool_overfill_is_handed_back() {
    let mut pool = pool_of(1, 3);
    assert_eq!(configs(pool.fill_tick()).len(), 1);
    assert!(pool.boot_finished(Some(boot(template(), 1))).is_none());
    // A sandbox that lost the race is handed back, to be destroyed.
    let excess = pool.boot_finished(Some(boot(template(), 2))).unwrap();
    assert_eq!(*excess.handle(), 2);
    assert_eq!(pool.size(), 1);
    assert_eq!(pool.stats().created(), 1);
}

#[test]
fn test_pool_discards_unhealthy() {
    let mut pool = pool_of(2, 2);
    for (i, config) in configs(pool.fill_tick()).into_iter().enumerate() {
        pool.boot_finished(Some(boot(config, i as u32 + 1)));
    }
    assert!(matches!(pool.acquire_next(), Acquire::Candidate(_)));
    pool.settle(false);
    assert_eq!(pool.stats().destroyed(), 1);
    assert_eq!(pool.stats().warm_hits(), 0);
    assert!(matches!(pool.acquire_next(), Acquire::Candidate(_)));
    pool.settle(true);
    assert_eq!(pool.stats().warm_hits(), 1);
}

#[test]
fn test_pool_shutdown() {
    let mut pool = pool_of(3, 3);
    pool.start();
    let boots = configs(pool.fill_tick());
    let mut late = None;
    for (i, config) in boots.into_iter().enumerate() {
        if i < 2 {
            pool.boot_finished(Some(boot(config, i as u32 + 1)));
        } else {
            late = Some(config);
        }
    }
    assert!(pool.begin_shutdown());
    assert!(!pool.is_running());
    assert!(matches!(pool.fill_tick(), FillStep::Exit));
    assert!(!pool.boot_may_proceed());
    // A boot that ends after the shutdown is handed back.
    let excess = pool.boot_finished(Some(boot(late.unwrap(), 3))).unwrap();
    assert_eq!(*excess.handle(), 3);
    let drained: Vec<u32> = pool.drain().iter().map(|s| *s.handle()).collect();
    assert_eq!(drained, vec![1, 2]);
    assert_eq!(pool.stats().destroyed(), 2);
    assert_eq!(pool.size(), 0);
    // A second shutdown finds nothing to do.
    assert!(!pool.begin_shutdown());
    assert!(pool.drain().is_empty());
    assert_eq!(pool.stats().destroyed(), 2);
}

#[test]
fn test_pool_of_size_zero() {
    let mut pool = pool_of(0, 2);
    assert!(configs(pool.fill_tick()).is_empty());
    assert!(pool.boot_finished(Some(boot(template(), 1))).is_some());
    assert!(matches!(pool.acquire_next(), Acquire::ColdStart(_)));
    let mut idle = pool_of(2, 0);
    assert!(configs(idle.fill_tick()).is_empty());
}
