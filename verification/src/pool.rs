//! The warm pool: a queue of sandboxes that were booted ahead of demand.
//!
//! The pool here is the bookkeeping of the warm pool, without its clock and
//! its tasks. A filler calls [`SandboxPool::fill_tick`] on every tick and
//! boots a sandbox for each configuration that it is handed; each boot ends
//! with [`SandboxPool::boot_finished`]. A caller that wants a sandbox goes
//! through [`SandboxPool::acquire_next`] and [`SandboxPool::settle`].

use crate::config::{SandboxConfig, SandboxConfigView};
use crate::sandbox::Sandbox;
use crate::time::{duration_from_secs, from_secs};
use std::collections::VecDeque;
use std::time::Duration;
use vstd::prelude::*;

verus! {

/// The first guest context ID that a pool hands out. Lower values are left
/// to callers that assign context IDs themselves.
pub const FIRST_POOL_CID: u32 = 10000;

/// Configuration of the sandbox pool.
#[derive(Debug)]
pub struct PoolConfig {
    /// Number of warm sandboxes to maintain (default 3).
    pub min_size: usize,
    /// Maximum number of concurrent VM boots during pool filling (default 2).
    pub max_concurrent_boots: usize,
    /// Interval between pool fill attempts (default one second).
    pub fill_interval: Duration,
    /// Template of the configuration of new sandboxes.
    pub sandbox_config: SandboxConfig,
}

/// The content of a [`PoolConfig`].
pub struct PoolConfigView {
    pub min_size: usize,
    pub max_concurrent_boots: usize,
    pub fill_interval: Duration,
    pub sandbox_config: SandboxConfigView,
}

impl View for PoolConfig {
    type V = PoolConfigView;

    open spec fn view(&self) -> PoolConfigView {
        PoolConfigView {
            min_size: self.min_size,
            max_concurrent_boots: self.max_concurrent_boots,
            fill_interval: self.fill_interval,
            sandbox_config: self.sandbox_config@,
        }
    }
}

impl PoolConfig {
    /// Three warm sandboxes, two boots at a time, a tick every second, and
    /// the default sandbox configuration.
    pub open spec fn default_view() -> PoolConfigView {
        PoolConfigView {
            min_size: 3,
            max_concurrent_boots: 2,
            fill_interval: duration_from_secs(1),
            sandbox_config: SandboxConfig::default_view(),
        }
    }

    /// A copy with the same content.
    pub fn duplicate(&self) -> (r: Self)
        ensures
            r@ == self@,
    {
        PoolConfig {
            min_size: self.min_size,
            max_concurrent_boots: self.max_concurrent_boots,
            fill_interval: self.fill_interval,
            sandbox_config: self.sandbox_config.duplicate(),
        }
    }
}

impl Default for PoolConfig {
    fn default() -> (r: Self)
        ensures
            r@ == PoolConfig::default_view(),
    {
        PoolConfig {
            min_size: 3,
            max_concurrent_boots: 2,
            fill_interval: from_secs(1),
            sandbox_config: SandboxConfig::default(),
        }
    }
}

/// The successor of a counter, which starts over after the largest value.
pub open spec fn bumped(n: u64) -> u64 {
    if n == u64::MAX {
        0
    } else {
        (n + 1) as u64
    }
}

/// The context ID handed out `k` allocations after `start`. The counter
/// starts over after the largest 32-bit value.
pub open spec fn cid_after(start: u32, k: nat) -> u32 {
    ((start as nat + k) % 0x1_0000_0000) as u32
}

fn bump(n: u64) -> (r: u64)
    ensures
        r == bumped(n),
{
    if n == u64::MAX {
        0
    } else {
        n + 1
    }
}

/// Pool statistics.
#[derive(Debug, Clone, Copy, PartialEq, Eq, Structural)]
pub struct PoolStats {
    /// Number of sandboxes handed out from the warm pool.
    pub warm_hits: u64,
    /// Number of sandboxes that had to be built on demand.
    pub cold_misses: u64,
    /// Number of sandboxes that the filler added to the pool.
    pub created: u64,
    /// Number of sandboxes that the pool gave up.
    pub destroyed: u64,
}

impl PoolStats {
    /// The number of warm hits.
    pub fn warm_hits(&self) -> (n: u64)
        ensures
            n == self.warm_hits,
    {
        self.warm_hits
    }

    /// The number of cold misses.
    pub fn cold_misses(&self) -> (n: u64)
        ensures
            n == self.cold_misses,
    {
        self.cold_misses
    }

    /// The number of sandboxes created by the pool.
    pub fn created(&self) -> (n: u64)
        ensures
            n == self.created,
    {
        self.created
    }

    /// The number of sandboxes destroyed by the pool.
    pub fn destroyed(&self) -> (n: u64)
        ensures
            n == self.destroyed,
    {
        self.destroyed
    }
}

impl Default for PoolStats {
    fn default() -> (s: Self)
        ensures
            s == (PoolStats { warm_hits: 0, cold_misses: 0, created: 0, destroyed: 0 }),
    {
        PoolStats { warm_hits: 0, cold_misses: 0, created: 0, destroyed: 0 }
    }
}

/// What the filler is to do on a tick.
pub enum FillStep {
    /// The pool was shut down: the filler ends.
    Exit,
    /// Boot one sandbox from each of these configurations, at the same time.
    /// The list is empty where the pool is full or no boot may start.
    Boot(Vec<SandboxConfig>),
}

/// What a caller that wants a sandbox gets next.
pub enum Acquire<H> {
    /// A sandbox from the pool. It is to be health-checked, and the outcome
    /// reported with [`SandboxPool::settle`].
    Candidate(Sandbox<H>),
    /// The pool is empty: build a sandbox from this configuration.
    ColdStart(SandboxConfig),
}

/// A pool of sandboxes booted ahead of demand.
pub struct SandboxPool<H> {
    pool: VecDeque<Sandbox<H>>,
    config: PoolConfig,
    shutdown: bool,
    started: bool,
    boots_in_flight: usize,
    stats: PoolStats,
    cid_counter: u32,
}

/// The content of a [`SandboxPool`].
pub struct PoolView<H> {
    /// The warm sandboxes, the one to hand out next first.
    pub queue: Seq<Sandbox<H>>,
    /// The configuration of the pool.
    pub config: PoolConfigView,
    /// Whether the pool was shut down.
    pub shutdown: bool,
    /// Whether the filler was started and not shut down since.
    pub started: bool,
    /// The number of boots under way.
    pub boots_in_flight: nat,
    /// The counters.
    pub stats: PoolStats,
    /// The context ID to hand out next.
    pub next_cid: u32,
}

impl<H> PoolView<H> {
    /// The bounds that a pool keeps at every moment: it never holds more
    /// warm sandboxes than it is to maintain, and never boots more at a time
    /// than it may.
    pub open spec fn bounded(self) -> bool {
        &&& self.queue.len() <= self.config.min_size
        &&& self.boots_in_flight <= self.config.max_concurrent_boots
    }

    /// The number of boots that a tick starts: one for each missing sandbox,
    /// as far as boots may start, and none after a shutdown.
    pub open spec fn launches(self) -> nat {
        if self.shutdown || self.queue.len() >= self.config.min_size
            || self.boots_in_flight >= self.config.max_concurrent_boots {
            0
        } else {
            let needed = self.config.min_size - self.queue.len();
            let free = self.config.max_concurrent_boots - self.boots_in_flight;
            if needed < free {
                needed as nat
            } else {
                free as nat
            }
        }
    }

    /// The configuration of the `k`-th sandbox booted from now on: the
    /// template, with a context ID of its own.
    pub open spec fn boot_config(self, k: nat) -> SandboxConfigView {
        SandboxConfigView { vsock_cid: cid_after(self.next_cid, k), ..self.config.sandbox_config }
    }

    /// Whether a sandbox that was just booted is taken into the pool: it is
    /// unless the pool was shut down or is full.
    pub open spec fn admits(self) -> bool {
        !self.shutdown && self.queue.len() < self.config.min_size
    }

    /// The pool after a tick of the filler: unchanged after a shutdown, and
    /// otherwise with the boots that the tick starts under way, each with a
    /// context ID of its own.
    pub open spec fn ticked(self) -> PoolView<H> {
        if self.shutdown {
            self
        } else {
            PoolView {
                boots_in_flight: self.boots_in_flight + self.launches(),
                next_cid: cid_after(self.next_cid, self.launches()),
                ..self
            }
        }
    }

    /// The pool after a boot ended with `built`: one boot less is under way,
    /// and what was built is queued and counted as created where the pool
    /// admits it.
    pub open spec fn boot_ended(self, built: Option<Sandbox<H>>) -> PoolView<H> {
        let under_way: nat = if self.boots_in_flight > 0 {
            (self.boots_in_flight - 1) as nat
        } else {
            0
        };
        match built {
            Some(sandbox) if self.admits() => PoolView {
                boots_in_flight: under_way,
                queue: self.queue.push(sandbox),
                stats: PoolStats { created: bumped(self.stats.created), ..self.stats },
                ..self
            },
            _ => PoolView { boots_in_flight: under_way, ..self },
        }
    }

    /// The pool after a sandbox was asked for: without the sandbox at the
    /// front of the queue or, where the queue is empty, with one more cold
    /// miss and one context ID less to hand out.
    pub open spec fn acquired(self) -> PoolView<H> {
        if self.queue.len() > 0 {
            PoolView { queue: self.queue.drop_first(), ..self }
        } else {
            PoolView {
                next_cid: cid_after(self.next_cid, 1),
                stats: PoolStats { cold_misses: bumped(self.stats.cold_misses), ..self.stats },
                ..self
            }
        }
    }

    /// The pool after the health check of a candidate was recorded: with one
    /// more warm hit for a healthy one, and one more destroyed for an
    /// unhealthy one.
    pub open spec fn settled(self, healthy: bool) -> PoolView<H> {
        PoolView {
            stats: if healthy {
                PoolStats { warm_hits: bumped(self.stats.warm_hits), ..self.stats }
            } else {
                PoolStats { destroyed: bumped(self.stats.destroyed), ..self.stats }
            },
            ..self
        }
    }

    /// The pool after its shutdown began.
    pub open spec fn shut_down(self) -> PoolView<H> {
        PoolView { shutdown: true, started: false, ..self }
    }

    /// The pool after it was drained: empty, with every sandbox that it held
    /// counted as destroyed.
    pub open spec fn drained(self) -> PoolView<H> {
        PoolView {
            queue: Seq::empty(),
            stats: PoolStats {
                destroyed: bumped_by(self.stats.destroyed, self.queue.len()),
                ..self.stats
            },
            ..self
        }
    }
}

impl<H> View for SandboxPool<H> {
    type V = PoolView<H>;

    closed spec fn view(&self) -> PoolView<H> {
        PoolView {
            queue: self.pool@,
            config: self.config@,
            shutdown: self.shutdown,
            started: self.started,
            boots_in_flight: self.boots_in_flight as nat,
            stats: self.stats,
            next_cid: self.cid_counter,
        }
    }
}

impl<H> SandboxPool<H> {
    /// Creates a pool: empty, not started, with all counters at zero.
    pub fn new(config: PoolConfig) -> (p: Self)
        ensures
            p@ == (PoolView::<H> {
                queue: Seq::empty(),
                config: config@,
                shutdown: false,
                started: false,
                boots_in_flight: 0,
                stats: PoolStats { warm_hits: 0, cold_misses: 0, created: 0, destroyed: 0 },
                next_cid: FIRST_POOL_CID,
            }),
            p@.bounded(),
    {
        SandboxPool {
            pool: VecDeque::new(),
            config,
            shutdown: false,
            started: false,
            boots_in_flight: 0,
            stats: PoolStats::default(),
            cid_counter: FIRST_POOL_CID,
        }
    }

    /// Marks the filler as started. Returns whether it has to be launched:
    /// it has unless it was started before.
    pub fn start(&mut self) -> (launch: bool)
        ensures
            launch == !old(self)@.started,
            final(self)@ == (PoolView { started: true, ..old(self)@ }),
            old(self)@.bounded() ==> final(self)@.bounded(),
    {
        let launch: bool = !self.started;
        self.started = true;
        launch
    }

    /// One tick of the filler.
    ///
    /// After a shutdown the filler ends. Otherwise one boot is started for
    /// each sandbox that the pool is short of, as far as boots may start;
    /// each gets the template configuration with a fresh context ID.
    pub fn fill_tick(&mut self) -> (step: FillStep)
        ensures
            final(self)@ == old(self)@.ticked(),
            old(self)@.bounded() ==> final(self)@.bounded(),
            old(self)@.shutdown ==> step is Exit,
            !old(self)@.shutdown ==> {
                &&& step matches FillStep::Boot(configs)
                &&& configs@.len() == old(self)@.launches()
                &&& forall|k: int|
                    0 <= k < configs@.len() ==> (#[trigger] configs@[k])@ == old(self)@.boot_config(
                        k as nat,
                    )
            },
    {
        if self.shutdown {
            return FillStep::Exit;
        }
        let mut configs: Vec<SandboxConfig> = Vec::new();
        let current: usize = self.pool.len();
        if current >= self.config.min_size || self.boots_in_flight
            >= self.config.max_concurrent_boots {
            return FillStep::Boot(configs);
        }
        let needed: usize = self.config.min_size - current;
        let free: usize = self.config.max_concurrent_boots - self.boots_in_flight;
        let launches: usize = if needed < free {
            needed
        } else {
            free
        };
        let ghost before = self@;
        let mut started: usize = 0;
        while started < launches
            invariant
                0 <= started <= launches,
                launches == before.launches(),
                before.boots_in_flight + launches <= before.config.max_concurrent_boots,
                configs@.len() == started,
                forall|k: int|
                    0 <= k < started ==> (#[trigger] configs@[k])@ == before.boot_config(k as nat),
                self@ == (PoolView {
                    boots_in_flight: before.boots_in_flight + started as nat,
                    next_cid: cid_after(before.next_cid, started as nat),
                    ..before
                }),
            decreases launches - started,
        {
            let mut config: SandboxConfig = self.config.sandbox_config.duplicate();
            config.vsock_cid = self.cid_counter;
            self.cid_counter = if self.cid_counter == u32::MAX {
                0
            } else {
                self.cid_counter + 1
            };
            self.boots_in_flight = self.boots_in_flight + 1;
            configs.push(config);
            started = started + 1;
        }
        FillStep::Boot(configs)
    }

    /// Whether a boot that was started may go on: it may unless the pool was
    /// shut down in the meantime.
    pub fn boot_may_proceed(&self) -> (b: bool)
        ensures
            b == !self@.shutdown,
    {
        !self.shutdown
    }

    /// Ends one boot.
    ///
    /// `built` is the sandbox that came of it, if one did. It is queued, and
    /// counted as created, unless the pool was shut down or is full; then it
    /// is handed back, to be destroyed.
    pub fn boot_finished(&mut self, built: Option<Sandbox<H>>) -> (excess: Option<Sandbox<H>>)
        ensures
            final(self)@ == old(self)@.boot_ended(built),
            old(self)@.bounded() ==> final(self)@.bounded(),
            excess == if old(self)@.admits() {
                None
            } else {
                built
            },
    {
        if self.boots_in_flight > 0 {
            self.boots_in_flight = self.boots_in_flight - 1;
        }
        match built {
            Some(sandbox) => {
                if self.shutdown || self.pool.len() >= self.config.min_size {
                    Some(sandbox)
                } else {
                    self.stats.created = bump(self.stats.created);
                    self.pool.push_back(sandbox);
                    None
                }
            },
            None => None,
        }
    }

    /// The next step for a caller that wants a sandbox.
    ///
    /// The sandbox at the front of the queue is taken out and handed over as
    /// a candidate. Where the queue is empty, a cold miss is counted and the
    /// template configuration is handed over with a fresh context ID.
    pub fn acquire_next(&mut self) -> (next: Acquire<H>)
        ensures
            final(self)@ == old(self)@.acquired(),
            old(self)@.bounded() ==> final(self)@.bounded(),
            old(self)@.queue.len() > 0 ==> (next matches Acquire::Candidate(sandbox) && sandbox
                == old(self)@.queue.first()),
            old(self)@.queue.len() == 0 ==> (next matches Acquire::ColdStart(config) && config@
                == old(self)@.boot_config(0)),
    {
        let ghost before = self@;
        match self.pool.pop_front() {
            Some(sandbox) => {
                assert(self.pool@ =~= before.queue.drop_first());
                Acquire::Candidate(sandbox)
            },
            None => {
                self.stats.cold_misses = bump(self.stats.cold_misses);
                let mut config: SandboxConfig = self.config.sandbox_config.duplicate();
                config.vsock_cid = self.cid_counter;
                self.cid_counter = if self.cid_counter == u32::MAX {
                    0
                } else {
                    self.cid_counter + 1
                };
                Acquire::ColdStart(config)
            },
        }
    }

    /// Records the health check of a candidate: a healthy one is handed out
    /// and counts as a warm hit; an unhealthy one is to be destroyed and
    /// counts as destroyed.
    pub fn settle(&mut self, healthy: bool)
        ensures
            final(self)@ == old(self)@.settled(healthy),
            old(self)@.bounded() ==> final(self)@.bounded(),
    {
        if healthy {
            self.stats.warm_hits = bump(self.stats.warm_hits);
        } else {
            self.stats.destroyed = bump(self.stats.destroyed);
        }
    }

    /// The number of sandboxes in the pool.
    pub fn size(&self) -> (n: usize)
        ensures
            n == self@.queue.len(),
    {
        self.pool.len()
    }

    /// The number of boots under way.
    pub fn boots_in_flight(&self) -> (n: usize)
        ensures
            n == self@.boots_in_flight,
    {
        self.boots_in_flight
    }

    /// The pool configuration.
    pub fn config(&self) -> (c: &PoolConfig)
        ensures
            c@ == self@.config,
    {
        &self.config
    }

    /// The pool statistics.
    pub fn stats(&self) -> (s: &PoolStats)
        ensures
            *s == self@.stats,
    {
        &self.stats
    }

    /// Whether the filler is running: it was started, and the pool was not
    /// shut down.
    pub fn is_running(&self) -> (b: bool)
        ensures
            b == (self@.started && !self@.shutdown),
    {
        self.started && !self.shutdown
    }

    /// Begins the shutdown: from now on the filler ends at its next tick and
    /// no sandbox is taken into the pool. Returns whether a filler was
    /// started and has to be waited for.
    pub fn begin_shutdown(&mut self) -> (wait: bool)
        ensures
            wait == old(self)@.started,
            final(self)@ == old(self)@.shut_down(),
            old(self)@.bounded() ==> final(self)@.bounded(),
    {
        let wait: bool = self.started;
        self.shutdown = true;
        self.started = false;
        wait
    }

    /// Takes every sandbox out of the pool, the one at the front first, and
    /// counts each as destroyed. The pool is empty afterwards, so that a
    /// second call hands out nothing.
    pub fn drain(&mut self) -> (all: Vec<Sandbox<H>>)
        ensures
            all@ == old(self)@.queue,
            final(self)@ == old(self)@.drained(),
            old(self)@.bounded() ==> final(self)@.bounded(),
    {
        let ghost before = self@;
        let mut all: Vec<Sandbox<H>> = Vec::new();
        loop
            invariant
                all@ + self@.queue == before.queue,
                self@.config == before.config,
                self@.shutdown == before.shutdown,
                self@.started == before.started,
                self@.boots_in_flight == before.boots_in_flight,
                self@.next_cid == before.next_cid,
                self@.stats == (PoolStats {
                    destroyed: bumped_by(before.stats.destroyed, all@.len()),
                    ..before.stats
                }),
            ensures
                self@.queue.len() == 0,
            decreases self@.queue.len(),
        {
            let ghost queue = self@.queue;
            let ghost taken = all@;
            match self.pool.pop_front() {
                Some(sandbox) => {
                    self.stats.destroyed = bump(self.stats.destroyed);
                    all.push(sandbox);
                    assert(all@ + self@.queue =~= taken + queue);
                },
                None => {
                    break ;
                },
            }
        }
        assert(all@ =~= all@ + self@.queue);
        assert(self@.queue =~= Seq::<Sandbox<H>>::empty());
        all
    }
}

/// A counter after `k` increments.
pub open spec fn bumped_by(n: u64, k: nat) -> u64
    decreases k,
{
    if k == 0 {
        n
    } else {
        bumped(bumped_by(n, (k - 1) as nat))
    }
}

/// The bounds of a pool hold from the beginning and are kept by every step:
/// at no moment does a pool hold more warm sandboxes than it is to maintain,
/// nor are more boots under way than may be at a time.
pub proof fn lemma_pool_keeps_bounds<H>(
    pool: PoolView<H>,
    built: Option<Sandbox<H>>,
    healthy: bool,
)
    requires
        pool.bounded(),
    ensures
        (PoolView { started: true, ..pool }).bounded(),
        pool.ticked().bounded(),
        pool.boot_ended(built).bounded(),
        pool.acquired().bounded(),
        pool.settled(healthy).bounded(),
        pool.shut_down().bounded(),
        pool.drained().bounded(),
{
}

/// After a shutdown began, no step starts a boot or takes a sandbox into
/// the pool, so that a pool that was drained stays empty.
pub proof fn lemma_pool_stays_shut<H>(pool: PoolView<H>, built: Option<Sandbox<H>>)
    requires
        pool.shutdown,
    ensures
        pool.ticked() == pool,
        pool.boot_ended(built).queue == pool.queue,
        pool.drained().drained() == pool.drained(),
        pool.drained().boot_ended(built).queue.len() == 0,
{
    assert(bumped_by(pool.drained().stats.destroyed, 0) == pool.drained().stats.destroyed);
}

/// Context IDs that one counter hands out less than 2^32 allocations apart
/// are different.
pub proof fn lemma_fresh_cids_differ(start: u32, i: nat, j: nat)
    requires
        i < j,
        j - i < 0x1_0000_0000,
    ensures
        cid_after(start, i) != cid_after(start, j),
{
    let a = (start as nat + i) as int;
    let b = (start as nat + j) as int;
    if a % 0x1_0000_0000 == b % 0x1_0000_0000 {
        vstd::arithmetic::div_mod::lemma_fundamental_div_mod(a, 0x1_0000_0000);
        vstd::arithmetic::div_mod::lemma_fundamental_div_mod(b, 0x1_0000_0000);
        let qa = a / 0x1_0000_0000;
        let qb = b / 0x1_0000_0000;
        assert(b - a == 0x1_0000_0000 * (qb - qa)) by (nonlinear_arith)
            requires
                a == 0x1_0000_0000 * qa + a % 0x1_0000_0000,
                b == 0x1_0000_0000 * qb + b % 0x1_0000_0000,
                a % 0x1_0000_0000 == b % 0x1_0000_0000,
        ;
        assert(qb - qa >= 1) by (nonlinear_arith)
            requires
                b - a == 0x1_0000_0000 * (qb - qa),
                b - a > 0,
        ;
        assert(b - a >= 0x1_0000_0000) by (nonlinear_arith)
            requires
                b - a == 0x1_0000_0000 * (qb - qa),
                qb - qa >= 1,
        ;
    }
}

/// As long as the counter has not started over, the context IDs it hands
/// out are none of the reserved values 0 to 2, and grow with each
/// allocation.
pub proof fn lemma_fresh_cids_are_valid(start: u32, k: nat)
    requires
        start >= 3,
        start + k <= u32::MAX,
    ensures
        cid_after(start, k) == start + k,
        cid_after(start, k) >= 3,
{
    vstd::arithmetic::div_mod::lemma_small_mod((start as nat + k) as nat, 0x1_0000_0000);
}

} // verus!
