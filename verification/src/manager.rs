//! The registry of live sandboxes.
//!
//! The registry owns every sandbox that was handed to it, under the
//! sandbox's identifier, and enforces a capacity cap. Inserting and removing
//! are its only points of mutation; what is removed is handed back, to be
//! torn down outside the registry.

use crate::config::{SandboxConfig, SandboxConfigView};
use crate::error::CoreError;
use crate::sandbox::{sandbox_directory, Sandbox, SandboxId, SandboxState, Teardown};
use crate::text::{decimal, decimal_u64};
use std::collections::HashMap;
use vstd::prelude::*;
use vstd::std_specs::iter::IteratorSpec;

verus! {

broadcast use vstd::std_specs::hash::group_hash_axioms;

/// Configuration of the registry.
#[derive(Debug, Clone)]
pub struct ManagerConfig {
    /// Default kernel path for new sandboxes.
    pub kernel_path: String,
    /// Default root filesystem path for new sandboxes.
    pub rootfs_path: String,
    /// Path to the hypervisor binary.
    pub firecracker_path: String,
    /// Working directory for VM sockets and state.
    pub chroot_path: String,
    /// Maximum number of live sandboxes (default 100; 0 for no limit).
    pub max_sandboxes: usize,
}

impl ManagerConfig {
    /// Creates a configuration with the given paths and room for 100
    /// sandboxes.
    pub fn new(kernel_path: &str, rootfs_path: &str, firecracker_path: &str, chroot_path: &str) -> (c:
        Self)
        ensures
            c.kernel_path@ == kernel_path@,
            c.rootfs_path@ == rootfs_path@,
            c.firecracker_path@ == firecracker_path@,
            c.chroot_path@ == chroot_path@,
            c.max_sandboxes == 100,
    {
        ManagerConfig {
            kernel_path: String::from_str(kernel_path),
            rootfs_path: String::from_str(rootfs_path),
            firecracker_path: String::from_str(firecracker_path),
            chroot_path: String::from_str(chroot_path),
            max_sandboxes: 100,
        }
    }
}

/// Whether a registry that holds `count` sandboxes and is capped at `max`
/// takes another one. A cap of 0 is no cap.
pub open spec fn has_room(count: nat, max: usize) -> bool {
    max == 0 || count < max
}

/// The message of the error that a full registry answers with.
pub open spec fn limit_message(max: usize) -> Seq<char> {
    "max sandbox limit reached ("@ + decimal(max as nat) + ")"@
}

/// Whether every sandbox is filed under its own identifier.
pub open spec fn filed_by_id<H>(m: Map<u128, Sandbox<H>>) -> bool {
    forall|k: u128| m.contains_key(k) ==> (#[trigger] m[k])@.id == SandboxId(k)
}

/// What a lookup of `id` in `m` gives: the sandbox, or a not-found error.
pub open spec fn lookup<H>(m: Map<u128, Sandbox<H>>, id: SandboxId) -> Result<
    Sandbox<H>,
    CoreError,
> {
    if m.contains_key(id.0) {
        Ok(m[id.0])
    } else {
        Err(CoreError::NotFound(id))
    }
}

/// Whether `k` is among the first `i` of `keys`.
spec fn taken(keys: Seq<u128>, i: int, k: u128) -> bool {
    exists|j: int| 0 <= j < i && keys[j] == k
}

/// Manages the live sandboxes.
pub struct SandboxManager<H> {
    sandboxes: HashMap<u128, Sandbox<H>>,
    config: ManagerConfig,
}

impl<H> View for SandboxManager<H> {
    type V = Map<u128, Sandbox<H>>;

    /// The live sandboxes, by the 128-bit value of their identifiers.
    closed spec fn view(&self) -> Map<u128, Sandbox<H>> {
        self.sandboxes@
    }
}

impl<H> SandboxManager<H> {
    /// The cap on the number of live sandboxes; 0 for none.
    pub closed spec fn max_sandboxes(&self) -> usize {
        self.config.max_sandboxes
    }

    /// The configuration of the registry.
    pub closed spec fn spec_config(&self) -> ManagerConfig {
        self.config
    }

    /// Creates an empty registry.
    pub fn new(config: ManagerConfig) -> (m: Self)
        ensures
            m@ == Map::<u128, Sandbox<H>>::empty(),
            m.spec_config() == config,
            m.max_sandboxes() == config.max_sandboxes,
            filed_by_id(m@),
    {
        SandboxManager { sandboxes: HashMap::new(), config }
    }

    /// The configuration of the registry.
    pub fn config(&self) -> (c: &ManagerConfig)
        ensures
            *c == self.spec_config(),
            c.max_sandboxes == self.max_sandboxes(),
    {
        &self.config
    }

    /// The configuration of a sandbox made with the registry's own kernel and
    /// root filesystem and the defaults for the rest. It is refused where
    /// one of the two paths is empty.
    pub fn default_sandbox_config(&self) -> (r: Result<SandboxConfig, CoreError>)
        ensures
            match r {
                Ok(c) => {
                    &&& c@ == (SandboxConfigView {
                        kernel_path: self.spec_config().kernel_path@,
                        rootfs_path: self.spec_config().rootfs_path@,
                        ..SandboxConfig::default_view()
                    })
                    &&& c@.valid()
                },
                Err(e) => e matches CoreError::Connection(_) && (
                self.spec_config().kernel_path@.len() == 0 || self.spec_config().rootfs_path@.len()
                    == 0),
            },
    {
        SandboxConfig::builder().kernel(self.config.kernel_path.as_str()).rootfs(
            self.config.rootfs_path.as_str(),
        ).build()
    }

    /// The capacity check: succeeds while the registry has room, and
    /// otherwise answers with an error that names the cap.
    pub fn check_capacity(&self) -> (r: Result<(), CoreError>)
        ensures
            r is Ok <==> has_room(self@.dom().len(), self.max_sandboxes()),
            r matches Err(e) ==> e matches CoreError::Connection(m) && m@ == limit_message(
                self.max_sandboxes(),
            ),
    {
        if self.config.max_sandboxes > 0 && self.sandboxes.len() >= self.config.max_sandboxes {
            let cap: String = decimal_u64(self.config.max_sandboxes as u64);
            Err(
                CoreError::Connection(
                    String::from_str("max sandbox limit reached (").concat(cap.as_str()).concat(
                        ")",
                    ),
                ),
            )
        } else {
            Ok(())
        }
    }

    /// Files `sandbox` under its identifier, which is returned. The capacity
    /// is not looked at: this is the second half of creating a sandbox, whose
    /// first half is the capacity check, made before the sandbox is built.
    pub fn insert(&mut self, sandbox: Sandbox<H>) -> (id: SandboxId)
        ensures
            id == sandbox@.id,
            final(self)@ == old(self)@.insert(id.0, sandbox),
            final(self).spec_config() == old(self).spec_config(),
            final(self).max_sandboxes() == old(self).max_sandboxes(),
            filed_by_id(old(self)@) ==> filed_by_id(final(self)@),
    {
        let id: SandboxId = sandbox.id();
        self.sandboxes.insert(id.0, sandbox);
        id
    }

    /// Registers a sandbox that was built elsewhere, such as one acquired
    /// from a warm pool. Where the registry is full the sandbox is handed
    /// back with the error, so that the caller can dispose of it.
    pub fn register(&mut self, sandbox: Sandbox<H>) -> (r: Result<
        SandboxId,
        (CoreError, Sandbox<H>),
    >)
        ensures
            r is Ok <==> has_room(old(self)@.dom().len(), old(self).max_sandboxes()),
            match r {
                Ok(id) => id == sandbox@.id && final(self)@ == old(self)@.insert(id.0, sandbox),
                Err((e, back)) => {
                    &&& back == sandbox
                    &&& final(self)@ == old(self)@
                    &&& e matches CoreError::Connection(m)
                    &&& m@ == limit_message(old(self).max_sandboxes())
                },
            },
            final(self).spec_config() == old(self).spec_config(),
            final(self).max_sandboxes() == old(self).max_sandboxes(),
            filed_by_id(old(self)@) ==> filed_by_id(final(self)@),
    {
        match self.check_capacity() {
            Err(e) => Err((e, sandbox)),
            Ok(_) => Ok(self.insert(sandbox)),
        }
    }

    /// The sandbox `id`, or a not-found error.
    pub fn get(&self, id: SandboxId) -> (r: Result<&Sandbox<H>, CoreError>)
        ensures
            match r {
                Ok(s) => lookup(self@, id) == Ok::<Sandbox<H>, CoreError>(*s),
                Err(e) => lookup(self@, id) == Err::<Sandbox<H>, CoreError>(e),
            },
            filed_by_id(self@) ==> (r matches Ok(s) ==> s@.id == id),
    {
        match self.sandboxes.get(&id.0) {
            Some(s) => Ok(s),
            None => Err(CoreError::NotFound(id)),
        }
    }

    /// The handle to run an operation on the sandbox `id` with: a not-found
    /// error where there is no such sandbox, and an invalid-state error where
    /// it is not ready.
    pub fn route(&self, id: SandboxId) -> (r: Result<&H, CoreError>)
        ensures
            r is Ok <==> self@.contains_key(id.0) && self@[id.0]@.state == SandboxState::Ready,
            match r {
                Ok(h) => *h == self@[id.0]@.handle,
                Err(e) => if self@.contains_key(id.0) {
                    e matches CoreError::InvalidState { expected, actual } && expected@ == "Ready"@
                        && actual@ == self@[id.0]@.state.name_text()
                } else {
                    e == CoreError::NotFound(id)
                },
            },
    {
        match self.get(id) {
            Ok(s) => s.handle_if_ready(),
            Err(e) => Err(e),
        }
    }

    /// Whether there is a sandbox `id`.
    pub fn contains(&self, id: SandboxId) -> (b: bool)
        ensures
            b == self@.contains_key(id.0),
    {
        self.sandboxes.contains_key(&id.0)
    }

    /// Takes the sandbox `id` out of the registry and gives it up: what is
    /// handed back is what is left to tear down. Where there is no such
    /// sandbox the registry stays as it is and the answer is a not-found
    /// error.
    pub fn destroy(&mut self, id: SandboxId) -> (r: Result<Teardown<H>, CoreError>)
        ensures
            r is Ok <==> old(self)@.contains_key(id.0),
            final(self)@ == old(self)@.remove(id.0),
            !final(self)@.contains_key(id.0),
            match r {
                Ok(t) => {
                    &&& t.handle == old(self)@[id.0]@.handle
                    &&& t.id == old(self)@[id.0]@.id
                    &&& t.directory@ == sandbox_directory(
                        old(self)@[id.0]@.config.chroot_path,
                        t.id,
                    )
                },
                Err(e) => e == CoreError::NotFound(id),
            },
            final(self).spec_config() == old(self).spec_config(),
            final(self).max_sandboxes() == old(self).max_sandboxes(),
            filed_by_id(old(self)@) ==> filed_by_id(final(self)@),
    {
        match self.sandboxes.remove(&id.0) {
            Some(sandbox) => Ok(sandbox.destroy()),
            None => {
                assert(self@ =~= old(self)@.remove(id.0));
                Err(CoreError::NotFound(id))
            },
        }
    }

    /// Takes every sandbox out of the registry and gives each up. The
    /// registry is empty afterwards; what is handed back is one teardown for
    /// each sandbox that was live, in no particular order.
    pub fn destroy_all(&mut self) -> (all: Vec<Teardown<H>>)
        ensures
            final(self)@ == Map::<u128, Sandbox<H>>::empty(),
            all@.len() == old(self)@.dom().len(),
            filed_by_id(old(self)@) ==> {
                &&& forall|i: int|
                    0 <= i < all@.len() ==> {
                        let k = (#[trigger] all@[i]).id.0;
                        &&& old(self)@.contains_key(k)
                        &&& all@[i].handle == old(self)@[k]@.handle
                        &&& all@[i].directory@ == sandbox_directory(
                            old(self)@[k]@.config.chroot_path,
                            all@[i].id,
                        )
                    }
                &&& forall|i: int, j: int|
                    0 <= i < j < all@.len() ==> (#[trigger] all@[i]).id != (#[trigger] all@[j]).id
            },
            final(self).spec_config() == old(self).spec_config(),
            final(self).max_sandboxes() == old(self).max_sandboxes(),
            filed_by_id(final(self)@),
    {
        let keys: Vec<u128> = self.keys();
        let ghost before = self@;
        let mut all: Vec<Teardown<H>> = Vec::new();
        let n: usize = keys.len();
        let mut i: usize = 0;
        while i < n
            invariant
                n == keys@.len(),
                0 <= i <= n,
                keys@.no_duplicates(),
                keys@.to_set() == before.dom(),
                self.spec_config() == old(self).spec_config(),
                self.max_sandboxes() == old(self).max_sandboxes(),
                all@.len() == i,
                forall|k: u128|
                    #[trigger] self@.contains_key(k) <==> (before.contains_key(k) && !taken(
                        keys@,
                        i as int,
                        k,
                    )),
                forall|k: u128| #[trigger] self@.contains_key(k) ==> self@[k] == before[k],
                forall|j: int|
                    0 <= j < i ==> {
                        &&& before.contains_key(#[trigger] keys@[j])
                        &&& all@[j].handle == before[keys@[j]]@.handle
                        &&& all@[j].id == before[keys@[j]]@.id
                        &&& all@[j].directory@ == sandbox_directory(
                            before[keys@[j]]@.config.chroot_path,
                            all@[j].id,
                        )
                    },
            decreases n - i,
        {
            let key: u128 = keys[i];
            assert(keys@.to_set().contains(key));
            assert(!taken(keys@, i as int, key)) by {
                if taken(keys@, i as int, key) {
                    let j = choose|j: int| 0 <= j < i && keys@[j] == key;
                    assert(keys@[j] == keys@[i as int]);
                }
            }
            assert(self@.contains_key(key));
            let ghost map_before = self@;
            match self.sandboxes.remove(&key) {
                Some(sandbox) => {
                    all.push(sandbox.destroy());
                },
                None => {
                    assert(false);
                },
            }
            proof {
                assert(self@ == map_before.remove(key));
                assert forall|k: u128| #[trigger]
                    self@.contains_key(k) <==> (before.contains_key(k) && !taken(
                        keys@,
                        i as int + 1,
                        k,
                    )) by {
                    if taken(keys@, i as int, k) {
                        let j = choose|j: int| 0 <= j < i && keys@[j] == k;
                        assert(0 <= j < i + 1 && keys@[j] == k);
                    }
                    if k == key {
                        assert(0 <= i < i + 1 && keys@[i as int] == k);
                    }
                    if taken(keys@, i as int + 1, k) {
                        let j = choose|j: int| 0 <= j < i + 1 && keys@[j] == k;
                        if j < i {
                            assert(taken(keys@, i as int, k));
                        }
                    }
                    assert(map_before.contains_key(k) <==> (before.contains_key(k) && !taken(
                        keys@,
                        i as int,
                        k,
                    )));
                }
            }
            i = i + 1;
        }
        proof {
            assert forall|k: u128| !self@.contains_key(k) by {
                if before.contains_key(k) {
                    assert(keys@.to_set().contains(k));
                    let j = choose|j: int| 0 <= j < keys@.len() && keys@[j] == k;
                    assert(taken(keys@, n as int, k));
                }
            }
            assert(self@ =~= Map::<u128, Sandbox<H>>::empty());
            assert(keys@.len() == before.dom().len()) by {
                keys@.unique_seq_to_set();
            }
            if filed_by_id(before) {
                assert forall|i: int| 0 <= i < all@.len() implies {
                    let k = (#[trigger] all@[i]).id.0;
                    &&& before.contains_key(k)
                    &&& all@[i].handle == before[k]@.handle
                    &&& all@[i].directory@ == sandbox_directory(
                        before[k]@.config.chroot_path,
                        all@[i].id,
                    )
                } by {
                    assert(before.contains_key(keys@[i]));
                    assert(before[keys@[i]]@.id == SandboxId(keys@[i]));
                }
                assert forall|i: int, j: int| 0 <= i < j < all@.len() implies (#[trigger] all@[i]).id
                    != (#[trigger] all@[j]).id by {
                    assert(before.contains_key(keys@[i]));
                    assert(before.contains_key(keys@[j]));
                    assert(before[keys@[i]]@.id == SandboxId(keys@[i]));
                    assert(before[keys@[j]]@.id == SandboxId(keys@[j]));
                    assert(keys@[i] != keys@[j]);
                }
            }
        }
        all
    }

    /// The identifiers of the live sandboxes, each once, in no particular
    /// order.
    pub fn list(&self) -> (ids: Vec<SandboxId>)
        ensures
            ids@.len() == self@.dom().len(),
            ids@.no_duplicates(),
            forall|id: SandboxId| ids@.contains(id) <==> self@.contains_key(id.0),
    {
        let keys: Vec<u128> = self.keys();
        let mut ids: Vec<SandboxId> = Vec::new();
        let n: usize = keys.len();
        let mut i: usize = 0;
        while i < n
            invariant
                n == keys@.len(),
                0 <= i <= n,
                ids@.len() == i,
                forall|j: int| 0 <= j < i ==> (#[trigger] ids@[j]).0 == keys@[j],
            decreases n - i,
        {
            ids.push(SandboxId(keys[i]));
            i = i + 1;
        }
        proof {
            keys@.unique_seq_to_set();
            assert forall|a: int, b: int| 0 <= a < ids@.len() && 0 <= b < ids@.len() && a != b implies ids@[a]
                != ids@[b] by {
                assert(keys@[a] != keys@[b]);
            }
            assert forall|id: SandboxId| ids@.contains(id) <==> self@.contains_key(id.0) by {
                if ids@.contains(id) {
                    let j = choose|j: int| 0 <= j < ids@.len() && ids@[j] == id;
                    assert(keys@[j] == id.0);
                    assert(keys@.to_set().contains(id.0));
                }
                if self@.contains_key(id.0) {
                    assert(keys@.to_set().contains(id.0));
                    let j = choose|j: int| 0 <= j < keys@.len() && keys@[j] == id.0;
                    assert(ids@[j] == id);
                }
            }
        }
        ids
    }

    /// The number of live sandboxes.
    pub fn count(&self) -> (n: usize)
        ensures
            n == self@.dom().len(),
    {
        self.sandboxes.len()
    }

    fn keys(&self) -> (keys: Vec<u128>)
        ensures
            keys@.to_set() == self@.dom(),
            keys@.no_duplicates(),
    {
        let mut keys: Vec<u128> = Vec::new();
        let ghost all = self.sandboxes.keys().remaining().unref();
        assert(all.to_set() == self.sandboxes@.dom());
        for k in it: self.sandboxes.keys()
            invariant
                it.seq().unref() == all,
                keys@ == all.take(it.index()),
        {
            keys.push(*k);
        }
        assert(keys@ =~= all);
        keys
    }
}

/// Once a sandbox was taken out of the registry, it is unknown there: a
/// lookup of its identifier answers with a not-found error, and so does
/// every operation that begins with a lookup, until a sandbox with the same
/// identifier is filed.
pub proof fn lemma_not_found_after_destroy<H>(m: Map<u128, Sandbox<H>>, id: SandboxId)
    ensures
        !m.remove(id.0).contains_key(id.0),
        lookup(m.remove(id.0), id) == Err::<Sandbox<H>, CoreError>(CoreError::NotFound(id)),
        forall|other: SandboxId|
            other != id ==> lookup(m.remove(id.0), other) == #[trigger] lookup(m, other),
{
    assert forall|other: SandboxId| other != id implies lookup(m.remove(id.0), other)
        == #[trigger] lookup(m, other) by {
        assert(other.0 != id.0);
    }
}

/// Filing a sandbox makes it known under its identifier, and leaves every
/// other identifier as it was.
pub proof fn lemma_found_after_insert<H>(m: Map<u128, Sandbox<H>>, s: Sandbox<H>)
    ensures
        lookup(m.insert(s@.id.0, s), s@.id) == Ok::<Sandbox<H>, CoreError>(s),
        forall|other: SandboxId|
            other != s@.id ==> lookup(m.insert(s@.id.0, s), other) == #[trigger] lookup(m, other),
        filed_by_id(m) ==> filed_by_id(m.insert(s@.id.0, s)),
{
    assert forall|other: SandboxId| other != s@.id implies lookup(m.insert(s@.id.0, s), other)
        == #[trigger] lookup(m, other) by {
        assert(other.0 != s@.id.0);
    }
}

} // verus!
