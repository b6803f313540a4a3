//! The registry through which code that does not own a client can reach one.

use vstd::prelude::*;
use vstd::rwlock::{RwLock, RwLockPredicate};
use std::sync::Arc;
use crate::bugsnag::{Bugsnag, ClientView};
use crate::error::Error;

verus! {

/// What never changes about a client: its API key and source directory.
pub ghost struct ClientId {
    pub api_key: Seq<char>,
    pub project_source_dir: Seq<char>,
}

pub open spec fn client_id(c: ClientView) -> ClientId {
    ClientId { api_key: c.api_key, project_source_dir: c.project_source_dir }
}

impl RwLockPredicate<Bugsnag> for ClientId {
    open spec fn inv(self, v: Bugsnag) -> bool {
        client_id(v@) == self
    }
}

/// A shared, lock-guarded handle to a client.
pub type SharedClient = Arc<RwLock<Bugsnag, ClientId>>;

/// The registry's slot: holds at most one shared client.
pub struct Wrapper {
    instance: Option<SharedClient>,
}

impl View for Wrapper {
    type V = Option<SharedClient>;

    closed spec fn view(&self) -> Option<SharedClient> {
        self.instance
    }
}

/// The slot holds a handle to a lock guarding the client `c`.
pub open spec fn holds_client(slot: Option<SharedClient>, c: ClientView) -> bool {
    slot matches Some(h) && h.pred() == client_id(c)
}

/// `r` is what a read of slot `w` yields: the handle it holds, if any.
pub open spec fn read_of(w: Wrapper, r: Option<SharedClient>) -> bool {
    r == w@
}

/// What storing client `c` does to the slot: refused, leaving the slot as it
/// was, when a client is stored already; otherwise the slot then holds `c`.
pub open spec fn set_outcome(before: Wrapper, after: Wrapper, c: Bugsnag, r: Result<(), Error>) -> bool {
    match r {
        Ok(_) => before@ is None && holds_client(after@, c@),
        Err(e) => before@ is Some && e == Error::GlobalInstanceExists && after@ == before@,
    }
}

impl Wrapper {
    pub fn new() -> (r: Wrapper)
        ensures
            r@ is None,
    {
        Wrapper { instance: None }
    }

    /// A handle to the stored client, if any.
    pub fn instance(&self) -> (r: Option<SharedClient>)
        ensures
            read_of(*self, r),
    {
        match &self.instance {
            Some(h) => Some(h.clone()),
            None => None,
        }
    }

    /// Stores `instance` unless a client is stored already.
    pub fn set_instance(&mut self, instance: Bugsnag) -> (r: Result<(), Error>)
        ensures
            set_outcome(*old(self), *final(self), instance, r),
    {
        if self.instance.is_some() {
            return Err(Error::GlobalInstanceExists);
        }
        let ghost id = client_id(instance@);
        let lock = RwLock::new(instance, Ghost(id));
        self.instance = Some(Arc::new(lock));
        Ok(())
    }

    /// Empties the slot.
    pub fn reset_instance(&mut self)
        ensures
            final(self)@ is None,
    {
        self.instance = None;
    }

    pub fn has_instance(&self) -> (r: bool)
        ensures
            r == self@ is Some,
    {
        self.instance.is_some()
    }
}

/// Once `set_instance` has stored client `c` in the slot, every read of the
/// slot by `instance`, however many readers there are, yields the same handle:
/// the one of the lock guarding `c`.
pub proof fn lemma_reads_after_set(
    before: Wrapper,
    after: Wrapper,
    c: Bugsnag,
    r: Result<(), Error>,
    reads: Seq<Option<SharedClient>>,
)
    requires
        set_outcome(before, after, c, r),
        r is Ok,
        forall|i: int| 0 <= i < reads.len() ==> read_of(after, #[trigger] reads[i]),
    ensures
        forall|i: int, j: int|
            0 <= i < reads.len() && 0 <= j < reads.len() ==> #[trigger] reads[i] == #[trigger] reads[j],
        forall|i: int| 0 <= i < reads.len() ==> holds_client(#[trigger] reads[i], c@),
{
}

/// After `reset_instance`, every read of the slot by `instance` yields none.
pub proof fn lemma_reads_after_reset(after: Wrapper, reads: Seq<Option<SharedClient>>)
    requires
        after@ is None,
        forall|i: int| 0 <= i < reads.len() ==> read_of(after, #[trigger] reads[i]),
    ensures
        forall|i: int| 0 <= i < reads.len() ==> #[trigger] reads[i] is None,
{
}

/// The lock predicate of the registry: the slot may hold anything a
/// `Wrapper` can.
pub ghost struct AnySlot {}

impl RwLockPredicate<Wrapper> for AnySlot {
    open spec fn inv(self, w: Wrapper) -> bool {
        true
    }
}

/// The process-wide registry: one slot guarded by one lock. Each operation
/// holds the lock for its duration only. Other threads may change the slot
/// between two operations, so what an operation does to the slot is stated on
/// `Wrapper`, whose methods the operations call under the lock.
pub struct GlobalInstance {
    slot: RwLock<Wrapper, AnySlot>,
}

impl GlobalInstance {
    /// A registry whose slot is empty.
    pub fn new() -> (r: GlobalInstance) {
        GlobalInstance { slot: RwLock::new(Wrapper::new(), Ghost(AnySlot {})) }
    }
}

impl Bugsnag {
    /// A handle to the registered client, if one is registered.
    pub fn global_instance(registry: &GlobalInstance) -> (r: Option<SharedClient>)
    {
        let guard = registry.slot.acquire_read();
        let r = guard.borrow().instance();
        guard.release_read();
        r
    }

    /// Unregisters the registered client, if any.
    pub fn reset_global_instance(registry: &GlobalInstance) {
        let (mut w, guard) = registry.slot.acquire_write();
        w.reset_instance();
        guard.release_write(w);
    }

    /// Registers this client, unless a client is registered already.
    pub fn to_global_instance(self, registry: &GlobalInstance) -> (r: Result<(), Error>)
        ensures
            r is Err ==> r == Err::<(), Error>(Error::GlobalInstanceExists),
    {
        let (mut w, guard) = registry.slot.acquire_write();
        let r = w.set_instance(self);
        guard.release_write(w);
        r
    }
}

} // verus!
