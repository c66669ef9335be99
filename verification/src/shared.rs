use crate::diag::DiagnosticRecord;
use crate::handle::{HandleKind, MongoHandle};
use vstd::prelude::*;
use vstd::rwlock::{ReadHandle, RwLock, RwLockPredicate, WriteHandle};

verus! {

/// The lock invariant of one shared node: whatever value is stored under the
/// lock carries the variant the node was created with. A node's identity —
/// and with it its variant — is stable for its whole lifetime.
pub struct FixedKind {
    pub kind: HandleKind,
}

impl RwLockPredicate<MongoHandle> for FixedKind {
    open spec fn inv(self, h: MongoHandle) -> bool {
        h.kind() == self.kind
    }
}

/// One handle node behind its own reader/writer lock, safe to share between
/// threads. Reads acquire the lock shared, so any number of readers proceed
/// together; every mutation acquires it exclusive, so a value a reader
/// observes is always one whole released write, never a partial one. The
/// lock covers this node alone: operations on different nodes never contend.
pub struct SharedHandle {
    lock: RwLock<MongoHandle, FixedKind>,
}

impl SharedHandle {
    /// The reader/writer lock of this node, as vstd models it. Exposed so
    /// that callers can relate the handles the acquire methods return — for
    /// instance, `ReadHandle::lemma_readers_match` shows that two readers
    /// holding one node's lock at the same time observe the same value.
    pub closed spec fn rwlock(self) -> RwLock<MongoHandle, FixedKind> {
        self.lock
    }

    /// The variant this node was created with; every value observed under
    /// the lock has it.
    pub closed spec fn kind(self) -> HandleKind {
        self.lock.pred().kind
    }

    /// Wraps a freshly built node in its lock. The node's variant at this
    /// moment becomes the fixed variant of the shared handle.
    pub fn new(handle: MongoHandle) -> (s: Self)
        ensures
            s.kind() == handle.kind(),
    {
        let ghost kind = handle.kind();
        SharedHandle { lock: RwLock::new(handle, Ghost(FixedKind { kind })) }
    }

    /// Acquires this node's exclusive lock, whatever the variant, and
    /// appends `record` to the node's diagnostics log. Always succeeds once
    /// the lock is obtained; no other part of the node changes.
    pub fn add_diagnostic(&self, record: DiagnosticRecord) {
        let (mut handle, write_handle) = self.lock.acquire_write();
        handle.add_diag_info(record);
        write_handle.release_write(handle);
    }

    /// Acquires this node's exclusive lock, whatever the variant, and
    /// empties the node's diagnostics log. Always succeeds once the lock is
    /// obtained; no other part of the node changes.
    pub fn clear_diagnostics(&self) {
        let (mut handle, write_handle) = self.lock.acquire_write();
        handle.clear_diagnostics();
        write_handle.release_write(handle);
    }

    /// Acquires the lock shared, for reading. Any number of read handles on
    /// one node may be held at the same time; the value read is a whole
    /// released write of this node's fixed variant. Release it with
    /// `release_read`.
    pub fn acquire_read(&self) -> (r: ReadHandle<'_, MongoHandle, FixedKind>)
        ensures
            r.rwlock() == self.rwlock(),
            r.view().kind() == self.kind(),
    {
        self.lock.acquire_read()
    }

    /// Acquires the lock exclusive, for a state or attribute mutation,
    /// handing out the current node value. Release it with `release_write`,
    /// which demands a value of this node's fixed variant back.
    pub fn acquire_write(&self) -> (r: (MongoHandle, WriteHandle<'_, MongoHandle, FixedKind>))
        ensures
            r.1.rwlock() == self.rwlock(),
            r.0.kind() == self.kind(),
            forall|v: MongoHandle| r.1.rwlock().inv(v) <==> v.kind() == self.kind(),
    {
        self.lock.acquire_write()
    }
}

} // verus!
