use crate::attributes::{ConnectionAttributes, EnvAttributes, StatementAttributes};
use crate::diag::DiagnosticRecord;
use std::collections::HashSet;
use vstd::prelude::*;

verus! {

/// Lifecycle state of an Environment node.
#[derive(Debug, Clone, Copy, PartialEq, Eq, Structural)]
pub enum EnvState {
    Allocated,
    ConnectionAllocated,
}

/// Lifecycle state of a Connection node. `NeedsData` and
/// `TransactionInProgress` are reserved: the documented operations never
/// reach them, but callers of the state store may.
#[derive(Debug, Clone, Copy, PartialEq, Eq, Structural)]
pub enum ConnectionState {
    Allocated,
    NeedsData,
    Connected,
    StatementAllocated,
    TransactionInProgress,
}

/// Lifecycle state of a Statement node. `Allocated` is the sole entry state;
/// the others encode the prepare/execute/fetch/async-cancel progression of
/// the governing API. The substrate stores the current state and allows
/// unconditional overwrite; each operation validates its own transitions.
#[derive(Debug, Clone, Copy, PartialEq, Eq, Structural)]
pub enum StatementState {
    Allocated,
    Prepared,
    PreparedHasResultSet,
    ExecutedNoResultSet,
    ExecutedHasResultSet,
    CursorFetchSet,
    CursorExtendedFetchSet,
    FunctionNeedsDataNoParam,
    FunctionNeedsDataNoPut,
    FunctionNeedsDataPutCalled,
    Executing,
    AsyncCancelled,
}

/// An Environment node: driver-wide attributes, a lifecycle state, the
/// identities of the Connection nodes allocated from it, and a diagnostics
/// log.
///
/// Child references are non-owning node identities assigned by the external
/// allocator; the substrate never frees a child nor follows the identity.
#[derive(Debug)]
pub struct Env {
    pub attributes: EnvAttributes,
    pub state: EnvState,
    pub connections: HashSet<u64>,
    pub errors: Vec<DiagnosticRecord>,
}

impl Env {
    /// A fresh environment in the given state: default attributes, no
    /// children, an empty diagnostics log.
    pub fn with_state(state: EnvState) -> (r: Self)
        ensures
            r.attributes.is_default(),
            r.state == state,
            r.connections@ == Set::<u64>::empty(),
            r.errors@ == Seq::<DiagnosticRecord>::empty(),
    {
        Env {
            attributes: EnvAttributes::default(),
            state,
            connections: HashSet::new(),
            errors: Vec::new(),
        }
    }
}

/// A Connection node: the identity of the parent Environment (fixed at
/// creation, never reassigned), attributes, a lifecycle state, the
/// identities of the Statement nodes allocated from it, and a diagnostics
/// log.
#[derive(Debug)]
pub struct Connection {
    pub env: u64,
    pub attributes: ConnectionAttributes,
    pub state: ConnectionState,
    pub statements: HashSet<u64>,
    pub errors: Vec<DiagnosticRecord>,
}

impl Connection {
    /// A fresh connection under the parent environment `env`, in the given
    /// state: no database selected, no children, an empty diagnostics log.
    pub fn with_state(env: u64, state: ConnectionState) -> (r: Self)
        ensures
            r.env == env,
            r.attributes.is_default(),
            r.state == state,
            r.statements@ == Set::<u64>::empty(),
            r.errors@ == Seq::<DiagnosticRecord>::empty(),
    {
        Connection {
            env,
            attributes: ConnectionAttributes::default(),
            state,
            statements: HashSet::new(),
            errors: Vec::new(),
        }
    }
}

/// A Statement node: the identity of the parent Connection (fixed at
/// creation), the statement attribute record, a lifecycle state, and a
/// diagnostics log.
#[derive(Debug)]
pub struct Statement {
    pub connection: u64,
    pub attributes: StatementAttributes,
    pub state: StatementState,
    pub errors: Vec<DiagnosticRecord>,
}

impl Statement {
    /// A fresh statement under the parent connection `connection`, in the
    /// given state: every attribute at its documented default, an empty
    /// diagnostics log.
    pub fn with_state(connection: u64, state: StatementState) -> (r: Self)
        ensures
            r.connection == connection,
            r.attributes.is_default(),
            r.state == state,
            r.errors@ == Seq::<DiagnosticRecord>::empty(),
    {
        Statement {
            connection,
            attributes: StatementAttributes::default(),
            state,
            errors: Vec::new(),
        }
    }
}

/// The variant tag of a handle node.
#[derive(Debug, Clone, Copy, PartialEq, Eq, Structural)]
pub enum HandleKind {
    Env,
    Connection,
    Statement,
}

/// A handle node: the tagged union over the three entity payloads. A node's
/// variant never changes for its lifetime; external callers downcast with
/// the `as_*` accessors before operating on it.
#[derive(Debug)]
pub enum MongoHandle {
    Env(Env),
    Connection(Connection),
    Statement(Statement),
}

/// Everything of `a` except its diagnostics log is unchanged in `b`: same
/// variant, and field for field the same payload apart from `errors`.
pub open spec fn same_but_diagnostics(a: MongoHandle, b: MongoHandle) -> bool {
    match (a, b) {
        (MongoHandle::Env(x), MongoHandle::Env(y)) => {
            &&& x.attributes == y.attributes
            &&& x.state == y.state
            &&& x.connections@ == y.connections@
        },
        (MongoHandle::Connection(x), MongoHandle::Connection(y)) => {
            &&& x.env == y.env
            &&& x.attributes == y.attributes
            &&& x.state == y.state
            &&& x.statements@ == y.statements@
        },
        (MongoHandle::Statement(x), MongoHandle::Statement(y)) => {
            &&& x.connection == y.connection
            &&& x.attributes == y.attributes
            &&& x.state == y.state
        },
        _ => false,
    }
}

impl MongoHandle {
    /// The variant tag of this node.
    pub open spec fn kind(self) -> HandleKind {
        match self {
            MongoHandle::Env(_) => HandleKind::Env,
            MongoHandle::Connection(_) => HandleKind::Connection,
            MongoHandle::Statement(_) => HandleKind::Statement,
        }
    }

    /// The diagnostics log of this node, whatever its variant, oldest record
    /// first.
    pub open spec fn diagnostics(self) -> Seq<DiagnosticRecord> {
        match self {
            MongoHandle::Env(e) => e.errors@,
            MongoHandle::Connection(c) => c.errors@,
            MongoHandle::Statement(s) => s.errors@,
        }
    }

    /// Downcast to the Environment payload: populated exactly when this node
    /// is the Environment variant, empty for the other two. Side-effect-free.
    pub fn as_env(&self) -> (r: Option<&Env>)
        ensures
            (r is Some) <==> (self is Env),
            r matches Some(e) ==> *self == MongoHandle::Env(*e),
    {
        match self {
            MongoHandle::Env(e) => Some(e),
            _ => None,
        }
    }

    /// Downcast to the Connection payload: populated exactly when this node
    /// is the Connection variant, empty for the other two. Side-effect-free.
    pub fn as_connection(&self) -> (r: Option<&Connection>)
        ensures
            (r is Some) <==> (self is Connection),
            r matches Some(c) ==> *self == MongoHandle::Connection(*c),
    {
        match self {
            MongoHandle::Connection(c) => Some(c),
            _ => None,
        }
    }

    /// Downcast to the Statement payload: populated exactly when this node
    /// is the Statement variant, empty for the other two. Side-effect-free.
    pub fn as_statement(&self) -> (r: Option<&Statement>)
        ensures
            (r is Some) <==> (self is Statement),
            r matches Some(s) ==> *self == MongoHandle::Statement(*s),
    {
        match self {
            MongoHandle::Statement(s) => Some(s),
            _ => None,
        }
    }

    /// Appends `error` at the end of this node's diagnostics log, whatever
    /// the variant; every other part of the node is untouched.
    pub fn add_diag_info(&mut self, error: DiagnosticRecord)
        ensures
            final(self).kind() == old(self).kind(),
            same_but_diagnostics(*old(self), *final(self)),
            final(self).diagnostics() == old(self).diagnostics().push(error),
    {
        match self {
            MongoHandle::Env(e) => e.errors.push(error),
            MongoHandle::Connection(c) => c.errors.push(error),
            MongoHandle::Statement(s) => s.errors.push(error),
        }
    }

    /// Empties this node's diagnostics log, whatever the variant; every
    /// other part of the node is untouched. After any sequence of
    /// `add_diag_info` calls, the log length is 0 immediately after this
    /// call.
    pub fn clear_diagnostics(&mut self)
        ensures
            final(self).kind() == old(self).kind(),
            same_but_diagnostics(*old(self), *final(self)),
            final(self).diagnostics() == Seq::<DiagnosticRecord>::empty(),
    {
        match self {
            MongoHandle::Env(e) => e.errors.clear(),
            MongoHandle::Connection(c) => c.errors.clear(),
            MongoHandle::Statement(s) => s.errors.clear(),
        }
    }
}

/// FIFO order of the diagnostics log. Let `h1` be `h0` after
/// `add_diag_info(e1)` and `h2` be `h1` after `add_diag_info(e2)` — the
/// requirements below are exactly what each call's postcondition states.
/// Then the log of `h2` is the log of `h0` followed by `e1` followed by
/// `e2`; on an initially empty log it is exactly `[e1, e2]`, and never the
/// reversed pair.
pub proof fn lemma_add_diag_info_fifo(
    h0: MongoHandle,
    h1: MongoHandle,
    h2: MongoHandle,
    e1: DiagnosticRecord,
    e2: DiagnosticRecord,
)
    requires
        h1.diagnostics() == h0.diagnostics().push(e1),
        h2.diagnostics() == h1.diagnostics().push(e2),
    ensures
        h2.diagnostics() =~= h0.diagnostics() + seq![e1, e2],
        h0.diagnostics().len() == 0 ==> h2.diagnostics() =~= seq![e1, e2],
        h0.diagnostics().len() == 0 && e1 != e2 ==> h2.diagnostics() != seq![e2, e1],
{
    assert(h2.diagnostics() =~= h0.diagnostics() + seq![e1, e2]);
    if h0.diagnostics().len() == 0 {
        assert(h2.diagnostics() =~= seq![e1, e2]);
        assert(h2.diagnostics()[0] == e1);
        assert(seq![e2, e1][0] == e2);
    }
}

} // verus!
