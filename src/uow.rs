//! Units of work, the binding of a repository to a connection or to an open
//! transaction, and the step function of a relational registration.
use vstd::prelude::*;
use crate::error::{AppError, AppResult};

verus! {

/// The storage backend that a repository, a manager or a unit of work
/// belongs to.
#[derive(Debug, Clone, Copy, PartialEq, Eq, Structural)]
pub enum Backend {
    Relational,
    InMemory,
}

/// Where a unit of work stands.
#[derive(Debug, Clone, Copy, PartialEq, Eq, Structural)]
pub enum TxState {
    Open,
    Committed,
    RolledBack,
}

/// What the backend must do to carry out a step of a unit of work.
#[derive(Debug, Clone, Copy, PartialEq, Eq, Structural)]
pub enum TxAction {
    /// Commit the live transaction.
    Commit,
    /// Roll the live transaction back.
    Rollback,
    /// Nothing: the unit of work was already finished, or the backend has no
    /// transaction to finish.
    Nothing,
}

/// The next state and the backend action of a commit.
pub open spec fn commit_step(state: TxState, backend: Backend) -> (TxState, TxAction) {
    match state {
        TxState::Open => (
            TxState::Committed,
            if backend == Backend::Relational {
                TxAction::Commit
            } else {
                TxAction::Nothing
            },
        ),
        _ => (state, TxAction::Nothing),
    }
}

/// The next state and the backend action of a rollback.
pub open spec fn rollback_step(state: TxState, backend: Backend) -> (TxState, TxAction) {
    match state {
        TxState::Open => (
            TxState::RolledBack,
            if backend == Backend::Relational {
                TxAction::Rollback
            } else {
                TxAction::Nothing
            },
        ),
        _ => (state, TxAction::Nothing),
    }
}

/// One atomic multi-statement operation of one backend. The first commit or
/// rollback finishes it; every later one is a no-op.
#[derive(Debug)]
pub struct UnitOfWork {
    backend: Backend,
    id: u64,
    state: TxState,
}

impl UnitOfWork {
    pub closed spec fn state(&self) -> TxState {
        self.state
    }

    pub closed spec fn backend_spec(&self) -> Backend {
        self.backend
    }

    pub closed spec fn id_spec(&self) -> u64 {
        self.id
    }

    pub fn backend(&self) -> (r: Backend)
        ensures
            r == self.backend_spec(),
    {
        self.backend
    }

    pub fn id(&self) -> (r: u64)
        ensures
            r == self.id_spec(),
    {
        self.id
    }

    /// An open unit of work of `backend`, known to its backend as `id`.
    pub fn open(backend: Backend, id: u64) -> (r: UnitOfWork)
        ensures
            r.backend_spec() == backend,
            r.id_spec() == id,
            r.state() == TxState::Open,
    {
        UnitOfWork { backend, id, state: TxState::Open }
    }

    pub fn is_open(&self) -> (r: bool)
        ensures
            r == (self.state() == TxState::Open),
    {
        match self.state {
            TxState::Open => true,
            _ => false,
        }
    }

    /// Finishes the unit of work by committing, if it is still open; returns
    /// what the backend must do.
    pub fn commit(&mut self) -> (r: TxAction)
        ensures
            (final(self).state(), r) == commit_step(old(self).state(), old(self).backend_spec()),
            final(self).backend_spec() == old(self).backend_spec(),
            final(self).id_spec() == old(self).id_spec(),
    {
        match self.state {
            TxState::Open => {
                self.state = TxState::Committed;
                match self.backend {
                    Backend::Relational => TxAction::Commit,
                    Backend::InMemory => TxAction::Nothing,
                }
            },
            _ => TxAction::Nothing,
        }
    }

    /// Finishes the unit of work by rolling back, if it is still open;
    /// returns what the backend must do.
    pub fn rollback(&mut self) -> (r: TxAction)
        ensures
            (final(self).state(), r) == rollback_step(old(self).state(), old(self).backend_spec()),
            final(self).backend_spec() == old(self).backend_spec(),
            final(self).id_spec() == old(self).id_spec(),
    {
        match self.state {
            TxState::Open => {
                self.state = TxState::RolledBack;
                match self.backend {
                    Backend::Relational => TxAction::Rollback,
                    Backend::InMemory => TxAction::Nothing,
                }
            },
            _ => TxAction::Nothing,
        }
    }
}

/// A unit of work is finished once: after a commit or a rollback, a second
/// commit or rollback leaves its state as it is and asks nothing of the
/// backend, so the first one is never applied twice.
pub proof fn lemma_unit_of_work_single_use(state: TxState, backend: Backend)
    ensures
        ({
            let (s1, _) = commit_step(state, backend);
            &&& commit_step(s1, backend) == (s1, TxAction::Nothing)
            &&& rollback_step(s1, backend) == (s1, TxAction::Nothing)
        }),
        ({
            let (s1, _) = rollback_step(state, backend);
            &&& commit_step(s1, backend) == (s1, TxAction::Nothing)
            &&& rollback_step(s1, backend) == (s1, TxAction::Nothing)
        }),
        state == TxState::Open && backend == Backend::Relational ==> commit_step(state, backend).1
            == TxAction::Commit && rollback_step(state, backend).1 == TxAction::Rollback,
{
}

/// What a relational repository operates on: the pooled connection, or the
/// transaction of the unit of work with the given id.
#[derive(Debug, Clone, Copy, PartialEq, Eq, Structural)]
pub enum DbOrTxn {
    Conn,
    Txn(u64),
}

/// Where one repository operation runs.
#[derive(Debug, Clone, Copy, PartialEq, Eq, Structural)]
pub enum Route {
    Direct,
    InTransaction(u64),
}

/// The route of an operation under `binding`, where `transaction_live` tells
/// whether the bound transaction is still unfinished. An operation on a
/// finished transaction fails rather than run outside it.
pub open spec fn route_of(binding: DbOrTxn, transaction_live: bool) -> AppResult<Route> {
    match binding {
        DbOrTxn::Conn => Ok(Route::Direct),
        DbOrTxn::Txn(id) => if transaction_live {
            Ok(Route::InTransaction(id))
        } else {
            Err(AppError::TransactionState)
        },
    }
}

pub fn route(binding: DbOrTxn, transaction_live: bool) -> (r: AppResult<Route>)
    ensures
        r == route_of(binding, transaction_live),
{
    match binding {
        DbOrTxn::Conn => Ok(Route::Direct),
        DbOrTxn::Txn(id) => {
            if transaction_live {
                Ok(Route::InTransaction(id))
            } else {
                Err(AppError::TransactionState)
            }
        },
    }
}

/// The backend and the binding of a repository handle.
#[derive(Debug, Clone, Copy, PartialEq, Eq, Structural)]
pub struct RepositoryBinding {
    pub backend: Backend,
    pub binding: DbOrTxn,
}

impl RepositoryBinding {
    /// A handle of `backend` on its pooled connection.
    pub fn pooled(backend: Backend) -> (r: RepositoryBinding)
        ensures
            r == (RepositoryBinding { backend, binding: DbOrTxn::Conn }),
    {
        RepositoryBinding { backend, binding: DbOrTxn::Conn }
    }

    /// The same repository bound to the transaction of `uow`; none where
    /// `uow` belongs to another backend.
    pub fn with_transaction(&self, uow: &UnitOfWork) -> (r: Option<RepositoryBinding>)
        ensures
            r == (if uow.backend_spec() == self.backend {
                Some(RepositoryBinding { backend: self.backend, binding: DbOrTxn::Txn(uow.id_spec()) })
            } else {
                None
            }),
    {
        if uow.backend() == self.backend {
            Some(RepositoryBinding { backend: self.backend, binding: DbOrTxn::Txn(uow.id()) })
        } else {
            None
        }
    }
}

/// A repository bound through `with_transaction` runs inside that unit of
/// work's transaction or does not exist: a foreign unit of work yields no
/// repository, and a matching one yields a repository whose every operation
/// runs in that transaction while it is live and fails once it is finished.
pub proof fn lemma_transaction_isolation(repo: RepositoryBinding, uow_backend: Backend, uow_id: u64, live: bool)
    requires
        repo.binding == DbOrTxn::Conn,
    ensures
        ({
            let bound = if uow_backend == repo.backend {
                Some(RepositoryBinding { backend: repo.backend, binding: DbOrTxn::Txn(uow_id) })
            } else {
                None
            };
            &&& uow_backend != repo.backend ==> bound is None
            &&& bound is Some ==> route_of(bound.unwrap().binding, live) == (if live {
                Ok(Route::InTransaction(uow_id))
            } else {
                Err(AppError::TransactionState)
            })
        }),
{
}

/// The step of a relational registration that waits for its result.
#[derive(Debug, Clone, Copy, PartialEq, Eq, Structural)]
pub enum CreateStage {
    Begin,
    InsertUser,
    InsertSocial,
    InsertVerification,
    Commit,
    Rollback,
    Done,
}

/// What the driver of a relational registration must do next.
#[derive(Debug, Clone, Copy, PartialEq, Eq, Structural)]
pub enum CreateAction {
    BeginTransaction,
    InsertUser,
    InsertSocial,
    InsertVerification,
    CommitTransaction,
    RollbackTransaction,
    /// Stop: the registration succeeded if the session says so, else the
    /// first error is reported.
    Finish,
}

/// A registration on the relational backend: insert the user, then the
/// social link if there is one, then the verification record, as one atomic
/// unit. On a bare connection it opens, and finishes, a transaction of its
/// own; on a caller's transaction it only takes part in it.
#[derive(Debug, Clone, Copy, PartialEq, Eq, Structural)]
pub struct CreateSession {
    pub owns_transaction: bool,
    pub has_social: bool,
    pub stage: CreateStage,
    pub failed: bool,
}

/// The action that starts waiting on `stage`.
pub open spec fn action_of(stage: CreateStage) -> CreateAction {
    match stage {
        CreateStage::Begin => CreateAction::BeginTransaction,
        CreateStage::InsertUser => CreateAction::InsertUser,
        CreateStage::InsertSocial => CreateAction::InsertSocial,
        CreateStage::InsertVerification => CreateAction::InsertVerification,
        CreateStage::Commit => CreateAction::CommitTransaction,
        CreateStage::Rollback => CreateAction::RollbackTransaction,
        CreateStage::Done => CreateAction::Finish,
    }
}

/// The stage after the last action succeeded (`ok`) or failed.
pub open spec fn next_stage(s: CreateSession, ok: bool) -> CreateStage {
    match s.stage {
        CreateStage::Begin => if ok { CreateStage::InsertUser } else { CreateStage::Done },
        CreateStage::InsertUser | CreateStage::InsertSocial | CreateStage::InsertVerification => {
            if !ok {
                if s.owns_transaction { CreateStage::Rollback } else { CreateStage::Done }
            } else if s.stage == CreateStage::InsertUser && s.has_social {
                CreateStage::InsertSocial
            } else if s.stage != CreateStage::InsertVerification {
                CreateStage::InsertVerification
            } else if s.owns_transaction {
                CreateStage::Commit
            } else {
                CreateStage::Done
            }
        },
        _ => CreateStage::Done,
    }
}

/// The session after the result `ok` of its pending action, and the next
/// action.
pub open spec fn create_step(s: CreateSession, ok: bool) -> (CreateSession, CreateAction) {
    let stage = next_stage(s, ok);
    let failed = s.failed || (!ok && s.stage != CreateStage::Done);
    (CreateSession { stage, failed, ..s }, action_of(stage))
}

/// The stage that a registration starts from under `binding`.
pub open spec fn first_stage(binding: DbOrTxn) -> CreateStage {
    match binding {
        DbOrTxn::Conn => CreateStage::Begin,
        DbOrTxn::Txn(_) => CreateStage::InsertUser,
    }
}

impl CreateSession {
    /// A registration under `binding`, and its first action.
    pub fn start(binding: DbOrTxn, has_social: bool) -> (r: (CreateSession, CreateAction))
        ensures
            r.0 == (CreateSession {
                owns_transaction: binding == DbOrTxn::Conn,
                has_social,
                stage: first_stage(binding),
                failed: false,
            }),
            r.1 == action_of(first_stage(binding)),
            session_valid(r.0),
    {
        match binding {
            DbOrTxn::Conn => (
                CreateSession { owns_transaction: true, has_social, stage: CreateStage::Begin, failed: false },
                CreateAction::BeginTransaction,
            ),
            DbOrTxn::Txn(_) => (
                CreateSession { owns_transaction: false, has_social, stage: CreateStage::InsertUser, failed: false },
                CreateAction::InsertUser,
            ),
        }
    }

    /// Takes the result of the pending action and returns the next one.
    pub fn advance(&mut self, ok: bool) -> (r: CreateAction)
        ensures
            (*final(self), r) == create_step(*old(self), ok),
    {
        let stage = match self.stage {
            CreateStage::Begin => if ok { CreateStage::InsertUser } else { CreateStage::Done },
            CreateStage::InsertUser | CreateStage::InsertSocial | CreateStage::InsertVerification => {
                if !ok {
                    if self.owns_transaction { CreateStage::Rollback } else { CreateStage::Done }
                } else if self.stage == CreateStage::InsertUser && self.has_social {
                    CreateStage::InsertSocial
                } else if self.stage != CreateStage::InsertVerification {
                    CreateStage::InsertVerification
                } else if self.owns_transaction {
                    CreateStage::Commit
                } else {
                    CreateStage::Done
                }
            },
            _ => CreateStage::Done,
        };
        self.failed = self.failed || (!ok && self.stage != CreateStage::Done);
        self.stage = stage;
        match stage {
            CreateStage::Begin => CreateAction::BeginTransaction,
            CreateStage::InsertUser => CreateAction::InsertUser,
            CreateStage::InsertSocial => CreateAction::InsertSocial,
            CreateStage::InsertVerification => CreateAction::InsertVerification,
            CreateStage::Commit => CreateAction::CommitTransaction,
            CreateStage::Rollback => CreateAction::RollbackTransaction,
            CreateStage::Done => CreateAction::Finish,
        }
    }

    /// Whether the registration has finished and succeeded.
    pub fn succeeded(&self) -> (r: bool)
        ensures
            r == (self.stage == CreateStage::Done && !self.failed),
    {
        self.stage == CreateStage::Done && !self.failed
    }
}

/// The sessions that a registration can reach: a failed one only rolls back
/// or is done, one that was rolled back has failed, and a session on a
/// caller's transaction neither begins nor finishes a transaction.
pub open spec fn session_valid(s: CreateSession) -> bool {
    &&& s.failed ==> (s.stage == CreateStage::Rollback || s.stage == CreateStage::Done)
    &&& s.stage == CreateStage::Rollback ==> s.failed
    &&& !s.owns_transaction ==> (s.stage != CreateStage::Begin && s.stage != CreateStage::Commit
        && s.stage != CreateStage::Rollback)
    &&& !s.has_social ==> s.stage != CreateStage::InsertSocial
}

/// Every step keeps a session among those a registration can reach.
pub proof fn lemma_create_step_valid(s: CreateSession, ok: bool)
    requires
        session_valid(s),
    ensures
        session_valid(create_step(s, ok).0),
{
}

/// A failure of any insert of a registration is never followed by a commit:
/// a registration that owns its transaction rolls it back next, one on a
/// caller's transaction stops with the error, and a failed session asks for
/// no commit at any later step and never reports success.
pub proof fn lemma_create_failure_rolls_back(s: CreateSession, ok: bool)
    requires
        session_valid(s),
    ensures
        (s.stage == CreateStage::InsertUser || s.stage == CreateStage::InsertSocial || s.stage
            == CreateStage::InsertVerification) ==> ({
            let (s1, a) = create_step(s, false);
            &&& s1.failed
            &&& a == (if s.owns_transaction {
                CreateAction::RollbackTransaction
            } else {
                CreateAction::Finish
            })
        }),
        s.failed ==> create_step(s, ok).1 != CreateAction::CommitTransaction && create_step(
            s,
            ok,
        ).0.failed,
{
}

/// A registration whose steps all succeed inserts the user, the social link
/// if there is one, and the verification record, in that order, and commits
/// exactly when it owns the transaction.
pub proof fn lemma_create_success_path(binding: DbOrTxn, has_social: bool)
    ensures
        ({
            let s0 = CreateSession {
                owns_transaction: binding == DbOrTxn::Conn,
                has_social,
                stage: first_stage(binding),
                failed: false,
            };
            let s1 = if binding == DbOrTxn::Conn {
                create_step(s0, true).0
            } else {
                s0
            };
            let (s2, a2) = create_step(s1, true);
            let (s3, a3) = if has_social {
                create_step(s2, true)
            } else {
                (s2, a2)
            };
            let (s4, a4) = create_step(s3, true);
            let (s5, _) = if binding == DbOrTxn::Conn {
                create_step(s4, true)
            } else {
                (s4, a4)
            };
            &&& s1.stage == CreateStage::InsertUser
            &&& a2 == (if has_social {
                CreateAction::InsertSocial
            } else {
                CreateAction::InsertVerification
            })
            &&& a3 == CreateAction::InsertVerification
            &&& a4 == (if binding == DbOrTxn::Conn {
                CreateAction::CommitTransaction
            } else {
                CreateAction::Finish
            })
            &&& s5.stage == CreateStage::Done
            &&& !s5.failed
        }),
{
}

} // verus!
