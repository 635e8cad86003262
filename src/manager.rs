//! The repository manager: the registry of the user repository and the
//! factory of units of work.
use vstd::prelude::*;
use crate::error::{AppError, AppResult};
use crate::uow::{Backend, TxState, UnitOfWork};

verus! {

/// Holds the registered user repository of one backend and opens that
/// backend's units of work, each under an id of its own.
#[derive(Debug)]
pub struct RepositoryManager<R> {
    backend: Backend,
    user_repository: Option<R>,
    next_unit: u64,
}

impl<R> RepositoryManager<R> {
    pub closed spec fn backend_spec(&self) -> Backend {
        self.backend
    }

    /// The registered repository, if any.
    pub closed spec fn registered(&self) -> Option<R> {
        self.user_repository
    }

    /// The id that the next unit of work gets.
    pub closed spec fn next_unit_id(&self) -> u64 {
        self.next_unit
    }

    /// A manager of `backend` with nothing registered.
    pub fn new(backend: Backend) -> (r: RepositoryManager<R>)
        ensures
            r.backend_spec() == backend,
            r.registered() is None,
            r.next_unit_id() == 0,
    {
        RepositoryManager { backend, user_repository: None, next_unit: 0 }
    }

    pub fn backend(&self) -> (r: Backend)
        ensures
            r == self.backend_spec(),
    {
        self.backend
    }

    /// Registers `repo` as the user repository, in place of any earlier one.
    pub fn register(&mut self, repo: R)
        ensures
            final(self).registered() == Some(repo),
            final(self).backend_spec() == old(self).backend_spec(),
            final(self).next_unit_id() == old(self).next_unit_id(),
    {
        self.user_repository = Some(repo);
    }

    /// The registered user repository; a configuration error where none was
    /// registered.
    pub fn get(&self) -> (r: AppResult<&R>)
        ensures
            match self.registered() {
                Some(x) => r is Ok && *r.unwrap() == x,
                None => r == Err::<&R, AppError>(AppError::Configuration),
            },
    {
        match &self.user_repository {
            Some(x) => Ok(x),
            None => Err(AppError::Configuration),
        }
    }

    /// The registered user repository, to write through; a configuration
    /// error where none was registered.
    pub fn get_mut(&mut self) -> (r: AppResult<&mut R>)
        ensures
            match old(self).registered() {
                Some(x) => r is Ok && *r.unwrap() == x && final(self).registered() == Some(*final(r.unwrap()))
                    && final(self).backend_spec() == old(self).backend_spec() && final(self).next_unit_id()
                    == old(self).next_unit_id(),
                None => (match r {
                    Err(e) => e == AppError::Configuration,
                    Ok(_) => false,
                }) && *final(self) == *old(self),
            },
    {
        match &mut self.user_repository {
            Some(x) => Ok(x),
            None => Err(AppError::Configuration),
        }
    }

    /// Opens a unit of work of this manager's backend.
    pub fn begin(&mut self) -> (r: UnitOfWork)
        ensures
            r.backend_spec() == old(self).backend_spec(),
            r.id_spec() == old(self).next_unit_id(),
            r.state() == TxState::Open,
            final(self).next_unit_id() == old(self).next_unit_id().wrapping_add(1),
            final(self).registered() == old(self).registered(),
            final(self).backend_spec() == old(self).backend_spec(),
    {
        let id = self.next_unit;
        self.next_unit = self.next_unit.wrapping_add(1);
        UnitOfWork::open(self.backend, id)
    }
}

} // verus!
