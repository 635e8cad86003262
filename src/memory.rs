//! The in-memory backend: the three tables held in vectors, for development
//! and tests.
use vstd::prelude::*;
use vstd::string::*;
use crate::entities::{
    NewSocialLink, NewUser, NewVerification, SocialLink, SocialProvider, User, UserPatch,
    Verification, VerificationPatch,
};
use crate::error::{AppError, AppResult, StorageFault};
use crate::repository::{
    after_user_update, after_verification_update, created, empty_tables, has_email, has_id,
    has_uuid, lemma_first_match_at, lemma_first_match_none, linked_to, names_identity,
    same_identity, tables_wf, user_with_id, verification_of, verifies_user, UserDetails,
    UserRepository, UserTables,
};
use crate::manager::RepositoryManager;
use crate::uow::{Backend, UnitOfWork};

verus! {

/// A user repository that keeps its tables in memory. Ids are handed out in
/// order from 1; every user has exactly one verification record; external
/// ids and provider identities are unique, as the relational schema demands.
pub struct InMemoryUserRepository {
    users: Vec<User>,
    verifications: Vec<Verification>,
    socials: Vec<SocialLink>,
    unit: Ghost<Option<u64>>,
}

/// A repository manager of the in-memory backend.
pub type InMemoryRepositoryManager = RepositoryManager<InMemoryUserRepository>;

impl InMemoryUserRepository {
    /// A repository with empty tables.
    pub fn new() -> (r: InMemoryUserRepository)
        ensures
            r.tables() == empty_tables(),
            tables_wf(r.tables()),
            r.backend() == Backend::InMemory,
            r.unit() is None,
    {
        let r = InMemoryUserRepository {
            users: Vec::new(),
            verifications: Vec::new(),
            socials: Vec::new(),
            unit: Ghost(None),
        };
        assert(r.tables().users =~= Seq::empty());
        assert(r.tables().verifications =~= Seq::empty());
        assert(r.tables().socials =~= Seq::empty());
        r
    }

    /// The position of the first user with external id `uuid`.
    fn position_of_uuid(&self, uuid: &String) -> (r: Option<usize>)
        ensures
            match r {
                Some(i) => i < self.users@.len() && has_uuid(uuid@)(self.users@[i as int]) && forall|j: int|
                    0 <= j < i ==> !has_uuid(uuid@)(#[trigger] self.users@[j]),
                None => forall|j: int| 0 <= j < self.users@.len() ==> !has_uuid(uuid@)(#[trigger] self.users@[j]),
            },
    {
        let mut i: usize = 0;
        while i < self.users.len()
            invariant
                i <= self.users@.len(),
                forall|j: int| 0 <= j < i ==> !has_uuid(uuid@)(#[trigger] self.users@[j]),
            decreases self.users@.len() - i,
        {
            if self.users[i].uuid == *uuid {
                return Some(i);
            }
            i = i + 1;
        }
        None
    }

    /// The position of the first user with email `email`.
    fn position_of_email(&self, email: &String) -> (r: Option<usize>)
        ensures
            match r {
                Some(i) => i < self.users@.len() && has_email(email@)(self.users@[i as int]) && forall|j: int|
                    0 <= j < i ==> !has_email(email@)(#[trigger] self.users@[j]),
                None => forall|j: int| 0 <= j < self.users@.len() ==> !has_email(email@)(#[trigger] self.users@[j]),
            },
    {
        let mut i: usize = 0;
        while i < self.users.len()
            invariant
                i <= self.users@.len(),
                forall|j: int| 0 <= j < i ==> !has_email(email@)(#[trigger] self.users@[j]),
            decreases self.users@.len() - i,
        {
            if self.users[i].email == *email {
                return Some(i);
            }
            i = i + 1;
        }
        None
    }

    /// The position of the first social link that names `provider_id` at
    /// `provider`.
    fn position_of_identity(&self, provider: SocialProvider, provider_id: &String) -> (r: Option<usize>)
        ensures
            match r {
                Some(i) => i < self.socials@.len() && names_identity(provider, provider_id@)(
                    self.socials@[i as int],
                ) && forall|j: int|
                    0 <= j < i ==> !names_identity(provider, provider_id@)(#[trigger] self.socials@[j]),
                None => forall|j: int|
                    0 <= j < self.socials@.len() ==> !names_identity(provider, provider_id@)(
                        #[trigger] self.socials@[j],
                    ),
            },
    {
        let mut i: usize = 0;
        while i < self.socials.len()
            invariant
                i <= self.socials@.len(),
                forall|j: int|
                    0 <= j < i ==> !names_identity(provider, provider_id@)(#[trigger] self.socials@[j]),
            decreases self.socials@.len() - i,
        {
            if self.socials[i].provider == provider && self.socials[i].provider_id == *provider_id {
                return Some(i);
            }
            i = i + 1;
        }
        None
    }

    /// The social links of user `user_id`, in insertion order.
    fn links_of(&self, user_id: i32) -> (r: Vec<SocialLink>)
        ensures
            r@ == self.socials@.filter(linked_to(user_id)),
    {
        let mut out: Vec<SocialLink> = Vec::new();
        let mut i: usize = 0;
        while i < self.socials.len()
            invariant
                i <= self.socials@.len(),
                out@ == self.socials@.subrange(0, i as int).filter(linked_to(user_id)),
            decreases self.socials@.len() - i,
        {
            proof {
                let s = self.socials@.subrange(0, i as int + 1);
                assert(s.drop_last() =~= self.socials@.subrange(0, i as int));
                assert(s.last() == self.socials@[i as int]);
                reveal(Seq::filter);
            }
            if self.socials[i].user_id == user_id {
                out.push(self.socials[i].snapshot());
            }
            i = i + 1;
        }
        assert(self.socials@.subrange(0, i as int) =~= self.socials@);
        out
    }

    /// The position of the user with id `id`, which is `id - 1` where such a
    /// user exists.
    fn position_of_id(&self, id: i32) -> (r: Option<usize>)
        requires
            tables_wf(self.tables()),
        ensures
            match r {
                Some(i) => i == id - 1 && i < self.users@.len() && user_with_id(self.tables(), id) == Some(
                    self.users@[i as int],
                ) && verification_of(self.tables(), id) == Some(self.verifications@[i as int]),
                None => user_with_id(self.tables(), id) is None && verification_of(self.tables(), id) is None,
            },
    {
        let t = Ghost(self.tables());
        if 1 <= id && id as usize <= self.users.len() {
            let i = (id - 1) as usize;
            proof {
                assert(has_id(id)(t@.users[i as int]));
                assert forall|j: int| 0 <= j < i implies !has_id(id)(#[trigger] t@.users[j]) by {
                    assert(t@.users[j].id == j + 1);
                }
                lemma_first_match_at(t@.users, has_id(id), i as int);
                assert(verifies_user(id)(t@.verifications[i as int])) by {
                    assert(t@.users[i as int].id == i + 1);
                }
                assert forall|j: int| 0 <= j < i implies !verifies_user(id)(#[trigger] t@.verifications[j]) by {
                    assert(t@.users[j].id == j + 1);
                }
                lemma_first_match_at(t@.verifications, verifies_user(id), i as int);
            }
            Some(i)
        } else {
            proof {
                assert forall|j: int| 0 <= j < t@.users.len() implies !has_id(id)(#[trigger] t@.users[j]) by {
                    assert(t@.users[j].id == j + 1);
                }
                lemma_first_match_none(t@.users, has_id(id));
                assert forall|j: int| 0 <= j < t@.verifications.len() implies !verifies_user(id)(
                    #[trigger] t@.verifications[j],
                ) by {
                    assert(t@.users[j].id == j + 1);
                }
                lemma_first_match_none(t@.verifications, verifies_user(id));
            }
            None
        }
    }
}

impl UserRepository for InMemoryUserRepository {
    closed spec fn tables(&self) -> UserTables {
        UserTables { users: self.users@, verifications: self.verifications@, socials: self.socials@ }
    }

    open spec fn backend(&self) -> Backend {
        Backend::InMemory
    }

    open spec fn infallible(&self) -> bool {
        true
    }

    closed spec fn unit(&self) -> Option<u64> {
        self.unit@
    }

    fn find_by_id(&self, id: i32) -> (r: AppResult<Option<User>>) {
        match self.position_of_id(id) {
            Some(i) => Ok(Some(self.users[i].snapshot())),
            None => Ok(None),
        }
    }

    fn find_by_uuid(&self, uuid: &str) -> (r: AppResult<Option<User>>) {
        let key = String::from_str(uuid);
        match self.position_of_uuid(&key) {
            Some(i) => {
                proof {
                    lemma_first_match_at(self.users@, has_uuid(uuid@), i as int);
                }
                Ok(Some(self.users[i].snapshot()))
            },
            None => {
                proof {
                    lemma_first_match_none(self.users@, has_uuid(uuid@));
                }
                Ok(None)
            },
        }
    }

    fn find_by_email(&self, email: &str) -> (r: AppResult<Option<User>>) {
        let key = String::from_str(email);
        match self.position_of_email(&key) {
            Some(i) => {
                proof {
                    lemma_first_match_at(self.users@, has_email(email@), i as int);
                }
                Ok(Some(self.users[i].snapshot()))
            },
            None => {
                proof {
                    lemma_first_match_none(self.users@, has_email(email@));
                }
                Ok(None)
            },
        }
    }

    fn find_social(&self, provider: SocialProvider, provider_id: &str) -> (r: AppResult<Option<SocialLink>>) {
        let key = String::from_str(provider_id);
        match self.position_of_identity(provider, &key) {
            Some(i) => {
                proof {
                    lemma_first_match_at(self.socials@, names_identity(provider, provider_id@), i as int);
                }
                Ok(Some(self.socials[i].snapshot()))
            },
            None => {
                proof {
                    lemma_first_match_none(self.socials@, names_identity(provider, provider_id@));
                }
                Ok(None)
            },
        }
    }

    fn find_with_details_by_uuid(&self, uuid: &str) -> (r: AppResult<Option<UserDetails>>) {
        let key = String::from_str(uuid);
        match self.position_of_uuid(&key) {
            Some(i) => {
                proof {
                    lemma_first_match_at(self.users@, has_uuid(uuid@), i as int);
                }
                let user = self.users[i].snapshot();
                let verification = match self.position_of_id(user.id) {
                    Some(k) => Some(self.verifications[k].snapshot()),
                    None => None,
                };
                let socials = self.links_of(user.id);
                Ok(Some((user, verification, socials)))
            },
            None => {
                proof {
                    lemma_first_match_none(self.users@, has_uuid(uuid@));
                }
                Ok(None)
            },
        }
    }

    fn create_user_with_verification(
        &mut self,
        user: NewUser,
        social: Option<NewSocialLink>,
        verification: NewVerification,
    ) -> (r: AppResult<User>) {
        let ghost t0 = self.tables();
        match self.position_of_uuid(&user.uuid) {
            Some(i) => {
                proof {
                    lemma_first_match_at(t0.users, has_uuid(user.uuid@), i as int);
                }
                return Err(AppError::Storage(StorageFault::UniqueViolation));
            },
            None => {
                proof {
                    lemma_first_match_none(t0.users, has_uuid(user.uuid@));
                }
            },
        }
        match &social {
            Some(s) => {
                match self.position_of_identity(s.provider, &s.provider_id) {
                    Some(i) => {
                        proof {
                            lemma_first_match_at(t0.socials, names_identity(s.provider, s.provider_id@), i as int);
                        }
                        return Err(AppError::Storage(StorageFault::UniqueViolation));
                    },
                    None => {
                        proof {
                            lemma_first_match_none(t0.socials, names_identity(s.provider, s.provider_id@));
                        }
                    },
                }
            },
            None => {},
        }
        if self.users.len() >= i32::MAX as usize || self.socials.len() >= i32::MAX as usize {
            return Err(AppError::Storage(StorageFault::IdSpaceExhausted));
        }
        let id = (self.users.len() + 1) as i32;
        let stored = User {
            id,
            uuid: user.uuid,
            username: user.username,
            email: user.email,
            country_code: user.country_code,
            phone_number: user.phone_number,
            account_status: user.account_status,
            created_at: user.created_at,
            updated_at: user.updated_at,
            last_login_at: user.last_login_at,
        };
        let result = stored.snapshot();
        self.users.push(stored);
        match social {
            Some(s) => {
                let link_id = (self.socials.len() + 1) as i32;
                self.socials.push(
                    SocialLink {
                        id: link_id,
                        user_id: id,
                        provider: s.provider,
                        provider_id: s.provider_id,
                        created_at: s.created_at,
                    },
                );
            },
            None => {},
        }
        self.verifications.push(
            Verification {
                id,
                user_id: id,
                email_verified: false,
                email_verified_at: None,
                phone_verified: false,
                phone_verified_at: None,
                business_verified: verification.business_verified,
                business_info: verification.business_info,
                verification_code: None,
            },
        );
        proof {
            let t1 = self.tables();
            let c = created(t0, user, social, verification);
            assert(t1.users =~= c.users);
            assert(t1.verifications =~= c.verifications);
            assert(t1.socials =~= c.socials);
            assert forall|i: int, j: int| 0 <= i < j < t1.users.len() implies (#[trigger] t1.users[i]).uuid@
                != (#[trigger] t1.users[j]).uuid@ by {
                if j == t1.users.len() - 1 {
                    assert(!has_uuid(user.uuid@)(t0.users[i]));
                }
            }
            assert forall|k: int, l: int| 0 <= k < l < t1.socials.len() implies !same_identity(
                #[trigger] t1.socials[k],
                #[trigger] t1.socials[l],
            ) by {
                if l == t0.socials.len() {
                    assert(!names_identity(social.unwrap().provider, social.unwrap().provider_id@)(t0.socials[k]));
                }
            }
            assert forall|k: int| 0 <= k < t1.socials.len() implies 1 <= (#[trigger] t1.socials[k]).user_id
                <= t1.users.len() by {
                if k < t0.socials.len() {
                    assert(t0.socials[k] == t1.socials[k]);
                }
            }
        }
        Ok(result)
    }

    fn update_user(&mut self, patch: UserPatch) -> (r: AppResult<User>) {
        let ghost t0 = self.tables();
        match self.position_of_id(patch.id) {
            Some(i) => {
                let mut u = self.users[i].snapshot();
                patch.apply(&mut u);
                let result = u.snapshot();
                self.users.set(i, u);
                proof {
                    let t1 = self.tables();
                    assert(t1.users =~= after_user_update(t0, patch).users);
                    assert forall|a: int, b: int| 0 <= a < b < t1.users.len() implies (
                    #[trigger] t1.users[a]).uuid@ != (#[trigger] t1.users[b]).uuid@ by {
                        assert(t1.users[a].uuid == t0.users[a].uuid);
                        assert(t1.users[b].uuid == t0.users[b].uuid);
                    }
                    assert forall|a: int| 0 <= a < t1.users.len() implies (#[trigger] t1.users[a]).id == a + 1
                        && t1.verifications[a].user_id == a + 1 by {
                        assert(t1.users[a].id == t0.users[a].id);
                    }
                }
                Ok(result)
            },
            None => Err(AppError::NotFound),
        }
    }

    fn update_verification(&mut self, patch: VerificationPatch) -> (r: AppResult<Verification>) {
        let ghost t0 = self.tables();
        match self.position_of_id(patch.user_id) {
            Some(i) => {
                let mut v = self.verifications[i].snapshot();
                patch.apply(&mut v);
                let result = v.snapshot();
                self.verifications.set(i, v);
                proof {
                    let t1 = self.tables();
                    assert(t1.verifications =~= after_verification_update(t0, patch).verifications);
                    assert forall|a: int| 0 <= a < t1.users.len() implies (#[trigger] t1.users[a]).id == a + 1
                        && t1.verifications[a].user_id == a + 1 by {
                        assert(t0.verifications[a].user_id == a + 1);
                    }
                }
                Ok(result)
            },
            None => Err(AppError::NotFound),
        }
    }

    fn with_transaction(&mut self, uow: &UnitOfWork) -> (r: Option<&mut Self>) {
        match uow.backend() {
            Backend::InMemory => {
                self.unit = Ghost(Some(uow.id_spec()));
                Some(self)
            },
            Backend::Relational => None,
        }
    }
}

} // verus!
