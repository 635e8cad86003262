//! The contract of a user repository, stated over a model of its three
//! tables.
use vstd::prelude::*;
use crate::entities::{
    NewSocialLink, NewUser, NewVerification, SocialLink, SocialProvider, User, UserPatch,
    Verification, VerificationPatch,
};
use crate::error::{AppError, AppResult, StorageFault};
use crate::uow::{Backend, UnitOfWork};

verus! {

/// The rows of the three tables of the user aggregate, in insertion order.
pub struct UserTables {
    pub users: Seq<User>,
    pub verifications: Seq<Verification>,
    pub socials: Seq<SocialLink>,
}

/// The first element of `s` that satisfies `p`.
pub open spec fn first_match<A>(s: Seq<A>, p: spec_fn(A) -> bool) -> Option<A>
    decreases s.len(),
{
    if s.len() == 0 {
        None
    } else {
        let r = first_match(s.drop_last(), p);
        if r is Some {
            r
        } else if p(s.last()) {
            Some(s.last())
        } else {
            None
        }
    }
}

pub proof fn lemma_first_match_none<A>(s: Seq<A>, p: spec_fn(A) -> bool)
    requires
        forall|j: int| 0 <= j < s.len() ==> !p(#[trigger] s[j]),
    ensures
        first_match(s, p) is None,
    decreases s.len(),
{
    if s.len() > 0 {
        assert forall|j: int| 0 <= j < s.drop_last().len() implies !p(#[trigger] s.drop_last()[j]) by {
            assert(s.drop_last()[j] == s[j]);
        }
        lemma_first_match_none(s.drop_last(), p);
    }
}

pub proof fn lemma_first_match_at<A>(s: Seq<A>, p: spec_fn(A) -> bool, k: int)
    requires
        0 <= k < s.len(),
        p(s[k]),
        forall|j: int| 0 <= j < k ==> !p(#[trigger] s[j]),
    ensures
        first_match(s, p) == Some(s[k]),
    decreases s.len(),
{
    let d = s.drop_last();
    if k == s.len() - 1 {
        assert forall|j: int| 0 <= j < d.len() implies !p(#[trigger] d[j]) by {
            assert(d[j] == s[j]);
        }
        lemma_first_match_none(d, p);
    } else {
        assert(d[k] == s[k]);
        assert forall|j: int| 0 <= j < k implies !p(#[trigger] d[j]) by {
            assert(d[j] == s[j]);
        }
        lemma_first_match_at(d, p, k);
    }
}

pub proof fn lemma_first_match_some<A>(s: Seq<A>, p: spec_fn(A) -> bool)
    requires
        first_match(s, p) is Some,
    ensures
        exists|k: int| 0 <= k < s.len() && s[k] == first_match(s, p).unwrap() && p(s[k]),
    decreases s.len(),
{
    let d = s.drop_last();
    if first_match(d, p) is Some {
        lemma_first_match_some(d, p);
        let k = choose|k: int| 0 <= k < d.len() && d[k] == first_match(d, p).unwrap() && p(d[k]);
        assert(s[k] == d[k]);
    } else {
        assert(s[s.len() - 1] == s.last());
    }
}

/// Whether two social links name the same identity at the same provider.
pub open spec fn same_identity(a: SocialLink, b: SocialLink) -> bool {
    a.provider == b.provider && a.provider_id@ == b.provider_id@
}

/// The invariant of the tables: the user at position `i` has id `i + 1` and
/// owns the verification record at position `i`; external ids are unique; a
/// social link belongs to an existing user; and no two social links name the
/// same identity.
pub open spec fn tables_wf(t: UserTables) -> bool {
    &&& t.verifications.len() == t.users.len()
    &&& forall|i: int|
        0 <= i < t.users.len() ==> (#[trigger] t.users[i]).id == i + 1 && t.verifications[i].user_id
            == i + 1
    &&& forall|i: int, j: int|
        0 <= i < j < t.users.len() ==> (#[trigger] t.users[i]).uuid@ != (#[trigger] t.users[j]).uuid@
    &&& forall|k: int|
        0 <= k < t.socials.len() ==> 1 <= (#[trigger] t.socials[k]).user_id <= t.users.len()
    &&& forall|k: int, l: int|
        0 <= k < l < t.socials.len() ==> !same_identity(
            #[trigger] t.socials[k],
            #[trigger] t.socials[l],
        )
}

pub open spec fn empty_tables() -> UserTables {
    UserTables { users: Seq::empty(), verifications: Seq::empty(), socials: Seq::empty() }
}

pub open spec fn has_id(id: i32) -> spec_fn(User) -> bool {
    |u: User| u.id == id
}

pub open spec fn has_uuid(uuid: Seq<char>) -> spec_fn(User) -> bool {
    |u: User| u.uuid@ == uuid
}

pub open spec fn has_email(email: Seq<char>) -> spec_fn(User) -> bool {
    |u: User| u.email@ == email
}

pub open spec fn names_identity(provider: SocialProvider, provider_id: Seq<char>) -> spec_fn(SocialLink) -> bool {
    |s: SocialLink| s.provider == provider && s.provider_id@ == provider_id
}

pub open spec fn verifies_user(user_id: i32) -> spec_fn(Verification) -> bool {
    |v: Verification| v.user_id == user_id
}

pub open spec fn linked_to(user_id: i32) -> spec_fn(SocialLink) -> bool {
    |s: SocialLink| s.user_id == user_id
}

pub open spec fn user_with_id(t: UserTables, id: i32) -> Option<User> {
    first_match(t.users, has_id(id))
}

pub open spec fn user_with_uuid(t: UserTables, uuid: Seq<char>) -> Option<User> {
    first_match(t.users, has_uuid(uuid))
}

pub open spec fn user_with_email(t: UserTables, email: Seq<char>) -> Option<User> {
    first_match(t.users, has_email(email))
}

pub open spec fn social_with(t: UserTables, provider: SocialProvider, provider_id: Seq<char>) -> Option<
    SocialLink,
> {
    first_match(t.socials, names_identity(provider, provider_id))
}

pub open spec fn verification_of(t: UserTables, user_id: i32) -> Option<Verification> {
    first_match(t.verifications, verifies_user(user_id))
}

pub open spec fn socials_of(t: UserTables, user_id: i32) -> Seq<SocialLink> {
    t.socials.filter(linked_to(user_id))
}

/// Under the invariant, the owner of every stored social link exists.
pub proof fn lemma_social_owner_exists(t: UserTables, provider: SocialProvider, provider_id: Seq<char>)
    requires
        tables_wf(t),
        social_with(t, provider, provider_id) is Some,
    ensures
        user_with_id(t, social_with(t, provider, provider_id).unwrap().user_id) is Some,
{
    let s = social_with(t, provider, provider_id).unwrap();
    lemma_first_match_some(t.socials, names_identity(provider, provider_id));
    let k = choose|k: int| 0 <= k < t.socials.len() && t.socials[k] == s && names_identity(provider, provider_id)(t.socials[k]);
    assert(1 <= t.socials[k].user_id <= t.users.len());
    let i = s.user_id - 1;
    assert(t.users[i].id == i + 1);
    assert forall|j: int| 0 <= j < i implies !has_id(s.user_id)(#[trigger] t.users[j]) by {
        assert(t.users[j].id == j + 1);
    }
    lemma_first_match_at(t.users, has_id(s.user_id), i);
}

/// A user read together with its verification record and its social links.
pub type UserDetails = (User, Option<Verification>, Vec<SocialLink>);

/// The user with external id `uuid`, its verification record and its social
/// links in insertion order; none where no user has that external id.
pub open spec fn details_of(t: UserTables, uuid: Seq<char>) -> Option<(User, Option<Verification>, Seq<SocialLink>)> {
    match user_with_uuid(t, uuid) {
        Some(u) => Some((u, verification_of(t, u.id), socials_of(t, u.id))),
        None => None,
    }
}

/// Under the invariant, the user that a details read finds is the user with
/// its id, and its verification record exists and is the one of that id.
pub proof fn lemma_details_consistent(t: UserTables, uuid: Seq<char>)
    requires
        tables_wf(t),
        details_of(t, uuid) is Some,
    ensures
        ({
            let (u, v, _) = details_of(t, uuid).unwrap();
            &&& user_with_id(t, u.id) == Some(u)
            &&& v is Some
            &&& v.unwrap().user_id == u.id
            &&& verification_of(t, u.id) == v
            &&& 1 <= u.id <= t.users.len()
            &&& t.users[u.id - 1] == u
            &&& t.verifications[u.id - 1] == v.unwrap()
        }),
{
    let u = user_with_uuid(t, uuid).unwrap();
    lemma_first_match_some(t.users, has_uuid(uuid));
    let k = choose|k: int| 0 <= k < t.users.len() && t.users[k] == u && has_uuid(uuid)(t.users[k]);
    assert(t.users[k].id == k + 1);
    assert forall|j: int| 0 <= j < k implies !has_id(u.id)(#[trigger] t.users[j]) by {
        assert(t.users[j].id == j + 1);
    }
    lemma_first_match_at(t.users, has_id(u.id), k);
    assert forall|j: int| 0 <= j < k implies !verifies_user(u.id)(#[trigger] t.verifications[j]) by {
        assert(t.users[j].id == j + 1);
    }
    lemma_first_match_at(t.verifications, verifies_user(u.id), k);
}

/// Under the invariant, the user with id `id` and its verification record
/// exist together, at position `id - 1`, exactly for the ids `1..=len`.
pub proof fn lemma_id_lookup(t: UserTables, id: i32)
    requires
        tables_wf(t),
    ensures
        (user_with_id(t, id) is Some) == (1 <= id <= t.users.len()),
        (verification_of(t, id) is Some) == (1 <= id <= t.users.len()),
        1 <= id <= t.users.len() ==> user_with_id(t, id) == Some(t.users[id - 1]) && verification_of(t, id)
            == Some(t.verifications[id - 1]),
{
    if 1 <= id <= t.users.len() {
        let i = id - 1;
        assert(t.users[i].id == i + 1);
        assert forall|j: int| 0 <= j < i implies !has_id(id)(#[trigger] t.users[j]) by {
            assert(t.users[j].id == j + 1);
        }
        lemma_first_match_at(t.users, has_id(id), i);
        assert forall|j: int| 0 <= j < i implies !verifies_user(id)(#[trigger] t.verifications[j]) by {
            assert(t.users[j].id == j + 1);
        }
        lemma_first_match_at(t.verifications, verifies_user(id), i);
    } else {
        assert forall|j: int| 0 <= j < t.users.len() implies !has_id(id)(#[trigger] t.users[j]) by {
            assert(t.users[j].id == j + 1);
        }
        lemma_first_match_none(t.users, has_id(id));
        assert forall|j: int| 0 <= j < t.verifications.len() implies !verifies_user(id)(
            #[trigger] t.verifications[j],
        ) by {
            assert(t.users[j].id == j + 1);
        }
        lemma_first_match_none(t.verifications, verifies_user(id));
    }
}

/// The view of a details result.
pub open spec fn details_view(r: Option<UserDetails>) -> Option<(User, Option<Verification>, Seq<SocialLink>)> {
    match r {
        Some((u, v, s)) => Some((u, v, s@)),
        None => None,
    }
}

/// Why a registration of `user` with `social` is refused, if it is.
pub open spec fn creation_error(t: UserTables, user: NewUser, social: Option<NewSocialLink>) -> Option<AppError> {
    if user_with_uuid(t, user.uuid@) is Some || (social is Some && social_with(
        t,
        social.unwrap().provider,
        social.unwrap().provider_id@,
    ) is Some) {
        Some(AppError::Storage(StorageFault::UniqueViolation))
    } else if t.users.len() >= i32::MAX || t.socials.len() >= i32::MAX {
        Some(AppError::Storage(StorageFault::IdSpaceExhausted))
    } else {
        None
    }
}

/// The id that the next registered user gets.
pub open spec fn next_user_id(t: UserTables) -> i32 {
    (t.users.len() + 1) as i32
}

/// The tables after a registration: the user, then its social link if there
/// is one, then its verification record.
pub open spec fn created(t: UserTables, user: NewUser, social: Option<NewSocialLink>, verification: NewVerification) -> UserTables {
    let id = next_user_id(t);
    UserTables {
        users: t.users.push(user.stored_as(id)),
        verifications: t.verifications.push(verification.stored_as(id, id)),
        socials: match social {
            Some(s) => t.socials.push(s.stored_as((t.socials.len() + 1) as i32, id)),
            None => t.socials,
        },
    }
}

/// The result of a registration.
pub open spec fn creation_result(t: UserTables, user: NewUser, social: Option<NewSocialLink>) -> AppResult<User> {
    match creation_error(t, user, social) {
        Some(e) => Err(e),
        None => Ok(user.stored_as(next_user_id(t))),
    }
}

/// The tables after a registration attempt: unchanged where it is refused.
pub open spec fn after_creation(t: UserTables, user: NewUser, social: Option<NewSocialLink>, verification: NewVerification) -> UserTables {
    if creation_error(t, user, social) is Some {
        t
    } else {
        created(t, user, social, verification)
    }
}

/// The result of a user update.
pub open spec fn user_update_result(t: UserTables, patch: UserPatch) -> AppResult<User> {
    match user_with_id(t, patch.id) {
        Some(u) => Ok(patch.applied_to(u)),
        None => Err(AppError::NotFound),
    }
}

/// The tables after a user update.
pub open spec fn after_user_update(t: UserTables, patch: UserPatch) -> UserTables {
    match user_with_id(t, patch.id) {
        Some(u) => UserTables { users: t.users.update(patch.id - 1, patch.applied_to(u)), ..t },
        None => t,
    }
}

/// The result of a verification update.
pub open spec fn verification_update_result(t: UserTables, patch: VerificationPatch) -> AppResult<Verification> {
    match verification_of(t, patch.user_id) {
        Some(v) => Ok(patch.applied_to(v)),
        None => Err(AppError::NotFound),
    }
}

/// The tables after a verification update.
pub open spec fn after_verification_update(t: UserTables, patch: VerificationPatch) -> UserTables {
    match verification_of(t, patch.user_id) {
        Some(v) => UserTables {
            verifications: t.verifications.update(patch.user_id - 1, patch.applied_to(v)),
            ..t
        },
        None => t,
    }
}

/// A failure of the backend rather than of the tables: a storage failure
/// with its cause, or the use of a unit of work that is already finished.
pub open spec fn backend_failure(e: AppError) -> bool {
    match e {
        AppError::Storage(StorageFault::Backend(_)) => true,
        AppError::TransactionState => true,
        _ => false,
    }
}

/// `r` is a failure of the backend.
pub open spec fn failed_in_backend<T>(r: AppResult<T>) -> bool {
    match r {
        Err(e) => backend_failure(e),
        Ok(_) => false,
    }
}

/// A store of the user aggregate. Reads return absence, never an error, when
/// no row matches. Writes are atomic: one that fails leaves the tables as
/// they were. Besides the errors of the tables themselves, a backend that is
/// not `infallible` may fail any operation with a storage failure or, when
/// it is joined to a finished unit of work, with a transaction-state error.
pub trait UserRepository: Sized {
    /// The tables that this repository reads and writes.
    spec fn tables(&self) -> UserTables;

    /// The backend whose units of work this repository joins.
    spec fn backend(&self) -> Backend;

    /// Whether the backend itself never fails (an in-process store).
    spec fn infallible(&self) -> bool;

    /// The unit of work that this repository is joined to, if any.
    spec fn unit(&self) -> Option<u64>;

    fn find_by_id(&self, id: i32) -> (r: AppResult<Option<User>>)
        requires
            tables_wf(self.tables()),
        ensures
            r == Ok::<Option<User>, AppError>(user_with_id(self.tables(), id)) || (!self.infallible()
                && failed_in_backend(r)),
    ;

    fn find_by_uuid(&self, uuid: &str) -> (r: AppResult<Option<User>>)
        requires
            tables_wf(self.tables()),
        ensures
            r == Ok::<Option<User>, AppError>(user_with_uuid(self.tables(), uuid@)) || (!self.infallible()
                && failed_in_backend(r)),
    ;

    fn find_by_email(&self, email: &str) -> (r: AppResult<Option<User>>)
        requires
            tables_wf(self.tables()),
        ensures
            r == Ok::<Option<User>, AppError>(user_with_email(self.tables(), email@)) || (!self.infallible()
                && failed_in_backend(r)),
    ;

    fn find_social(&self, provider: SocialProvider, provider_id: &str) -> (r: AppResult<Option<SocialLink>>)
        requires
            tables_wf(self.tables()),
        ensures
            r == Ok::<Option<SocialLink>, AppError>(social_with(self.tables(), provider, provider_id@)) || (
            !self.infallible() && failed_in_backend(r)),
    ;

    fn find_with_details_by_uuid(&self, uuid: &str) -> (r: AppResult<Option<UserDetails>>)
        requires
            tables_wf(self.tables()),
        ensures
            (r is Ok && details_view(r.unwrap()) == details_of(self.tables(), uuid@)) || (!self.infallible()
                && failed_in_backend(r)),
    ;

    /// Inserts the user, then the social link if there is one, then the
    /// verification record, as one atomic unit.
    fn create_user_with_verification(
        &mut self,
        user: NewUser,
        social: Option<NewSocialLink>,
        verification: NewVerification,
    ) -> (r: AppResult<User>)
        requires
            tables_wf(old(self).tables()),
        ensures
            tables_wf(final(self).tables()),
            final(self).backend() == old(self).backend(),
            final(self).infallible() == old(self).infallible(),
            final(self).unit() == old(self).unit(),
            (r == creation_result(old(self).tables(), user, social) && final(self).tables() == after_creation(
                old(self).tables(),
                user,
                social,
                verification,
            )) || (!old(self).infallible() && failed_in_backend(r) && final(self).tables() == old(self).tables()),
    ;

    /// Writes the fields that `patch` sets into the user with id `patch.id`.
    fn update_user(&mut self, patch: UserPatch) -> (r: AppResult<User>)
        requires
            tables_wf(old(self).tables()),
        ensures
            tables_wf(final(self).tables()),
            final(self).backend() == old(self).backend(),
            final(self).infallible() == old(self).infallible(),
            final(self).unit() == old(self).unit(),
            (r == user_update_result(old(self).tables(), patch) && final(self).tables() == after_user_update(
                old(self).tables(),
                patch,
            )) || (!old(self).infallible() && failed_in_backend(r) && final(self).tables() == old(self).tables()),
    ;

    /// Writes the fields that `patch` sets into the verification record of
    /// user `patch.user_id`.
    fn update_verification(&mut self, patch: VerificationPatch) -> (r: AppResult<Verification>)
        requires
            tables_wf(old(self).tables()),
        ensures
            tables_wf(final(self).tables()),
            final(self).backend() == old(self).backend(),
            final(self).infallible() == old(self).infallible(),
            final(self).unit() == old(self).unit(),
            (r == verification_update_result(old(self).tables(), patch) && final(self).tables()
                == after_verification_update(old(self).tables(), patch)) || (!old(self).infallible()
                && failed_in_backend(r) && final(self).tables() == old(self).tables()),
    ;

    /// This repository joined to the unit of work `uow`: the same tables,
    /// with every later operation run in that unit of work; none where `uow`
    /// belongs to another backend. What is written through the result is
    /// written to this repository.
    fn with_transaction(&mut self, uow: &UnitOfWork) -> (r: Option<&mut Self>)
        ensures
            r is Some <==> uow.backend_spec() == old(self).backend(),
            r is Some ==> {
                &&& r.unwrap().tables() == old(self).tables()
                &&& r.unwrap().backend() == old(self).backend()
                &&& r.unwrap().infallible() == old(self).infallible()
                &&& r.unwrap().unit() == Some(uow.id_spec())
                &&& *final(self) == *final(r.unwrap())
            },
            r is None ==> *final(self) == *old(self),
    ;
}

pub proof fn lemma_first_match_none_all<A>(s: Seq<A>, p: spec_fn(A) -> bool, j: int)
    requires
        first_match(s, p) is None,
        0 <= j < s.len(),
    ensures
        !p(s[j]),
    decreases s.len(),
{
    let d = s.drop_last();
    if j < s.len() - 1 {
        assert(d[j] == s[j]);
        lemma_first_match_none_all(d, p, j);
    }
}

/// Under the invariant, the tables after a registration that is not refused
/// satisfy the invariant again.
pub proof fn lemma_created_wf(t: UserTables, user: NewUser, social: Option<NewSocialLink>, verification: NewVerification)
    requires
        tables_wf(t),
        creation_error(t, user, social) is None,
    ensures
        tables_wf(created(t, user, social, verification)),
{
    let c = created(t, user, social, verification);
    assert forall|i: int, j: int| 0 <= i < j < c.users.len() implies (#[trigger] c.users[i]).uuid@
        != (#[trigger] c.users[j]).uuid@ by {
        if j == t.users.len() {
            lemma_first_match_none_all(t.users, has_uuid(user.uuid@), i);
        }
    }
    assert forall|k: int, l: int| 0 <= k < l < c.socials.len() implies !same_identity(
        #[trigger] c.socials[k],
        #[trigger] c.socials[l],
    ) by {
        if l == t.socials.len() {
            let s = social.unwrap();
            lemma_first_match_none_all(t.socials, names_identity(s.provider, s.provider_id@), k);
        }
    }
    assert forall|k: int| 0 <= k < c.socials.len() implies 1 <= (#[trigger] c.socials[k]).user_id
        <= c.users.len() by {
        if k < t.socials.len() {
            assert(c.socials[k] == t.socials[k]);
        }
    }
}

/// Every registration that succeeds leaves its user with a verification
/// record: reading the user's details by its external id right after finds
/// the user and a blank record, with the email unverified and no code.
pub proof fn lemma_registration_has_verification(
    t: UserTables,
    user: NewUser,
    social: Option<NewSocialLink>,
    verification: NewVerification,
)
    requires
        tables_wf(t),
        creation_result(t, user, social) is Ok,
    ensures
        ({
            let id = next_user_id(t);
            let d = details_of(after_creation(t, user, social, verification), user.uuid@);
            &&& d is Some
            &&& d.unwrap().0 == user.stored_as(id)
            &&& d.unwrap().1 == Some(verification.stored_as(id, id))
            &&& !d.unwrap().1.unwrap().email_verified
            &&& d.unwrap().1.unwrap().user_id == id
            &&& d.unwrap().1.unwrap().verification_code is None
        }),
{
    let c = created(t, user, social, verification);
    let id = next_user_id(t);
    let n = t.users.len() as int;
    assert(c.users[n] == user.stored_as(id));
    assert forall|j: int| 0 <= j < n implies !has_uuid(user.uuid@)(#[trigger] c.users[j]) by {
        assert(c.users[j] == t.users[j]);
        lemma_first_match_none_all(t.users, has_uuid(user.uuid@), j);
    }
    lemma_first_match_at(c.users, has_uuid(user.uuid@), n);
    assert forall|j: int| 0 <= j < n implies !verifies_user(id)(#[trigger] c.verifications[j]) by {
        assert(c.verifications[j] == t.verifications[j]);
        assert(t.users[j].id == j + 1);
    }
    lemma_first_match_at(c.verifications, verifies_user(id), n);
}

/// A second registration of an identity (the same provider and provider
/// subject id) is refused with a uniqueness violation, and changes nothing.
pub proof fn lemma_duplicate_identity_rejected(
    t: UserTables,
    first_user: NewUser,
    first_link: NewSocialLink,
    first_verification: NewVerification,
    second_user: NewUser,
    second_link: NewSocialLink,
    second_verification: NewVerification,
)
    requires
        tables_wf(t),
        creation_result(t, first_user, Some(first_link)) is Ok,
        second_link.provider == first_link.provider,
        second_link.provider_id@ == first_link.provider_id@,
    ensures
        ({
            let t1 = after_creation(t, first_user, Some(first_link), first_verification);
            &&& creation_result(t1, second_user, Some(second_link)) == Err::<User, AppError>(
                AppError::Storage(StorageFault::UniqueViolation),
            )
            &&& after_creation(t1, second_user, Some(second_link), second_verification) == t1
        }),
{
    let t1 = created(t, first_user, Some(first_link), first_verification);
    let p = names_identity(second_link.provider, second_link.provider_id@);
    let k = t.socials.len() as int;
    assert(p(t1.socials[k]));
    if first_match(t1.socials, p) is None {
        lemma_first_match_none_all(t1.socials, p, k);
    }
}

/// A registration that is refused leaves the tables as they were, so no
/// user exists under the id it would have been given.
pub proof fn lemma_refused_registration_leaves_nothing(
    t: UserTables,
    user: NewUser,
    social: Option<NewSocialLink>,
    verification: NewVerification,
)
    requires
        tables_wf(t),
        creation_result(t, user, social) is Err,
        t.users.len() < i32::MAX,
    ensures
        after_creation(t, user, social, verification) == t,
        user_with_id(after_creation(t, user, social, verification), next_user_id(t)) is None,
{
    assert forall|j: int| 0 <= j < t.users.len() implies !has_id(next_user_id(t))(#[trigger] t.users[j]) by {
        assert(t.users[j].id == j + 1);
        assert(next_user_id(t) == t.users.len() + 1);
    }
    lemma_first_match_none(t.users, has_id(next_user_id(t)));
}

/// Sign-up followed by verification, as any repository that meets this
/// contract carries it out: after a user registers with a social link, its
/// details by external id show it unverified; after its verification record
/// is marked verified with the code cleared, they show it verified with no
/// code.
pub proof fn lemma_signup_then_verify(
    t: UserTables,
    user: NewUser,
    link: NewSocialLink,
    verification: NewVerification,
    patch: VerificationPatch,
)
    requires
        tables_wf(t),
        creation_result(t, user, Some(link)) is Ok,
        patch.user_id == next_user_id(t),
        patch.email_verified == Some(true),
        patch.verification_code == Some(None::<String>),
    ensures
        ({
            let t1 = after_creation(t, user, Some(link), verification);
            let t2 = after_verification_update(t1, patch);
            let d1 = details_of(t1, user.uuid@);
            let d2 = details_of(t2, user.uuid@);
            &&& tables_wf(t1)
            &&& tables_wf(t2)
            &&& d1 is Some && d1.unwrap().1 is Some && !d1.unwrap().1.unwrap().email_verified
            &&& d2 is Some && d2.unwrap().0 == d1.unwrap().0
            &&& d2.unwrap().1 is Some && d2.unwrap().1.unwrap().email_verified
            &&& d2.unwrap().1.unwrap().verification_code is None
        }),
{
    let t1 = created(t, user, Some(link), verification);
    lemma_created_wf(t, user, Some(link), verification);
    lemma_registration_has_verification(t, user, Some(link), verification);
    lemma_details_consistent(t1, user.uuid@);
    let id = next_user_id(t);
    let v = verification.stored_as(id, id);
    let t2 = after_verification_update(t1, patch);
    assert(verification_of(t1, id) == Some(v));
    assert(t2.users == t1.users);
    assert(t2.socials == t1.socials);
    let n = t.users.len() as int;
    assert(t2.verifications.len() == t1.verifications.len());
    assert forall|i: int| 0 <= i < t2.users.len() implies (#[trigger] t2.users[i]).id == i + 1
        && t2.verifications[i].user_id == i + 1 by {
        assert(t1.users[i].id == i + 1);
        assert(t1.verifications[i].user_id == i + 1);
    }
    assert(tables_wf(t2));
    assert(user_with_uuid(t2, user.uuid@) == user_with_uuid(t1, user.uuid@));
    assert forall|j: int| 0 <= j < n implies !verifies_user(id)(#[trigger] t2.verifications[j]) by {
        assert(t2.verifications[j] == t1.verifications[j]);
        assert(t1.users[j].id == j + 1);
        assert(t1.verifications[j].user_id == j + 1);
    }
    lemma_first_match_at(t2.verifications, verifies_user(id), n);
}

} // verus!
