use gimme_core::entities::{
    AccountStatus, NewSocialLink, NewUser, NewVerification, SocialProvider, Timestamp, UserPatch,
    VerificationPatch,
};
use gimme_core::error::{AppError, StorageFault};
use gimme_core::manager::RepositoryManager;
use gimme_core::memory::InMemoryUserRepository;
use gimme_core::repository::UserRepository;
use gimme_core::uow::{
    route, Backend, DbOrTxn, CreateAction, CreateSession, RepositoryBinding, Route, TxAction,
    UnitOfWork,
};

fn at(secs: i64) -> Timestamp {
    Timestamp { secs, nanos: 0 }
}

fn draft(uuid: &str, email: &str) -> NewUser {
    NewUser {
        uuid: uuid.to_string(),
        username: "alice".to_string(),
        email: email.to_string(),
        country_code: "82".to_string(),
        phone_number: "01012345678".to_string(),
        account_status: AccountStatus::Pending,
        created_at: at(100),
        updated_at: at(100),
        last_login_at: None,
    }
}

fn link(provider: SocialProvider, id: &str) -> NewSocialLink {
    NewSocialLink { provider, provider_id: id.to_string(), created_at: at(100) }
}

fn blank() -> NewVerification {
    NewVerification {
        business_verified: false,
        business_info: None,
    }
}

#[test]
fn create_then_find_by_every_key() {
    let mut repo = InMemoryUserRepository::new();
    let u = repo
        .create_user_with_verification(draft("u-1", "a@x.io"), Some(link(SocialProvider::Kakao, "k1")), blank())
        .unwrap();
    assert_eq!(u.id, 1);
    assert_eq!(u.uuid, "u-1");
    assert_eq!(repo.find_by_id(1).unwrap(), Some(u.clone()));
    assert_eq!(repo.find_by_uuid("u-1").unwrap(), Some(u.clone()));
    assert_eq!(repo.find_by_email("a@x.io").unwrap(), Some(u.clone()));
    let s = repo.find_social(SocialProvider::Kakao, "k1").unwrap().unwrap();
    assert_eq!(s.user_id, 1);
    assert_eq!(s.provider_id, "k1");
    assert_eq!(repo.find_social(SocialProvider::Google, "k1").unwrap(), None);
    assert_eq!(repo.find_by_id(2).unwrap(), None);
    assert_eq!(repo.find_by_id(0).unwrap(), None);
    assert_eq!(repo.find_by_uuid("nope").unwrap(), None);
}

#[test]
fn registration_always_has_unverified_verification() {
    let mut repo = InMemoryUserRepository::new();
    let u = repo.create_user_with_verification(draft("u-1", "a@x.io"), None, blank()).unwrap();
    let (user, verification, socials) = repo.find_with_details_by_uuid("u-1").unwrap().unwrap();
    assert_eq!(user, u);
    let v = verification.unwrap();
    assert_eq!(v.user_id, u.id);
    assert!(!v.email_verified);
    assert_eq!(v.verification_code, None);
    assert!(socials.is_empty());
    assert!(repo.find_with_details_by_uuid("other").unwrap().is_none());
}

#[test]
fn details_list_only_own_links_in_order() {
    let mut repo = InMemoryUserRepository::new();
    repo.create_user_with_verification(draft("u-1", "a@x.io"), Some(link(SocialProvider::Kakao, "k1")), blank())
        .unwrap();
    repo.create_user_with_verification(draft("u-2", "b@x.io"), Some(link(SocialProvider::Google, "g2")), blank())
        .unwrap();
    let (user, _, socials) = repo.find_with_details_by_uuid("u-2").unwrap().unwrap();
    assert_eq!(user.id, 2);
    assert_eq!(socials.len(), 1);
    assert_eq!(socials[0].provider, SocialProvider::Google);
    assert_eq!(socials[0].user_id, 2);
}

#[test]
fn duplicate_identity_is_rejected() {
    let mut repo = InMemoryUserRepository::new();
    repo.create_user_with_verification(draft("u-1", "a@x.io"), Some(link(SocialProvider::Kakao, "k1")), blank())
        .unwrap();
    let second =
        repo.create_user_with_verification(draft("u-2", "b@x.io"), Some(link(SocialProvider::Kakao, "k1")), blank());
    assert_eq!(second, Err(AppError::Storage(StorageFault::UniqueViolation)));
    assert_eq!(repo.find_by_uuid("u-2").unwrap(), None);
    assert_eq!(repo.find_by_id(2).unwrap(), None);
    // The same subject id at another provider is a different identity.
    let third =
        repo.create_user_with_verification(draft("u-3", "c@x.io"), Some(link(SocialProvider::Apple, "k1")), blank());
    assert_eq!(third.unwrap().id, 2);
}

#[test]
fn duplicate_external_id_is_rejected_and_leaves_nothing() {
    let mut repo = InMemoryUserRepository::new();
    repo.create_user_with_verification(draft("u-1", "a@x.io"), None, blank()).unwrap();
    let r = repo.create_user_with_verification(draft("u-1", "b@x.io"), Some(link(SocialProvider::Kakao, "k9")), blank());
    assert_eq!(r, Err(AppError::Storage(StorageFault::UniqueViolation)));
    assert_eq!(repo.find_by_id(2).unwrap(), None);
    assert_eq!(repo.find_social(SocialProvider::Kakao, "k9").unwrap(), None);
}

#[test]
fn find_by_id_twice_gives_the_same_fields() {
    let mut repo = InMemoryUserRepository::new();
    repo.create_user_with_verification(draft("u-1", "a@x.io"), None, blank()).unwrap();
    let first = repo.find_by_id(1).unwrap();
    let second = repo.find_by_id(1).unwrap();
    assert_eq!(first, second);
    assert!(first.is_some());
}

#[test]
fn find_by_email_returns_first_registered() {
    let mut repo = InMemoryUserRepository::new();
    repo.create_user_with_verification(draft("u-1", "same@x.io"), None, blank()).unwrap();
    repo.create_user_with_verification(draft("u-2", "same@x.io"), None, blank()).unwrap();
    assert_eq!(repo.find_by_email("same@x.io").unwrap().unwrap().uuid, "u-1");
}

#[test]
fn update_user_writes_only_set_fields() {
    let mut repo = InMemoryUserRepository::new();
    let u = repo.create_user_with_verification(draft("u-1", "a@x.io"), None, blank()).unwrap();
    let patch = UserPatch {
        id: u.id,
        username: None,
        email: Some("new@x.io".to_string()),
        country_code: None,
        phone_number: None,
        account_status: Some(AccountStatus::Active),
        updated_at: None,
        last_login_at: Some(Some(at(200))),
    };
    let updated = repo.update_user(patch).unwrap();
    assert_eq!(updated.email, "new@x.io");
    assert_eq!(updated.account_status, AccountStatus::Active);
    assert_eq!(updated.last_login_at, Some(at(200)));
    assert_eq!(updated.username, "alice");
    assert_eq!(updated.uuid, "u-1");
    assert_eq!(repo.find_by_id(1).unwrap(), Some(updated));
}

#[test]
fn update_of_missing_rows_is_not_found() {
    let mut repo = InMemoryUserRepository::new();
    let patch = UserPatch {
        id: 7,
        username: None,
        email: None,
        country_code: None,
        phone_number: None,
        account_status: None,
        updated_at: None,
        last_login_at: None,
    };
    assert_eq!(repo.update_user(patch), Err(AppError::NotFound));
    let vpatch = VerificationPatch {
        user_id: 7,
        email_verified: Some(true),
        email_verified_at: None,
        phone_verified: None,
        phone_verified_at: None,
        business_verified: None,
        business_info: None,
        verification_code: None,
    };
    assert_eq!(repo.update_verification(vpatch), Err(AppError::NotFound));
}

#[test]
fn update_verification_sets_and_clears_code() {
    let mut repo = InMemoryUserRepository::new();
    repo.create_user_with_verification(draft("u-1", "a@x.io"), None, blank()).unwrap();
    let mut patch = VerificationPatch {
        user_id: 1,
        email_verified: None,
        email_verified_at: None,
        phone_verified: None,
        phone_verified_at: None,
        business_verified: None,
        business_info: None,
        verification_code: Some(Some("123456".to_string())),
    };
    let v = repo.update_verification(patch.clone()).unwrap();
    assert_eq!(v.verification_code, Some("123456".to_string()));
    patch.verification_code = Some(None);
    patch.email_verified = Some(true);
    let v = repo.update_verification(patch).unwrap();
    assert_eq!(v.verification_code, None);
    assert!(v.email_verified);
    let (_, stored, _) = repo.find_with_details_by_uuid("u-1").unwrap().unwrap();
    assert_eq!(stored, Some(v));
}

#[test]
fn with_transaction_refuses_foreign_unit_of_work() {
    let mut repo = InMemoryUserRepository::new();
    let foreign = UnitOfWork::open(Backend::Relational, 1);
    assert!(repo.with_transaction(&foreign).is_none());
    let own = UnitOfWork::open(Backend::InMemory, 2);
    let tx = repo.with_transaction(&own).unwrap();
    tx.create_user_with_verification(draft("u-1", "a@x.io"), None, blank()).unwrap();
    assert!(repo.find_by_uuid("u-1").unwrap().is_some());

    let pooled = RepositoryBinding::pooled(Backend::Relational);
    let mem_uow = UnitOfWork::open(Backend::InMemory, 3);
    assert_eq!(pooled.with_transaction(&mem_uow), None);
    let pg_uow = UnitOfWork::open(Backend::Relational, 4);
    assert_eq!(
        pooled.with_transaction(&pg_uow),
        Some(RepositoryBinding { backend: Backend::Relational, binding: DbOrTxn::Txn(4) })
    );
}

#[test]
fn unit_of_work_finishes_once() {
    let mut uow = UnitOfWork::open(Backend::Relational, 9);
    assert!(uow.is_open());
    assert_eq!(uow.commit(), TxAction::Commit);
    assert!(!uow.is_open());
    assert_eq!(uow.rollback(), TxAction::Nothing);
    assert_eq!(uow.commit(), TxAction::Nothing);

    let mut other = UnitOfWork::open(Backend::Relational, 10);
    assert_eq!(other.rollback(), TxAction::Rollback);
    assert_eq!(other.rollback(), TxAction::Nothing);

    let mut mem = UnitOfWork::open(Backend::InMemory, 11);
    assert_eq!(mem.commit(), TxAction::Nothing);
    assert!(!mem.is_open());
}

#[test]
fn route_fails_on_finished_transaction() {
    assert_eq!(route(DbOrTxn::Conn, false), Ok(Route::Direct));
    assert_eq!(route(DbOrTxn::Txn(3), true), Ok(Route::InTransaction(3)));
    assert_eq!(route(DbOrTxn::Txn(3), false), Err(AppError::TransactionState));
}

fn run_session(binding: DbOrTxn, has_social: bool, fail_at: Option<CreateAction>) -> (Vec<CreateAction>, bool) {
    let (mut session, mut action) = CreateSession::start(binding, has_social);
    let mut seen = vec![action];
    while action != CreateAction::Finish {
        let ok = Some(action) != fail_at;
        action = session.advance(ok);
        seen.push(action);
    }
    (seen, session.succeeded())
}

#[test]
fn relational_registration_on_connection_commits() {
    let (steps, ok) = run_session(DbOrTxn::Conn, true, None);
    assert_eq!(
        steps,
        vec![
            CreateAction::BeginTransaction,
            CreateAction::InsertUser,
            CreateAction::InsertSocial,
            CreateAction::InsertVerification,
            CreateAction::CommitTransaction,
            CreateAction::Finish,
        ]
    );
    assert!(ok);
}

#[test]
fn relational_registration_in_callers_transaction_does_not_commit() {
    let (steps, ok) = run_session(DbOrTxn::Txn(5), false, None);
    assert_eq!(steps, vec![CreateAction::InsertUser, CreateAction::InsertVerification, CreateAction::Finish]);
    assert!(ok);
}

#[test]
fn relational_registration_failure_rolls_back() {
    let (steps, ok) = run_session(DbOrTxn::Conn, true, Some(CreateAction::InsertVerification));
    assert_eq!(
        steps,
        vec![
            CreateAction::BeginTransaction,
            CreateAction::InsertUser,
            CreateAction::InsertSocial,
            CreateAction::InsertVerification,
            CreateAction::RollbackTransaction,
            CreateAction::Finish,
        ]
    );
    assert!(!ok);
    let (steps, ok) = run_session(DbOrTxn::Txn(5), true, Some(CreateAction::InsertSocial));
    assert_eq!(steps, vec![CreateAction::InsertUser, CreateAction::InsertSocial, CreateAction::Finish]);
    assert!(!ok);
}

#[test]
fn manager_resolves_registered_repository() {
    let mut manager: RepositoryManager<InMemoryUserRepository> = RepositoryManager::new(Backend::InMemory);
    assert_eq!(manager.get().err(), Some(AppError::Configuration));
    manager.register(InMemoryUserRepository::new());
    assert!(manager.get().is_ok());
    let first = manager.begin();
    let second = manager.begin();
    assert_eq!(first.id(), 0);
    assert_eq!(second.id(), 1);
    assert_eq!(first.backend(), Backend::InMemory);
    let repo = manager.get_mut().unwrap();
    repo.create_user_with_verification(draft("u-1", "a@x.io"), None, blank()).unwrap();
    assert!(manager.get().unwrap().find_by_id(1).unwrap().is_some());
}
