use gimme_core::auth::{AuthService, CodeStatus, EmailCodeOutcome, OAuthUserInfo};
use gimme_core::entities::{AccountStatus, SocialProvider, Timestamp};
use gimme_core::error::AppError;
use gimme_core::memory::InMemoryUserRepository;
use gimme_core::repository::UserRepository;
use gimme_core::services::{create_user, create_user_with, CreateUserRequest, SocialLoginDto, UserResponse, UserService};
use gimme_core::uow::{Backend, TxAction, UnitOfWork};

fn at(secs: i64) -> Timestamp {
    Timestamp { secs, nanos: 0 }
}

fn kakao_dto(id: &str, name: Option<&str>, connected_at: Option<&str>) -> SocialLoginDto {
    SocialLoginDto {
        provider: SocialProvider::Kakao,
        provider_id: id.to_string(),
        email: Some("kim@x.io".to_string()),
        name: name.map(|n| n.to_string()),
        phone_number: None,
        connected_at: connected_at.map(|c| c.to_string()),
    }
}

fn request() -> CreateUserRequest {
    CreateUserRequest {
        username: "testuser".to_string(),
        email: "test@example.com".to_string(),
        country_code: "82".to_string(),
        phone_number: "01012345678".to_string(),
    }
}

#[test]
fn user_test_create_user_success() {
    let mut repo = InMemoryUserRepository::new();
    let response = create_user(&mut repo, request());
    assert!(response.is_ok());
    let user_response = UserResponse::from_user(response.unwrap());
    assert_eq!(user_response.username, "testuser");
    assert_eq!(user_response.email, "test@example.com");
    assert_eq!(user_response.id, 1);
}

#[test]
fn handlers_test_create_user_success() {
    let mut repo = InMemoryUserRepository::new();
    let response = create_user(&mut repo, request());
    assert!(response.is_ok());
    let user_response = UserResponse::from_user(response.unwrap());
    assert_eq!(user_response.username, "testuser");
    assert_eq!(user_response.email, "test@example.com");
    assert_eq!(user_response.country_code, "82");
    assert_eq!(user_response.phone_number, "01012345678");
    assert_eq!(user_response.id, 1);
    assert!(user_response.uuid.parse::<u128>().is_ok());
}

#[test]
fn direct_signup_is_pending_with_blank_verification() {
    let mut repo = InMemoryUserRepository::new();
    let u = create_user_with(&mut repo, request(), "340282366920938463463374607431768211455".to_string(), at(5))
        .unwrap();
    assert_eq!(u.account_status, AccountStatus::Pending);
    assert_eq!(u.last_login_at, None);
    assert_eq!(u.created_at, at(5));
    let (_, v, socials) = repo.find_with_details_by_uuid("340282366920938463463374607431768211455").unwrap().unwrap();
    let v = v.unwrap();
    assert!(!v.email_verified && !v.phone_verified && !v.business_verified);
    assert_eq!(v.business_info, None);
    assert!(socials.is_empty());
}

#[test]
fn first_social_login_registers_pending_user() {
    let mut repo = InMemoryUserRepository::new();
    let u = UserService::social_login_with(
        &mut repo,
        kakao_dto("42", Some("Kim"), Some("2024-01-01T00:00:00Z")),
        "hash-1".to_string(),
        at(7),
    )
    .unwrap();
    assert_eq!(u.uuid, "hash-1");
    assert_eq!(u.username, "Kim");
    assert_eq!(u.email, "kim@x.io");
    assert_eq!(u.phone_number, "");
    assert_eq!(u.country_code, "");
    assert_eq!(u.account_status, AccountStatus::Pending);
    assert_eq!(u.last_login_at, Some(at(7)));
    let (_, v, socials) = repo.find_with_details_by_uuid("hash-1").unwrap().unwrap();
    assert_eq!(v.unwrap().business_info, Some("{}".to_string()));
    assert_eq!(socials.len(), 1);
    assert_eq!(socials[0].provider_id, "42");
}

#[test]
fn known_identity_logs_in_as_owner() {
    let mut repo = InMemoryUserRepository::new();
    let first = UserService::social_login_with(&mut repo, kakao_dto("42", Some("Kim"), Some("c")), "h1".to_string(), at(1))
        .unwrap();
    // No connection time and no name: a new identity would be refused, a known one logs in.
    let again = UserService::social_login_with(&mut repo, kakao_dto("42", None, None), "h2".to_string(), at(2)).unwrap();
    assert_eq!(again, first);
    assert_eq!(repo.find_by_uuid("h2").unwrap(), None);
}

#[test]
fn social_login_refusals() {
    let mut repo = InMemoryUserRepository::new();
    let r = UserService::social_login_with(&mut repo, kakao_dto("1", Some("Kim"), None), "h".to_string(), at(1));
    assert_eq!(r, Err(AppError::BadRequest("Missing connected_at".to_string())));
    let r = UserService::social_login_with(&mut repo, kakao_dto("1", None, Some("c")), "h".to_string(), at(1));
    assert_eq!(
        r,
        Err(AppError::BadRequest("Username or email is missing (maybe oauth provider's issue)".to_string()))
    );
    let r = UserService::social_login_with(&mut repo, kakao_dto("1", Some("User"), Some("c")), "h".to_string(), at(1));
    assert!(matches!(r, Err(AppError::BadRequest(_))));
    assert_eq!(repo.find_by_id(1).unwrap(), None);
}

#[test]
fn social_login_hashes_the_external_id() {
    let mut repo = InMemoryUserRepository::new();
    let u = UserService::handle_social_login(&mut repo, kakao_dto("42", Some("Kim"), Some("c"))).unwrap();
    assert_eq!(u.uuid.len(), 128);
    assert!(u.uuid.chars().all(|c| c.is_ascii_hexdigit() && !c.is_ascii_uppercase()));
}

#[test]
fn auth_login_reports_follow_up() {
    let mut repo = InMemoryUserRepository::new();
    let info = OAuthUserInfo {
        provider_id: "99".to_string(),
        email: Some("p@x.io".to_string()),
        name: Some("Park".to_string()),
        age_range: None,
        birthyear: None,
        phone_number: Some("010".to_string()),
        connected_at: Some("c".to_string()),
    };
    let (user, more) = AuthService::handle_social_login(&mut repo, SocialProvider::Google, info.clone()).unwrap();
    assert!(more);
    assert_eq!(user.phone_number, "010");
    let mut uow = UnitOfWork::open(Backend::InMemory, 1);
    let sub = user.uuid.clone();
    AuthService::verify_email_code(&mut repo, &mut uow, &sub, "p@x.io".to_string(), "1", Some("1".to_string()), at(3))
        .unwrap();
    let (again, more) = AuthService::handle_social_login(&mut repo, SocialProvider::Google, info).unwrap();
    assert_eq!(again.account_status, AccountStatus::Active);
    assert!(!more);
}

#[test]
fn signup_then_verify_email() {
    let mut repo = InMemoryUserRepository::new();
    let u = UserService::social_login_with(&mut repo, kakao_dto("7", Some("Lee"), Some("c")), "ext-7".to_string(), at(1))
        .unwrap();
    let (_, v, _) = repo.find_with_details_by_uuid("ext-7").unwrap().unwrap();
    assert!(!v.unwrap().email_verified);
    assert_eq!(AuthService::check_code_request(&repo, "ext-7"), Ok(()));
    let code = AuthService::request_email_verification(&repo, "ext-7").unwrap();
    assert_eq!(code.len(), 6);
    let n: u32 = code.parse().unwrap();
    assert!((100000..999999).contains(&n));

    let mut uow = UnitOfWork::open(Backend::InMemory, 1);
    let outcome = AuthService::verify_email_code(
        &mut repo,
        &mut uow,
        "ext-7",
        "lee@x.io".to_string(),
        &code,
        Some(code.clone()),
        at(9),
    );
    assert_eq!(outcome, Ok(EmailCodeOutcome::Verified { commit: TxAction::Nothing }));
    assert!(!uow.is_open());
    let (user, v, _) = repo.find_with_details_by_uuid("ext-7").unwrap().unwrap();
    let v = v.unwrap();
    assert!(v.email_verified);
    assert_eq!(v.verification_code, None);
    assert_eq!(v.email_verified_at, Some(at(9)));
    assert_eq!(user.id, u.id);
    assert_eq!(user.account_status, AccountStatus::Active);
    assert_eq!(user.email, "lee@x.io");
    assert_eq!(AuthService::require_email_verified(&repo, "ext-7"), Ok(()));

    let mut later = UnitOfWork::open(Backend::InMemory, 2);
    let again = AuthService::verify_email_code(&mut repo, &mut later, "ext-7", "lee@x.io".to_string(), "0", None, at(10));
    assert_eq!(again, Ok(EmailCodeOutcome::AlreadyVerified));
    assert!(later.is_open());
    assert_eq!(
        AuthService::check_code_request(&repo, "ext-7"),
        Err(AppError::BadRequest("User is already active or banned".to_string()))
    );
}

#[test]
fn wrong_or_missing_code_is_refused() {
    let mut repo = InMemoryUserRepository::new();
    UserService::social_login_with(&mut repo, kakao_dto("7", Some("Lee"), Some("c")), "ext-7".to_string(), at(1)).unwrap();
    let mut uow = UnitOfWork::open(Backend::InMemory, 1);
    let r = AuthService::verify_email_code(&mut repo, &mut uow, "ext-7", "e".to_string(), "111111", Some("222222".to_string()), at(2));
    assert_eq!(r, Err(AppError::BadRequest("Invalid verification code".to_string())));
    let r = AuthService::verify_email_code(&mut repo, &mut uow, "ext-7", "e".to_string(), "111111", None, at(2));
    assert_eq!(r, Err(AppError::BadRequest("No verification code found (or expired)".to_string())));
    let r = AuthService::verify_email_code(&mut repo, &mut uow, "missing", "e".to_string(), "1", Some("1".to_string()), at(2));
    assert_eq!(r, Err(AppError::NotFound));
    let mut foreign = UnitOfWork::open(Backend::Relational, 2);
    let r = AuthService::verify_email_code(&mut repo, &mut foreign, "ext-7", "e".to_string(), "1", Some("1".to_string()), at(2));
    assert_eq!(r, Err(AppError::InternalServerError("Failed to start transaction for user repo".to_string())));
    assert!(foreign.is_open());
    assert!(uow.is_open());
    assert_eq!(
        AuthService::require_email_verified(&repo, "ext-7"),
        Err(AppError::Forbidden("Email not verified".to_string()))
    );
    assert_eq!(AuthService::require_email_verified(&repo, "missing"), Err(AppError::NotFound));
}

#[test]
fn reset_email_verified_clears_flag() {
    let mut repo = InMemoryUserRepository::new();
    UserService::social_login_with(&mut repo, kakao_dto("7", Some("Lee"), Some("c")), "ext-7".to_string(), at(1)).unwrap();
    let mut uow = UnitOfWork::open(Backend::InMemory, 1);
    AuthService::verify_email_code(&mut repo, &mut uow, "ext-7", "e".to_string(), "1", Some("1".to_string()), at(2)).unwrap();
    assert_eq!(AuthService::reset_email_verified(&mut repo, "ext-7"), Ok(true));
    let (_, v, _) = repo.find_with_details_by_uuid("ext-7").unwrap().unwrap();
    assert!(!v.unwrap().email_verified);
    assert_eq!(AuthService::reset_email_verified(&mut repo, "missing"), Err(AppError::NotFound));
    assert_eq!(AuthService::request_email_verification(&repo, "missing"), Err(AppError::NotFound));
}

#[test]
fn code_request_refused_when_already_verified() {
    let mut repo = InMemoryUserRepository::new();
    UserService::social_login_with(&mut repo, kakao_dto("7", Some("Lee"), Some("c")), "ext-7".to_string(), at(1)).unwrap();
    let mut uow = UnitOfWork::open(Backend::InMemory, 1);
    AuthService::verify_email_code(&mut repo, &mut uow, "ext-7", "e".to_string(), "1", Some("1".to_string()), at(2)).unwrap();
    // Back to pending while the email stays verified.
    let patch = gimme_core::entities::UserPatch {
        id: 1,
        username: None,
        email: None,
        country_code: None,
        phone_number: None,
        account_status: Some(AccountStatus::Pending),
        updated_at: None,
        last_login_at: None,
    };
    repo.update_user(patch).unwrap();
    assert_eq!(
        AuthService::check_code_request(&repo, "ext-7"),
        Err(AppError::BadRequest("Email already verified".to_string()))
    );
}

#[test]
fn email_code_steps() {
    let mut repo = InMemoryUserRepository::new();
    let u = UserService::social_login_with(&mut repo, kakao_dto("8", Some("Cho"), Some("c")), "ext-8".to_string(), at(1))
        .unwrap();
    assert_eq!(AuthService::email_code_status(&repo, "ext-8"), Ok(CodeStatus::Pending { user_id: u.id }));
    assert_eq!(AuthService::email_code_status(&repo, "nobody"), Err(AppError::NotFound));
    assert_eq!(AuthService::check_code("123456", Some("123456".to_string())), Ok(()));
    assert_eq!(
        AuthService::check_code("123456", Some("654321".to_string())),
        Err(AppError::BadRequest("Invalid verification code".to_string()))
    );
    assert_eq!(
        AuthService::check_code("123456", None),
        Err(AppError::BadRequest("No verification code found (or expired)".to_string()))
    );
    let mut uow = UnitOfWork::open(Backend::InMemory, 4);
    assert_eq!(
        AuthService::apply_email_verification(&mut repo, &mut uow, 99, "x@x.io".to_string(), at(2)),
        Err(AppError::NotFound)
    );
    assert!(uow.is_open());
    assert_eq!(
        AuthService::apply_email_verification(&mut repo, &mut uow, u.id, "cho@x.io".to_string(), at(2)),
        Ok(TxAction::Nothing)
    );
    assert!(!uow.is_open());
    assert_eq!(AuthService::email_code_status(&repo, "ext-8"), Ok(CodeStatus::AlreadyVerified));
    assert_eq!(repo.find_by_id(u.id).unwrap().unwrap().email, "cho@x.io");
}

#[test]
fn registration_record_is_blank_whatever_the_draft() {
    let mut repo = InMemoryUserRepository::new();
    let draft = gimme_core::entities::NewVerification { business_verified: true, business_info: Some("b".to_string()) };
    let u = create_user_with(&mut repo, request(), "e-1".to_string(), at(1)).unwrap();
    let (_, v, _) = repo.find_with_details_by_uuid("e-1").unwrap().unwrap();
    let v = v.unwrap();
    assert!(!v.email_verified && v.email_verified_at.is_none() && v.verification_code.is_none());
    assert_eq!(v.user_id, u.id);
    let mut other = request();
    other.email = "o@x.io".to_string();
    let nu = gimme_core::entities::NewUser {
        uuid: "e-2".to_string(),
        username: other.username,
        email: other.email,
        country_code: other.country_code,
        phone_number: other.phone_number,
        account_status: AccountStatus::Pending,
        created_at: at(1),
        updated_at: at(1),
        last_login_at: None,
    };
    repo.create_user_with_verification(nu, None, draft).unwrap();
    let (_, v, _) = repo.find_with_details_by_uuid("e-2").unwrap().unwrap();
    let v = v.unwrap();
    assert!(v.business_verified);
    assert!(!v.email_verified && !v.phone_verified && v.verification_code.is_none());
}
