//! Domain services of the user aggregate: social login and direct sign-up.
//! They reach storage only through a `UserRepository`.
use vstd::prelude::*;
use vstd::string::*;
use crate::entities::{
    AccountStatus, NewSocialLink, NewUser, NewVerification, SocialProvider, Timestamp, User,
};
use crate::error::{is_bad_request, AppError, AppResult};
use crate::ids::{current_time, generate_user_uuid, new_decimal_uuid};
use crate::ids::{sha512_hex_of, uuid_seed};
use crate::repository::{
    after_creation, creation_result, failed_in_backend, lemma_social_owner_exists, social_with,
    tables_wf, user_with_id, UserRepository, UserTables,
};
use crate::text::decimal_text;

verus! {

/// What an OAuth provider told about a user who logs in.
#[derive(Debug, Clone, PartialEq, Eq)]
pub struct SocialLoginDto {
    pub provider: SocialProvider,
    pub provider_id: String,
    pub email: Option<String>,
    pub name: Option<String>,
    pub phone_number: Option<String>,
    pub connected_at: Option<String>,
}

/// A direct sign-up.
#[derive(Debug, Clone, PartialEq, Eq)]
pub struct CreateUserRequest {
    pub username: String,
    pub email: String,
    pub country_code: String,
    pub phone_number: String,
}

/// A user as it is shown to its owner.
#[derive(Debug, Clone, PartialEq, Eq)]
pub struct UserResponse {
    pub id: i32,
    pub uuid: String,
    pub username: String,
    pub email: String,
    pub country_code: String,
    pub phone_number: String,
    pub account_status: AccountStatus,
    pub created_at: Timestamp,
    pub updated_at: Timestamp,
    pub last_login_at: Option<Timestamp>,
}

impl UserResponse {
    pub fn from_user(u: User) -> (r: UserResponse)
        ensures
            r == (UserResponse {
                id: u.id,
                uuid: u.uuid,
                username: u.username,
                email: u.email,
                country_code: u.country_code,
                phone_number: u.phone_number,
                account_status: u.account_status,
                created_at: u.created_at,
                updated_at: u.updated_at,
                last_login_at: u.last_login_at,
            }),
    {
        UserResponse {
            id: u.id,
            uuid: u.uuid,
            username: u.username,
            email: u.email,
            country_code: u.country_code,
            phone_number: u.phone_number,
            account_status: u.account_status,
            created_at: u.created_at,
            updated_at: u.updated_at,
            last_login_at: u.last_login_at,
        }
    }
}

pub struct UserService;

/// The text of an optional field, empty where it is absent.
pub open spec fn text_or_empty(s: Option<String>) -> Seq<char> {
    match s {
        Some(x) => x@,
        None => Seq::empty(),
    }
}

/// Why a first social login cannot register a user, if it cannot: the
/// provider must say when the account was connected, and give a name other
/// than the placeholder `User`.
pub open spec fn signup_refusal(dto: SocialLoginDto) -> Option<Seq<char>> {
    if dto.connected_at is None {
        Some("Missing connected_at"@)
    } else if dto.name is None || dto.name.unwrap()@ == "User"@ {
        Some("Username or email is missing (maybe oauth provider's issue)"@)
    } else {
        None
    }
}

/// The drafts of a first social login at `now` under external id `uuid`: a
/// pending user named as the provider says, with the provider's email and
/// phone (empty where absent) and no country; a link to the provider's
/// identity; a blank verification record with an empty JSON object as
/// business info.
pub open spec fn social_signup_drafts(
    nu: NewUser,
    ns: NewSocialLink,
    nv: NewVerification,
    dto: SocialLoginDto,
    uuid: Seq<char>,
    now: Timestamp,
) -> bool {
    &&& nu.uuid@ == uuid
    &&& nu.username@ == text_or_empty(dto.name)
    &&& nu.email@ == text_or_empty(dto.email)
    &&& nu.country_code@ == Seq::<char>::empty()
    &&& nu.phone_number@ == text_or_empty(dto.phone_number)
    &&& nu.account_status == AccountStatus::Pending
    &&& nu.created_at == now
    &&& nu.updated_at == now
    &&& nu.last_login_at == Some(now)
    &&& ns.provider == dto.provider
    &&& ns.provider_id@ == dto.provider_id@
    &&& ns.created_at == now
    &&& !nv.business_verified
    &&& nv.business_info is Some
    &&& nv.business_info.unwrap()@ == "{}"@
}

/// The result `r` and the tables `t2` of a social login on tables `t` at
/// `now`, where a new user would get external id `uuid`: a known identity
/// logs in as its owner whatever the account's status; an unknown one
/// registers a user with its social link and verification record, unless the
/// provider's data are refused.
pub open spec fn social_login_outcome(
    t: UserTables,
    dto: SocialLoginDto,
    uuid: Seq<char>,
    now: Timestamp,
    r: AppResult<User>,
    t2: UserTables,
) -> bool {
    match social_with(t, dto.provider, dto.provider_id@) {
        Some(s) => t2 == t && r == Ok::<User, AppError>(user_with_id(t, s.user_id).unwrap()),
        None => match signup_refusal(dto) {
            Some(msg) => t2 == t && is_bad_request(r, msg),
            None => exists|nu: NewUser, ns: NewSocialLink, nv: NewVerification|
                social_signup_drafts(nu, ns, nv, dto, uuid, now) && r == creation_result(t, nu, Some(ns))
                    && t2 == after_creation(t, nu, Some(ns), nv),
        },
    }
}

/// The external id of a first social login at clock reading `t` (seconds
/// since the Unix epoch): the SHA-512 of the provider id, the time and the
/// connection time. Without a connection time no user is registered, and the
/// id is empty.
pub open spec fn social_uuid(dto: SocialLoginDto, t: i64) -> Seq<char> {
    match dto.connected_at {
        Some(c) => sha512_hex_of(uuid_seed(dto.provider_id@, t as int, c@)),
        None => Seq::empty(),
    }
}

/// The result `r` and the tables `t2` of a social login on tables `t`, made
/// at clock reading `t_secs` and instant `now`: the outcome of the login, or
/// a failure of a backend that is not `infallible`, with the tables
/// unchanged.
pub open spec fn login_explained(
    t: UserTables,
    infallible: bool,
    dto: SocialLoginDto,
    t_secs: i64,
    now: Timestamp,
    r: AppResult<User>,
    t2: UserTables,
) -> bool {
    social_login_outcome(t, dto, social_uuid(dto, t_secs), now, r, t2) || (!infallible
        && failed_in_backend(r) && t2 == t)
}

/// The draft of a direct sign-up at `now` under external id `uuid`.
pub open spec fn direct_signup_user(request: CreateUserRequest, uuid: String, now: Timestamp) -> NewUser {
    NewUser {
        uuid,
        username: request.username,
        email: request.email,
        country_code: request.country_code,
        phone_number: request.phone_number,
        account_status: AccountStatus::Pending,
        created_at: now,
        updated_at: now,
        last_login_at: None,
    }
}

/// The blank verification record of a direct sign-up.
pub open spec fn blank_verification() -> NewVerification {
    NewVerification {
        business_verified: false,
        business_info: None,
    }
}

impl UserService {
    /// Logs in through an OAuth identity at `now`, registering a user under
    /// external id `uuid` where the identity is new.
    pub fn social_login_with<R: UserRepository>(
        repo: &mut R,
        dto: SocialLoginDto,
        uuid: String,
        now: Timestamp,
    ) -> (r: AppResult<User>)
        requires
            tables_wf(old(repo).tables()),
        ensures
            tables_wf(final(repo).tables()),
            final(repo).backend() == old(repo).backend(),
            social_login_outcome(old(repo).tables(), dto, uuid@, now, r, final(repo).tables()) || (!old(repo).infallible() && failed_in_backend(r) && final(repo).tables() == old(repo).tables()),
    {
        let ghost t0 = repo.tables();
        let social = match repo.find_social(dto.provider, dto.provider_id.as_str()) {
            Ok(s) => s,
            Err(e) => return Err(e),
        };
        match social {
            Some(s) => {
                proof {
                    lemma_social_owner_exists(t0, dto.provider, dto.provider_id@);
                }
                let found = match repo.find_by_id(s.user_id) {
                    Ok(u) => u,
                    Err(e) => return Err(e),
                };
                return match found {
                    Some(u) => Ok(u),
                    None => Err(AppError::InternalServerError(String::from_str("User not found for social account"))),
                };
            },
            None => {},
        }
        if dto.connected_at.is_none() {
            return Err(AppError::BadRequest(String::from_str("Missing connected_at")));
        }
        let username = match dto.name {
            Some(n) => n,
            None => String::from_str("User"),
        };
        if username == String::from_str("User") {
            return Err(
                AppError::BadRequest(String::from_str("Username or email is missing (maybe oauth provider's issue)")),
            );
        }
        let email = match dto.email {
            Some(e) => e,
            None => String::new(),
        };
        let phone_number = match dto.phone_number {
            Some(p) => p,
            None => String::new(),
        };
        let new_user = NewUser {
            uuid,
            username,
            email,
            country_code: String::new(),
            phone_number,
            account_status: AccountStatus::Pending,
            created_at: now,
            updated_at: now,
            last_login_at: Some(now),
        };
        let new_social = NewSocialLink { provider: dto.provider, provider_id: dto.provider_id, created_at: now };
        let new_verification = NewVerification {
            business_verified: false,
            business_info: Some(String::from_str("{}")),
        };
        let ghost drafts = (new_user, new_social, new_verification);
        assert(social_signup_drafts(drafts.0, drafts.1, drafts.2, dto, uuid@, now));
        repo.create_user_with_verification(new_user, Some(new_social), new_verification)
    }

    /// Logs in through an OAuth identity now, registering a user where the
    /// identity is new; the external id of a new user is hashed from the
    /// provider's id, the time and the connection time.
    pub fn handle_social_login<R: UserRepository>(repo: &mut R, dto: SocialLoginDto) -> (r: AppResult<User>)
        requires
            tables_wf(old(repo).tables()),
        ensures
            tables_wf(final(repo).tables()),
            final(repo).backend() == old(repo).backend(),
            exists|t: i64, now: Timestamp|
                #[trigger] login_explained(old(repo).tables(), old(repo).infallible(), dto, t, now, r, final(repo).tables()),
    {
        let ghost mut t: i64 = 0;
        let uuid = match &dto.connected_at {
            Some(c) => {
                let id = generate_user_uuid(dto.provider_id.as_str(), c.as_str());
                proof {
                    t = choose|t: i64| id@ == sha512_hex_of(uuid_seed(dto.provider_id@, t as int, c@));
                }
                id
            },
            None => String::new(),
        };
        let now = current_time();
        let ghost u = uuid@;
        assert(dto.connected_at is Some ==> u == social_uuid(dto, t));
        let r = UserService::social_login_with(repo, dto, uuid, now);
        assert(login_explained(old(repo).tables(), old(repo).infallible(), dto, t, now, r, repo.tables()));
        r
    }
}

/// Registers a pending user from a direct sign-up at `now` under external id
/// `uuid`, with a blank verification record and no social link.
pub fn create_user_with<R: UserRepository>(
    repo: &mut R,
    request: CreateUserRequest,
    uuid: String,
    now: Timestamp,
) -> (r: AppResult<User>)
    requires
        tables_wf(old(repo).tables()),
    ensures
        tables_wf(final(repo).tables()),
        final(repo).backend() == old(repo).backend(),
        (r == creation_result(old(repo).tables(), direct_signup_user(request, uuid, now), None) && final(repo).tables() == after_creation(
            old(repo).tables(),
            direct_signup_user(request, uuid, now),
            None,
            blank_verification(),
        )) || (!old(repo).infallible() && failed_in_backend(r) && final(repo).tables() == old(repo).tables()),
{
    let user = NewUser {
        uuid,
        username: request.username,
        email: request.email,
        country_code: request.country_code,
        phone_number: request.phone_number,
        account_status: AccountStatus::Pending,
        created_at: now,
        updated_at: now,
        last_login_at: None,
    };
    let verification = NewVerification {
        business_verified: false,
        business_info: None,
    };
    repo.create_user_with_verification(user, None, verification)
}

/// Registers a pending user from a direct sign-up now, under a random
/// decimal external id.
pub fn create_user<R: UserRepository>(repo: &mut R, request: CreateUserRequest) -> (r: AppResult<User>)
    requires
        tables_wf(old(repo).tables()),
    ensures
        tables_wf(final(repo).tables()),
        final(repo).backend() == old(repo).backend(),
        exists|uuid: String, now: Timestamp|
            (exists|n: u128| uuid@ == decimal_text(n as nat)) && ((r == creation_result(
                old(repo).tables(),
                direct_signup_user(request, uuid, now),
                None,
            ) && final(repo).tables() == after_creation(
                old(repo).tables(),
                direct_signup_user(request, uuid, now),
                None,
                blank_verification(),
            )) || (!old(repo).infallible() && failed_in_backend(r) && final(repo).tables() == old(repo).tables())),
{
    let uuid = new_decimal_uuid();
    let now = current_time();
    let ghost u = uuid;
    create_user_with(repo, request, uuid, now)
}

} // verus!
