//! Authentication: social login with the follow-up it needs, and the email
//! verification flow.
use vstd::prelude::*;
use vstd::string::*;
use crate::entities::{AccountStatus, SocialProvider, Timestamp, User, UserPatch, VerificationPatch};
use crate::error::{is_bad_request, is_forbidden, is_internal_error, AppError, AppResult};
use crate::ids::new_verification_code;
use crate::repository::{
    after_user_update, after_verification_update, details_of, failed_in_backend,
    lemma_details_consistent, lemma_id_lookup, tables_wf, user_with_id, UserRepository, UserTables,
};
use crate::services::{login_explained, SocialLoginDto, UserService};
use crate::text::decimal_text;
use crate::uow::{commit_step, Backend, TxAction, TxState, UnitOfWork};

verus! {

/// What an OAuth provider returns for an authorization code.
#[derive(Debug, Clone, PartialEq, Eq)]
pub struct OAuthUserInfo {
    pub provider_id: String,
    pub email: Option<String>,
    pub name: Option<String>,
    pub age_range: Option<String>,
    pub birthyear: Option<String>,
    pub phone_number: Option<String>,
    pub connected_at: Option<String>,
}

/// The claims of an access token: the external id of the user, and the
/// expiry and issue times in seconds since the Unix epoch.
#[derive(Debug, Clone, PartialEq, Eq)]
pub struct Claims {
    pub sub: String,
    pub exp: usize,
    pub iat: usize,
}

/// How long an access token is valid, in seconds.
pub const TOKEN_LIFETIME_SECS: usize = 86400;

impl Claims {
    /// The claims of a token for `sub` issued at `now_secs`, valid for a day.
    pub fn issue(sub: String, now_secs: usize) -> (r: Claims)
        requires
            now_secs + TOKEN_LIFETIME_SECS <= usize::MAX,
        ensures
            r == (Claims { sub, exp: (now_secs + TOKEN_LIFETIME_SECS) as usize, iat: now_secs }),
    {
        Claims { sub, exp: now_secs + TOKEN_LIFETIME_SECS, iat: now_secs }
    }
}

/// The outcome of a submitted email code.
#[derive(Debug, Clone, Copy, PartialEq, Eq, Structural)]
pub enum EmailCodeOutcome {
    /// The email was verified before; nothing changed.
    AlreadyVerified,
    /// The email is verified now; the unit of work was committed and the
    /// backend must carry out `commit`.
    Verified { commit: TxAction },
}

pub struct AuthService;

/// The login data of `info` from `provider`.
pub open spec fn login_dto(provider: SocialProvider, info: OAuthUserInfo) -> SocialLoginDto {
    SocialLoginDto {
        provider,
        provider_id: info.provider_id,
        email: info.email,
        name: info.name,
        phone_number: info.phone_number,
        connected_at: info.connected_at,
    }
}

/// The user part of a login result.
pub open spec fn user_part(r: AppResult<(User, bool)>) -> AppResult<User> {
    match r {
        Ok((u, _)) => Ok(u),
        Err(e) => Err(e),
    }
}

/// The patch that clears the email verification of user `user_id`.
pub open spec fn reset_patch(user_id: i32) -> VerificationPatch {
    VerificationPatch {
        user_id,
        email_verified: Some(false),
        email_verified_at: None,
        phone_verified: None,
        phone_verified_at: None,
        business_verified: None,
        business_info: None,
        verification_code: None,
    }
}

/// The patch that marks the email of user `user_id` verified at `now` and
/// clears its code.
pub open spec fn verified_patch(user_id: i32, now: Timestamp) -> VerificationPatch {
    VerificationPatch {
        user_id,
        email_verified: Some(true),
        email_verified_at: Some(Some(now)),
        phone_verified: None,
        phone_verified_at: None,
        business_verified: None,
        business_info: None,
        verification_code: Some(None),
    }
}

/// The patch that activates user `id` under the address `email`.
pub open spec fn activation_patch(id: i32, email: String) -> UserPatch {
    UserPatch {
        id,
        username: None,
        email: Some(email),
        country_code: None,
        phone_number: None,
        account_status: Some(AccountStatus::Active),
        updated_at: None,
        last_login_at: None,
    }
}

/// The result `r` of a code request of user `sub` on tables `t`, up to the
/// code itself.
pub open spec fn code_request_outcome(t: UserTables, sub: Seq<char>, r: AppResult<()>) -> bool {
    match details_of(t, sub) {
        None => r == Err::<(), AppError>(AppError::NotFound),
        Some((u, v, _)) => if u.account_status != AccountStatus::Pending {
            is_bad_request(r, "User is already active or banned"@)
        } else if v is None {
            is_internal_error(r, "Verification record missing"@)
        } else if v.unwrap().email_verified {
            is_bad_request(r, "Email already verified"@)
        } else {
            r == Ok::<(), AppError>(())
        },
    }
}

/// The result of the unit `()` of a result.
pub open spec fn unit_part(r: AppResult<String>) -> AppResult<()> {
    match r {
        Ok(_) => Ok(()),
        Err(e) => Err(e),
    }
}

/// Where the email of a user stands before a code is checked.
#[derive(Debug, Clone, Copy, PartialEq, Eq, Structural)]
pub enum CodeStatus {
    /// The email was verified before.
    AlreadyVerified,
    /// The email of user `user_id` awaits verification.
    Pending { user_id: i32 },
}

/// The status `r` of the email of user `sub` on tables `t`.
pub open spec fn code_status_outcome(t: UserTables, sub: Seq<char>, r: AppResult<CodeStatus>) -> bool {
    match details_of(t, sub) {
        None => r == Err::<CodeStatus, AppError>(AppError::NotFound),
        Some((u, v, _)) => if v is None {
            is_internal_error(r, "Verification record missing"@)
        } else if v.unwrap().email_verified {
            r == Ok::<CodeStatus, AppError>(CodeStatus::AlreadyVerified)
        } else {
            r == Ok::<CodeStatus, AppError>(CodeStatus::Pending { user_id: u.id })
        },
    }
}

/// The result `r` of comparing the submitted `code` with the code `stored`
/// for the address.
pub open spec fn code_check_outcome(code: Seq<char>, stored: Option<String>, r: AppResult<()>) -> bool {
    if stored is None {
        is_bad_request(r, "No verification code found (or expired)"@)
    } else if stored.unwrap()@ != code {
        is_bad_request(r, "Invalid verification code"@)
    } else {
        r == Ok::<(), AppError>(())
    }
}

/// The result `r`, the tables `t2` and the unit-of-work state `s2` of
/// marking the email of user `user_id` verified at `now` under `email`, in a
/// unit of work of `backend` in state `s`, with a repository of
/// `repo_backend` on tables `t`; the unit of work is committed at the end.
pub open spec fn verification_applied(
    t: UserTables,
    repo_backend: Backend,
    backend: Backend,
    s: TxState,
    user_id: i32,
    email: String,
    now: Timestamp,
    r: AppResult<TxAction>,
    t2: UserTables,
    s2: TxState,
) -> bool {
    if repo_backend != backend {
        is_internal_error(r, "Failed to start transaction for user repo"@) && t2 == t && s2 == s
    } else if user_with_id(t, user_id) is None {
        r == Err::<TxAction, AppError>(AppError::NotFound) && t2 == t && s2 == s
    } else {
        let (s_next, action) = commit_step(s, backend);
        &&& t2 == after_user_update(
            after_verification_update(t, verified_patch(user_id, now)),
            activation_patch(user_id, email),
        )
        &&& r == Ok::<TxAction, AppError>(action)
        &&& s2 == s_next
    }
}

/// The result `r`, the tables `t2` and the unit-of-work state `s2` of
/// submitting `code` for user `sub` and address `email` at `now`, where the
/// code store holds `stored`, on tables `t` with a unit of work of `backend`
/// in state `s` and a repository of `repo_backend`.
pub open spec fn email_code_outcome(
    t: UserTables,
    repo_backend: Backend,
    backend: Backend,
    s: TxState,
    sub: Seq<char>,
    email: String,
    code: Seq<char>,
    stored: Option<String>,
    now: Timestamp,
    r: AppResult<EmailCodeOutcome>,
    t2: UserTables,
    s2: TxState,
) -> bool {
    match details_of(t, sub) {
        None => r == Err::<EmailCodeOutcome, AppError>(AppError::NotFound) && t2 == t && s2 == s,
        Some((u, v, _)) => if v is None {
            is_internal_error(r, "Verification record missing"@) && t2 == t && s2 == s
        } else if v.unwrap().email_verified {
            r == Ok::<EmailCodeOutcome, AppError>(EmailCodeOutcome::AlreadyVerified) && t2 == t && s2 == s
        } else if stored is None {
            is_bad_request(r, "No verification code found (or expired)"@) && t2 == t && s2 == s
        } else if stored.unwrap()@ != code {
            is_bad_request(r, "Invalid verification code"@) && t2 == t && s2 == s
        } else if repo_backend != backend {
            is_internal_error(r, "Failed to start transaction for user repo"@) && t2 == t && s2 == s
        } else {
            let (s_next, action) = commit_step(s, backend);
            &&& t2 == after_user_update(
                after_verification_update(t, verified_patch(u.id, now)),
                activation_patch(u.id, email),
            )
            &&& r == Ok::<EmailCodeOutcome, AppError>(EmailCodeOutcome::Verified { commit: action })
            &&& s2 == s_next
        },
    }
}

impl AuthService {
    /// Logs in through an OAuth identity, registering a user where it is
    /// new; says whether the account still needs an action of its owner,
    /// which it does unless it is active.
    pub fn handle_social_login<R: UserRepository>(
        repo: &mut R,
        provider: SocialProvider,
        user_info: OAuthUserInfo,
    ) -> (r: AppResult<(User, bool)>)
        requires
            tables_wf(old(repo).tables()),
        ensures
            tables_wf(final(repo).tables()),
            final(repo).backend() == old(repo).backend(),
            exists|t: i64, now: Timestamp|
                #[trigger] login_explained(
                    old(repo).tables(),
                    old(repo).infallible(),
                    login_dto(provider, user_info),
                    t,
                    now,
                    user_part(r),
                    final(repo).tables(),
                ),
            match r {
                Ok((u, more)) => more == (u.account_status != AccountStatus::Active),
                Err(_) => true,
            },
    {
        let dto = SocialLoginDto {
            provider,
            provider_id: user_info.provider_id,
            email: user_info.email,
            name: user_info.name,
            phone_number: user_info.phone_number,
            connected_at: user_info.connected_at,
        };
        let r0 = UserService::handle_social_login(repo, dto);
        let ghost (t_secs, now) = choose|t: i64, now: Timestamp|
            #[trigger] login_explained(old(repo).tables(), old(repo).infallible(), dto, t, now, r0, repo.tables());
        let r = match r0 {
            Ok(user) => {
                let need_more_action = !(user.account_status == AccountStatus::Active);
                Ok((user, need_more_action))
            },
            Err(e) => Err(e),
        };
        assert(user_part(r) == r0);
        assert(login_explained(old(repo).tables(), old(repo).infallible(), dto, t_secs, now, user_part(r), repo.tables()));
        r
    }

    /// Clears the email verification of the user with external id `uuid`.
    pub fn reset_email_verified<R: UserRepository>(repo: &mut R, uuid: &str) -> (r: AppResult<bool>)
        requires
            tables_wf(old(repo).tables()),
        ensures
            tables_wf(final(repo).tables()),
            final(repo).backend() == old(repo).backend(),
            (match details_of(old(repo).tables(), uuid@) {
                Some((_, Some(v), _)) => r == Ok::<bool, AppError>(true) && final(repo).tables()
                    == after_verification_update(old(repo).tables(), reset_patch(v.user_id)),
                _ => r == Err::<bool, AppError>(AppError::NotFound) && final(repo).tables() == old(repo).tables(),
            }) || (!old(repo).infallible() && failed_in_backend(r) && final(repo).tables() == old(repo).tables()),
    {
        let details = match repo.find_with_details_by_uuid(uuid) {
            Ok(d) => d,
            Err(e) => return Err(e),
        };
        let (_, verification, _) = match details {
            Some(d) => d,
            None => return Err(AppError::NotFound),
        };
        proof {
            lemma_details_consistent(repo.tables(), uuid@);
        }
        let v = match verification {
            Some(v) => v,
            None => return Err(AppError::NotFound),
        };
        let patch = VerificationPatch {
            user_id: v.user_id,
            email_verified: Some(false),
            email_verified_at: None,
            phone_verified: None,
            phone_verified_at: None,
            business_verified: None,
            business_info: None,
            verification_code: None,
        };
        match repo.update_verification(patch) {
            Ok(_) => Ok(true),
            Err(e) => Err(e),
        }
    }

    /// Checks that user `sub` may ask for an email code.
    pub fn check_code_request<R: UserRepository>(repo: &R, sub: &str) -> (r: AppResult<()>)
        requires
            tables_wf(repo.tables()),
        ensures
            code_request_outcome(repo.tables(), sub@, r) || (!repo.infallible() && failed_in_backend(r)),
    {
        let details = match repo.find_with_details_by_uuid(sub) {
            Ok(d) => d,
            Err(e) => return Err(e),
        };
        let (user, verification, _) = match details {
            Some(d) => d,
            None => return Err(AppError::NotFound),
        };
        if user.account_status != AccountStatus::Pending {
            return Err(AppError::BadRequest(String::from_str("User is already active or banned")));
        }
        match verification {
            Some(v) => {
                if v.email_verified {
                    return Err(AppError::BadRequest(String::from_str("Email already verified")));
                }
            },
            None => {
                return Err(AppError::InternalServerError(String::from_str("Verification record missing")));
            },
        }
        Ok(())
    }

    /// Issues a six-digit email code for user `sub`, where it may ask for
    /// one; the caller stores it and sends it.
    pub fn request_email_verification<R: UserRepository>(repo: &R, sub: &str) -> (r: AppResult<String>)
        requires
            tables_wf(repo.tables()),
        ensures
            code_request_outcome(repo.tables(), sub@, unit_part(r)) || (!repo.infallible()
                && failed_in_backend(r)),
            match r {
                Ok(code) => exists|n: nat| 100000 <= n < 999999 && code@ == decimal_text(n),
                Err(_) => true,
            },
    {
        match AuthService::check_code_request(repo, sub) {
            Ok(()) => Ok(new_verification_code()),
            Err(e) => Err(e),
        }
    }

    /// Where the email of user `sub` stands: verified already, or awaiting a
    /// code.
    pub fn email_code_status<R: UserRepository>(repo: &R, sub: &str) -> (r: AppResult<CodeStatus>)
        requires
            tables_wf(repo.tables()),
        ensures
            code_status_outcome(repo.tables(), sub@, r) || (!repo.infallible() && failed_in_backend(r)),
    {
        let details = match repo.find_with_details_by_uuid(sub) {
            Ok(d) => d,
            Err(e) => return Err(e),
        };
        let (user, verification, _) = match details {
            Some(d) => d,
            None => return Err(AppError::NotFound),
        };
        match verification {
            Some(v) => {
                if v.email_verified {
                    Ok(CodeStatus::AlreadyVerified)
                } else {
                    Ok(CodeStatus::Pending { user_id: user.id })
                }
            },
            None => Err(AppError::InternalServerError(String::from_str("Verification record missing"))),
        }
    }

    /// Compares the submitted `code` with the code `stored` for the address.
    pub fn check_code(code: &str, stored: Option<String>) -> (r: AppResult<()>)
        ensures
            code_check_outcome(code@, stored, r),
    {
        match stored {
            Some(s) => {
                if s != String::from_str(code) {
                    Err(AppError::BadRequest(String::from_str("Invalid verification code")))
                } else {
                    Ok(())
                }
            },
            None => Err(AppError::BadRequest(String::from_str("No verification code found (or expired)"))),
        }
    }

    /// Marks the email of user `user_id` verified at `now`, clears its code,
    /// and activates the user under `email`, all in the unit of work `uow`,
    /// which is committed at the end; returns what the backend must do.
    pub fn apply_email_verification<R: UserRepository>(
        repo: &mut R,
        uow: &mut UnitOfWork,
        user_id: i32,
        email: String,
        now: Timestamp,
    ) -> (r: AppResult<TxAction>)
        requires
            tables_wf(old(repo).tables()),
        ensures
            tables_wf(final(repo).tables()),
            final(repo).backend() == old(repo).backend(),
            final(uow).backend_spec() == old(uow).backend_spec(),
            final(uow).id_spec() == old(uow).id_spec(),
            verification_applied(
                old(repo).tables(),
                old(repo).backend(),
                old(uow).backend_spec(),
                old(uow).state(),
                user_id,
                email,
                now,
                r,
                final(repo).tables(),
                final(uow).state(),
            ) || (!old(repo).infallible() && failed_in_backend(r) && final(uow).state() == old(uow).state()),
    {
        let ghost t0 = repo.tables();
        proof {
            lemma_id_lookup(t0, user_id);
        }
        let tx = match repo.with_transaction(uow) {
            Some(tx) => tx,
            None => {
                return Err(
                    AppError::InternalServerError(String::from_str("Failed to start transaction for user repo")),
                );
            },
        };
        let verification_patch = VerificationPatch {
            user_id,
            email_verified: Some(true),
            email_verified_at: Some(Some(now)),
            phone_verified: None,
            phone_verified_at: None,
            business_verified: None,
            business_info: None,
            verification_code: Some(None),
        };
        match tx.update_verification(verification_patch) {
            Ok(_) => {},
            Err(e) => return Err(e),
        }
        let user_patch = UserPatch {
            id: user_id,
            username: None,
            email: Some(email),
            country_code: None,
            phone_number: None,
            account_status: Some(AccountStatus::Active),
            updated_at: None,
            last_login_at: None,
        };
        match tx.update_user(user_patch) {
            Ok(_) => {},
            Err(e) => return Err(e),
        }
        let action = uow.commit();
        Ok(action)
    }

    /// Checks `code` for user `sub` against the code `stored` for `email`;
    /// where it matches, marks the email verified at `now`, activates the
    /// user under `email`, and commits `uow`, all in that unit of work.
    pub fn verify_email_code<R: UserRepository>(
        repo: &mut R,
        uow: &mut UnitOfWork,
        sub: &str,
        email: String,
        code: &str,
        stored: Option<String>,
        now: Timestamp,
    ) -> (r: AppResult<EmailCodeOutcome>)
        requires
            tables_wf(old(repo).tables()),
        ensures
            tables_wf(final(repo).tables()),
            final(repo).backend() == old(repo).backend(),
            final(uow).backend_spec() == old(uow).backend_spec(),
            final(uow).id_spec() == old(uow).id_spec(),
            email_code_outcome(
                old(repo).tables(),
                old(repo).backend(),
                old(uow).backend_spec(),
                old(uow).state(),
                sub@,
                email,
                code@,
                stored,
                now,
                r,
                final(repo).tables(),
                final(uow).state(),
            ) || (!old(repo).infallible() && failed_in_backend(r) && final(uow).state() == old(uow).state()),
    {
        let ghost t0 = repo.tables();
        let status = match AuthService::email_code_status(repo, sub) {
            Ok(s) => s,
            Err(e) => return Err(e),
        };
        proof {
            if details_of(t0, sub@) is Some {
                lemma_details_consistent(t0, sub@);
            }
        }
        let user_id = match status {
            CodeStatus::AlreadyVerified => return Ok(EmailCodeOutcome::AlreadyVerified),
            CodeStatus::Pending { user_id } => user_id,
        };
        match AuthService::check_code(code, stored) {
            Ok(()) => {},
            Err(e) => return Err(e),
        }
        match AuthService::apply_email_verification(repo, uow, user_id, email, now) {
            Ok(action) => Ok(EmailCodeOutcome::Verified { commit: action }),
            Err(e) => Err(e),
        }
    }

    /// Lets user `sub` through only where its email is verified.
    pub fn require_email_verified<R: UserRepository>(repo: &R, sub: &str) -> (r: AppResult<()>)
        requires
            tables_wf(repo.tables()),
        ensures
            (match details_of(repo.tables(), sub@) {
                None => r == Err::<(), AppError>(AppError::NotFound),
                Some((_, v, _)) => if v is Some && v.unwrap().email_verified {
                    r == Ok::<(), AppError>(())
                } else {
                    is_forbidden(r, "Email not verified"@)
                },
            }) || (!repo.infallible() && failed_in_backend(r)),
    {
        let details = match repo.find_with_details_by_uuid(sub) {
            Ok(d) => d,
            Err(e) => return Err(e),
        };
        let (_, verification, _) = match details {
            Some(d) => d,
            None => return Err(AppError::NotFound),
        };
        match verification {
            Some(v) => {
                if v.email_verified {
                    return Ok(());
                }
            },
            None => {},
        }
        Err(AppError::Forbidden(String::from_str("Email not verified")))
    }
}

} // verus!
