//! Records of the user aggregate, the drafts that create them and the patches
//! that update them.
use vstd::prelude::*;

verus! {

/// Account state of a user.
#[derive(Debug, Clone, Copy, PartialEq, Eq, Structural)]
pub enum AccountStatus {
    Active,
    Pending,
    Banned,
    PermBanned,
}

/// An OAuth identity provider.
#[derive(Debug, Clone, Copy, PartialEq, Eq, Structural)]
pub enum SocialProvider {
    Kakao,
    Google,
    Apple,
}

/// A wall-clock instant without time zone: whole seconds since the Unix epoch
/// and the nanoseconds within that second.
#[derive(Debug, Clone, Copy, PartialEq, Eq, Structural)]
pub struct Timestamp {
    pub secs: i64,
    pub nanos: u32,
}

/// The identity aggregate root.
#[derive(Debug, Clone, PartialEq, Eq)]
pub struct User {
    pub id: i32,
    pub uuid: String,
    pub username: String,
    pub email: String,
    pub country_code: String,
    pub phone_number: String,
    pub account_status: AccountStatus,
    pub created_at: Timestamp,
    pub updated_at: Timestamp,
    pub last_login_at: Option<Timestamp>,
}

/// The verification record that every user owns exactly one of.
#[derive(Debug, Clone, PartialEq, Eq)]
pub struct Verification {
    pub id: i32,
    pub user_id: i32,
    pub email_verified: bool,
    pub email_verified_at: Option<Timestamp>,
    pub phone_verified: bool,
    pub phone_verified_at: Option<Timestamp>,
    pub business_verified: bool,
    pub business_info: Option<String>,
    pub verification_code: Option<String>,
}

/// A link between a user and an identity at an OAuth provider.
#[derive(Debug, Clone, PartialEq, Eq)]
pub struct SocialLink {
    pub id: i32,
    pub user_id: i32,
    pub provider: SocialProvider,
    pub provider_id: String,
    pub created_at: Timestamp,
}

/// The fields of a user that the caller chooses; storage assigns the id.
#[derive(Debug, Clone, PartialEq, Eq)]
pub struct NewUser {
    pub uuid: String,
    pub username: String,
    pub email: String,
    pub country_code: String,
    pub phone_number: String,
    pub account_status: AccountStatus,
    pub created_at: Timestamp,
    pub updated_at: Timestamp,
    pub last_login_at: Option<Timestamp>,
}

/// The fields of a social link that the caller chooses; storage assigns the
/// id and the owning user.
#[derive(Debug, Clone, PartialEq, Eq)]
pub struct NewSocialLink {
    pub provider: SocialProvider,
    pub provider_id: String,
    pub created_at: Timestamp,
}

/// The fields of a verification record that the caller chooses; storage
/// assigns the id and the owning user. A new record is blank: neither email
/// nor phone is verified, and no code is outstanding.
#[derive(Debug, Clone, PartialEq, Eq)]
pub struct NewVerification {
    pub business_verified: bool,
    pub business_info: Option<String>,
}

/// A partial update of the user with id `id`: each `Some` field is written,
/// each `None` field is left as it is.
#[derive(Debug, Clone, PartialEq, Eq)]
pub struct UserPatch {
    pub id: i32,
    pub username: Option<String>,
    pub email: Option<String>,
    pub country_code: Option<String>,
    pub phone_number: Option<String>,
    pub account_status: Option<AccountStatus>,
    pub updated_at: Option<Timestamp>,
    pub last_login_at: Option<Option<Timestamp>>,
}

/// A partial update of the verification record of user `user_id`: each
/// `Some` field is written, each `None` field is left as it is.
#[derive(Debug, Clone, PartialEq, Eq)]
pub struct VerificationPatch {
    pub user_id: i32,
    pub email_verified: Option<bool>,
    pub email_verified_at: Option<Option<Timestamp>>,
    pub phone_verified: Option<bool>,
    pub phone_verified_at: Option<Option<Timestamp>>,
    pub business_verified: Option<bool>,
    pub business_info: Option<Option<String>>,
    pub verification_code: Option<Option<String>>,
}

/// Copies an optional string.
pub fn copy_opt_string(s: &Option<String>) -> (r: Option<String>)
    ensures
        r == *s,
{
    match s {
        Some(x) => Some(x.clone()),
        None => None,
    }
}

impl User {
    /// A field-for-field copy.
    pub fn snapshot(&self) -> (r: User)
        ensures
            r == *self,
    {
        User {
            id: self.id,
            uuid: self.uuid.clone(),
            username: self.username.clone(),
            email: self.email.clone(),
            country_code: self.country_code.clone(),
            phone_number: self.phone_number.clone(),
            account_status: self.account_status,
            created_at: self.created_at,
            updated_at: self.updated_at,
            last_login_at: self.last_login_at,
        }
    }
}

impl Verification {
    /// A field-for-field copy.
    pub fn snapshot(&self) -> (r: Verification)
        ensures
            r == *self,
    {
        Verification {
            id: self.id,
            user_id: self.user_id,
            email_verified: self.email_verified,
            email_verified_at: self.email_verified_at,
            phone_verified: self.phone_verified,
            phone_verified_at: self.phone_verified_at,
            business_verified: self.business_verified,
            business_info: copy_opt_string(&self.business_info),
            verification_code: copy_opt_string(&self.verification_code),
        }
    }
}

impl SocialLink {
    /// A field-for-field copy.
    pub fn snapshot(&self) -> (r: SocialLink)
        ensures
            r == *self,
    {
        SocialLink {
            id: self.id,
            user_id: self.user_id,
            provider: self.provider,
            provider_id: self.provider_id.clone(),
            created_at: self.created_at,
        }
    }
}

impl NewUser {
    /// The user that storage holds after inserting this draft under `id`.
    pub open spec fn stored_as(self, id: i32) -> User {
        User {
            id,
            uuid: self.uuid,
            username: self.username,
            email: self.email,
            country_code: self.country_code,
            phone_number: self.phone_number,
            account_status: self.account_status,
            created_at: self.created_at,
            updated_at: self.updated_at,
            last_login_at: self.last_login_at,
        }
    }
}

impl NewSocialLink {
    /// The link that storage holds after inserting this draft under `id` for
    /// user `user_id`.
    pub open spec fn stored_as(self, id: i32, user_id: i32) -> SocialLink {
        SocialLink {
            id,
            user_id,
            provider: self.provider,
            provider_id: self.provider_id,
            created_at: self.created_at,
        }
    }
}

impl NewVerification {
    /// The record that storage holds after inserting this draft under `id`
    /// for user `user_id`: unverified, without timestamps and without a code.
    pub open spec fn stored_as(self, id: i32, user_id: i32) -> Verification {
        Verification {
            id,
            user_id,
            email_verified: false,
            email_verified_at: None,
            phone_verified: false,
            phone_verified_at: None,
            business_verified: self.business_verified,
            business_info: self.business_info,
            verification_code: None,
        }
    }
}

/// `value` if the patch sets the field, else `current`.
pub open spec fn patched<T>(current: T, value: Option<T>) -> T {
    match value {
        Some(v) => v,
        None => current,
    }
}

impl UserPatch {
    /// `u` with the fields that this patch sets written.
    pub open spec fn applied_to(self, u: User) -> User {
        User {
            id: u.id,
            uuid: u.uuid,
            username: patched(u.username, self.username),
            email: patched(u.email, self.email),
            country_code: patched(u.country_code, self.country_code),
            phone_number: patched(u.phone_number, self.phone_number),
            account_status: patched(u.account_status, self.account_status),
            created_at: u.created_at,
            updated_at: patched(u.updated_at, self.updated_at),
            last_login_at: patched(u.last_login_at, self.last_login_at),
        }
    }
}

impl VerificationPatch {
    /// `v` with the fields that this patch sets written.
    pub open spec fn applied_to(self, v: Verification) -> Verification {
        Verification {
            id: v.id,
            user_id: v.user_id,
            email_verified: patched(v.email_verified, self.email_verified),
            email_verified_at: patched(v.email_verified_at, self.email_verified_at),
            phone_verified: patched(v.phone_verified, self.phone_verified),
            phone_verified_at: patched(v.phone_verified_at, self.phone_verified_at),
            business_verified: patched(v.business_verified, self.business_verified),
            business_info: patched(v.business_info, self.business_info),
            verification_code: patched(v.verification_code, self.verification_code),
        }
    }
}

/// Writes into `target` the value that the patch sets, if any.
fn write_patched<T>(target: &mut T, value: Option<T>)
    ensures
        *final(target) == patched(*old(target), value),
{
    match value {
        Some(v) => {
            *target = v;
        },
        None => {},
    }
}

impl UserPatch {
    /// Writes the fields that this patch sets into `u`.
    pub fn apply(self, u: &mut User)
        ensures
            *final(u) == self.applied_to(*old(u)),
    {
        write_patched(&mut u.username, self.username);
        write_patched(&mut u.email, self.email);
        write_patched(&mut u.country_code, self.country_code);
        write_patched(&mut u.phone_number, self.phone_number);
        write_patched(&mut u.account_status, self.account_status);
        write_patched(&mut u.updated_at, self.updated_at);
        write_patched(&mut u.last_login_at, self.last_login_at);
    }
}

impl VerificationPatch {
    /// Writes the fields that this patch sets into `v`.
    pub fn apply(self, v: &mut Verification)
        ensures
            *final(v) == self.applied_to(*old(v)),
    {
        write_patched(&mut v.email_verified, self.email_verified);
        write_patched(&mut v.email_verified_at, self.email_verified_at);
        write_patched(&mut v.phone_verified, self.phone_verified);
        write_patched(&mut v.phone_verified_at, self.phone_verified_at);
        write_patched(&mut v.business_verified, self.business_verified);
        write_patched(&mut v.business_info, self.business_info);
        write_patched(&mut v.verification_code, self.verification_code);
    }
}

} // verus!
