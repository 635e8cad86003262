//! External identifiers and verification codes: the hash-derived id of a
//! social sign-up, the random decimal id of a direct sign-up, and six-digit
//! codes.
use vstd::prelude::*;
use vstd::string::*;
use crate::entities::Timestamp;
use crate::text::{decimal_text, push_decimal, push_signed_decimal, signed_decimal_text};
use rand::Rng;
use sha2::Digest;

verus! {

/// What SHA-512 in lowercase hex makes of the UTF-8 bytes of a text; it
/// depends on the text alone.
pub uninterp spec fn sha512_hex_of(s: Seq<char>) -> Seq<char>;

/// Relies on `sha2::Sha512::digest` and the lower-hex formatting of its
/// output: the 64-byte digest of the UTF-8 bytes of `s`, as 128 hex digits.
#[verifier::external_body]
fn sha512_hex(s: &str) -> (r: String)
    ensures
        r@ == sha512_hex_of(s@),
        r@.len() == 128,
{
    format!("{:x}", sha2::Sha512::digest(s.as_bytes()))
}

/// Relies on `chrono::Utc::now`, `DateTime::timestamp` and
/// `DateTime::timestamp_subsec_nanos`: the present instant in UTC. Nothing
/// is promised of it.
#[verifier::external_body]
pub(crate) fn current_time() -> (r: Timestamp) {
    let now = chrono::Utc::now();
    Timestamp { secs: now.timestamp(), nanos: now.timestamp_subsec_nanos() }
}

/// Relies on `uuid::Uuid::new_v4` and `Uuid::as_u128`: a random version-4
/// UUID as a number. Nothing is promised of it.
#[verifier::external_body]
fn random_uuid_number() -> (r: u128) {
    uuid::Uuid::new_v4().as_u128()
}

/// Relies on `rand::rng` and `Rng::random_range`, which samples from the
/// half-open range it is given and panics only where that range is empty.
#[verifier::external_body]
fn random_below(lo: u32, hi: u32) -> (r: u32)
    requires
        lo < hi,
    ensures
        lo <= r < hi,
{
    rand::rng().random_range(lo..hi)
}

/// The smallest six-digit code.
pub const CODE_LOW: u32 = 100000;

/// The bound below which codes are drawn.
pub const CODE_HIGH: u32 = 999999;

/// The text that the external id of a social sign-up is hashed from.
pub open spec fn uuid_seed(provider_id: Seq<char>, unix_secs: int, connected_at: Seq<char>) -> Seq<char> {
    provider_id + "|"@ + signed_decimal_text(unix_secs) + "|JAY|PROP|"@ + connected_at
}

/// The external id of a social sign-up of `provider_id`, connected at
/// `connected_at`, made at `unix_secs`.
pub fn user_uuid_at(provider_id: &str, unix_secs: i64, connected_at: &str) -> (r: String)
    ensures
        r@ == sha512_hex_of(uuid_seed(provider_id@, unix_secs as int, connected_at@)),
        r@.len() == 128,
{
    let mut raw = String::from_str(provider_id);
    raw.append("|");
    push_signed_decimal(unix_secs, &mut raw);
    raw.append("|JAY|PROP|");
    raw.append(connected_at);
    assert(raw@ =~= uuid_seed(provider_id@, unix_secs as int, connected_at@));
    sha512_hex(raw.as_str())
}

/// The external id of a social sign-up of `provider_id`, connected at
/// `connected_at`, made now.
pub fn generate_user_uuid(provider_id: &str, connected_at: &str) -> (r: String)
    ensures
        exists|t: i64| r@ == sha512_hex_of(uuid_seed(provider_id@, t as int, connected_at@)),
        r@.len() == 128,
{
    let now = current_time();
    user_uuid_at(provider_id, now.secs, connected_at)
}

/// A random external id for a direct sign-up: a random UUID written as a
/// decimal number.
pub fn new_decimal_uuid() -> (r: String)
    ensures
        exists|n: u128| r@ == decimal_text(n as nat),
{
    let n = random_uuid_number();
    let mut out = String::new();
    push_decimal(n, &mut out);
    assert(out@ =~= decimal_text(n as nat));
    out
}

/// A random six-digit verification code.
pub fn new_verification_code() -> (r: String)
    ensures
        exists|n: nat| 100000 <= n < 999999 && r@ == decimal_text(n),
{
    let n = random_below(CODE_LOW, CODE_HIGH);
    let mut out = String::new();
    push_decimal(n as u128, &mut out);
    assert(out@ =~= decimal_text(n as nat));
    out
}

} // verus!
