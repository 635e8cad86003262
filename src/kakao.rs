//! What Kakao's user endpoint returns, and the login data taken from it.
use vstd::prelude::*;
use crate::auth::OAuthUserInfo;
use crate::text::{signed_decimal, signed_decimal_text};

verus! {

/// The account part of Kakao's user response.
#[derive(Debug, Clone, PartialEq, Eq)]
pub struct KakaoUserAccount {
    pub email: Option<String>,
    pub age_range: Option<String>,
    pub birthyear: Option<String>,
    pub phone_number: Option<String>,
    /// The nickname of the account's profile, where it has one.
    pub nickname: Option<String>,
}

/// Kakao's user response.
#[derive(Debug, Clone, PartialEq, Eq)]
pub struct KakaoUserResponse {
    pub id: i64,
    pub connected_at: Option<String>,
    pub kakao_account: Option<KakaoUserAccount>,
}

/// A field of the account, absent where there is no account.
pub open spec fn account_field(
    account: Option<KakaoUserAccount>,
    field: spec_fn(KakaoUserAccount) -> Option<String>,
) -> Option<String> {
    match account {
        Some(a) => field(a),
        None => None,
    }
}

/// The login data of a Kakao user: the numeric id in decimal as the provider
/// id, the nickname as the name, and the account's other fields as they are.
pub fn user_info_from_kakao(res: KakaoUserResponse) -> (r: OAuthUserInfo)
    ensures
        r.provider_id@ == signed_decimal_text(res.id as int),
        r.connected_at == res.connected_at,
        r.email == account_field(res.kakao_account, |a: KakaoUserAccount| a.email),
        r.name == account_field(res.kakao_account, |a: KakaoUserAccount| a.nickname),
        r.age_range == account_field(res.kakao_account, |a: KakaoUserAccount| a.age_range),
        r.birthyear == account_field(res.kakao_account, |a: KakaoUserAccount| a.birthyear),
        r.phone_number == account_field(res.kakao_account, |a: KakaoUserAccount| a.phone_number),
{
    let provider_id = signed_decimal(res.id);
    match res.kakao_account {
        Some(a) => OAuthUserInfo {
            provider_id,
            email: a.email,
            name: a.nickname,
            age_range: a.age_range,
            birthyear: a.birthyear,
            phone_number: a.phone_number,
            connected_at: res.connected_at,
        },
        None => OAuthUserInfo {
            provider_id,
            email: None,
            name: None,
            age_range: None,
            birthyear: None,
            phone_number: None,
            connected_at: res.connected_at,
        },
    }
}

} // verus!
