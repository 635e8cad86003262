use gimme_core::kakao::{user_info_from_kakao, KakaoUserAccount, KakaoUserResponse};
use gimme_core::auth::Claims;
use gimme_core::entities::SocialProvider;
use gimme_core::error::{AppError, StorageFault};
use gimme_core::ids::{generate_user_uuid, new_decimal_uuid, new_verification_code, user_uuid_at};
use gimme_core::place::{PlaceDomain, PlaceFulfillmentStatus, PlaceFulfillmentType};
use gimme_core::text::{
    bearer_token, decimal, kakao_authorization_url, mail_delivery_disabled, parse_provider,
    provider_from_lowercase, provider_key, verification_key,
};

#[test]
fn decimal_writes_digits() {
    assert_eq!(decimal(0), "0");
    assert_eq!(decimal(7), "7");
    assert_eq!(decimal(1200), "1200");
    assert_eq!(decimal(u128::MAX), "340282366920938463463374607431768211455");
}

#[test]
fn provider_names_in_any_case() {
    assert_eq!(parse_provider("Kakao"), Ok(SocialProvider::Kakao));
    assert_eq!(parse_provider("GOOGLE"), Ok(SocialProvider::Google));
    assert_eq!(parse_provider("apple"), Ok(SocialProvider::Apple));
    assert_eq!(parse_provider("naver"), Err(AppError::BadRequest("Invalid provider".to_string())));
    assert_eq!(provider_from_lowercase("kakao"), Ok(SocialProvider::Kakao));
    assert!(provider_from_lowercase("Kakao").is_err());
    assert_eq!(provider_key(SocialProvider::Kakao), "KAKAO");
    assert_eq!(provider_key(SocialProvider::Apple), "APPLE");
}

#[test]
fn kakao_url_carries_client_and_redirect() {
    assert_eq!(
        kakao_authorization_url("cid", "https://app/cb"),
        "https://kauth.kakao.com/oauth/authorize?client_id=cid&redirect_uri=https://app/cb&response_type=code"
    );
}

#[test]
fn bearer_header_parsing() {
    assert_eq!(bearer_token("Bearer abc.def"), Ok("abc.def".to_string()));
    assert_eq!(bearer_token("Bearer "), Ok("".to_string()));
    assert_eq!(bearer_token("Basic abc"), Err(AppError::Unauthorized("Invalid token format".to_string())));
    assert_eq!(bearer_token("Bear"), Err(AppError::Unauthorized("Invalid token format".to_string())));
}

#[test]
fn code_store_key_and_mail_mode() {
    assert_eq!(verification_key("test@example.com"), "verification:test@example.com");
    assert!(mail_delivery_disabled("dev"));
    assert!(mail_delivery_disabled("test"));
    assert!(!mail_delivery_disabled("prod"));
}

#[test]
fn social_uuid_is_sha512_hex_of_seed() {
    let a = user_uuid_at("42", 1700000000, "2024-01-01");
    let b = user_uuid_at("42", 1700000000, "2024-01-01");
    let c = user_uuid_at("42", 1700000001, "2024-01-01");
    assert_eq!(a, b);
    assert_ne!(a, c);
    assert_eq!(a.len(), 128);
    assert_ne!(a, "42|1700000000|JAY|PROP|2024-01-01");
    // SHA-512 of the empty text is well known; the seed is never empty, so check the shape only.
    assert!(a.chars().all(|ch| ch.is_ascii_hexdigit()));
    assert_eq!(generate_user_uuid("42", "x").len(), 128);
}

#[test]
fn random_ids_have_their_shape() {
    let u = new_decimal_uuid();
    assert!(u.parse::<u128>().is_ok());
    let code = new_verification_code();
    let n: u32 = code.parse().unwrap();
    assert!((100000..999999).contains(&n));
}

#[test]
fn error_bodies() {
    let b = AppError::Storage(StorageFault::Backend("connection reset".to_string())).response_body();
    assert_eq!((b.error_code, b.error.as_str(), b.pp.as_str(), b.pa.as_str()), (500, "Database error", "", "INTERNAL_SERVER_ERROR"));
    let b = AppError::NotFound.response_body();
    assert_eq!((b.error_code, b.error.as_str(), b.pp.as_str(), b.pa.as_str()), (404, "Not found", "404", "APP_UPDATE_REQUIRED"));
    let b = AppError::BadRequest("bad".to_string()).response_body();
    assert_eq!((b.error_code, b.error.as_str(), b.pp.as_str()), (400, "bad", "bad"));
    let b = AppError::InternalServerError("boom".to_string()).response_body();
    assert_eq!((b.error_code, b.error.as_str(), b.pp.as_str()), (500, "Internal server error", "boom"));
    assert_eq!(AppError::Conflict("c".to_string()).response_body().error_code, 409);
    assert_eq!(AppError::Unauthorized("u".to_string()).response_body().pa, "UNAUTHORIZED");
    assert_eq!(AppError::Forbidden("f".to_string()).response_body().pp, "403");
    assert_eq!(AppError::TransactionState.response_body().error_code, 500);
    assert_eq!(AppError::Configuration.response_body().error, "Internal server error");
}

#[test]
fn claims_last_a_day() {
    let c = Claims::issue("sub-1".to_string(), 1000);
    assert_eq!(c.iat, 1000);
    assert_eq!(c.exp, 1000 + 86400);
    assert_eq!(c.sub, "sub-1");
}

fn place(status: PlaceFulfillmentStatus, kind: PlaceFulfillmentType, is_public: bool) -> PlaceDomain {
    PlaceDomain {
        id: 1,
        place_name: "p".to_string(),
        fulfillment_type: kind,
        fulfillment_status: status,
        open_time: vec![9],
        close_time: vec![18],
        is_public,
        fc_able_split_shipping: false,
        min_shipping_amount_krw: None,
        base_currency_code: None,
        post_code: "".to_string(),
        address: "".to_string(),
        address_detail: "".to_string(),
        sub: None,
    }
}

#[test]
fn places_that_take_orders() {
    assert!(place(PlaceFulfillmentStatus::Active, PlaceFulfillmentType::Distribution, true).can_order());
    assert!(place(PlaceFulfillmentStatus::DelayedOverOneHour, PlaceFulfillmentType::Indirect, true).can_order());
    assert!(!place(PlaceFulfillmentStatus::Closed, PlaceFulfillmentType::Distribution, true).can_order());
    assert!(!place(PlaceFulfillmentStatus::Active, PlaceFulfillmentType::Customer, true).can_order());
    assert!(!place(PlaceFulfillmentStatus::Active, PlaceFulfillmentType::Distribution, false).can_order());
    assert_eq!(PlaceFulfillmentStatus::InventoryQuantityMismatch.code(), -5);
    assert_eq!(PlaceFulfillmentStatus::DelayedOverOneHour.code(), 4);
}

#[test]
fn kakao_response_maps_to_login_data() {
    let info = user_info_from_kakao(KakaoUserResponse {
        id: 3141592653,
        connected_at: Some("2024-01-01T00:00:00Z".to_string()),
        kakao_account: Some(KakaoUserAccount {
            email: Some("k@x.io".to_string()),
            age_range: Some("20~29".to_string()),
            birthyear: Some("1999".to_string()),
            phone_number: None,
            nickname: Some("Kim".to_string()),
        }),
    });
    assert_eq!(info.provider_id, "3141592653");
    assert_eq!(info.name, Some("Kim".to_string()));
    assert_eq!(info.email, Some("k@x.io".to_string()));
    assert_eq!(info.birthyear, Some("1999".to_string()));
    assert_eq!(info.connected_at, Some("2024-01-01T00:00:00Z".to_string()));
    let bare = user_info_from_kakao(KakaoUserResponse { id: -7, connected_at: None, kakao_account: None });
    assert_eq!(bare.provider_id, "-7");
    assert_eq!(bare.email, None);
    assert_eq!(gimme_core::text::signed_decimal(i64::MIN), "-9223372036854775808");
}
