//! Text that the library builds or reads: decimal numbers, provider names,
//! the provider's authorization URL, bearer tokens and code-store keys.
use vstd::prelude::*;
use vstd::string::*;
use crate::entities::SocialProvider;
use crate::error::{is_bad_request, is_unauthorized, AppError, AppResult};

verus! {

/// The character of decimal digit `d`.
pub open spec fn digit_char(d: nat) -> char {
    if d == 0 {
        '0'
    } else if d == 1 {
        '1'
    } else if d == 2 {
        '2'
    } else if d == 3 {
        '3'
    } else if d == 4 {
        '4'
    } else if d == 5 {
        '5'
    } else if d == 6 {
        '6'
    } else if d == 7 {
        '7'
    } else if d == 8 {
        '8'
    } else {
        '9'
    }
}

/// The decimal representation of `n`, without sign or leading zeros.
pub open spec fn decimal_text(n: nat) -> Seq<char>
    decreases n,
{
    if n < 10 {
        seq![digit_char(n)]
    } else {
        decimal_text(n / 10).push(digit_char(n % 10))
    }
}

fn digit_str(d: u8) -> (r: &'static str)
    requires
        d < 10,
    ensures
        r@ == seq![digit_char(d as nat)],
{
    proof {
        reveal_strlit("0");
        reveal_strlit("1");
        reveal_strlit("2");
        reveal_strlit("3");
        reveal_strlit("4");
        reveal_strlit("5");
        reveal_strlit("6");
        reveal_strlit("7");
        reveal_strlit("8");
        reveal_strlit("9");
    }
    let r = if d == 0 {
        "0"
    } else if d == 1 {
        "1"
    } else if d == 2 {
        "2"
    } else if d == 3 {
        "3"
    } else if d == 4 {
        "4"
    } else if d == 5 {
        "5"
    } else if d == 6 {
        "6"
    } else if d == 7 {
        "7"
    } else if d == 8 {
        "8"
    } else {
        "9"
    };
    assert(r@ =~= seq![digit_char(d as nat)]);
    r
}

/// Appends the decimal representation of `n` to `out`.
pub fn push_decimal(n: u128, out: &mut String)
    ensures
        final(out)@ == old(out)@ + decimal_text(n as nat),
    decreases n,
{
    if n >= 10 {
        push_decimal(n / 10, out);
    }
    let d = digit_str((n % 10) as u8);
    out.append(d);
    proof {
        if n >= 10 {
            assert(decimal_text(n as nat) == decimal_text((n / 10) as nat).push(digit_char((n % 10) as nat)));
        }
    }
    assert(final(out)@ =~= old(out)@ + decimal_text(n as nat));
}

/// The decimal representation of `n`.
pub fn decimal(n: u128) -> (r: String)
    ensures
        r@ == decimal_text(n as nat),
{
    let mut out = String::new();
    push_decimal(n, &mut out);
    assert(out@ =~= decimal_text(n as nat));
    out
}

/// The decimal representation of `n`, with a leading `-` where it is
/// negative.
pub open spec fn signed_decimal_text(n: int) -> Seq<char> {
    if n < 0 {
        "-"@ + decimal_text((-n) as nat)
    } else {
        decimal_text(n as nat)
    }
}

/// Appends the decimal representation of `n`, signed, to `out`.
pub fn push_signed_decimal(n: i64, out: &mut String)
    ensures
        final(out)@ == old(out)@ + signed_decimal_text(n as int),
{
    if n < 0 {
        out.append("-");
        push_decimal((-(n as i128)) as u128, out);
        assert(final(out)@ =~= old(out)@ + signed_decimal_text(n as int));
    } else {
        push_decimal(n as u128, out);
    }
}

/// The decimal representation of `n`, signed.
pub fn signed_decimal(n: i64) -> (r: String)
    ensures
        r@ == signed_decimal_text(n as int),
{
    let mut out = String::new();
    push_signed_decimal(n, &mut out);
    assert(out@ =~= signed_decimal_text(n as int));
    out
}

/// What `str::to_lowercase` makes of a text: it depends on the characters
/// alone.
pub uninterp spec fn lower_of(s: Seq<char>) -> Seq<char>;

/// Relies on `str::to_lowercase`: the lowercase form of `s`, by Unicode's
/// rules.
#[verifier::external_body]
fn lowercase(s: &str) -> (r: String)
    ensures
        r@ == lower_of(s@),
{
    s.to_lowercase()
}

/// The provider that a lowercase name stands for.
pub open spec fn provider_named(lowered: Seq<char>) -> Option<SocialProvider> {
    if lowered == "kakao"@ {
        Some(SocialProvider::Kakao)
    } else if lowered == "google"@ {
        Some(SocialProvider::Google)
    } else if lowered == "apple"@ {
        Some(SocialProvider::Apple)
    } else {
        None
    }
}

/// The provider that the lowercase name `lowered` stands for; a bad request
/// for any other name.
pub fn provider_from_lowercase(lowered: &str) -> (r: AppResult<SocialProvider>)
    ensures
        match provider_named(lowered@) {
            Some(p) => r == Ok::<SocialProvider, AppError>(p),
            None => is_bad_request(r, "Invalid provider"@),
        },
{
    let l = String::from_str(lowered);
    if l == String::from_str("kakao") {
        Ok(SocialProvider::Kakao)
    } else if l == String::from_str("google") {
        Ok(SocialProvider::Google)
    } else if l == String::from_str("apple") {
        Ok(SocialProvider::Apple)
    } else {
        Err(AppError::BadRequest(String::from_str("Invalid provider")))
    }
}

/// The provider that `name` stands for, in any letter case; a bad request
/// for any other name.
pub fn parse_provider(name: &str) -> (r: AppResult<SocialProvider>)
    ensures
        match provider_named(lower_of(name@)) {
            Some(p) => r == Ok::<SocialProvider, AppError>(p),
            None => is_bad_request(r, "Invalid provider"@),
        },
{
    let lowered = lowercase(name);
    provider_from_lowercase(lowered.as_str())
}

/// The key under which a provider is registered.
pub open spec fn provider_key_text(p: SocialProvider) -> Seq<char> {
    match p {
        SocialProvider::Kakao => "KAKAO"@,
        SocialProvider::Google => "GOOGLE"@,
        SocialProvider::Apple => "APPLE"@,
    }
}

pub fn provider_key(p: SocialProvider) -> (r: String)
    ensures
        r@ == provider_key_text(p),
{
    match p {
        SocialProvider::Kakao => String::from_str("KAKAO"),
        SocialProvider::Google => String::from_str("GOOGLE"),
        SocialProvider::Apple => String::from_str("APPLE"),
    }
}

/// The URL that starts the authorization-code flow at Kakao.
pub fn kakao_authorization_url(client_id: &str, redirect_uri: &str) -> (r: String)
    ensures
        r@ == "https://kauth.kakao.com/oauth/authorize?client_id="@ + client_id@ + "&redirect_uri="@
            + redirect_uri@ + "&response_type=code"@,
{
    let mut url = String::from_str("https://kauth.kakao.com/oauth/authorize?client_id=");
    url.append(client_id);
    url.append("&redirect_uri=");
    url.append(redirect_uri);
    url.append("&response_type=code");
    url
}

/// The key under which the code sent to `email` is kept.
pub fn verification_key(email: &str) -> (r: String)
    ensures
        r@ == "verification:"@ + email@,
{
    let mut key = String::from_str("verification:");
    key.append(email);
    key
}

/// Whether mail is only printed, not sent, in the environment `app_env`.
pub fn mail_delivery_disabled(app_env: &str) -> (r: bool)
    ensures
        r == (app_env@ == "dev"@ || app_env@ == "test"@),
{
    let env = String::from_str(app_env);
    env == String::from_str("dev") || env == String::from_str("test")
}

/// The token of an `Authorization` header of the form `Bearer <token>`.
pub open spec fn bearer_of(header: Seq<char>) -> Option<Seq<char>> {
    if header.len() >= 7 && header.subrange(0, 7) == "Bearer "@ {
        Some(header.subrange(7, header.len() as int))
    } else {
        None
    }
}

/// The token that an `Authorization` header carries; an authentication
/// failure where the header is not of the form `Bearer <token>`.
pub fn bearer_token(header: &str) -> (r: AppResult<String>)
    ensures
        match bearer_of(header@) {
            Some(t) => r is Ok && r.unwrap()@ == t,
            None => is_unauthorized(r, "Invalid token format"@),
        },
{
    proof {
        reveal_strlit("Bearer ");
    }
    let n = header.unicode_len();
    if n >= 7 {
        let head = header.substring_char(0, 7);
        if String::from_str(head) == String::from_str("Bearer ") {
            let rest = header.substring_char(7, n);
            return Ok(String::from_str(rest));
        }
    }
    Err(AppError::Unauthorized(String::from_str("Invalid token format")))
}

/// The value of a string of decimal digits.
pub open spec fn digits_value(s: Seq<char>) -> int
    decreases s.len(),
{
    if s.len() == 0 {
        0
    } else {
        digits_value(s.drop_last()) * 10 + (s.last() as u32 - '0' as u32)
    }
}

pub open spec fn all_digits(s: Seq<char>) -> bool {
    forall|i: int| 0 <= i < s.len() ==> '0' <= #[trigger] s[i] && s[i] <= '9'
}

/// The value of an unsigned decimal numeral: an optional `+`, then at least
/// one digit; none for any other text.
pub open spec fn unsigned_value(s: Seq<char>) -> Option<int> {
    if numeral_digits(s).len() > 0 && all_digits(numeral_digits(s)) {
        Some(digits_value(numeral_digits(s)))
    } else {
        None
    }
}

/// A numeral without its leading `+`, if it has one.
pub open spec fn numeral_digits(s: Seq<char>) -> Seq<char> {
    if s.len() > 0 && s[0] == '+' {
        s.subrange(1, s.len() as int)
    } else {
        s
    }
}

proof fn lemma_digits_value_grows(s: Seq<char>, j: int, k: int)
    requires
        0 <= j <= k <= s.len(),
        all_digits(s),
    ensures
        0 <= digits_value(s.subrange(0, j)) <= digits_value(s.subrange(0, k)),
    decreases k - j,
{
    if j < k {
        lemma_digits_value_grows(s, j, k - 1);
        let p = s.subrange(0, k);
        assert(p.drop_last() =~= s.subrange(0, k - 1));
        assert(p.last() == s[k - 1]);
    } else {
        lemma_digits_value_nonneg(s.subrange(0, j));
    }
}

proof fn lemma_digits_value_nonneg(s: Seq<char>)
    requires
        all_digits(s),
    ensures
        digits_value(s) >= 0,
    decreases s.len(),
{
    if s.len() > 0 {
        assert(s.last() == s[s.len() - 1]);
        assert forall|i: int| 0 <= i < s.drop_last().len() implies '0' <= #[trigger] s.drop_last()[i]
            && s.drop_last()[i] <= '9' by {
            assert(s.drop_last()[i] == s[i]);
        }
        lemma_digits_value_nonneg(s.drop_last());
    }
}

/// The value of the unsigned decimal numeral `s` where it is at most `max`;
/// none where `s` is no such numeral or its value exceeds `max`.
pub fn parse_unsigned(s: &str, max: u64) -> (r: Option<u64>)
    ensures
        match r {
            Some(x) => unsigned_value(s@) == Some(x as int) && x <= max,
            None => unsigned_value(s@) is None || unsigned_value(s@).unwrap() > max,
        },
{
    let n = s.unicode_len();
    let start: usize = if n > 0 && s.get_char(0) == '+' {
        1
    } else {
        0
    };
    let ghost body = numeral_digits(s@);
    assert(body =~= s@.subrange(start as int, n as int));
    if start >= n {
        return None;
    }
    let mut acc: u64 = 0;
    let mut i: usize = start;
    while i < n
        invariant
            start <= i <= n,
            n == s@.len(),
            body =~= s@.subrange(start as int, n as int),
            body == numeral_digits(s@),
            all_digits(body.subrange(0, i - start)),
            acc as int == digits_value(body.subrange(0, i - start)),
            acc <= max,
        decreases n - i,
    {
        let c = s.get_char(i);
        if !('0' <= c && c <= '9') {
            assert(body[i - start] == c);
            assert(!all_digits(body));
            return None;
        }
        let d = (c as u32 - '0' as u32) as u64;
        let prefix = Ghost(body.subrange(0, i - start + 1));
        proof {
            assert(prefix@.drop_last() =~= body.subrange(0, i - start));
            assert(prefix@.last() == c);
            assert(all_digits(prefix@));
        }
        if d > max || acc > (max - d) / 10 {
            proof {
                assert(acc * 10 + d > max) by (nonlinear_arith)
                    requires
                        d > max || acc > (max - d) / 10,
                        d <= 9,
                ;
                assert(digits_value(prefix@) == acc * 10 + d);
                if all_digits(body) {
                    lemma_digits_value_grows(body, i - start + 1, body.len() as int);
                    assert(body.subrange(0, body.len() as int) =~= body);
                    assert(digits_value(body) > max);
                }
            }
            return None;
        }
        proof {
            assert(acc * 10 + d <= max) by (nonlinear_arith)
                requires
                    d <= max,
                    acc <= (max - d) / 10,
            ;
        }
        assert(digits_value(prefix@) == acc * 10 + d);
        acc = acc * 10 + d;
        i = i + 1;
    }
    assert(body.subrange(0, n - start) =~= body);
    Some(acc)
}

} // verus!
