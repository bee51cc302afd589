//! JSON web tokens (HS256) and the clocks their expiration is measured by.

use crate::middleware::jwt::Claims;
use jsonwebtoken::{decode, encode, DecodingKey, EncodingKey, Header, Validation};
use vstd::prelude::*;
use vstd::utf8::encode_utf8;

verus! {

/// The token `jsonwebtoken::encode` makes with `Header::default()` (HS256) for the
/// claims object `{"sub": sub, "exp": exp}` and the HMAC secret `secret`.
pub uninterp spec fn jwt_token(sub: Seq<char>, exp: u64, secret: Seq<u8>) -> Seq<char>;

/// The `sub` and `exp` claims that `jsonwebtoken::decode` finds in the token whose UTF-8
/// bytes are `token`, checked against the HMAC secret `secret` with HS256 and the default
/// validation except for the expiration time; `None` when decoding fails or when `sub` is
/// not a string or `exp` not an unsigned integer.
pub uninterp spec fn jwt_claims(token: Seq<u8>, secret: Seq<u8>) -> Option<(Seq<char>, u64)>;

/// A character of the base64url alphabet, or the dot that separates a token's parts.
pub open spec fn is_token_char(c: char) -> bool {
    ||| ('A' <= c && c <= 'Z')
    ||| ('a' <= c && c <= 'z')
    ||| ('0' <= c && c <= '9')
    ||| c == '-'
    ||| c == '_'
    ||| c == '.'
}

/// Plain view of decoded claims.
pub open spec fn claims_view(r: Option<Claims>) -> Option<(Seq<char>, u64)> {
    match r {
        Some(claims) => Some((claims.sub@, claims.exp)),
        None => None,
    }
}

/// Encodes the claims as the JSON object `{"sub": .., "exp": ..}` (in that order) with
/// `jsonwebtoken::encode`, `Header::default()` (HS256) and
/// `EncodingKey::from_secret(secret)`.
///
/// Claimed of it, from jsonwebtoken's source: encoding succeeds (the key's family
/// matches HS256, the header and a JSON value always serialize, HMAC signing does not
/// fail); the token is three base64url (no padding) parts joined by dots; and decoding
/// it with the same secret gives back `sub` and `exp`, since the signature verifies,
/// the header names HS256, `exp` is present and no audience or issuer is set.
#[verifier::external_body]
pub(crate) fn jwt_encode(claims: &Claims, secret: &[u8]) -> (r: Result<String, String>)
    ensures
        r is Ok,
        r matches Ok(t) ==> {
            &&& t@ == jwt_token(claims.sub@, claims.exp, secret@)
            &&& forall|i: int| 0 <= i < t@.len() ==> #[trigger] is_token_char(t@[i])
            &&& jwt_claims(encode_utf8(t@), secret@) == Some((claims.sub@, claims.exp))
        },
{
    let mut object = serde_json::Map::new();
    object.insert("sub".to_string(), serde_json::Value::from(claims.sub.as_str()));
    object.insert("exp".to_string(), serde_json::Value::from(claims.exp));
    let object = serde_json::Value::Object(object);
    match encode(&Header::default(), &object, &EncodingKey::from_secret(secret)) {
        Ok(token) => Ok(token),
        Err(e) => Err(e.to_string()),
    }
}

/// Decodes `token` with `jsonwebtoken::decode`, `DecodingKey::from_secret(secret)` and
/// `Validation::default()` with the expiration check switched off (the caller compares
/// `exp` with its own clock), and picks the `sub` string and `exp` integer claims.
#[verifier::external_body]
pub(crate) fn jwt_decode(token: &str, secret: &[u8]) -> (r: Option<Claims>)
    ensures
        claims_view(r) == jwt_claims(encode_utf8(token@), secret@),
{
    let mut validation = Validation::default();
    validation.validate_exp = false;
    let data = match decode::<serde_json::Value>(token, &DecodingKey::from_secret(secret), &validation) {
        Ok(data) => data,
        Err(_) => return None,
    };
    let sub = data.claims.get("sub")?.as_str()?.to_string();
    let exp = data.claims.get("exp")?.as_u64()?;
    Some(Claims { sub, exp })
}

/// `std::str::from_utf8`: the string whose UTF-8 encoding is `bytes`, when there is one.
#[verifier::external_body]
pub(crate) fn utf8_str(bytes: &[u8]) -> (r: Option<&str>)
    ensures
        r matches Some(s) ==> encode_utf8(s@) == bytes@,
        vstd::utf8::valid_utf8(bytes@) ==> r is Some,
{
    std::str::from_utf8(bytes).ok()
}

/// The current time in seconds since the Unix epoch, by
/// `chrono::DateTime::<chrono::Utc>::from(std::time::SystemTime::now()).timestamp()`
/// (which, unlike `Utc::now`, also takes a clock set before 1970).
/// Nothing is claimed of it: it depends on the clock.
#[verifier::external_body]
pub(crate) fn utc_now_timestamp() -> (t: i64) {
    chrono::DateTime::<chrono::Utc>::from(std::time::SystemTime::now()).timestamp()
}

/// The earliest timestamp chrono represents: -262143-01-01T00:00:00 UTC.
pub open spec fn min_timestamp() -> int {
    -8_334_601_228_800
}

/// The latest whole-second timestamp chrono represents: +262142-12-31T23:59:59 UTC.
pub open spec fn max_timestamp() -> int {
    8_210_266_876_799
}

/// The timestamp `secs` seconds after `ts`, by `chrono::DateTime::from_timestamp(ts, 0)`,
/// `chrono::TimeDelta::try_seconds(secs)` and `checked_add_signed`. Claimed: the result
/// is `ts + secs`, and there is one exactly when both `ts` and `ts + secs` lie within
/// chrono's dates (years -262143 to 262142); a `secs` that `TimeDelta` cannot hold
/// (beyond about 9.2e15) puts `ts + secs` out of that range anyway.
#[verifier::external_body]
pub(crate) fn add_seconds(ts: i64, secs: i64) -> (r: Option<i64>)
    ensures
        r matches Some(t) ==> t == ts + secs,
        r is Some <==> (min_timestamp() <= ts <= max_timestamp() && min_timestamp() <= ts + secs
            <= max_timestamp()),
{
    let start = chrono::DateTime::from_timestamp(ts, 0)?;
    let end = start.checked_add_signed(chrono::TimeDelta::try_seconds(secs)?)?;
    Some(end.timestamp())
}

} // verus!
