//! The token codec: issuing and validating signed, time-bound session
//! tokens carrying {subject, role, expiry}.
//!
//! Signing and signature checking live behind a trusted boundary; what the
//! codec extracts from a token string under a given secret is a function of
//! those two values alone, so it is given a name, `jwt_payload`, and every
//! contract above it speaks through that name. The expiry comparison itself
//! is made here, in verified code, against an explicit clock value.

use vstd::prelude::*;
use vstd::pervasive::unreached;

use crate::errors::TokenError;

verus! {

/// What decoding a token string under a secret yields: `None` when the token
/// is malformed or its signature does not verify, otherwise the embedded
/// (subject, role, expiry) claims. A function of token and secret alone.
pub uninterp spec fn jwt_payload(token: Seq<char>, secret: Seq<u8>) -> Option<
    (Seq<char>, Seq<char>, int),
>;

/// The token string that signing the claims (subject, role, expiry) under a
/// secret produces: with a fixed header and an ordered claims object, a
/// function of those four values alone.
pub uninterp spec fn jwt_token_of(
    sub: Seq<char>,
    role: Seq<char>,
    exp: int,
    secret: Seq<u8>,
) -> Seq<char>;

/// Relies on jsonwebtoken::encode with the default HS256 header: serializes
/// the claims {sub, role, exp} and signs them with the secret. For an HMAC
/// secret this has no failure path — the key family matches the header, HMAC
/// accepts any key length, and serializing the claims object cannot fail —
/// and the result depends on the four arguments alone. Decoding the returned
/// token with the same secret yields exactly those claims back, which is the
/// crate's documented round trip.
#[verifier::external_body]
fn jwt_encode(sub: &str, role: &str, exp: u64, secret: &[u8]) -> (r: Option<String>)
    ensures
        r is Some,
        r matches Some(t) ==> t@ == jwt_token_of(sub@, role@, exp as int, secret@) && jwt_payload(
            t@,
            secret@,
        ) == Some((sub@, role@, exp as int)),
{
    let mut claims = serde_json::Map::new();
    claims.insert("sub".to_string(), serde_json::Value::from(sub));
    claims.insert("role".to_string(), serde_json::Value::from(role));
    claims.insert("exp".to_string(), serde_json::Value::from(exp));
    jsonwebtoken::encode(
        &jsonwebtoken::Header::default(),
        &serde_json::Value::Object(claims),
        &jsonwebtoken::EncodingKey::from_secret(secret),
    )
    .ok()
}

/// Relies on jsonwebtoken::decode over HS256, with the library's own expiry
/// check turned off: verifies the signature and deserializes the claims,
/// reading no clock, so the outcome is a function of token and secret alone.
/// The expiry embedded in the payload is compared by verified code against
/// an explicit clock instead. The decoder's audience check stays on, so a
/// correctly-signed token carrying an `aud` claim is treated as invalid;
/// tokens this library issues never carry one.
#[verifier::external_body]
fn jwt_decode(token: &str, secret: &[u8]) -> (r: Option<(String, String, u64)>)
    ensures
        match r {
            Some(p) => jwt_payload(token@, secret@) == Some((p.0@, p.1@, p.2 as int)),
            None => jwt_payload(token@, secret@) is None,
        },
{
    let mut validation = jsonwebtoken::Validation::new(jsonwebtoken::Algorithm::HS256);
    validation.validate_exp = false;
    validation.required_spec_claims = std::collections::HashSet::new();
    let key = jsonwebtoken::DecodingKey::from_secret(secret);
    let data = jsonwebtoken::decode::<serde_json::Value>(token, &key, &validation).ok()?;
    let sub = data.claims.get("sub")?.as_str()?.to_string();
    let role = data.claims.get("role")?.as_str()?.to_string();
    let exp = data.claims.get("exp")?.as_u64()?;
    Some((sub, role, exp))
}

/// Relies on chrono::Utc::now: the current Unix timestamp in seconds.
/// Nothing can be promised of a clock reading. Assumes the system clock is
/// not set before the Unix epoch, where that call aborts.
#[verifier::external_body]
pub(crate) fn now_unix() -> (r: i64) {
    chrono::Utc::now().timestamp()
}

/// The ephemeral claims embedded in a session token: subject (the username),
/// role, and the absolute expiry timestamp in Unix seconds. Never stored
/// server-side; expiry is the only invalidation mechanism.
#[derive(Debug, PartialEq, Eq)]
pub struct Claims {
    pub sub: String,
    pub role: String,
    pub exp: u64,
}

/// What token validation decides, given the payload the codec extracted and
/// an explicit clock: an unverifiable token is invalid; one whose expiry is
/// at or before the clock is expired; otherwise the claims come back.
pub open spec fn spec_validate(payload: Option<(Seq<char>, Seq<char>, int)>, now: int) -> Result<
    (Seq<char>, Seq<char>, int),
    TokenError,
> {
    match payload {
        None => Err(TokenError::TokenInvalid),
        Some(p) => if now >= p.2 {
            Err(TokenError::TokenExpired)
        } else {
            Ok(p)
        },
    }
}

/// The expiry timestamp for a token issued now with the given lifetime, or
/// nothing when it would not fit the timestamp type.
pub fn compute_expiry(now: u64, lifetime_minutes: u64) -> (r: Option<u64>)
    ensures
        match r {
            Some(e) => e as int == now as int + 60 * (lifetime_minutes as int),
            None => now as int + 60 * (lifetime_minutes as int) > u64::MAX as int,
        },
{
    match lifetime_minutes.checked_mul(60) {
        Some(secs) => now.checked_add(secs),
        None => None,
    }
}

/// Issues a signed token carrying (subject, role) with the given absolute
/// expiry. Issuance always succeeds: signing with an HMAC secret has no
/// failure path. The token string is determined by the four arguments, its
/// payload under this secret is exactly the claims returned beside it, and
/// those claims carry the subject, role and expiry as given.
pub fn issue_token(secret: &[u8], sub: &str, role: &str, exp: u64) -> (r: (String, Claims))
    ensures
        r.0@ == jwt_token_of(sub@, role@, exp as int, secret@),
        jwt_payload(r.0@, secret@) == Some((sub@, role@, exp as int)),
        r.1.sub@ == sub@,
        r.1.role@ == role@,
        r.1.exp == exp,
{
    let token = match jwt_encode(sub, role, exp, secret) {
        Some(t) => t,
        None => unreached(),
    };
    (token, Claims { sub: sub.to_owned(), role: role.to_owned(), exp })
}

/// Validates a token against a secret and an explicit clock: checks the
/// signature, then the expiry. The two failures stay distinguishable: a bad
/// signature or shape is `TokenInvalid`; a verified token whose expiry lies
/// at or before the clock is `TokenExpired`.
pub fn validate_token(secret: &[u8], token: &str, now: u64) -> (r: Result<Claims, TokenError>)
    ensures
        match r {
            Ok(c) => spec_validate(jwt_payload(token@, secret@), now as int) == Ok::<
                _,
                TokenError,
            >((c.sub@, c.role@, c.exp as int)),
            Err(e) => spec_validate(jwt_payload(token@, secret@), now as int) == Err::<
                (Seq<char>, Seq<char>, int),
                TokenError,
            >(e),
        },
{
    match jwt_decode(token, secret) {
        None => Err(TokenError::TokenInvalid),
        Some((sub, role, exp)) => {
            if now >= exp {
                Err(TokenError::TokenExpired)
            } else {
                Ok(Claims { sub, role, exp })
            }
        },
    }
}

/// Round trip: a token whose payload carries (subject, role, expiry)
/// validates, under any clock strictly before that expiry, to exactly those
/// claims — whatever positive lifetime produced the expiry.
pub proof fn lemma_issue_validate_round_trip(
    payload: Option<(Seq<char>, Seq<char>, int)>,
    sub: Seq<char>,
    role: Seq<char>,
    exp: int,
    now: int,
)
    requires
        payload == Some((sub, role, exp)),
        now < exp,
    ensures
        spec_validate(payload, now) == Ok::<_, TokenError>((sub, role, exp)),
{
}

/// Expiry boundary: a token checked at or after its expiry timestamp fails
/// as expired, and one tick before the expiry it still validates.
pub proof fn lemma_expiry_boundary(
    payload: Option<(Seq<char>, Seq<char>, int)>,
    sub: Seq<char>,
    role: Seq<char>,
    exp: int,
)
    requires
        payload == Some((sub, role, exp)),
    ensures
        forall|now: int|
            now >= exp ==> spec_validate(payload, now) == Err::<
                (Seq<char>, Seq<char>, int),
                TokenError,
            >(TokenError::TokenExpired),
        spec_validate(payload, exp - 1) == Ok::<_, TokenError>((sub, role, exp)),
{
}

} // verus!
