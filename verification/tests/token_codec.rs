use hospital_core::errors::TokenError;
use hospital_core::token::compute_expiry;
use hospital_core::token::issue_token;
use hospital_core::token::validate_token;

const NOW: u64 = 1_700_000_000;
const SECRET: &[u8] = b"codec-secret";

#[test]
fn round_trip_returns_same_subject_and_role() {
    for lifetime_secs in [1u64, 60, 3600, 86400] {
        let exp = NOW + lifetime_secs;
        let (token, claims) = issue_token(SECRET, "drsmith", "doctor", exp);
        assert_eq!(claims.sub, "drsmith");
        assert_eq!(claims.role, "doctor");
        assert_eq!(claims.exp, exp);
        let back = validate_token(SECRET, &token, NOW).unwrap();
        assert_eq!(back.sub, "drsmith");
        assert_eq!(back.role, "doctor");
        assert_eq!(back.exp, exp);
    }
}

#[test]
fn token_is_not_the_plain_subject() {
    let (token, _) = issue_token(SECRET, "drsmith", "doctor", NOW + 3600);
    assert_ne!(token, "drsmith");
    // Three dot-separated parts: header, payload, signature.
    assert_eq!(token.split('.').count(), 3);
}

#[test]
fn validation_at_expiry_fails_as_expired() {
    let exp = NOW + 3600;
    let (token, _) = issue_token(SECRET, "jdoe", "patient", exp);
    assert_eq!(validate_token(SECRET, &token, exp), Err(TokenError::TokenExpired));
}

#[test]
fn validation_after_expiry_fails_as_expired() {
    let exp = NOW + 3600;
    let (token, _) = issue_token(SECRET, "jdoe", "patient", exp);
    assert_eq!(
        validate_token(SECRET, &token, exp + 1),
        Err(TokenError::TokenExpired)
    );
    assert_eq!(
        validate_token(SECRET, &token, exp + 999_999),
        Err(TokenError::TokenExpired)
    );
}

#[test]
fn validation_one_tick_before_expiry_still_succeeds() {
    let exp = NOW + 3600;
    let (token, _) = issue_token(SECRET, "jdoe", "patient", exp);
    let claims = validate_token(SECRET, &token, exp - 1).unwrap();
    assert_eq!(claims.sub, "jdoe");
}

#[test]
fn malformed_token_fails_as_invalid() {
    assert_eq!(
        validate_token(SECRET, "not-a-token", NOW),
        Err(TokenError::TokenInvalid)
    );
    assert_eq!(validate_token(SECRET, "", NOW), Err(TokenError::TokenInvalid));
    assert_eq!(
        validate_token(SECRET, "a.b.c", NOW),
        Err(TokenError::TokenInvalid)
    );
}

#[test]
fn token_signed_with_other_secret_fails_as_invalid() {
    let (token, _) = issue_token(b"other-secret", "jdoe", "patient", NOW + 3600);
    assert_eq!(
        validate_token(SECRET, &token, NOW),
        Err(TokenError::TokenInvalid)
    );
}

#[test]
fn tampered_token_fails_as_invalid() {
    let (token, _) = issue_token(SECRET, "jdoe", "patient", NOW + 3600);
    let mut tampered = token.clone();
    tampered.pop();
    assert_eq!(
        validate_token(SECRET, &tampered, NOW),
        Err(TokenError::TokenInvalid)
    );
}

#[test]
fn expired_and_invalid_stay_distinguishable() {
    let (token, _) = issue_token(SECRET, "jdoe", "patient", NOW);
    let expired = validate_token(SECRET, &token, NOW).unwrap_err();
    let invalid = validate_token(SECRET, "garbage", NOW).unwrap_err();
    assert_ne!(expired, invalid);
}

#[test]
fn same_claims_and_secret_give_the_same_token() {
    let (a, _) = issue_token(SECRET, "drsmith", "doctor", NOW + 3600);
    let (b, _) = issue_token(SECRET, "drsmith", "doctor", NOW + 3600);
    assert_eq!(a, b);
    let (c, _) = issue_token(SECRET, "drsmith", "doctor", NOW + 3601);
    assert_ne!(a, c);
}

#[test]
fn compute_expiry_adds_sixty_seconds_per_minute() {
    assert_eq!(compute_expiry(NOW, 60), Some(NOW + 3600));
    assert_eq!(compute_expiry(0, 0), Some(0));
    assert_eq!(compute_expiry(u64::MAX, 1), None);
    assert_eq!(compute_expiry(0, u64::MAX), None);
}
