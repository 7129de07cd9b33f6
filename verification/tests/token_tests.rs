use clamber_core::token::{check_claims, claims_unexpired};
use clamber_core::{is_valid_token, ClamberError, JwtConfig, JwtManager};

fn claims(pairs: &[(&str, &str)]) -> Vec<(String, String)> {
    pairs
        .iter()
        .map(|(k, v)| (k.to_string(), v.to_string()))
        .collect()
}

#[test]
fn test_token_round_trip() {
    let manager = JwtManager::new(JwtConfig::new("test_secret", 1));
    let payload = "{\"id\":\"123\",\"name\":\"John Doe\",\"role\":\"admin\"}";

    let token = manager.generate_token(payload).unwrap();
    assert!(!token.is_empty());

    let decoded = manager.verify_token(&token).unwrap();
    assert_eq!(decoded, payload);

    assert!(manager.is_valid_token(&token));
}

#[test]
fn test_token_round_trip_at_fixed_instant() {
    let manager = JwtManager::new(JwtConfig::new("another_secret", 2));
    let payload = "{\"user\":\"jane\"}";
    let issued_at = 1_700_000_000i64;

    // Signing is deterministic in the secret, the claims and the instant.
    let token_a = manager.build_token_at(payload, issued_at).unwrap();
    let token_b = manager.build_token_at(payload, issued_at).unwrap();
    assert_eq!(token_a, token_b);

    // Before the expiry the payload comes back; at and after it, the
    // expiry error does.
    let expiry = issued_at + 2 * 86400;
    assert_eq!(
        manager.verify_token_at(&token_a, expiry - 1).unwrap(),
        payload
    );
    assert!(matches!(
        manager.verify_token_at(&token_a, expiry),
        Err(ClamberError::JwtExpiredError)
    ));
}

#[test]
fn test_invalid_token() {
    let manager = JwtManager::default();

    assert!(!manager.is_valid_token("invalid_token"));

    let manager1 = JwtManager::new(JwtConfig::new("secret1", 1));
    let manager2 = JwtManager::new(JwtConfig::new("secret2", 1));

    let token = manager1
        .generate_token("{\"id\":\"789\",\"name\":\"Test User\",\"role\":\"test\"}")
        .unwrap();
    assert!(manager1.verify_token(&token).is_ok());
    // A signature that does not verify yields the verify-error kind.
    assert!(matches!(
        manager2.verify_token(&token),
        Err(ClamberError::JwtVerifyError { .. })
    ));
    assert!(!manager2.is_valid_token(&token));
}

#[test]
fn test_expiry_computation_overflow() {
    let manager = JwtManager::new(JwtConfig::new("s", i64::MAX));
    assert!(matches!(
        manager.build_token_at("{}", 0),
        Err(ClamberError::JwtError { .. })
    ));
    assert!(matches!(
        manager.generate_token("{}"),
        Err(ClamberError::JwtError { .. })
    ));
}

#[test]
fn test_default_secret_functions() {
    let manager = JwtManager::default();
    let token = manager.generate_token("{\"id\":\"456\"}").unwrap();
    assert!(is_valid_token(&token));
    assert!(!is_valid_token("not.a.token"));
}

#[test]
fn test_check_claims_cases() {
    let now = 1_000_000i64;

    // Missing expiry claim.
    match check_claims(&claims(&[("payload", "p")]), now) {
        Err(ClamberError::JwtMissingFieldError { field }) => assert_eq!(field, "exp"),
        other => panic!("expected a missing exp error, got {:?}", other),
    }

    // Unreadable expiry claim.
    assert!(matches!(
        check_claims(&claims(&[("exp", "soon"), ("payload", "p")]), now),
        Err(ClamberError::JwtError { .. })
    ));

    // Expired claim: the boundary instant itself already counts as expired.
    assert!(matches!(
        check_claims(&claims(&[("exp", "1000000"), ("payload", "p")]), now),
        Err(ClamberError::JwtExpiredError)
    ));

    // Valid expiry but no payload.
    match check_claims(&claims(&[("exp", "1000001")]), now) {
        Err(ClamberError::JwtMissingFieldError { field }) => assert_eq!(field, "payload"),
        other => panic!("expected a missing payload error, got {:?}", other),
    }

    // Everything present.
    assert_eq!(
        check_claims(
            &claims(&[("createAt", "999999"), ("exp", "1000001"), ("payload", "p")]),
            now
        )
        .unwrap(),
        "p"
    );
}

#[test]
fn test_claims_unexpired() {
    let now = 500i64;
    assert!(claims_unexpired(&claims(&[("exp", "501")]), now));
    assert!(!claims_unexpired(&claims(&[("exp", "500")]), now));
    assert!(!claims_unexpired(&claims(&[("exp", "oops")]), now));
    assert!(!claims_unexpired(&claims(&[("payload", "p")]), now));
    // A negative expiry parses and lies in the past.
    assert!(!claims_unexpired(&claims(&[("exp", "-1")]), now));
}
