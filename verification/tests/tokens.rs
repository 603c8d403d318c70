use usguri_almoxarifado::authorization::{
    authenticate_at, issue_token, verify_token, Claims, TOKEN_LIFETIME_SECS,
};
use usguri_almoxarifado::validation::CustomError;

const SECRET: &[u8] = b"SECRET-REDACTED";
const NOW: u64 = 1_700_000_000;

fn issue_at(sub: i32, now: u64) -> String {
    Claims::new(sub, now).to_jwt(SECRET).expect("signing failed")
}

#[test]
fn issued_token_verifies_to_the_same_claims() {
    let token = issue_at(42, NOW);
    let claims = verify_token(&token, SECRET, NOW + 1).expect("verification failed");
    assert_eq!(claims.sub, 42);
    assert_eq!(claims.exp, NOW + TOKEN_LIFETIME_SECS);
}

#[test]
fn token_expires_once_time_reaches_expiry() {
    let token = issue_at(42, NOW);
    let exp = NOW + TOKEN_LIFETIME_SECS;
    assert!(verify_token(&token, SECRET, exp - 1).is_ok());
    assert_eq!(verify_token(&token, SECRET, exp), Err(CustomError::Unauthorized));
    assert_eq!(verify_token(&token, SECRET, exp + 1), Err(CustomError::Unauthorized));
}

#[test]
fn tampered_signature_fails_with_the_same_generic_error() {
    let token = issue_at(42, NOW);
    let dot = token.rfind('.').expect("token has no signature segment");
    let mut bytes = token.clone().into_bytes();
    let i = dot + 1;
    bytes[i] = if bytes[i] == b'A' { b'B' } else { b'A' };
    let tampered = String::from_utf8(bytes).expect("tampered token is not text");
    assert_ne!(tampered, token);

    let r = verify_token(&tampered, SECRET, NOW + 1);
    assert_eq!(r, Err(CustomError::Unauthorized));
    // The rejection is byte-for-byte the one a missing header gets.
    let missing = authenticate_at(None, SECRET, NOW + 1);
    let e1 = r.unwrap_err();
    let e2 = missing.unwrap_err();
    assert_eq!(e1.response_parts(), e2.response_parts());
    assert_eq!(e1.response_parts(), (401, "Authentication required".to_string()));
}

#[test]
fn wrong_secret_fails() {
    let token = issue_at(42, NOW);
    assert_eq!(
        verify_token(&token, b"SECRET-REDACTED-OTHER", NOW + 1),
        Err(CustomError::Unauthorized)
    );
}

#[test]
fn garbage_tokens_fail() {
    for t in ["", "a.b.c", "definitely not a token", "."] {
        assert_eq!(verify_token(t, SECRET, NOW), Err(CustomError::Unauthorized));
    }
}

#[test]
fn bearer_header_authenticates() {
    let token = issue_at(7, NOW);
    let header = format!("Bearer {}", token);
    let claims = authenticate_at(Some(&header), SECRET, NOW + 1).expect("authentication failed");
    assert_eq!(claims.sub, 7);
}

#[test]
fn missing_header_and_expired_token_get_identical_responses() {
    let token = issue_at(7, NOW);
    let header = format!("Bearer {}", token);
    let late = NOW + TOKEN_LIFETIME_SECS + 5;

    let no_header = authenticate_at(None, SECRET, late).unwrap_err();
    let expired = authenticate_at(Some(&header), SECRET, late).unwrap_err();
    assert_eq!(no_header, CustomError::Unauthorized);
    assert_eq!(expired, CustomError::Unauthorized);
    assert_eq!(no_header.response_parts(), expired.response_parts());
    assert_eq!(no_header.response_parts(), (401, "Authentication required".to_string()));
}

#[test]
fn wrong_scheme_is_rejected() {
    let token = issue_at(7, NOW);
    for header in [format!("Basic {}", token), token.clone(), format!("bearer {}", token)] {
        assert_eq!(
            authenticate_at(Some(&header), SECRET, NOW + 1),
            Err(CustomError::Unauthorized)
        );
    }
}

#[test]
fn issue_token_yields_a_currently_valid_token() {
    let token = issue_token(9, SECRET).expect("issuing failed");
    let header = format!("Bearer {}", token);
    // The expiry lies two weeks ahead, so any plausible current time
    // works as the check time; reuse a fixed one far in the token's past.
    let claims = verify_token(&token, SECRET, 1).expect("verification failed");
    assert_eq!(claims.sub, 9);
    assert!(authenticate_at(Some(&header), SECRET, 1).is_ok());
}
