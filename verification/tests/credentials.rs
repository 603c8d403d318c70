use usguri_almoxarifado::services::user_service::{hash_password, verify_password};
use usguri_almoxarifado::validation::CustomError;

#[test]
fn hash_then_verify_accepts_the_password() {
    let hash = hash_password("correct horse battery staple").expect("hashing failed");
    assert!(verify_password("correct horse battery staple", &hash).is_ok());
}

#[test]
fn hash_then_verify_rejects_another_password() {
    let hash = hash_password("correct horse battery staple").expect("hashing failed");
    let r = verify_password("correct horse battery stapl", &hash);
    assert_eq!(r, Err(CustomError::Unauthorized));
}

#[test]
fn hash_of_empty_password_still_round_trips() {
    let hash = hash_password("").expect("hashing failed");
    assert!(verify_password("", &hash).is_ok());
    assert_eq!(verify_password("x", &hash), Err(CustomError::Unauthorized));
}

#[test]
fn hashing_is_salted_and_verify_tolerates_it() {
    let h1 = hash_password("same password").expect("hashing failed");
    let h2 = hash_password("same password").expect("hashing failed");
    assert_ne!(h1, h2);
    assert!(verify_password("same password", &h1).is_ok());
    assert!(verify_password("same password", &h2).is_ok());
}

#[test]
fn corrupt_stored_hash_is_an_internal_fault_not_bad_credentials() {
    let r = verify_password("whatever", "not a stored hash");
    match r {
        Err(CustomError::InternalFault(_)) => {}
        other => panic!("expected an internal fault, got {:?}", other),
    }
}
