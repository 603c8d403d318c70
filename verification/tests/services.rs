use usguri_almoxarifado::authorization::verify_token;
use usguri_almoxarifado::models::place_model::PlaceEntity;
use usguri_almoxarifado::models::user_model::{CreateUserDTO, LoginUserDTO, ProfileEntity, UserEntity};
use usguri_almoxarifado::services::place_service::{
    create_place, delete_place, get_place, update_place,
};
use usguri_almoxarifado::services::profile_service;
use usguri_almoxarifado::services::user_service::{
    create_user, delete_user, get_current_user, hash_password, login_user, update_user,
};
use usguri_almoxarifado::validation::CustomError;

const SECRET: &[u8] = b"SECRET-REDACTED";

fn create_dto() -> CreateUserDTO {
    CreateUserDTO {
        name: "Ana".to_string(),
        email: "ana@example.com".to_string(),
        password: "pw".to_string(),
    }
}

fn stored_user(password: &str) -> UserEntity {
    UserEntity {
        id: 3,
        name: "Ana".to_string(),
        email: "ana@example.com".to_string(),
        password: hash_password(password).expect("hashing failed"),
        created_at: 0,
        updated_at: 0,
    }
}

fn place() -> PlaceEntity {
    PlaceEntity {
        id: 1,
        name: "Garage".to_string(),
        description: None,
        image: None,
        created_at: 0,
        updated_at: 0,
    }
}

fn duplicate_key_fault(constraint: &str) -> CustomError {
    CustomError::StorageFault {
        constraint: Some(constraint.to_string()),
        detail: "duplicate key value violates unique constraint".to_string(),
    }
}

#[test]
fn create_user_builds_the_profile_on_success() {
    let r = create_user(create_dto(), Ok(3));
    assert_eq!(
        r,
        Ok(ProfileEntity {
            id: 3,
            name: "Ana".to_string(),
            email: "ana@example.com".to_string(),
        })
    );
}

#[test]
fn duplicate_email_is_a_conflict() {
    let r = create_user(create_dto(), Err(duplicate_key_fault("users_email_key")));
    let e = r.unwrap_err();
    assert_eq!(e, CustomError::Conflict("email already taken".to_string()));
    assert_eq!(e.status_code(), 409);
    assert_eq!(e.client_message(), "email already taken");
}

#[test]
fn other_storage_faults_pass_through_create_user() {
    let fault = duplicate_key_fault("users_pkey");
    let r = create_user(create_dto(), Err(fault.clone()));
    assert_eq!(r, Err(fault));
}

#[test]
fn login_with_unknown_email_is_unauthorized() {
    let req = LoginUserDTO { email: "who@example.com".to_string(), password: "pw".to_string() };
    assert_eq!(login_user(req, None), Err(CustomError::Unauthorized));
}

#[test]
fn login_with_wrong_password_is_indistinguishable_from_unknown_email() {
    let req = LoginUserDTO { email: "ana@example.com".to_string(), password: "wrong".to_string() };
    let with_user = login_user(req.clone(), Some(stored_user("right")));
    let req2 = LoginUserDTO { email: "ana@example.com".to_string(), password: "wrong".to_string() };
    let without_user = login_user(req2, None);
    assert_eq!(with_user, Err(CustomError::Unauthorized));
    assert_eq!(with_user, without_user);
    let (status, message) = with_user.unwrap_err().response_parts();
    assert_eq!((status, message.as_str()), (401, "Authentication required"));
}

#[test]
fn login_with_the_right_password_succeeds() {
    let req = LoginUserDTO { email: "ana@example.com".to_string(), password: "right".to_string() };
    let r = login_user(req, Some(stored_user("right")));
    assert_eq!(
        r,
        Ok(ProfileEntity {
            id: 3,
            name: "Ana".to_string(),
            email: "ana@example.com".to_string(),
        })
    );
}

#[test]
fn current_user_of_a_gone_record_is_not_found() {
    assert_eq!(
        get_current_user(None, SECRET, 1_700_000_000),
        Err(CustomError::NotFound)
    );
}

#[test]
fn current_user_gets_profile_and_fresh_token() {
    let profile = ProfileEntity {
        id: 3,
        name: "Ana".to_string(),
        email: "ana@example.com".to_string(),
    };
    let now: u64 = 1_700_000_000;
    let body = get_current_user(Some(profile), SECRET, now).expect("decision failed");
    assert_eq!(body.id, 3);
    assert_eq!(body.name, "Ana");
    assert_eq!(body.email, "ana@example.com");
    let claims = verify_token(&body.token, SECRET, now + 1).expect("token invalid");
    assert_eq!(claims.sub, 3);
}

#[test]
fn update_and_delete_user_decisions() {
    let u = stored_user("pw");
    assert_eq!(update_user(Some(u.clone())), Ok(u));
    assert_eq!(update_user(None), Err(CustomError::NotFound));
    assert_eq!(delete_user(1), Ok(()));
    assert_eq!(delete_user(0), Err(CustomError::NotFound));
}

#[test]
fn profile_fetch_decisions() {
    let p = usguri_almoxarifado::models::profile_model::ProfileEntity {
        id: 2,
        name: "Rui".to_string(),
        email: "rui@example.com".to_string(),
    };
    assert_eq!(profile_service::get_user(Some(p.clone())), Ok(p));
    assert_eq!(profile_service::get_user(None), Err(CustomError::NotFound));
}

#[test]
fn place_fetch_decisions() {
    assert_eq!(get_place(Some(place())), Ok(place()));
    assert_eq!(get_place(None), Err(CustomError::NotFound));
}

#[test]
fn duplicate_place_name_is_a_conflict() {
    let r = create_place(Err(duplicate_key_fault("places_name_key")));
    assert_eq!(r, Err(CustomError::Conflict("name already taken".to_string())));
    assert_eq!(create_place(Ok(place())), Ok(place()));
}

#[test]
fn place_update_and_delete_decisions() {
    assert_eq!(update_place(Ok(Some(place()))), Ok(place()));
    assert_eq!(update_place(Ok(None)), Err(CustomError::NotFound));
    assert_eq!(
        update_place(Err(duplicate_key_fault("places_name_key"))),
        Err(CustomError::Conflict("name already taken".to_string()))
    );
    assert_eq!(delete_place(1), Ok(()));
    assert_eq!(delete_place(0), Err(CustomError::NotFound));
}
