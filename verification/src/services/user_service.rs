//! The user service: password credentials and the decision core of each
//! user endpoint.
//!
//! Hashing and verification call the memory-hard Argon2 primitive; its
//! work is opaque, so the contracts name its outcomes and every decision
//! around it is proved for each possible outcome. Storage round trips
//! happen outside this crate; each decision function takes their result
//! as a plain value.

use crate::authorization::{expiry_of, jwt_of, Claims};
use crate::models::user_model::{CreateUserDTO, LoginUserDTO, ProfileEntity, UserBody, UserEntity};
use crate::validation::{is_constraint_fault, on_constraint, CustomError};
use argon2::password_hash::SaltString;
use argon2::{Argon2, PasswordHash, PasswordHasher, PasswordVerifier};
use vstd::prelude::*;
use vstd::string::StringSliceAdditionalSpecFns;

verus! {

/// The longest password the hashing primitive accepts, in bytes.
pub const MAX_PASSWORD_BYTES: usize = 0xFFFF_FFFF;

/// Whether the hashing primitive, recomputing with the parameters and
/// salt embedded in `hash`, accepts `password`. A pure function of the
/// two arguments: both hashing and verification are deterministic once
/// the salt is fixed, and the salt is part of `hash`.
pub uninterp spec fn password_matches(password: Seq<u8>, hash: Seq<char>) -> bool;

/// Whether `hash` is a stored hash string that verification can give a
/// definite answer for: it parses as a self-describing hash whose
/// algorithm and parameters the verifier supports.
pub uninterp spec fn is_verifiable_hash(hash: Seq<char>) -> bool;

/// Whether verification accepts `password` against the stored `hash`.
pub open spec fn verify_accepts(password: Seq<u8>, hash: Seq<char>) -> bool {
    is_verifiable_hash(hash) && password_matches(password, hash)
}

/// Relies on `argon2::Argon2::hash_password` under a salt from
/// `password_hash::SaltString::generate`: every hash string it produces
/// is self-describing (algorithm, parameters, salt, digest), verifies
/// the hashed password, and — by the collision resistance the
/// memory-hard primitive is relied on for — verifies no other password.
/// Within the length bound the call cannot fail: the generated salt is
/// always well-formed and the default parameters are valid, leaving the
/// password's length as the one input-dependent error.
#[verifier::external_body]
fn argon2_hash_raw(password: &[u8]) -> (r: Option<String>)
    requires
        password@.len() <= MAX_PASSWORD_BYTES,
    ensures
        r is Some,
        r matches Some(h) ==> {
            &&& is_verifiable_hash(h@)
            &&& password_matches(password@, h@)
            &&& forall|other: Seq<u8>| other != password@ ==> !password_matches(other, h@)
        },
{
    let salt = SaltString::generate(rand::thread_rng());
    match Argon2::default().hash_password(password, &salt) {
        Ok(h) => Some(h.to_string()),
        Err(_) => None,
    }
}

/// Relies on `password_hash::PasswordHash::new` and
/// `argon2::Argon2::verify_password`: parsing depends on the hash string
/// alone; recomputation and the constant-time comparison depend on the
/// password and the hash string alone, and answer mismatch exactly
/// through the primitive's password-mismatch error. The call gives a
/// definite answer — `Ok(true)` for a match, `Ok(false)` for a mismatch
/// — exactly when the string's algorithm and parameters are supported,
/// and `Err` otherwise.
#[verifier::external_body]
fn argon2_verify_raw(password: &[u8], hash: &str) -> (r: Result<bool, ()>)
    requires
        password@.len() <= MAX_PASSWORD_BYTES,
    ensures
        r is Ok <==> is_verifiable_hash(hash@),
        r matches Ok(b) ==> (b <==> password_matches(password@, hash@)),
{
    let parsed = match PasswordHash::new(hash) {
        Ok(p) => p,
        Err(_) => return Err(()),
    };
    match Argon2::default().verify_password(password, &parsed) {
        Ok(()) => Ok(true),
        Err(argon2::password_hash::Error::Password) => Ok(false),
        Err(_) => Err(()),
    }
}

/// Hashes a password under a fresh random salt: it succeeds exactly when
/// the password fits the primitive's length bound, and the result
/// verifies the given password and only it. The one failure is an
/// internal fault and carries no password material.
pub fn hash_password(password: &str) -> (r: Result<String, CustomError>)
    ensures
        r is Ok <==> password.spec_bytes().len() <= MAX_PASSWORD_BYTES,
        r matches Ok(h) ==> {
            &&& is_verifiable_hash(h@)
            &&& password_matches(password.spec_bytes(), h@)
            &&& forall|other: Seq<u8>|
                other != password.spec_bytes() ==> !password_matches(other, h@)
        },
        r matches Err(e) ==> e matches CustomError::InternalFault(_),
{
    let bytes = password.as_bytes();
    if bytes.len() > MAX_PASSWORD_BYTES {
        return Err(CustomError::InternalFault(String::from_str("Could not hash password")));
    }
    match argon2_hash_raw(bytes) {
        Some(h) => Ok(h),
        None => Err(CustomError::InternalFault(String::from_str("Could not hash password"))),
    }
}

/// Verifies a password against a stored hash string. A definite mismatch
/// is `Unauthorized`; a hash the primitive cannot give a definite answer
/// for (corrupt or foreign) is an internal fault, distinguished so that
/// it is never reported as bad credentials.
pub fn verify_password(password: &str, hash: &str) -> (r: Result<(), CustomError>)
    ensures
        r is Ok <==> password.spec_bytes().len() <= MAX_PASSWORD_BYTES && verify_accepts(
            password.spec_bytes(),
            hash@,
        ),
        r matches Err(e) ==> if password.spec_bytes().len() <= MAX_PASSWORD_BYTES
            && is_verifiable_hash(hash@) {
            e == CustomError::Unauthorized
        } else {
            e matches CustomError::InternalFault(_)
        },
{
    let bytes = password.as_bytes();
    if bytes.len() > MAX_PASSWORD_BYTES {
        return Err(CustomError::InternalFault(String::from_str("Could not verify password")));
    }
    match argon2_verify_raw(bytes, hash) {
        Ok(true) => Ok(()),
        Ok(false) => Err(CustomError::Unauthorized),
        Err(_) => Err(
            CustomError::InternalFault(String::from_str("Could not parse password hash")),
        ),
    }
}

/// Round trip of the credential pair: a hash produced for one password —
/// it verifies that password and no other — is accepted with exactly
/// that password and rejected with every different one.
pub proof fn lemma_hash_then_verify(p: Seq<u8>, p2: Seq<u8>, h: Seq<char>)
    requires
        is_verifiable_hash(h),
        password_matches(p, h),
        forall|other: Seq<u8>| other != p ==> !password_matches(other, h),
        p2 != p,
    ensures
        verify_accepts(p, h),
        !verify_accepts(p2, h),
{
}

/// Finishes registration from the outcome of the insert: a violation of
/// the email uniqueness constraint becomes the email-taken `Conflict`,
/// any other storage failure passes through, and a successful insert
/// yields the new user's profile.
pub fn create_user(user: CreateUserDTO, inserted: Result<i32, CustomError>) -> (r: Result<
    ProfileEntity,
    CustomError,
>)
    ensures
        inserted matches Ok(id) ==> (r matches Ok(p) && p.id == id && p.name@ == user.name@
            && p.email@ == user.email@),
        inserted matches Err(e) ==> if is_constraint_fault(e, "users_email_key"@) {
            r matches Err(e2) && e2 matches CustomError::Conflict(m) && m@
                == "email already taken"@
        } else {
            r == Err::<ProfileEntity, CustomError>(e)
        },
{
    match on_constraint(inserted, "users_email_key", "email already taken") {
        Ok(id) => Ok(ProfileEntity { id, name: user.name, email: user.email }),
        Err(e) => Err(e),
    }
}

/// Decides a login from the looked-up user record. An unknown email and
/// a wrong password yield the same `Unauthorized`; only a verified
/// password reaches the profile.
pub fn login_user(req: LoginUserDTO, user: Option<UserEntity>) -> (r: Result<
    ProfileEntity,
    CustomError,
>)
    ensures
        user is None ==> r == Err::<ProfileEntity, CustomError>(CustomError::Unauthorized),
        user matches Some(u) ==> {
            &&& (r matches Ok(p) ==> p.id == u.id && p.name@ == u.name@ && p.email@ == u.email@)
            &&& (r is Ok <==> vstd::utf8::encode_utf8(req.password@).len() <= MAX_PASSWORD_BYTES
                && verify_accepts(vstd::utf8::encode_utf8(req.password@), u.password@))
            &&& (r matches Err(e) ==> if vstd::utf8::encode_utf8(req.password@).len()
                <= MAX_PASSWORD_BYTES && is_verifiable_hash(u.password@) {
                e == CustomError::Unauthorized
            } else {
                e matches CustomError::InternalFault(_)
            })
        },
{
    match user {
        Some(u) => {
            match verify_password(req.password.as_str(), u.password.as_str()) {
                Ok(_) => Ok(ProfileEntity { id: u.id, name: u.name, email: u.email }),
                Err(e) => Err(e),
            }
        },
        None => Err(CustomError::Unauthorized),
    }
}

/// Login leaks nothing about which credential was wrong: for a login
/// whose email matched no record and one whose record rejected the
/// password, the decision is the same single error value, so the
/// response carries the same status and the same generic message.
pub proof fn lemma_login_uniform_rejection(req: LoginUserDTO, u: UserEntity)
    requires
        vstd::utf8::encode_utf8(req.password@).len() <= MAX_PASSWORD_BYTES,
        is_verifiable_hash(u.password@),
        !password_matches(vstd::utf8::encode_utf8(req.password@), u.password@),
    ensures
        !verify_accepts(vstd::utf8::encode_utf8(req.password@), u.password@),
        crate::validation::status_of(CustomError::Unauthorized) == 401,
        crate::validation::message_of(CustomError::Unauthorized) == "Authentication required"@,
{
}

/// The response body of a successful registration or login: the profile
/// with a fresh session token for its identifier. Building it always
/// succeeds.
pub fn build_user_body(profile: ProfileEntity, secret: &[u8]) -> (r: Result<UserBody, CustomError>)
    ensures
        r is Ok,
        r matches Ok(b) ==> {
            &&& b.id == profile.id
            &&& b.name@ == profile.name@
            &&& b.email@ == profile.email@
            &&& exists|now: u64|
                b.token@ == jwt_of(profile.id as int, expiry_of(now) as int, secret@)
        },
        r matches Err(e) ==> e matches CustomError::InternalFault(_),
{
    match crate::authorization::issue_token(profile.id, secret) {
        Ok(token) => Ok(
            UserBody { id: profile.id, name: profile.name, email: profile.email, token },
        ),
        Err(e) => Err(e),
    }
}

/// Decides the current-user endpoint from the looked-up profile: a
/// subject whose record is gone is `NotFound` — a verified token does
/// not imply the user still exists — and an existing one is always
/// answered with its profile and a fresh token for it, issued at `now`.
pub fn get_current_user(user: Option<ProfileEntity>, secret: &[u8], now: u64) -> (r: Result<
    UserBody,
    CustomError,
>)
    ensures
        user is None ==> r == Err::<UserBody, CustomError>(CustomError::NotFound),
        user matches Some(u) ==> (r matches Ok(b) && b.id == u.id && b.name@ == u.name@ && b.email@
            == u.email@ && b.token@ == jwt_of(u.id as int, expiry_of(now) as int, secret@)),
{
    match user {
        Some(u) => {
            let token = match Claims::new(u.id, now).to_jwt(secret) {
                Ok(t) => t,
                Err(e) => {
                    return Err(e);
                },
            };
            Ok(UserBody { id: u.id, name: u.name, email: u.email, token })
        },
        None => Err(CustomError::NotFound),
    }
}

/// Decides an update from the row the store returned: the updated entity
/// when the row exists, `NotFound` when it does not.
pub fn update_user(updated: Option<UserEntity>) -> (r: Result<UserEntity, CustomError>)
    ensures
        updated matches Some(u) ==> r == Ok::<UserEntity, CustomError>(u),
        updated is None ==> r == Err::<UserEntity, CustomError>(CustomError::NotFound),
{
    match updated {
        Some(u) => Ok(u),
        None => Err(CustomError::NotFound),
    }
}

/// Decides a delete from the number of rows the store removed: deleting
/// a missing user is `NotFound`.
pub fn delete_user(rows_deleted: u64) -> (r: Result<(), CustomError>)
    ensures
        rows_deleted > 0 ==> r is Ok,
        rows_deleted == 0 ==> r == Err::<(), CustomError>(CustomError::NotFound),
{
    if rows_deleted > 0 {
        Ok(())
    } else {
        Err(CustomError::NotFound)
    }
}

} // verus!
