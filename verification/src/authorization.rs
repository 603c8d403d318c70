//! Stateless session tokens.
//!
//! A token carries a subject identifier and an absolute expiry, signed
//! with the server's symmetric secret. Validity is purely a function of
//! signature correctness and expiry; nothing is persisted server-side.
//! Every verification failure surfaces as the one undifferentiated
//! [`CustomError::Unauthorized`], so a caller cannot learn why a token
//! was rejected.

use crate::validation::CustomError;
use vstd::prelude::*;

verus! {

/// The fixed token lifetime, in seconds: two weeks.
pub const TOKEN_LIFETIME_SECS: u64 = 1209600;

/// The largest expiry the token format carries: signed 64-bit seconds.
pub const MAX_TIMESTAMP: u64 = 0x7fff_ffff_ffff_ffff;

/// The signed payload of a session token: subject identifier and
/// absolute expiry, in seconds since the epoch.
#[derive(Debug, Clone, PartialEq, Eq)]
pub struct Claims {
    pub sub: i32,
    pub exp: u64,
}

/// The expiry of a token issued at `now`: the fixed lifetime later,
/// capped at the largest timestamp the format carries.
pub open spec fn expiry_of(now: u64) -> u64 {
    if now + TOKEN_LIFETIME_SECS <= MAX_TIMESTAMP {
        (now + TOKEN_LIFETIME_SECS) as u64
    } else {
        MAX_TIMESTAMP
    }
}

/// The compact signed token for the claims `{sub, exp}` under `secret`.
pub uninterp spec fn jwt_of(sub: int, exp: int, secret: Seq<u8>) -> Seq<char>;

/// The integer `sub` and `exp` claims that signature-checked decoding
/// under `secret` yields for `token`; `None` when the token's structure
/// or signature is wrong or the two claims are missing.
pub uninterp spec fn jwt_claims_of(token: Seq<char>, secret: Seq<u8>) -> Option<(int, int)>;

/// Relies on `jsonwebtoken::encode` with the default (HS256) header: a
/// pure function of the claims map and the secret, and its output decodes
/// back to the same claims under the same secret. It cannot fail for
/// this call: the key family matches the header's algorithm, serializing
/// a map of two integers cannot error, and HMAC accepts a secret of any
/// length.
#[verifier::external_body]
fn jwt_encode_raw(sub: i64, exp: i64, secret: &[u8]) -> (r: Option<String>)
    ensures
        r is Some,
        r matches Some(t) ==> t@ == jwt_of(sub as int, exp as int, secret@) && jwt_claims_of(
            t@,
            secret@,
        ) == Some((sub as int, exp as int)),
{
    let key = jsonwebtoken::EncodingKey::from_secret(secret);
    let claims = std::collections::BTreeMap::from([("exp".to_owned(), exp), ("sub".to_owned(), sub)]);
    jsonwebtoken::encode(&jsonwebtoken::Header::default(), &claims, &key).ok()
}

/// Relies on `jsonwebtoken::decode` run as a pure signature and structure
/// check (HS256 only; expiry left to the caller): it returns the `sub`
/// and `exp` claims exactly when the token parses, its signature matches
/// `secret`, and both claims are present as integers.
#[verifier::external_body]
fn jwt_decode_raw(token: &str, secret: &[u8]) -> (r: Option<(i64, i64)>)
    ensures
        r is Some <==> jwt_claims_of(token@, secret@) is Some,
        r matches Some(p) ==> jwt_claims_of(token@, secret@) == Some((p.0 as int, p.1 as int)),
{
    let key = jsonwebtoken::DecodingKey::from_secret(secret);
    let mut validation = jsonwebtoken::Validation::new(jsonwebtoken::Algorithm::HS256);
    validation.validate_exp = false;
    validation.required_spec_claims = std::collections::HashSet::new();
    let data = jsonwebtoken::decode::<std::collections::BTreeMap<String, i64>>(
        token,
        &key,
        &validation,
    ).ok()?;
    Some((*data.claims.get("sub")?, *data.claims.get("exp")?))
}

/// Relies on `std::time::SystemTime::now` read through chrono's
/// `From<SystemTime>` conversion: signed seconds since the Unix epoch,
/// negative when the clock stands before it. Nothing is promised of the
/// value; every caller handles each possible reading.
#[verifier::external_body]
fn current_timestamp() -> (r: i64) {
    chrono::DateTime::<chrono::Utc>::from(std::time::SystemTime::now()).timestamp()
}

impl Claims {
    /// Claims for `sub` issued at `now`: they expire the fixed lifetime
    /// later.
    pub fn new(sub: i32, now: u64) -> (c: Claims)
        ensures
            c.sub == sub,
            c.exp == expiry_of(now),
            c.exp <= MAX_TIMESTAMP,
    {
        let exp = if now <= MAX_TIMESTAMP - TOKEN_LIFETIME_SECS {
            now + TOKEN_LIFETIME_SECS
        } else {
            MAX_TIMESTAMP
        };
        Claims { sub, exp }
    }

    /// Serializes and signs these claims with `secret`; signing these
    /// claims always succeeds.
    pub fn to_jwt(&self, secret: &[u8]) -> (r: Result<String, CustomError>)
        requires
            self.exp <= MAX_TIMESTAMP,
        ensures
            r is Ok,
            r matches Ok(t) ==> t@ == jwt_of(self.sub as int, self.exp as int, secret@)
                && jwt_claims_of(t@, secret@) == Some((self.sub as int, self.exp as int)),
    {
        match jwt_encode_raw(self.sub as i64, self.exp as i64, secret) {
            Some(t) => Ok(t),
            None => Err(CustomError::InternalFault(String::from_str("Could not encode JWT"))),
        }
    }
}

/// Issues a fresh token for `sub`, expiring the fixed lifetime after the
/// current time; issuing always succeeds.
pub fn issue_token(sub: i32, secret: &[u8]) -> (r: Result<String, CustomError>)
    ensures
        r is Ok,
        r matches Ok(t) ==> exists|now: u64|
            t@ == jwt_of(sub as int, expiry_of(now) as int, secret@) && jwt_claims_of(t@, secret@)
                == Some((sub as int, expiry_of(now) as int)),
{
    let ts = current_timestamp();
    let now: u64 = if ts < 0 {
        0
    } else {
        ts as u64
    };
    let claims = Claims::new(sub, now);
    let r = claims.to_jwt(secret);
    proof {
        if r is Ok {
            assert(r->Ok_0@ == jwt_of(sub as int, expiry_of(now) as int, secret@));
        }
    }
    r
}

/// The verification decision for `token` under `secret` at time `now`:
/// the claims exactly when decoding succeeds, the subject fits its
/// 32-bit type, and the expiry is still ahead; `None` otherwise.
pub open spec fn spec_verify_token(token: Seq<char>, secret: Seq<u8>, now: u64) -> Option<
    (int, int),
> {
    match jwt_claims_of(token, secret) {
        Some((sub, exp)) => if i32::MIN as int <= sub && sub <= i32::MAX as int && (now as int)
            < exp {
            Some((sub, exp))
        } else {
            None
        },
        None => None,
    }
}

/// Verifies `token` against `secret` at time `now`. Any failure — bad
/// signature, malformed structure, or expiry passed — yields the same
/// `Unauthorized` error.
pub fn verify_token(token: &str, secret: &[u8], now: u64) -> (r: Result<Claims, CustomError>)
    ensures
        r matches Ok(c) ==> spec_verify_token(token@, secret@, now) == Some(
            (c.sub as int, c.exp as int),
        ),
        r is Ok <==> spec_verify_token(token@, secret@, now) is Some,
        r matches Err(e) ==> e == CustomError::Unauthorized,
{
    match jwt_decode_raw(token, secret) {
        Some((sub_raw, exp_raw)) => {
            if i32::MIN as i64 <= sub_raw && sub_raw <= i32::MAX as i64 && 0 <= exp_raw && now
                < exp_raw as u64 {
                Ok(Claims { sub: sub_raw as i32, exp: exp_raw as u64 })
            } else {
                Err(CustomError::Unauthorized)
            }
        },
        None => Err(CustomError::Unauthorized),
    }
}

/// The token inside a bearer `Authorization` header value: what follows
/// the exact `"Bearer "` scheme prefix.
pub open spec fn spec_bearer_token(h: Seq<char>) -> Option<Seq<char>> {
    if h.len() >= 7 && h.subrange(0, 7) == "Bearer "@ {
        Some(h.subrange(7, h.len() as int))
    } else {
        None
    }
}

/// Extracts the bearer token from an `Authorization` header value;
/// `None` when the scheme is absent or wrong.
pub fn extract_bearer(header: &str) -> (r: Option<String>)
    ensures
        r matches Some(t) ==> spec_bearer_token(header@) == Some(t@),
        r is Some <==> spec_bearer_token(header@) is Some,
{
    let n = header.unicode_len();
    if n < 7 {
        return None;
    }
    let prefix = header.substring_char(0, 7);
    if prefix.to_owned() == String::from_str("Bearer ") {
        Some(header.substring_char(7, n).to_owned())
    } else {
        None
    }
}

/// The authentication decision for a request: `None` (no credentials)
/// unless the header is present, carries the bearer scheme, and its token
/// verifies at `now`.
pub open spec fn spec_authenticate(header: Option<Seq<char>>, secret: Seq<u8>, now: u64) -> Option<
    (int, int),
> {
    match header {
        Some(h) => match spec_bearer_token(h) {
            Some(t) => spec_verify_token(t, secret, now),
            None => None,
        },
        None => None,
    }
}

/// Authenticates a request from its `Authorization` header at time
/// `now`. A missing header, a wrong scheme and an invalid or expired
/// token are indistinguishable: all yield the same `Unauthorized`.
pub fn authenticate_at(header: Option<&str>, secret: &[u8], now: u64) -> (r: Result<
    Claims,
    CustomError,
>)
    ensures
        r matches Ok(c) ==> spec_authenticate(header.deep_view(), secret@, now) == Some(
            (c.sub as int, c.exp as int),
        ),
        r is Ok <==> spec_authenticate(header.deep_view(), secret@, now) is Some,
        r matches Err(e) ==> e == CustomError::Unauthorized,
{
    match header {
        Some(h) => match extract_bearer(h) {
            Some(token) => verify_token(token.as_str(), secret, now),
            None => Err(CustomError::Unauthorized),
        },
        None => Err(CustomError::Unauthorized),
    }
}

/// Authenticates a request at the current time.
pub fn authenticate(header: Option<&str>, secret: &[u8]) -> (r: Result<Claims, CustomError>)
    ensures
        r matches Ok(c) ==> exists|now: u64|
            spec_authenticate(header.deep_view(), secret@, now) == Some(
                (c.sub as int, c.exp as int),
            ),
        r matches Err(e) ==> e == CustomError::Unauthorized,
{
    let ts = current_timestamp();
    let now: u64 = if ts < 0 {
        0
    } else {
        ts as u64
    };
    let r = authenticate_at(header, secret, now);
    proof {
        if r is Ok {
            assert(spec_authenticate(header.deep_view(), secret@, now) == Some(
                (r->Ok_0.sub as int, r->Ok_0.exp as int),
            ));
        }
    }
    r
}

/// A token issued at `now` carries exactly the issuing subject and the
/// expiry owed for `now`, verifies to those claims at any earlier check
/// time, and stops verifying the moment the check time reaches the
/// expiry.
pub proof fn lemma_issue_then_verify(sub: i32, now: u64, at: u64, secret: Seq<u8>, token: Seq<char>)
    requires
        jwt_claims_of(token, secret) == Some((sub as int, expiry_of(now) as int)),
    ensures
        at < expiry_of(now) ==> spec_verify_token(token, secret, at) == Some(
            (sub as int, expiry_of(now) as int),
        ),
        at >= expiry_of(now) ==> spec_verify_token(token, secret, at) is None,
{
}

/// A request with no `Authorization` header and one whose token has
/// passed its expiry are rejected alike: the decision is the same
/// `None`, so the response is the same `Unauthorized`.
pub proof fn lemma_unauthenticated_uniform(
    h: Seq<char>,
    token: Seq<char>,
    secret: Seq<u8>,
    now: u64,
)
    requires
        spec_bearer_token(h) == Some(token),
        jwt_claims_of(token, secret) matches Some(p) && p.1 <= now as int,
    ensures
        spec_authenticate(None, secret, now) is None,
        spec_authenticate(Some(h), secret, now) is None,
{
}

} // verus!
