//! Issuing and checking HS256 access tokens (JSON Web Tokens).
use vstd::prelude::*;
use vstd::string::StringSliceAdditionalSpecFns;
use vstd::string::StringExecFns;
use crate::claims::{Claims, ClaimsView, claims_from_json, claims_json, claims_of_json, claims_to_json};

verus! {

/// An error while issuing or checking a token.
pub struct JwtError {
    pub message: String,
}

/// The error type of `jsonwebtoken`, carried opaque.
#[verifier::external_type_specification]
#[verifier::external_body]
pub struct ExJsonWebTokenError(jsonwebtoken::errors::Error);

/// The key that signs and checks tokens.
pub const SECRET_KEY: &'static str = "1234567890";

/// How long an issued token stays valid, in seconds.
pub const TOKEN_LIFETIME_SECS: u64 = 86400;

/// The bytes of the signing key.
pub open spec fn secret_bytes() -> Seq<u8> {
    SECRET_KEY.spec_bytes()
}

/// The start of every token error message.
pub open spec fn jwt_error_prefix() -> Seq<char> {
    seq!['J', 'W', 'T', ' ', 'e', 'r', 'r', 'o', 'r', ':', ' ']
}

/// The claims of a token issued at `now` (seconds since the Unix epoch).
pub open spec fn issued_claims(id: i32, email: Seq<char>, username: Seq<char>, now: nat) -> ClaimsView {
    ClaimsView {
        id,
        exp: (now + TOKEN_LIFETIME_SECS) as usize,
        iat: now as usize,
        email,
        username,
    }
}

/// The token that `jsonwebtoken::encode` makes, with the default header (HS256),
/// of the JSON text `payload` under the key `secret`.
pub uninterp spec fn hs256_token(payload: Seq<char>, secret: Seq<u8>) -> Seq<char>;

/// Calls `jsonwebtoken::encode` with the default header (HS256) on the JSON
/// text `payload`, passed as a `serde_json` raw value, signed with `secret`.
/// Trusted: a token it returns is `hs256_token(payload, secret)`; it fails
/// only when `payload` is not one JSON value (HMAC signing does not fail),
/// so it succeeds on the JSON text of claims.
#[verifier::external_body]
fn encode_hs256(payload: &str, secret: &[u8]) -> (res: Result<String, jsonwebtoken::errors::Error>)
    ensures
        res matches Ok(t) ==> t@ == hs256_token(payload@, secret@),
        forall|c: ClaimsView| #[trigger] claims_json(c) == payload@ ==> res is Ok,
{
    let raw = serde_json::value::RawValue::from_string(payload.to_string())?;
    jsonwebtoken::encode(
        &jsonwebtoken::Header::default(),
        &raw,
        &jsonwebtoken::EncodingKey::from_secret(secret),
    )
}

/// The JSON text of the claims of `token` when `jsonwebtoken::decode` reads
/// it under the key `secret` with no claim checks: an HS256 header, a
/// signature that verifies under `secret`, and a JSON payload that reads as
/// the registered claims it checks. `None` when it refuses it.
pub uninterp spec fn hs256_payload(token: Seq<char>, secret: Seq<u8>) -> Option<Seq<char>>;

/// Calls `jsonwebtoken::decode` with `Validation::default()` but with no
/// required claims and the `exp` and `aud` checks off, and gives the claims
/// part as raw JSON text. Trusted: it succeeds with `p` exactly when
/// `hs256_payload(token, secret)` is `p`; a token that `encode_hs256` made
/// of the JSON text of claims is read back as that text.
#[verifier::external_body]
fn decode_hs256(token: &str, secret: &[u8]) -> (res: Result<String, jsonwebtoken::errors::Error>)
    ensures
        res is Ok <==> hs256_payload(token@, secret@) is Some,
        res matches Ok(p) ==> hs256_payload(token@, secret@) == Some(p@),
        forall|c: ClaimsView| #[trigger]
            hs256_token(claims_json(c), secret@) == token@ ==> (res is Ok && res->Ok_0@
                == claims_json(c)),
{
    let mut validation = jsonwebtoken::Validation::default();
    validation.required_spec_claims = std::collections::HashSet::new();
    validation.validate_exp = false;
    validation.validate_aud = false;
    jsonwebtoken::decode::<Box<serde_json::value::RawValue>>(
        token,
        &jsonwebtoken::DecodingKey::from_secret(secret),
        &validation,
    ).map(|data| data.claims.get().to_string())
}

/// Whether `jsonwebtoken::decode` accepts `token` under the key `secret`
/// with `Validation::default()` but with no required claims and the `exp`
/// check off: what it adds to `hs256_payload` is the audience check, which
/// refuses a token whose payload holds an `aud` claim.
pub uninterp spec fn hs256_audience_passes(token: Seq<char>, secret: Seq<u8>) -> bool;

/// Calls `jsonwebtoken::decode` with `Validation::default()` but with no
/// required claims and the `exp` check off. Trusted: it succeeds exactly
/// when `hs256_audience_passes(token, secret)`; a token that `encode_hs256`
/// made of the JSON text of claims passes.
#[verifier::external_body]
fn check_audience(token: &str, secret: &[u8]) -> (res: Result<(), jsonwebtoken::errors::Error>)
    ensures
        res is Ok <==> hs256_audience_passes(token@, secret@),
        forall|c: ClaimsView| #[trigger]
            hs256_token(claims_json(c), secret@) == token@ ==> res is Ok,
{
    let mut validation = jsonwebtoken::Validation::default();
    validation.required_spec_claims = std::collections::HashSet::new();
    validation.validate_exp = false;
    jsonwebtoken::decode::<Box<serde_json::value::RawValue>>(
        token,
        &jsonwebtoken::DecodingKey::from_secret(secret),
        &validation,
    ).map(|_| ())
}

/// The text of a `jsonwebtoken` error (its `Display`). Nothing is stated of it.
#[verifier::external_body]
fn jwt_error_text(err: &jsonwebtoken::errors::Error) -> String {
    err.to_string()
}

/// The seconds since the Unix epoch by the system clock (`SystemTime::now`);
/// `None` when the clock is set before the epoch. Depends on the clock: nothing is stated.
#[verifier::external_body]
pub(crate) fn unix_time_now() -> Option<u64> {
    std::time::SystemTime::now().duration_since(std::time::UNIX_EPOCH).ok().map(|d| d.as_secs())
}

/// A token error whose message is `JWT error: ` followed by `detail`.
fn jwt_error_with(detail: &str) -> (res: JwtError)
    ensures
        res.message@ == jwt_error_prefix() + detail@,
{
    let mut message = String::from_str("JWT error: ");
    message.append(detail);
    proof {
        reveal_strlit("JWT error: ");
        assert("JWT error: "@ =~= jwt_error_prefix());
    }
    JwtError { message }
}

/// The token error for an error of `jsonwebtoken`: `JWT error: ` and its text.
fn jwt_error(err: jsonwebtoken::errors::Error) -> (res: JwtError)
    ensures
        jwt_error_prefix().is_prefix_of(res.message@),
{
    let text = jwt_error_text(&err);
    let res = jwt_error_with(text.as_str());
    assert(res.message@.subrange(0, 11) =~= jwt_error_prefix());
    res
}

/// Issues a token for a user at the time `now`: the claims carry the user's
/// id, email and name, `iat == now` and `exp == now + TOKEN_LIFETIME_SECS`.
/// It fails when `exp` would not fit in a `usize`.
pub fn create_jwt_at(user_id: i32, email: String, username: String, now: u64) -> (res: Result<
    String,
    JwtError,
>)
    ensures
        now + TOKEN_LIFETIME_SECS <= usize::MAX ==> (res matches Ok(t) && t@ == hs256_token(
            claims_json(issued_claims(user_id, email@, username@, now as nat)),
            secret_bytes(),
        )),
        now + TOKEN_LIFETIME_SECS > usize::MAX ==> (res matches Err(e) && e.message@
            == jwt_error_prefix() + "the system clock is out of range"@),
{
    if now > usize::MAX as u64 - TOKEN_LIFETIME_SECS {
        return Err(jwt_error_with("the system clock is out of range"));
    }
    let claims = Claims {
        id: user_id,
        exp: (now + TOKEN_LIFETIME_SECS) as usize,
        iat: now as usize,
        email,
        username,
    };
    assert(claims@ == issued_claims(user_id, email@, username@, now as nat));
    let payload = claims_to_json(&claims);
    let encoded = encode_hs256(payload.as_str(), SECRET_KEY.as_bytes());
    assert(claims_json(claims@) == payload@);
    match encoded {
        Ok(token) => Ok(token),
        Err(e) => Err(jwt_error(e)),
    }
}

/// Issues a token for a user, valid for `TOKEN_LIFETIME_SECS` from now: the
/// token `create_jwt_at` issues at the time the system clock gives. It fails
/// only when the clock is before the Unix epoch or too far ahead.
pub fn create_jwt(user_id: i32, email: String, username: String) -> (res: Result<String, JwtError>)
    ensures
        res matches Ok(t) ==> exists|now: nat|
            now + TOKEN_LIFETIME_SECS <= usize::MAX && #[trigger] hs256_token(
                claims_json(issued_claims(user_id, email@, username@, now)),
                secret_bytes(),
            ) == t@,
        res matches Err(e) ==> e.message@ == jwt_error_prefix() + "the system clock is out of range"@
            || e.message@ == jwt_error_prefix() + "the system clock is before the Unix epoch"@,
{
    match unix_time_now() {
        Some(now) => create_jwt_at(user_id, email, username, now),
        None => Err(jwt_error_with("the system clock is before the Unix epoch")),
    }
}

/// The start of the message of a token whose claims do not read.
pub open spec fn json_error_prefix() -> Seq<char> {
    jwt_error_prefix() + seq!['J', 'S', 'O', 'N', ' ', 'e', 'r', 'r', 'o', 'r', ':', ' ']
}

/// The claims that the JSON text `payload` of a checked token holds, or a
/// JSON error when it does not hold claims.
pub fn claims_from_payload(payload: &str) -> (res: Result<Claims, JwtError>)
    ensures
        match claims_of_json(payload@) {
            Some(c) => res matches Ok(r) && r@ == c,
            None => res matches Err(e) && json_error_prefix().is_prefix_of(e.message@),
        },
        forall|c: ClaimsView| #[trigger]
            claims_json(c) == payload@ ==> (res matches Ok(r) && r@ == c),
{
    match claims_from_json(payload) {
        Some(c) => Ok(c),
        None => {
            let e = jwt_error_with("JSON error: the claims of the token cannot be read");
            proof {
                reveal_strlit("JSON error: the claims of the token cannot be read");
            }
            assert(e.message@.subrange(0, 23) =~= json_error_prefix());
            Err(e)
        },
    }
}

/// How many seconds past its `exp` a token is still accepted (the default
/// leeway of `jsonwebtoken`).
pub const EXPIRY_LEEWAY_SECS: u64 = 60;

/// Whether claims have expired at the time `now`: `exp` more than the
/// leeway before `now`.
pub open spec fn expired(c: ClaimsView, now: nat) -> bool {
    c.exp + EXPIRY_LEEWAY_SECS < now
}

/// The claims of `token` when its signature verifies under `SECRET_KEY` and
/// its payload holds claims, whatever the time.
pub open spec fn token_claims(token: Seq<char>) -> Option<ClaimsView> {
    match hs256_payload(token, secret_bytes()) {
        Some(p) => claims_of_json(p),
        None => None,
    }
}

/// The claims of `token` that a check at the time `now` accepts.
pub open spec fn accepted_claims(token: Seq<char>, now: nat) -> Option<ClaimsView> {
    match token_claims(token) {
        Some(c) => if expired(c, now) || !hs256_audience_passes(token, secret_bytes()) {
            None
        } else {
            Some(c)
        },
        None => None,
    }
}

/// A token whose claims are those issued at `n` is accepted exactly up to
/// `TOKEN_LIFETIME_SECS` plus the leeway after `n`, and what is accepted
/// carries `iat == n` and `exp == iat + TOKEN_LIFETIME_SECS`.
pub proof fn law_issued_token_lifetime(
    id: i32,
    email: Seq<char>,
    username: Seq<char>,
    n: nat,
    now: nat,
    t: Seq<char>,
)
    requires
        n + TOKEN_LIFETIME_SECS <= usize::MAX,
        token_claims(t) == Some(issued_claims(id, email, username, n)),
        hs256_audience_passes(t, secret_bytes()),
    ensures
        accepted_claims(t, now) is Some <==> now <= n + TOKEN_LIFETIME_SECS + EXPIRY_LEEWAY_SECS,
        accepted_claims(t, now) matches Some(c) ==> c.iat == n && c.exp == c.iat
            + TOKEN_LIFETIME_SECS && c.id == id && c.email == email && c.username == username,
{
}

/// A check accepts a token at an earlier time whenever it accepts it at a
/// later one, with the same claims: acceptance only ends, it never begins.
pub proof fn law_acceptance_ends(t: Seq<char>, earlier: nat, later: nat)
    requires
        earlier <= later,
        accepted_claims(t, later) is Some,
    ensures
        accepted_claims(t, earlier) == accepted_claims(t, later),
{
}

/// Checks a token at the time `now`, in the order `jsonwebtoken::decode`
/// checks it: its signature under `SECRET_KEY`, that its payload holds
/// claims, that they have not expired, and that it names no audience. A
/// token issued for claims `c` gives `c` back until it expires.
pub fn validate_jwt_at(token: &str, now: u64) -> (res: Result<Claims, JwtError>)
    ensures
        match hs256_payload(token@, secret_bytes()) {
            None => res matches Err(e) && jwt_error_prefix().is_prefix_of(e.message@),
            Some(p) => match claims_of_json(p) {
                None => res matches Err(e) && json_error_prefix().is_prefix_of(e.message@),
                Some(c) => if expired(c, now as nat) {
                    res matches Err(e) && e.message@ == jwt_error_prefix() + "ExpiredSignature"@
                } else if !hs256_audience_passes(token@, secret_bytes()) {
                    res matches Err(e) && jwt_error_prefix().is_prefix_of(e.message@)
                } else {
                    res matches Ok(r) && r@ == c
                },
            },
        },
        res matches Ok(r) ==> accepted_claims(token@, now as nat) == Some(r@),
        res is Err ==> accepted_claims(token@, now as nat) is None,
        forall|c: ClaimsView| #[trigger]
            hs256_token(claims_json(c), secret_bytes()) == token@ ==> token_claims(token@) == Some(c)
                && hs256_audience_passes(token@, secret_bytes()),
{
    let payload = match decode_hs256(token, SECRET_KEY.as_bytes()) {
        Err(e) => return Err(jwt_error(e)),
        Ok(p) => p,
    };
    let claims = match claims_from_payload(payload.as_str()) {
        Err(e) => return Err(e),
        Ok(c) => c,
    };
    let audience = check_audience(token, SECRET_KEY.as_bytes());
    if now > EXPIRY_LEEWAY_SECS && (claims.exp as u64) < now - EXPIRY_LEEWAY_SECS {
        return Err(jwt_error_with("ExpiredSignature"));
    }
    match audience {
        Err(e) => Err(jwt_error(e)),
        Ok(()) => Ok(claims),
    }
}

/// Checks a token at the time the system clock gives (`validate_jwt_at`).
/// A success is the claims of a token whose signature verifies under
/// `SECRET_KEY`; a token issued for claims `c` gives `c` or is refused as
/// expired (or for a clock before the Unix epoch).
pub fn validate_jwt(token: &str) -> (res: Result<Claims, JwtError>)
    ensures
        res matches Ok(r) ==> token_claims(token@) == Some(r@),
        res matches Err(e) ==> jwt_error_prefix().is_prefix_of(e.message@),
        forall|c: ClaimsView| #[trigger]
            hs256_token(claims_json(c), secret_bytes()) == token@ ==> {
                &&& res matches Ok(r) ==> r@ == c
                &&& res matches Err(e) ==> e.message@ == jwt_error_prefix() + "ExpiredSignature"@
                    || e.message@ == jwt_error_prefix()
                    + "the system clock is before the Unix epoch"@
            },
{
    match unix_time_now() {
        Some(now) => validate_jwt_at(token, now),
        None => {
            let e = jwt_error_with("the system clock is before the Unix epoch");
            assert(e.message@.subrange(0, 11) =~= jwt_error_prefix());
            Err(e)
        },
    }
}

} // verus!
