//! Authenticating a request by the bearer token of its `Authorization` header.
use vstd::prelude::*;
use crate::claims::{Claims, ClaimsView, claims_json};
use crate::jwt::{accepted_claims, hs256_token, secret_bytes, token_claims, unix_time_now, validate_jwt_at};
use crate::text::{copy_str, push_char};

verus! {

/// A request whose bearer token was checked; the token's claims.
pub struct AuthenticatedUser(pub Claims);

/// Why a request could not be authenticated.
pub struct AuthError {
    pub message: String,
}

/// Whether `b` may stand in a header value read as text: a visible ASCII
/// character, a space or a tab (`HeaderValue::to_str`).
pub open spec fn visible_ascii(b: u8) -> bool {
    (32 <= b && b < 127) || b == 9
}

/// Whether every byte of `v` is `visible_ascii`.
pub open spec fn all_visible(v: Seq<u8>) -> bool {
    forall|i: int| 0 <= i < v.len() ==> visible_ascii(#[trigger] v[i])
}

/// The text of a header value whose bytes are all `visible_ascii`.
pub open spec fn header_text(v: Seq<u8>) -> Seq<char> {
    v.map_values(|b: u8| (b as u32) as char)
}

pub open spec fn bearer_prefix() -> Seq<char> {
    seq!['B', 'e', 'a', 'r', 'e', 'r', ' ']
}

/// What the `Authorization` header `value` gives: the bearer token, or the
/// message of the refusal.
pub open spec fn bearer_outcome(value: Option<Seq<u8>>) -> Result<Seq<char>, Seq<char>> {
    match value {
        None => Err("Missing Authorization header"@),
        Some(v) => if !all_visible(v) {
            Err("Invalid Authorization header format"@)
        } else if !bearer_prefix().is_prefix_of(header_text(v)) {
            Err("Authorization header must start with 'Bearer '"@)
        } else {
            Ok(header_text(v).skip(7))
        },
    }
}

/// The bytes of `Bearer `.
pub open spec fn bearer_bytes() -> Seq<u8> {
    seq![66u8, 101u8, 97u8, 114u8, 101u8, 114u8, 32u8]
}

/// A header of `Bearer ` followed by a text token gives that token.
pub proof fn law_bearer_header(t: Seq<u8>)
    requires
        all_visible(t),
    ensures
        bearer_outcome(Some(bearer_bytes() + t)) == Ok::<Seq<char>, Seq<char>>(header_text(t)),
{
    let v = bearer_bytes() + t;
    assert forall|i: int| 0 <= i < v.len() implies visible_ascii(#[trigger] v[i]) by {
        if i >= 7 {
            assert(v[i] == t[i - 7]);
        }
    }
    assert(header_text(v).subrange(0, 7) =~= bearer_prefix());
    assert(header_text(v).skip(7) =~= header_text(t));
}

/// The bytes of an optional header value.
pub open spec fn header_bytes(value: Option<&[u8]>) -> Option<Seq<u8>> {
    match value {
        Some(v) => Some(v@),
        None => None,
    }
}

/// The text of a header value (`HeaderValue::to_str`): `None` when a byte is not `visible_ascii`.
pub fn header_str(v: &[u8]) -> (res: Option<String>)
    ensures
        all_visible(v@) ==> (res matches Some(s) && s@ == header_text(v@)),
        !all_visible(v@) ==> res is None,
{
    let mut text = String::new();
    let mut i: usize = 0;
    while i < v.len()
        invariant
            i <= v@.len(),
            forall|k: int| 0 <= k < i ==> visible_ascii(#[trigger] v@[k]),
            text@ == header_text(v@.take(i as int)),
        decreases v.len() - i,
    {
        let b = v[i];
        if !((32 <= b && b < 127) || b == 9) {
            assert(!visible_ascii(v@[i as int]));
            return None;
        }
        push_char(&mut text, b as char);
        proof {
            assert(header_text(v@.take(i + 1)) =~= header_text(v@.take(i as int)).push(
                (b as u32) as char,
            ));
        }
        i = i + 1;
    }
    assert(v@.take(v@.len() as int) =~= v@);
    Some(text)
}

/// The bearer token of the `Authorization` header value `value`.
pub fn bearer_token(value: Option<&[u8]>) -> (res: Result<String, AuthError>)
    ensures
        match bearer_outcome(header_bytes(value)) {
            Ok(t) => res matches Ok(r) && r@ == t,
            Err(m) => res matches Err(e) && e.message@ == m,
        },
{
    let v = match value {
        None => return Err(AuthError { message: copy_str("Missing Authorization header") }),
        Some(v) => v,
    };
    let text = match header_str(v) {
        Some(t) => t,
        None => return Err(AuthError { message: copy_str("Invalid Authorization header format") }),
    };
    let prefix = vec!['B', 'e', 'a', 'r', 'e', 'r', ' '];
    let chars = crate::text::chars_of(text.as_str());
    if chars.len() < 7 {
        return Err(
            AuthError { message: copy_str("Authorization header must start with 'Bearer '") },
        );
    }
    let mut k: usize = 0;
    while k < 7
        invariant
            header_bytes(value) == Some(v@),
            all_visible(v@),
            k <= 7,
            chars@.len() >= 7,
            chars@ == header_text(v@),
            prefix@ == bearer_prefix(),
            forall|m: int| 0 <= m < k ==> chars@[m] == prefix@[m],
        decreases 7 - k,
    {
        if chars[k] != prefix[k] {
            assert(chars@.subrange(0, 7)[k as int] == chars@[k as int]);
            assert(bearer_prefix()[k as int] != header_text(v@).subrange(0, 7)[k as int]);
            assert(!bearer_prefix().is_prefix_of(header_text(v@)));
            return Err(
                AuthError { message: copy_str("Authorization header must start with 'Bearer '") },
            );
        }
        k = k + 1;
    }
    assert(bearer_prefix().is_prefix_of(header_text(v@))) by {
        assert(chars@.subrange(0, 7) =~= bearer_prefix());
    }
    let mut token = String::new();
    let mut j: usize = 7;
    while j < chars.len()
        invariant
            7 <= j <= chars@.len(),
            token@ == chars@.subrange(7, j as int),
        decreases chars.len() - j,
    {
        push_char(&mut token, chars[j]);
        j = j + 1;
        assert(token@ =~= chars@.subrange(7, j as int));
    }
    assert(chars@.skip(7) =~= chars@.subrange(7, chars@.len() as int));
    Ok(token)
}

/// Authenticates a request at the time `now` by its `Authorization` header
/// value: the header must hold `Bearer ` and a token that `validate_jwt_at`
/// accepts at `now`; the request is then authenticated as the token's claims.
pub fn authenticate_at(value: Option<&[u8]>, now: u64) -> (res: Result<AuthenticatedUser, AuthError>)
    ensures
        match bearer_outcome(header_bytes(value)) {
            Err(m) => res matches Err(e) && e.message@ == m,
            Ok(t) => {
                &&& match accepted_claims(t, now as nat) {
                    Some(c) => res matches Ok(u) && u.0@ == c,
                    None => res matches Err(e) && e.message@ == "Invalid or expired JWT token"@,
                }
                &&& forall|c: ClaimsView| #[trigger]
                    hs256_token(claims_json(c), secret_bytes()) == t ==> token_claims(t) == Some(c)
            },
        },
{
    let token = bearer_token(value)?;
    match validate_jwt_at(token.as_str(), now) {
        Ok(claims) => Ok(AuthenticatedUser(claims)),
        Err(_) => Err(AuthError { message: copy_str("Invalid or expired JWT token") }),
    }
}

/// Authenticates a request by its `Authorization` header value at the time
/// the system clock gives (`authenticate_at`). An authenticated request
/// carries claims that a check at some time accepts; a token issued for
/// claims `c` authenticates as `c` or not at all.
pub fn authenticate(value: Option<&[u8]>) -> (res: Result<AuthenticatedUser, AuthError>)
    ensures
        match bearer_outcome(header_bytes(value)) {
            Err(m) => res matches Err(e) && e.message@ == m,
            Ok(t) => {
                &&& res matches Ok(u) ==> exists|now: nat| #[trigger]
                    accepted_claims(t, now) == Some(u.0@)
                &&& res matches Err(e) ==> e.message@ == "Invalid or expired JWT token"@
                &&& forall|c: ClaimsView| #[trigger]
                    hs256_token(claims_json(c), secret_bytes()) == t ==> (res matches Ok(u) ==> u.0@
                        == c)
            },
        },
{
    match unix_time_now() {
        Some(now) => authenticate_at(value, now),
        None => {
            let _token = bearer_token(value)?;
            Err(AuthError { message: copy_str("Invalid or expired JWT token") })
        },
    }
}

} // verus!
