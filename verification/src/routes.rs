//! What the authentication and user endpoints answer, given what the user
//! store returned.
use vstd::prelude::*;
use vstd::string::StringExecFns;
use vstd::string::StringSliceAdditionalSpecFns;
use crate::claims::{Claims, claims_json};
use crate::endpoint::{EndpointError, BAD_REQUEST, INTERNAL_SERVER_ERROR, UNAUTHORIZED};
use crate::jwt::{create_jwt, hs256_token, issued_claims, secret_bytes, TOKEN_LIFETIME_SECS};
use crate::password::{argon2_accepts, argon2id_prefix, hash_password, phc_parses, verify_password};
use crate::text::concat_str;
use crate::user::User;
use crate::users::UserDatabaseError;

verus! {

/// A request to look a user up: exactly one of the three should be given.
pub struct GetUserRequest {
    pub username: Option<String>,
    pub email: Option<String>,
    pub user_id: Option<i32>,
}

/// How a user is looked up.
pub enum GetUserSelector {
    ByUsername(String),
    ByEmail(String),
    ById(i32),
}

/// What the user lookup answers.
pub struct GetUserResponse {
    pub email: String,
    pub username: String,
    pub containers: Vec<String>,
}

/// A token issued for the user `id` with `email` and `username`, at some time.
pub open spec fn is_token_for(t: Seq<char>, id: i32, email: Seq<char>, username: Seq<char>) -> bool {
    exists|now: nat|
        now + TOKEN_LIFETIME_SECS <= usize::MAX && #[trigger] hs256_token(
            claims_json(issued_claims(id, email, username, now)),
            secret_bytes(),
        ) == t
}

impl GetUserSelector {
    /// The selector of a request that gives exactly one of username, email and user id.
    pub fn try_from(req: GetUserRequest) -> (res: Result<Self, EndpointError>)
        ensures
            match (req.username, req.email, req.user_id) {
                (Some(u), None, None) => res == Ok::<Self, EndpointError>(GetUserSelector::ByUsername(u)),
                (None, Some(e), None) => res == Ok::<Self, EndpointError>(GetUserSelector::ByEmail(e)),
                (None, None, Some(id)) => res == Ok::<Self, EndpointError>(GetUserSelector::ById(id)),
                _ => res matches Err(e) && e.plain(
                    BAD_REQUEST,
                    "provide exactly one of username, email or user_id"@,
                ),
            },
    {
        match (req.username, req.email, req.user_id) {
            (Some(u), None, None) => Ok(Self::ByUsername(u)),
            (None, Some(e), None) => Ok(Self::ByEmail(e)),
            (None, None, Some(id)) => Ok(Self::ById(id)),
            _ => Err(EndpointError::bad_request("provide exactly one of username, email or user_id")),
        }
    }
}

/// The selector of a lookup request; a request that does not give exactly
/// one key is answered `500` with the text of the `400` error.
pub fn user_selector(req: GetUserRequest) -> (res: Result<GetUserSelector, EndpointError>)
    ensures
        match (req.username, req.email, req.user_id) {
            (Some(u), None, None) => res == Ok::<GetUserSelector, EndpointError>(GetUserSelector::ByUsername(u)),
            (None, Some(e), None) => res == Ok::<GetUserSelector, EndpointError>(GetUserSelector::ByEmail(e)),
            (None, None, Some(id)) => res == Ok::<GetUserSelector, EndpointError>(GetUserSelector::ById(id)),
            _ => res matches Err(e) && e.plain(
                INTERNAL_SERVER_ERROR,
                "HTTP "@ + crate::text::int_text(400) + ": "@ + "provide exactly one of username, email or user_id"@,
            ),
        },
{
    match GetUserSelector::try_from(req) {
        Ok(sel) => Ok(sel),
        Err(e) => {
            let text = e.to_string();
            Err(EndpointError::internal_server_error(text.as_str()))
        },
    }
}

/// The answer to a lookup by `selector` (by name or by id), given what the store returned.
pub fn user_lookup_reply(selector: &GetUserSelector, found: Result<User, UserDatabaseError>) -> (res:
    Result<GetUserResponse, EndpointError>)
    requires
        !(selector is ByEmail),
    ensures
        found matches Ok(u) ==> (res matches Ok(r) && r.email == u.email && r.username == u.username
            && r.containers == u.containers),
        found matches Err(e) ==> (res matches Err(r) && if selector is ByUsername {
            r.plain(INTERNAL_SERVER_ERROR, e.text())
        } else {
            r.plain(INTERNAL_SERVER_ERROR, "Failed to get user."@)
        }),
{
    match found {
        Ok(u) => Ok(GetUserResponse { email: u.email, username: u.username, containers: u.containers }),
        Err(e) => match selector {
            GetUserSelector::ByUsername(_) => {
                let text = e.to_string();
                Err(EndpointError::internal_server_error(text.as_str()))
            },
            _ => Err(EndpointError::internal_server_error("Failed to get user.")),
        },
    }
}

/// The hash stored for a new user's password: an Argon2id PHC string that
/// the password verifies against; `500` when hashing fails.
pub fn registration_hash(password: &str) -> (res: Result<String, EndpointError>)
    ensures
        res matches Ok(h) ==> phc_parses(h@) && argon2_accepts(password.spec_bytes(), h@),
        res matches Ok(h) ==> argon2id_prefix().is_prefix_of(h@),
        res matches Ok(h) ==> (!argon2id_prefix().is_prefix_of(password@) ==> h@ != password@),
        res matches Err(e) ==> e.status == INTERNAL_SERVER_ERROR && e.error_code is None && exists|
            detail: Seq<char>,
        | e.message@ == "Could not hash password due to "@ + detail + "."@,
        password.spec_bytes().len() <= u32::MAX ==> res is Ok,
        res is Err ==> password.spec_bytes().len() > u32::MAX,
{
    match hash_password(password) {
        Ok(h) => Ok(h),
        Err(err) => {
            let mut msg = concat_str("Could not hash password due to ", err.message.as_str());
            msg.append(".");
            Err(EndpointError::internal_server_error(msg.as_str()))
        },
    }
}

/// The answer to creating a user, given what the store returned: the new
/// user's id, or `500` with the store's error text.
pub fn registration_reply(created: Result<i32, UserDatabaseError>) -> (res: Result<i32, EndpointError>)
    ensures
        created matches Ok(id) ==> res == Ok::<i32, EndpointError>(id),
        created matches Err(e) ==> (res matches Err(r) && r.plain(INTERNAL_SERVER_ERROR, e.text())),
{
    match created {
        Ok(id) => Ok(id),
        Err(e) => {
            let text = e.to_string();
            Err(EndpointError::internal_server_error(text.as_str()))
        },
    }
}

/// The answer to a login, given the stored password hash and the user record
/// that the store returned for the name: a token for the user when the
/// password is right, `401` when it is wrong, `500` otherwise.
pub fn login_outcome(
    stored_hash: Result<String, UserDatabaseError>,
    user: Result<User, UserDatabaseError>,
    password: &str,
) -> (res: Result<String, EndpointError>)
    ensures
        match (stored_hash, user) {
            (Err(_), _) => res matches Err(e) && e.plain(
                INTERNAL_SERVER_ERROR,
                "Error while fetching user credentials"@,
            ),
            (Ok(_), Err(_)) => res matches Err(e) && e.plain(
                INTERNAL_SERVER_ERROR,
                "Error while fetching user"@,
            ),
            (Ok(h), Ok(u)) => if !phc_parses(h@) {
                res matches Err(e) && e.plain(
                    INTERNAL_SERVER_ERROR,
                    "Error during user credentials verification process."@,
                )
            } else if !argon2_accepts(password.spec_bytes(), h@) {
                res matches Err(e) && e.plain(UNAUTHORIZED, "Password not correct."@)
            } else {
                &&& res matches Ok(t) ==> is_token_for(t@, u.id, u.email@, u.username@)
                &&& res matches Err(e) ==> e.plain(
                    INTERNAL_SERVER_ERROR,
                    "Error while creating token."@,
                )
            },
        },
{
    let hashed = match stored_hash {
        Ok(h) => h,
        Err(_) => return Err(
            EndpointError::internal_server_error("Error while fetching user credentials"),
        ),
    };
    let user = match user {
        Ok(u) => u,
        Err(_) => return Err(EndpointError::internal_server_error("Error while fetching user")),
    };
    match verify_password(password, hashed.as_str()) {
        Ok(true) => match create_jwt(user.id, user.email, user.username) {
            Ok(token) => Ok(token),
            Err(_) => Err(EndpointError::internal_server_error("Error while creating token.")),
        },
        Ok(false) => Err(EndpointError::unauthorized("Password not correct.")),
        Err(_) => Err(
            EndpointError::internal_server_error(
                "Error during user credentials verification process.",
            ),
        ),
    }
}

/// A fresh token for the holder of `claims`; `500` when it cannot be made.
pub fn refresh_token(claims: Claims) -> (res: Result<String, EndpointError>)
    ensures
        res matches Ok(t) ==> is_token_for(t@, claims.id, claims.email@, claims.username@),
        res matches Err(e) ==> e.plain(INTERNAL_SERVER_ERROR, "Unable to create new token"@),
{
    match create_jwt(claims.id, claims.email, claims.username) {
        Ok(j) => Ok(j),
        Err(_) => Err(EndpointError::internal_server_error("Unable to create new token")),
    }
}

/// The answer to a logout: `<username> logged out successfully!`.
pub fn logout_message(claims: &Claims) -> (res: String)
    ensures
        res@ == claims.username@ + " logged out successfully!"@,
{
    concat_str(claims.username.as_str(), " logged out successfully!")
}

} // verus!
