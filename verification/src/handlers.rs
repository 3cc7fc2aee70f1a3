//! The plain-text answers of the server's own user endpoints.
use vstd::prelude::*;
use crate::text::copy_str;

verus! {

/// A plain-text answer: an HTTP status and a body.
pub struct TextReply {
    pub status: u16,
    pub body: String,
}

/// The answer to a sign-up, given how many users already have the name
/// (`None` when that check failed): `409` when the name is taken; otherwise
/// no answer yet, and the user is inserted. A failed check does not stop
/// the sign-up.
pub fn username_check_reply(existing: Option<usize>) -> (res: Option<TextReply>)
    ensures
        match existing {
            Some(n) if n != 0 => res matches Some(r) && r.status == 409 && r.body@
                == "Username is already in use!"@,
            _ => res is None,
        },
{
    match existing {
        Some(n) => if n != 0 {
            Some(TextReply { status: 409, body: copy_str("Username is already in use!") })
        } else {
            None
        },
        None => None,
    }
}

/// The answer to inserting a new user, given the insertion's outcome (the
/// database's error text when it failed): `201 User created`, or `500` with the error.
pub fn user_insert_reply(inserted: Result<u64, String>) -> (res: TextReply)
    ensures
        inserted is Ok ==> res.status == 201 && res.body@ == "User created"@,
        inserted matches Err(e) ==> res.status == 500 && res.body@ == e@,
{
    match inserted {
        Ok(_) => TextReply { status: 201, body: copy_str("User created") },
        Err(e) => TextReply { status: 500, body: e },
    }
}

/// The answer to looking up a user that has no row: `404 User not found`.
pub fn user_missing_reply() -> (res: TextReply)
    ensures
        res.status == 404 && res.body@ == "User not found"@,
{
    TextReply { status: 404, body: copy_str("User not found") }
}

} // verus!
