//! The outcomes of the user store's queries.
//!
//! The queries themselves run against PostgreSQL outside the library; the
//! functions here decide what a query's rows mean for the caller.
use vstd::prelude::*;
use vstd::string::StringExecFns;
use crate::text::{concat_str, copy_str, int_text, push_int_text};
use crate::user::User;

verus! {

/// An error of the user store.
pub enum UserDatabaseError {
    /// The database refused a query; the database's message.
    DatabaseError(String),
    /// No connection could be had; the pool's message.
    PoolError(String),
    ValidationError(String),
    AlreadyExists(String),
    NotFound(String),
}

impl UserDatabaseError {
    /// The text of the error.
    pub open spec fn text(&self) -> Seq<char> {
        match self {
            UserDatabaseError::DatabaseError(m) => "Database error: "@ + m@,
            UserDatabaseError::PoolError(m) => "Connection pool error: "@ + m@,
            UserDatabaseError::ValidationError(m) => "Validation error: "@ + m@,
            UserDatabaseError::AlreadyExists(m) => "AlreadyExistsError: "@ + m@,
            UserDatabaseError::NotFound(m) => "NotFoundError: "@ + m@,
        }
    }

    /// The text of the error, as its `Display` writes it.
    pub fn to_string(&self) -> (res: String)
        ensures
            res@ == self.text(),
    {
        match self {
            UserDatabaseError::DatabaseError(m) => concat_str("Database error: ", m.as_str()),
            UserDatabaseError::PoolError(m) => concat_str("Connection pool error: ", m.as_str()),
            UserDatabaseError::ValidationError(m) => concat_str("Validation error: ", m.as_str()),
            UserDatabaseError::AlreadyExists(m) => concat_str("AlreadyExistsError: ", m.as_str()),
            UserDatabaseError::NotFound(m) => concat_str("NotFoundError: ", m.as_str()),
        }
    }
}

/// How a user is looked up.
pub enum UserKey {
    Username(String),
    Email(String),
    Id(i32),
}

/// The message of a failed lookup by `key`.
pub open spec fn not_found_message(key: UserKey) -> Seq<char> {
    match key {
        UserKey::Username(name) => "User with name '"@ + name@ + "' not found"@,
        UserKey::Email(email) => "User with email '"@ + email@ + "' not found"@,
        UserKey::Id(id) => "User with id '"@ + int_text(id as int) + "' not found"@,
    }
}

/// The result of looking up a user by `key`, given the row the query found.
pub fn lookup_result(row: Option<User>, key: &UserKey) -> (res: Result<User, UserDatabaseError>)
    ensures
        row matches Some(u) ==> res == Ok::<User, UserDatabaseError>(u),
        row is None ==> (res matches Err(UserDatabaseError::NotFound(m)) && m@ == not_found_message(
            *key,
        )),
{
    match row {
        Some(u) => Ok(u),
        None => {
            let message = match key {
                UserKey::Username(name) => {
                    let mut m = concat_str("User with name '", name.as_str());
                    m.append("' not found");
                    m
                },
                UserKey::Email(email) => {
                    let mut m = concat_str("User with email '", email.as_str());
                    m.append("' not found");
                    m
                },
                UserKey::Id(id) => {
                    let mut m = copy_str("User with id '");
                    push_int_text(&mut m, *id as i64);
                    m.append("' not found");
                    m
                },
            };
            Err(UserDatabaseError::NotFound(message))
        },
    }
}

/// The result of deleting a user, given how many rows the deletion removed.
pub fn deletion_result(modified_rows: u64) -> (res: Result<(), UserDatabaseError>)
    ensures
        modified_rows == 1 ==> res is Ok,
        modified_rows != 1 ==> (res matches Err(UserDatabaseError::NotFound(m)) && m@
            == "User could not be deleted, not found."@),
{
    if modified_rows != 1 {
        Err(UserDatabaseError::NotFound(copy_str("User could not be deleted, not found.")))
    } else {
        Ok(())
    }
}

/// The result of fetching a user's password hash, given the row the query found.
pub fn password_result(row: Option<String>, username: &str) -> (res: Result<String, UserDatabaseError>)
    ensures
        row matches Some(h) ==> res matches Ok(r) && r == h,
        row is None ==> (res matches Err(UserDatabaseError::NotFound(m)) && m@
            == "User with username '"@ + username@ + "' not found."@),
{
    match row {
        Some(h) => Ok(h),
        None => {
            let mut m = concat_str("User with username '", username);
            m.append("' not found.");
            Err(UserDatabaseError::NotFound(m))
        },
    }
}

} // verus!
