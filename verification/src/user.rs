//! The user record.
use vstd::prelude::*;

verus! {

/// A user of the service.
pub struct User {
    pub id: i32,
    pub email: String,
    pub username: String,
    pub containers: Vec<String>,
}

} // verus!
