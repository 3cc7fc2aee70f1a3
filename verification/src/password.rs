//! Hashing and checking passwords with Argon2 (the `argon2` crate's default
//! parameters), salted with 16 random bytes from the operating system.
use vstd::prelude::*;
use vstd::string::StringSliceAdditionalSpecFns;

verus! {

/// An error while hashing or checking a password.
pub struct PasswordError {
    pub message: String,
}

/// The error type of `password_hash` (re-exported by `argon2`), carried opaque.
#[verifier::external_type_specification]
#[verifier::external_body]
pub struct ExPasswordHashError(argon2::password_hash::Error);

/// The length of a salt, in bytes (`Salt::RECOMMENDED_LENGTH`).
pub const SALT_LEN: usize = 16;

/// The PHC string that `Argon2::default().hash_password` makes of `password`
/// with the salt whose bytes are `salt`.
pub uninterp spec fn argon2_phc(password: Seq<u8>, salt: Seq<u8>) -> Seq<char>;

/// Whether `PasswordHash::new` accepts `hash` as a PHC string.
pub uninterp spec fn phc_parses(hash: Seq<char>) -> bool;

/// Whether `Argon2::default().verify_password` accepts `password` for the PHC string `hash`.
pub uninterp spec fn argon2_accepts(password: Seq<u8>, hash: Seq<char>) -> bool;

/// The start of every PHC string that `Argon2::default()` writes: the
/// algorithm `argon2id` and version 19.
pub open spec fn argon2id_prefix() -> Seq<char> {
    seq!['$', 'a', 'r', 'g', 'o', 'n', '2', 'i', 'd', '$', 'v', '=', '1', '9', '$']
}

/// `SALT_LEN` random bytes from the operating system (`OsRng::try_fill_bytes`).
/// It panics when the system has none to give, as `unwrap` does on the same
/// call. Only their number is stated.
#[verifier::external_body]
fn random_salt() -> (res: Vec<u8>)
    ensures
        res@.len() == SALT_LEN,
{
    let mut bytes = [0u8; SALT_LEN];
    rand::TryRngCore::try_fill_bytes(&mut rand::rngs::OsRng, &mut bytes)
        .expect("the operating system gives no random bytes");
    bytes.to_vec()
}

/// Calls `Argon2::default().hash_password` on `password` with the salt made
/// of `salt` (`SaltString::encode_b64`) and gives the PHC string. Trusted: the
/// string is `argon2_phc(password, salt)`, it starts with `$argon2id$v=19$`,
/// `PasswordHash::new` parses it and `verify_password` accepts `password` for
/// it; with a 16-byte salt it fails only for a password longer than
/// `u32::MAX` bytes.
#[verifier::external_body]
fn argon2_hash(password: &[u8], salt: &[u8]) -> (res: Result<String, argon2::password_hash::Error>)
    requires
        salt@.len() == SALT_LEN,
    ensures
        password@.len() <= u32::MAX ==> res is Ok,
        res matches Ok(h) ==> h@ == argon2_phc(password@, salt@) && phc_parses(h@)
            && argon2_accepts(password@, h@),
        res matches Ok(h) ==> argon2id_prefix().is_prefix_of(h@),
{
    let salt = argon2::password_hash::SaltString::encode_b64(salt)?;
    Ok(argon2::PasswordHasher::hash_password(&argon2::Argon2::default(), password, &salt)?.to_string())
}

/// Calls `PasswordHash::new` on `hash`. Trusted: it succeeds exactly when
/// `phc_parses(hash)`, and it fails on an empty text and on one that does
/// not start with `$`.
#[verifier::external_body]
fn phc_check(hash: &str) -> (res: Result<(), argon2::password_hash::Error>)
    ensures
        res is Ok <==> phc_parses(hash@),
        hash@.len() == 0 || hash@[0] != '$' ==> res is Err,
{
    argon2::PasswordHash::new(hash).map(|_| ())
}

/// Calls `Argon2::default().verify_password` on `password` and the parsed
/// PHC string `hash`. Trusted: the answer is `argon2_accepts(password, hash)`.
#[verifier::external_body]
fn argon2_verify(password: &[u8], hash: &str) -> (res: bool)
    requires
        phc_parses(hash@),
    ensures
        res == argon2_accepts(password@, hash@),
{
    match argon2::PasswordHash::new(hash) {
        Ok(parsed) => argon2::PasswordVerifier::verify_password(
            &argon2::Argon2::default(),
            password,
            &parsed,
        ).is_ok(),
        Err(_) => false,
    }
}

/// The text of a password-hash error (its `Display`). Nothing is stated of it.
#[verifier::external_body]
fn password_error_text(err: &argon2::password_hash::Error) -> String {
    err.to_string()
}

/// Hashes `password` with a fresh random salt. The hash is the PHC string
/// of `password` under some salt of `SALT_LEN` bytes, it starts with
/// `$argon2id$v=19$`, and `verify_password` accepts `password` for it. It
/// succeeds on every password of at most `u32::MAX` bytes; a longer one gets
/// Argon2's error.
pub fn hash_password(password: &str) -> (res: Result<String, PasswordError>)
    ensures
        res matches Ok(h) ==> (exists|salt: Seq<u8>| salt.len() == SALT_LEN && h@ == #[trigger] argon2_phc(
            password.spec_bytes(),
            salt,
        )),
        res matches Ok(h) ==> phc_parses(h@) && argon2_accepts(password.spec_bytes(), h@),
        res matches Ok(h) ==> argon2id_prefix().is_prefix_of(h@),
        res matches Ok(h) ==> (!argon2id_prefix().is_prefix_of(password@) ==> h@ != password@),
        password.spec_bytes().len() <= u32::MAX ==> res is Ok,
        res is Err ==> password.spec_bytes().len() > u32::MAX,
{
    let salt = random_salt();
    match argon2_hash(password.as_bytes(), salt.as_slice()) {
        Ok(h) => Ok(h),
        Err(e) => Err(PasswordError { message: password_error_text(&e) }),
    }
}

/// Checks `password` against the PHC string `hash`: an error when `hash` is
/// not a PHC string (an empty text or one that does not start with `$` never
/// is), else whether Argon2 accepts the password for it.
pub fn verify_password(password: &str, hash: &str) -> (res: Result<bool, PasswordError>)
    ensures
        res is Ok <==> phc_parses(hash@),
        hash@.len() == 0 || hash@[0] != '$' ==> res is Err,
        res matches Ok(b) ==> b == argon2_accepts(password.spec_bytes(), hash@),
{
    match phc_check(hash) {
        Err(e) => Err(PasswordError { message: password_error_text(&e) }),
        Ok(()) => Ok(argon2_verify(password.as_bytes(), hash)),
    }
}

} // verus!
