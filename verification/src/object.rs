//! Stored objects, their containers, and reading an object's record.
use vstd::prelude::*;
use vstd::string::StringExecFns;
use crate::paths::{parent_dir, path_parent};
use crate::text::{concat_str, hex_char};

verus! {

/// A stored object: its id, name, container and where its content lies.
pub struct Object {
    id: u128,
    name: String,
    container_id: u128,
    path: String,
}

/// The mathematical model of [`Object`].
pub struct ObjectView {
    pub id: u128,
    pub name: Seq<char>,
    pub container_id: u128,
    pub path: Seq<char>,
}

impl View for Object {
    type V = ObjectView;

    closed spec fn view(&self) -> ObjectView {
        ObjectView { id: self.id, name: self.name@, container_id: self.container_id, path: self.path@ }
    }
}

impl Object {
    pub fn new(id: u128, name: String, container_id: u128, path: String) -> (res: Self)
        ensures
            res@ == (ObjectView { id, name: name@, container_id, path: path@ }),
    {
        Self { id, name, container_id, path }
    }

    pub fn path(&self) -> (res: &String)
        ensures
            res@ == self@.path,
    {
        &self.path
    }

    pub fn name(&self) -> (res: &String)
        ensures
            res@ == self@.name,
    {
        &self.name
    }

    pub fn uuid(&self) -> (res: &u128)
        ensures
            *res == self@.id,
    {
        &self.id
    }

    pub fn container_id(&self) -> (res: &u128)
        ensures
            *res == self@.container_id,
    {
        &self.container_id
    }
}

/// A container of objects.
pub struct Container {
    container_id: u128,
    name: String,
    files: i64,
}

/// An error of the object service; each holds the message of its cause.
pub enum ObjectServiceError {
    UuidError(String),
    IOError(String),
    DatabaseError(String),
    PoolError(String),
    NotFoundError(String),
    PathError(String),
}

/// The error type of `uuid`, carried opaque.
#[verifier::external_type_specification]
#[verifier::external_body]
pub struct ExUuidError(uuid::Error);

/// The `n` lower-case hexadecimal digits of `v` (its last `n`, most significant first).
pub open spec fn hex_digits(v: nat, n: nat) -> Seq<char>
    decreases n,
{
    if n == 0 {
        Seq::empty()
    } else {
        hex_digits(v / 16, (n - 1) as nat).push(hex_char(v % 16))
    }
}

/// The hyphenated text of the UUID whose 128-bit value is `v`:
/// 8-4-4-4-12 lower-case hexadecimal digits, most significant first.
pub open spec fn uuid_text(v: u128) -> Seq<char> {
    let h = hex_digits(v as nat, 32);
    h.subrange(0, 8) + seq!['-'] + h.subrange(8, 12) + seq!['-'] + h.subrange(12, 16) + seq!['-']
        + h.subrange(16, 20) + seq!['-'] + h.subrange(20, 32)
}

/// The value of the hexadecimal digit `c`, in either case.
pub open spec fn hex_digit_value(c: char) -> Option<nat> {
    if '0' <= c && c <= '9' {
        Some(((c as nat) - 48) as nat)
    } else if 'a' <= c && c <= 'f' {
        Some(((c as nat) - 87) as nat)
    } else if 'A' <= c && c <= 'F' {
        Some(((c as nat) - 55) as nat)
    } else {
        None
    }
}

/// The number that the hexadecimal digits `s` write, most significant first.
pub open spec fn hex_number(s: Seq<char>) -> Option<nat>
    decreases s.len(),
{
    if s.len() == 0 {
        Some(0)
    } else {
        match (hex_number(s.drop_last()), hex_digit_value(s.last())) {
            (Some(a), Some(d)) => Some(a * 16 + d),
            _ => None,
        }
    }
}

/// The value of a hyphenated UUID text: 8-4-4-4-12 hexadecimal digits.
pub open spec fn hyphenated_value(s: Seq<char>) -> Option<nat> {
    if s.len() == 36 && s[8] == '-' && s[13] == '-' && s[18] == '-' && s[23] == '-' {
        hex_number(
            s.subrange(0, 8) + s.subrange(9, 13) + s.subrange(14, 18) + s.subrange(19, 23)
                + s.subrange(24, 36),
        )
    } else {
        None
    }
}

/// `c` with an ASCII capital letter made small.
pub open spec fn ascii_lower(c: char) -> char {
    if 'A' <= c && c <= 'Z' {
        ((c as u32) + 32) as char
    } else {
        c
    }
}

pub open spec fn urn_prefix() -> Seq<char> {
    seq!['u', 'r', 'n', ':', 'u', 'u', 'i', 'd', ':']
}

/// The 128-bit value of the UUID that `Uuid::parse_str` reads from `s`: 32
/// hexadecimal digits, or a hyphenated UUID alone, in braces or after
/// `urn:uuid:` (in either case); hexadecimal digits in either case.
pub open spec fn uuid_value(s: Seq<char>) -> Option<nat> {
    if s.len() == 32 {
        hex_number(s)
    } else if s.len() == 36 {
        hyphenated_value(s)
    } else if s.len() == 38 && s[0] == '{' && s[37] == '}' {
        hyphenated_value(s.subrange(1, 37))
    } else if s.len() == 45 && (forall|i: int| 0 <= i < 9 ==> #[trigger] ascii_lower(s[i]) == urn_prefix()[i]) {
        hyphenated_value(s.subrange(9, 45))
    } else {
        None
    }
}

/// Calls `Uuid::parse_str` and gives the UUID's 128-bit value (`Uuid::as_u128`).
/// Trusted: it succeeds exactly when `uuid_value(s)` is a value, and gives that value.
#[verifier::external_body]
fn parse_uuid(s: &str) -> (res: Result<u128, uuid::Error>)
    ensures
        res is Ok <==> uuid_value(s@) is Some,
        res matches Ok(r) ==> uuid_value(s@) == Some(r as nat),
{
    uuid::Uuid::parse_str(s).map(|u| u.as_u128())
}

/// `16` to the power `n`.
pub open spec fn pow16(n: nat) -> nat
    decreases n,
{
    if n == 0 {
        1
    } else {
        16 * pow16((n - 1) as nat)
    }
}

/// The `n` hexadecimal digits of `v` are read back as `v` modulo `16^n`.
proof fn lemma_hex_digits_value(v: nat, n: nat)
    ensures
        hex_digits(v, n).len() == n,
        hex_number(hex_digits(v, n)) == Some(v % pow16(n)),
    decreases n,
{
    if n == 0 {
        assert(v % 1 == 0) by (nonlinear_arith);
    } else {
        let m = (n - 1) as nat;
        lemma_hex_digits_value(v / 16, m);
        let h = hex_digits(v, n);
        assert(h.drop_last() =~= hex_digits(v / 16, m));
        let d = v % 16;
        assert(hex_digit_value(hex_char(d)) == Some(d));
        assert(pow16(m) > 0) by {
            lemma_pow16_positive(m);
        }
        vstd::arithmetic::div_mod::lemma_breakdown(v as int, 16, pow16(m) as int);
        assert(16 * ((v / 16) % pow16(m)) == ((v / 16) % pow16(m)) * 16) by (nonlinear_arith);
    }
}

proof fn lemma_pow16_positive(n: nat)
    ensures
        pow16(n) > 0,
    decreases n,
{
    if n > 0 {
        lemma_pow16_positive((n - 1) as nat);
    }
}

/// The hyphenated text of a UUID is read back as that UUID.
pub proof fn lemma_uuid_text_value(v: u128)
    ensures
        uuid_value(uuid_text(v)) == Some(v as nat),
{
    let h = hex_digits(v as nat, 32);
    lemma_hex_digits_value(v as nat, 32);
    assert(pow16(32) == 0x1_0000_0000_0000_0000_0000_0000_0000_0000nat) by {
        reveal_with_fuel(pow16, 33);
    }
    vstd::arithmetic::div_mod::lemma_small_mod(v as nat, pow16(32));
    let t = uuid_text(v);
    assert(t.len() == 36);
    assert(t.subrange(0, 8) + t.subrange(9, 13) + t.subrange(14, 18) + t.subrange(19, 23)
        + t.subrange(24, 36) =~= h);
}

/// The text of the UUID whose value is `v` (`Uuid::from_u128(v).to_string()`).
/// Trusted: it is the hyphenated lower-case text `uuid_text(v)`.
#[verifier::external_body]
pub(crate) fn uuid_to_string(v: u128) -> (res: String)
    ensures
        res@ == uuid_text(v),
{
    uuid::Uuid::from_u128(v).to_string()
}

/// The hyphenated lower-case text of the UUID whose 128-bit value is `v`,
/// as the store keeps object ids.
pub fn object_id_text(v: u128) -> (res: String)
    ensures
        res@ == uuid_text(v),
{
    uuid_to_string(v)
}

/// The text of a UUID error (its `Display`). Nothing is stated of it.
#[verifier::external_body]
fn uuid_error_text(err: &uuid::Error) -> String {
    err.to_string()
}

/// The object of a database row: the texts of its id and container id, its
/// name and its path. An id that is not a UUID is a `UuidError`.
pub fn object_from_row(uuid: &str, name: String, container_id: &str, path: String) -> (res: Result<
    Object,
    ObjectServiceError,
>)
    ensures
        match (uuid_value(uuid@), uuid_value(container_id@)) {
            (Some(a), Some(b)) => res matches Ok(o) && o@ == (ObjectView {
                id: a as u128,
                name: name@,
                container_id: b as u128,
                path: path@,
            }),
            _ => res matches Err(ObjectServiceError::UuidError(_)),
        },
        forall|a: u128, b: u128|
            uuid@ == #[trigger] uuid_text(a) && container_id@ == #[trigger] uuid_text(b) ==> (res matches Ok(
                o,
            ) && o@ == (ObjectView { id: a, name: name@, container_id: b, path: path@ })),
{
    proof {
        assert forall|a: u128, b: u128|
            uuid@ == #[trigger] uuid_text(a) && container_id@ == #[trigger] uuid_text(b) implies uuid_value(
            uuid@,
        ) == Some(a as nat) && uuid_value(container_id@) == Some(b as nat) by {
            lemma_uuid_text_value(a);
            lemma_uuid_text_value(b);
        }
    }
    let id = match parse_uuid(uuid) {
        Ok(v) => v,
        Err(e) => return Err(ObjectServiceError::UuidError(uuid_error_text(&e))),
    };
    let container = match parse_uuid(container_id) {
        Ok(v) => v,
        Err(e) => return Err(ObjectServiceError::UuidError(uuid_error_text(&e))),
    };
    Ok(Object::new(id, name, container, path))
}

/// The error for an object that is not stored: `No object found for <uuid>.`
pub fn object_not_found(uuid: u128) -> (res: ObjectServiceError)
    ensures
        res matches ObjectServiceError::NotFoundError(m) && m@ == "No object found for "@ + uuid_text(
            uuid,
        ) + "."@,
{
    let text = uuid_to_string(uuid);
    let mut m = concat_str("No object found for ", text.as_str());
    m.append(".");
    ObjectServiceError::NotFoundError(m)
}

/// The first directory to look at after an object's file is removed: the
/// directory that held it.
pub fn first_cleanup_dir(object_path: &str) -> (res: Option<String>)
    ensures
        match path_parent(object_path@) {
            Some(p) => res matches Some(r) && r@ == p,
            None => res is None,
        },
{
    parent_dir(object_path)
}

/// After looking at the directory `dir`: when it is empty it is removed and
/// its parent is looked at next; otherwise the clean-up stops.
pub fn next_cleanup_dir(dir: &str, dir_is_empty: bool) -> (res: Option<String>)
    ensures
        !dir_is_empty ==> res is None,
        dir_is_empty ==> match path_parent(dir@) {
            Some(p) => res matches Some(r) && r@ == p,
            None => res is None,
        },
{
    if dir_is_empty {
        parent_dir(dir)
    } else {
        None
    }
}

} // verus!
