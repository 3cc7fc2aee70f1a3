//! The claims carried by an access token, and their JSON text.
//!
//! The JSON text is written the way a derived `serde` serializer writes the
//! struct: the fields in declaration order, no whitespace, each string as
//! `serde_json` writes it. It is read back with `serde_json`, which
//! takes any JSON object with these members, in any order and spacing.
use vstd::prelude::*;
use crate::text::{int_text, nat_text, push_int_text, push_nat_text};

verus! {

/// The claims of an access token.
pub struct Claims {
    pub id: i32,
    pub exp: usize,
    pub iat: usize,
    pub email: String,
    pub username: String,
}

/// The mathematical model of [`Claims`].
#[verifier::ext_equal]
pub struct ClaimsView {
    pub id: i32,
    pub exp: usize,
    pub iat: usize,
    pub email: Seq<char>,
    pub username: Seq<char>,
}

impl View for Claims {
    type V = ClaimsView;

    open spec fn view(&self) -> ClaimsView {
        ClaimsView {
            id: self.id,
            exp: self.exp,
            iat: self.iat,
            email: self.email@,
            username: self.username@,
        }
    }
}

/// The JSON string that `serde_json` writes for the text `s`: `s` between
/// double quotes, with quotes, backslashes and control characters escaped.
pub uninterp spec fn quoted(s: Seq<char>) -> Seq<char>;

/// Calls `serde_json::to_string` on the text `s` (serialising a `str` does
/// not fail). Trusted: the result is `quoted(s)`.
#[verifier::external_body]
fn json_string_text(s: &str) -> (res: String)
    ensures
        res@ == quoted(s@),
{
    serde_json::to_string(s).unwrap_or_default()
}

pub open spec fn lit_open() -> Seq<char> {
    seq!['{', '"', 'i', 'd', '"', ':']
}

pub open spec fn lit_exp() -> Seq<char> {
    seq![',', '"', 'e', 'x', 'p', '"', ':']
}

pub open spec fn lit_iat() -> Seq<char> {
    seq![',', '"', 'i', 'a', 't', '"', ':']
}

pub open spec fn lit_email() -> Seq<char> {
    seq![',', '"', 'e', 'm', 'a', 'i', 'l', '"', ':']
}

pub open spec fn lit_username() -> Seq<char> {
    seq![',', '"', 'u', 's', 'e', 'r', 'n', 'a', 'm', 'e', '"', ':']
}

/// The JSON text of the claims `c`:
/// `{"id":..,"exp":..,"iat":..,"email":"..","username":".."}`.
pub open spec fn claims_json(c: ClaimsView) -> Seq<char> {
    lit_open() + int_text(c.id as int) + lit_exp() + nat_text(c.exp as nat) + lit_iat()
        + nat_text(c.iat as nat) + lit_email() + quoted(c.email) + lit_username() + quoted(
        c.username,
    ) + seq!['}']
}

/// The JSON text of `c`.
pub fn claims_to_json(c: &Claims) -> (res: String)
    ensures
        res@ == claims_json(c@),
{
    let mut out = String::new();
    out.append("{\"id\":");
    push_int_text(&mut out, c.id as i64);
    out.append(",\"exp\":");
    push_nat_text(&mut out, c.exp as u64);
    out.append(",\"iat\":");
    push_nat_text(&mut out, c.iat as u64);
    out.append(",\"email\":");
    let email = json_string_text(c.email.as_str());
    out.append(email.as_str());
    out.append(",\"username\":");
    let username = json_string_text(c.username.as_str());
    out.append(username.as_str());
    out.append("}");
    proof {
        reveal_strlit("{\"id\":");
        reveal_strlit(",\"exp\":");
        reveal_strlit(",\"iat\":");
        reveal_strlit(",\"email\":");
        reveal_strlit(",\"username\":");
        reveal_strlit("}");
        assert(out@ =~= claims_json(c@));
    }
    out
}

pub open spec fn key_id() -> Seq<char> {
    seq!['i', 'd']
}

pub open spec fn key_exp() -> Seq<char> {
    seq!['e', 'x', 'p']
}

pub open spec fn key_iat() -> Seq<char> {
    seq!['i', 'a', 't']
}

pub open spec fn key_email() -> Seq<char> {
    seq!['e', 'm', 'a', 'i', 'l']
}

pub open spec fn key_username() -> Seq<char> {
    seq!['u', 's', 'e', 'r', 'n', 'a', 'm', 'e']
}

/// The members of the JSON text of the claims `c`, as (key, value text)
/// pairs in the order of their keys.
pub open spec fn claims_members(c: ClaimsView) -> Seq<(Seq<char>, Seq<char>)> {
    seq![
        (key_email(), quoted(c.email)),
        (key_exp(), nat_text(c.exp as nat)),
        (key_iat(), nat_text(c.iat as nat)),
        (key_id(), int_text(c.id as int)),
        (key_username(), quoted(c.username)),
    ]
}

/// The (key, value text) pairs of `v` as texts.
pub open spec fn pairs_view(v: Seq<(String, String)>) -> Seq<(Seq<char>, Seq<char>)> {
    v.map_values(|kv: (String, String)| (kv.0@, kv.1@))
}

/// What `serde_json` reads from `text` as a map from keys to raw JSON
/// values: the (key, value text) pairs in key order, or `None` when `text`
/// is not one JSON object.
pub uninterp spec fn json_object_members(text: Seq<char>) -> Option<Seq<(Seq<char>, Seq<char>)>>;

/// What `serde_json` reads from `text` as a sequence of raw JSON values:
/// their texts in order, or `None` when `text` is not one JSON array.
pub uninterp spec fn json_array_items(text: Seq<char>) -> Option<Seq<Seq<char>>>;

/// What `serde_json` reads from the JSON text `text` as an `i32`.
pub uninterp spec fn json_i32(text: Seq<char>) -> Option<i32>;

/// What `serde_json` reads from the JSON text `text` as a `usize`.
pub uninterp spec fn json_usize(text: Seq<char>) -> Option<usize>;

/// What `serde_json` reads from the JSON text `text` as a string.
pub uninterp spec fn json_string(text: Seq<char>) -> Option<Seq<char>>;

/// Calls `serde_json::from_str` into a `BTreeMap<String, Box<RawValue>>` and
/// gives its entries as (key, raw value text) pairs, in the map's key order.
/// Trusted: the pairs are `json_object_members(text)`; and the JSON text of
/// claims is read as its five members, each value text exactly as written.
#[verifier::external_body]
fn object_members(text: &str) -> (res: Option<Vec<(String, String)>>)
    ensures
        res is Some <==> json_object_members(text@) is Some,
        res matches Some(v) ==> json_object_members(text@) == Some(pairs_view(v@)),
        forall|c: ClaimsView| #[trigger]
            claims_json(c) == text@ ==> (res is Some && pairs_view(res->Some_0@) == claims_members(c)),
{
    let map: std::collections::BTreeMap<String, Box<serde_json::value::RawValue>> =
        serde_json::from_str(text).ok()?;
    Some(map.into_iter().map(|(k, v)| (k, v.get().to_string())).collect())
}

/// The texts of `v`.
pub open spec fn texts_view(v: Seq<String>) -> Seq<Seq<char>> {
    v.map_values(|t: String| t@)
}

/// Calls `serde_json::from_str` into a `Vec<Box<RawValue>>` and gives the
/// raw text of each item. Trusted: the texts are `json_array_items(text)`.
#[verifier::external_body]
fn array_items(text: &str) -> (res: Option<Vec<String>>)
    ensures
        res is Some <==> json_array_items(text@) is Some,
        res matches Some(v) ==> json_array_items(text@) == Some(texts_view(v@)),
{
    let items: Vec<Box<serde_json::value::RawValue>> = serde_json::from_str(text).ok()?;
    Some(items.into_iter().map(|v| v.get().to_string()).collect())
}

/// Calls `serde_json::from_str::<i32>`. Trusted: the result is
/// `json_i32(text)`, and the decimal text of a number is read as that number.
#[verifier::external_body]
fn read_i32(text: &str) -> (res: Option<i32>)
    ensures
        res == json_i32(text@),
        forall|n: i32| #[trigger] int_text(n as int) == text@ ==> res == Some(n),
{
    serde_json::from_str::<i32>(text).ok()
}

/// Calls `serde_json::from_str::<usize>`. Trusted: the result is
/// `json_usize(text)`, and the decimal text of a number is read as that number.
#[verifier::external_body]
fn read_usize(text: &str) -> (res: Option<usize>)
    ensures
        res == json_usize(text@),
        forall|n: usize| #[trigger] nat_text(n as nat) == text@ ==> res == Some(n),
{
    serde_json::from_str::<usize>(text).ok()
}

/// Calls `serde_json::from_str::<String>`. Trusted: the result is
/// `json_string(text)`, and the JSON string that `serde_json` writes for a
/// text is read back as that text.
#[verifier::external_body]
fn read_string(text: &str) -> (res: Option<String>)
    ensures
        res is Some <==> json_string(text@) is Some,
        res matches Some(s) ==> json_string(text@) == Some(s@),
        forall|s: Seq<char>| #[trigger] quoted(s) == text@ ==> (res is Some && res->Some_0@ == s),
{
    serde_json::from_str::<String>(text).ok()
}

/// The value text of the first member of `ms` whose key is `key`.
pub open spec fn member_text(ms: Seq<(Seq<char>, Seq<char>)>, key: Seq<char>) -> Option<Seq<char>>
    decreases ms.len(),
{
    if ms.len() == 0 {
        None
    } else if ms[0].0 == key {
        Some(ms[0].1)
    } else {
        member_text(ms.drop_first(), key)
    }
}

/// The member `key` of `ms` read as an `i32`.
pub open spec fn member_i32(ms: Seq<(Seq<char>, Seq<char>)>, key: Seq<char>) -> Option<i32> {
    match member_text(ms, key) {
        Some(t) => json_i32(t),
        None => None,
    }
}

/// The member `key` of `ms` read as a `usize`.
pub open spec fn member_usize(ms: Seq<(Seq<char>, Seq<char>)>, key: Seq<char>) -> Option<usize> {
    match member_text(ms, key) {
        Some(t) => json_usize(t),
        None => None,
    }
}

/// The member `key` of `ms` read as a string.
pub open spec fn member_string(ms: Seq<(Seq<char>, Seq<char>)>, key: Seq<char>) -> Option<Seq<char>> {
    match member_text(ms, key) {
        Some(t) => json_string(t),
        None => None,
    }
}

/// The claims that the members `ms` of a JSON object hold: each of the five
/// keys present with a value of its type; other members are ignored.
pub open spec fn claims_of_members(ms: Seq<(Seq<char>, Seq<char>)>) -> Option<ClaimsView> {
    let id = member_i32(ms, key_id());
    let exp = member_usize(ms, key_exp());
    let iat = member_usize(ms, key_iat());
    let email = member_string(ms, key_email());
    let username = member_string(ms, key_username());
    if id is Some && exp is Some && iat is Some && email is Some && username is Some {
        Some(
            ClaimsView {
                id: id->Some_0,
                exp: exp->Some_0,
                iat: iat->Some_0,
                email: email->Some_0,
                username: username->Some_0,
            },
        )
    } else {
        None
    }
}

/// The claims that the items of a JSON array hold: exactly five, the fields
/// in declaration order.
pub open spec fn claims_of_items(items: Seq<Seq<char>>) -> Option<ClaimsView> {
    if items.len() == 5 && json_i32(items[0]) is Some && json_usize(items[1]) is Some
        && json_usize(items[2]) is Some && json_string(items[3]) is Some && json_string(
        items[4],
    ) is Some {
        Some(
            ClaimsView {
                id: json_i32(items[0])->Some_0,
                exp: json_usize(items[1])->Some_0,
                iat: json_usize(items[2])->Some_0,
                email: json_string(items[3])->Some_0,
                username: json_string(items[4])->Some_0,
            },
        )
    } else {
        None
    }
}

/// The claims that the JSON text `text` holds: as an object, or as an array
/// of the five fields.
pub open spec fn claims_of_json(text: Seq<char>) -> Option<ClaimsView> {
    match json_object_members(text) {
        Some(ms) => claims_of_members(ms),
        None => match json_array_items(text) {
            Some(items) => claims_of_items(items),
            None => None,
        },
    }
}

/// The position of the first member of `ms` whose key is `key`.
fn find_member(ms: &Vec<(String, String)>, key: &String) -> (res: Option<usize>)
    ensures
        match member_text(pairs_view(ms@), key@) {
            Some(t) => res matches Some(i) && i < ms@.len() && ms@[i as int].1@ == t,
            None => res is None,
        },
{
    let ghost all = pairs_view(ms@);
    assert(all.skip(0) =~= all);
    let mut i: usize = 0;
    while i < ms.len()
        invariant
            i <= ms@.len(),
            all == pairs_view(ms@),
            member_text(all, key@) == member_text(all.skip(i as int), key@),
        decreases ms.len() - i,
    {
        let ghost rest = all.skip(i as int);
        assert(rest[0] == (ms@[i as int].0@, ms@[i as int].1@));
        if ms[i].0 == *key {
            return Some(i);
        }
        assert(rest.drop_first() =~= all.skip(i + 1));
        i = i + 1;
    }
    assert(all.skip(i as int).len() == 0);
    None
}

/// The value text of the member `key` of `ms`, when there is one.
fn member_value<'a>(ms: &'a Vec<(String, String)>, key: &str) -> (res: Option<&'a str>)
    ensures
        match member_text(pairs_view(ms@), key@) {
            Some(t) => res matches Some(r) && r@ == t,
            None => res is None,
        },
{
    let k = String::from_str(key);
    match find_member(ms, &k) {
        Some(i) => Some(ms[i].1.as_str()),
        None => None,
    }
}

/// The members of the JSON text of claims are found under their keys.
proof fn lemma_claims_members(c: ClaimsView)
    ensures
        member_text(claims_members(c), key_id()) == Some(int_text(c.id as int)),
        member_text(claims_members(c), key_exp()) == Some(nat_text(c.exp as nat)),
        member_text(claims_members(c), key_iat()) == Some(nat_text(c.iat as nat)),
        member_text(claims_members(c), key_email()) == Some(quoted(c.email)),
        member_text(claims_members(c), key_username()) == Some(quoted(c.username)),
{
    let ms = claims_members(c);
    reveal_with_fuel(member_text, 6);
    assert(ms.drop_first() =~= ms.subrange(1, 5));
    assert(ms.drop_first().drop_first() =~= ms.subrange(2, 5));
    assert(ms.drop_first().drop_first().drop_first() =~= ms.subrange(3, 5));
    assert(ms.drop_first().drop_first().drop_first().drop_first() =~= ms.subrange(4, 5));
    assert(key_email() != key_exp()) by { assert(key_email()[1] != key_exp()[1]); }
    assert(key_email() != key_iat()) by { assert(key_email()[0] != key_iat()[0]); }
    assert(key_email() != key_id()) by { assert(key_email()[0] != key_id()[0]); }
    assert(key_email() != key_username()) by { assert(key_email()[0] != key_username()[0]); }
    assert(key_exp() != key_iat()) by { assert(key_exp()[0] != key_iat()[0]); }
    assert(key_exp() != key_id()) by { assert(key_exp()[0] != key_id()[0]); }
    assert(key_exp() != key_username()) by { assert(key_exp()[0] != key_username()[0]); }
    assert(key_iat() != key_id()) by { assert(key_iat()[1] != key_id()[1]); }
    assert(key_iat() != key_username()) by { assert(key_iat()[0] != key_username()[0]); }
    assert(key_id() != key_username()) by { assert(key_id()[0] != key_username()[0]); }
}

/// The claims that the members `ms` of a JSON object hold; `None` when a
/// key is missing or its value is not of the field's type.
pub fn claims_from_members(ms: &Vec<(String, String)>) -> (res: Option<Claims>)
    ensures
        match claims_of_members(pairs_view(ms@)) {
            Some(c) => res matches Some(r) && r@ == c,
            None => res is None,
        },
        forall|c: ClaimsView| #[trigger]
            claims_members(c) == pairs_view(ms@) ==> (res matches Some(r) && r@ == c),
{
    proof {
        reveal_strlit("id");
        reveal_strlit("exp");
        reveal_strlit("iat");
        reveal_strlit("email");
        reveal_strlit("username");
        assert("id"@ =~= key_id());
        assert("exp"@ =~= key_exp());
        assert("iat"@ =~= key_iat());
        assert("email"@ =~= key_email());
        assert("username"@ =~= key_username());
    }
    let id = match member_value(ms, "id") {
        Some(t) => read_i32(t),
        None => None,
    };
    let exp = match member_value(ms, "exp") {
        Some(t) => read_usize(t),
        None => None,
    };
    let iat = match member_value(ms, "iat") {
        Some(t) => read_usize(t),
        None => None,
    };
    let email = match member_value(ms, "email") {
        Some(t) => read_string(t),
        None => None,
    };
    let username = match member_value(ms, "username") {
        Some(t) => read_string(t),
        None => None,
    };
    proof {
        assert forall|c: ClaimsView| #[trigger] claims_members(c) == pairs_view(ms@) implies {
            &&& id == Some(c.id)
            &&& exp == Some(c.exp)
            &&& iat == Some(c.iat)
            &&& email matches Some(e) && e@ == c.email
            &&& username matches Some(u) && u@ == c.username
        } by {
            lemma_claims_members(c);
        }
    }
    match (id, exp, iat, email, username) {
        (Some(id), Some(exp), Some(iat), Some(email), Some(username)) => Some(
            Claims { id, exp, iat, email, username },
        ),
        _ => None,
    }
}

/// The claims that the items of a JSON array hold; `None` unless there are
/// five, each of its field's type.
pub fn claims_from_items(items: &Vec<String>) -> (res: Option<Claims>)
    ensures
        match claims_of_items(texts_view(items@)) {
            Some(c) => res matches Some(r) && r@ == c,
            None => res is None,
        },
{
    if items.len() != 5 {
        return None;
    }
    let id = read_i32(items[0].as_str());
    let exp = read_usize(items[1].as_str());
    let iat = read_usize(items[2].as_str());
    let email = read_string(items[3].as_str());
    let username = read_string(items[4].as_str());
    match (id, exp, iat, email, username) {
        (Some(id), Some(exp), Some(iat), Some(email), Some(username)) => Some(
            Claims { id, exp, iat, email, username },
        ),
        _ => None,
    }
}

/// The claims that the JSON text `json` holds: a JSON object with the five
/// members, in any order, with any spacing and escapes, other members
/// ignored; or a JSON array of the five fields in declaration order. The
/// JSON text of claims is read back as those claims.
pub fn claims_from_json(json: &str) -> (res: Option<Claims>)
    ensures
        match claims_of_json(json@) {
            Some(c) => res matches Some(r) && r@ == c,
            None => res is None,
        },
        forall|c: ClaimsView| #[trigger] claims_json(c) == json@ ==> (res matches Some(r) && r@ == c),
{
    match object_members(json) {
        Some(ms) => claims_from_members(&ms),
        None => match array_items(json) {
            Some(items) => claims_from_items(&items),
            None => None,
        },
    }
}

} // verus!
