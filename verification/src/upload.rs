//! Storing uploaded files: where an upload goes and what is answered.
use vstd::prelude::*;
use crate::extractor::{all_visible, header_str, header_text};
use crate::text::{concat_str, copy_str, digits_value, int_text, is_digit, push_char, push_int_text};
use vstd::string::StringExecFns;

verus! {

/// The directory that uploads are stored under.
pub const STORAGE_DIR: &'static str = "./uploads";

/// Whether `c` is kept in a stored file name: an ASCII letter or digit, `.`, `_` or `-`.
pub open spec fn filename_char(c: char) -> bool {
    ('a' <= c && c <= 'z') || ('A' <= c && c <= 'Z') || ('0' <= c && c <= '9') || c == '.' || c
        == '_' || c == '-'
}

/// The file name `name` with every character that is not `filename_char` removed.
pub open spec fn sanitized(name: Seq<char>) -> Seq<char> {
    name.filter(|c: char| filename_char(c))
}

/// Removes from `name` every character that is not an ASCII letter or
/// digit, `.`, `_` or `-`, keeping the others in order.
pub fn sanitize_filename(name: &str) -> (res: String)
    ensures
        res@ == sanitized(name@),
{
    let v = crate::text::chars_of(name);
    let mut res = String::new();
    let mut i: usize = 0;
    while i < v.len()
        invariant
            i <= v@.len(),
            v@ == name@,
            res@ == sanitized(v@.take(i as int)),
        decreases v.len() - i,
    {
        let c = v[i];
        proof {
            reveal_with_fuel(Seq::filter, 1);
            assert(v@.take(i + 1).drop_last() =~= v@.take(i as int));
            assert(v@.take(i + 1).last() == c);
        }
        if ('a' <= c && c <= 'z') || ('A' <= c && c <= 'Z') || ('0' <= c && c <= '9') || c == '.'
            || c == '_' || c == '-' {
            push_char(&mut res, c);
        }
        i = i + 1;
    }
    assert(v@.take(v@.len() as int) =~= v@);
    res
}

/// Filtering a sequence whose elements all pass changes nothing.
proof fn lemma_filter_keeps_all(s: Seq<char>)
    requires
        forall|i: int| 0 <= i < s.len() ==> filename_char(#[trigger] s[i]),
    ensures
        sanitized(s) == s,
    decreases s.len(),
{
    reveal_with_fuel(Seq::filter, 1);
    if s.len() > 0 {
        lemma_filter_keeps_all(s.drop_last());
        assert(s.drop_last().push(s.last()) =~= s);
    }
}

/// A sanitized name holds only kept characters, and sanitizing it again changes nothing.
pub proof fn law_sanitize_idempotent(name: Seq<char>)
    ensures
        forall|i: int| 0 <= i < sanitized(name).len() ==> filename_char(#[trigger] sanitized(name)[i]),
        sanitized(sanitized(name)) == sanitized(name),
{
    let pred = |c: char| filename_char(c);
    assert forall|i: int| 0 <= i < sanitized(name).len() implies filename_char(
        #[trigger] sanitized(name)[i],
    ) by {
        name.lemma_filter_pred(pred, i);
    }
    lemma_filter_keeps_all(sanitized(name));
}

/// Whether every character of `s` is a decimal digit.
pub open spec fn all_digits(s: Seq<char>) -> bool {
    forall|i: int| 0 <= i < s.len() ==> is_digit(#[trigger] s[i])
}

/// The `i32` that `str::parse::<i32>` reads from `s`: an optional `+` or `-`,
/// then one or more decimal digits, the value in range.
pub open spec fn i32_value(s: Seq<char>) -> Option<i32> {
    let signed = s.len() > 0 && (s[0] == '-' || s[0] == '+');
    let body = if signed {
        s.skip(1)
    } else {
        s
    };
    let v = if signed && s[0] == '-' {
        -digits_value(body)
    } else {
        digits_value(body) as int
    };
    if body.len() == 0 || !all_digits(body) || v < i32::MIN || v > i32::MAX {
        None
    } else {
        Some(v as i32)
    }
}

/// The value of a prefix of a run of digits is at most the value of the run.
proof fn lemma_digits_value_prefix(s: Seq<char>, k: int)
    requires
        0 <= k <= s.len(),
        all_digits(s),
    ensures
        digits_value(s.take(k)) <= digits_value(s),
    decreases s.len(),
{
    if k < s.len() {
        assert(all_digits(s.drop_last()));
        assert(s.drop_last().take(k) =~= s.take(k));
        lemma_digits_value_prefix(s.drop_last(), k);
    } else {
        assert(s.take(k) =~= s);
    }
}

/// Reads an `i32` the way `str::parse::<i32>` does.
pub fn parse_i32(s: &str) -> (res: Option<i32>)
    ensures
        res == i32_value(s@),
{
    let v = crate::text::chars_of(s);
    let n = v.len();
    let signed = n > 0 && (v[0] == '-' || v[0] == '+');
    let negative = signed && v[0] == '-';
    let start: usize = if signed {
        1
    } else {
        0
    };
    let ghost body = if signed {
        v@.skip(1)
    } else {
        v@
    };
    assert(body =~= v@.subrange(start as int, n as int));
    if start == n {
        return None;
    }
    let bound: u64 = if negative {
        0x8000_0000
    } else {
        0x7fff_ffff
    };
    let mut acc: u64 = 0;
    let mut i: usize = start;
    while i < n
        invariant
            start <= i <= n,
            n == v@.len(),
            body == v@.subrange(start as int, n as int),
            acc <= bound,
            0x7fff_ffff <= bound <= 0x8000_0000,
            v@ == s@,
            signed == (n > 0 && (v@[0] == '-' || v@[0] == '+')),
            negative == (signed && v@[0] == '-'),
            bound == if negative { 0x8000_0000u64 } else { 0x7fff_ffffu64 },
            start == if signed { 1usize } else { 0usize },
            body == if signed { v@.skip(1) } else { v@ },
            all_digits(body.take(i - start)),
            acc == digits_value(body.take(i - start)),
        decreases n - i,
    {
        let c = v[i];
        proof {
            assert(body.take(i - start + 1).drop_last() =~= body.take(i - start));
            assert(body[i - start] == c);
        }
        if !('0' <= c && c <= '9') {
            assert(!all_digits(body));
            return None;
        }
        let d: u64 = ((c as u32) - 48) as u64;
        if acc > (bound - d) / 10 {
            proof {
                assert(all_digits(body.take(i - start + 1)));
                if all_digits(body) {
                    lemma_digits_value_prefix(body, i - start + 1);
                }
            }
            return None;
        }
        acc = acc * 10 + d;
        i = i + 1;
        assert(all_digits(body.take(i - start)));
    }
    assert(body.take(n - start) =~= body);
    if negative {
        Some((-(acc as i64)) as i32)
    } else {
        Some(acc as i32)
    }
}

/// The `user_id` header of an upload.
pub enum UserIdHeader {
    /// No header, or one that is not text.
    Absent,
    /// A header whose text is not an `i32`.
    Malformed,
    Id(i32),
}

/// Reads the `user_id` header value of an upload.
pub fn user_id_header(value: Option<&[u8]>) -> (res: UserIdHeader)
    ensures
        match value {
            None => res is Absent,
            Some(v) => if !all_visible(v@) {
                res is Absent
            } else {
                match i32_value(header_text(v@)) {
                    Some(id) => res == UserIdHeader::Id(id),
                    None => res is Malformed,
                }
            },
        },
{
    match value {
        None => UserIdHeader::Absent,
        Some(v) => match header_str(v) {
            None => UserIdHeader::Absent,
            Some(text) => match parse_i32(text.as_str()) {
                Some(id) => UserIdHeader::Id(id),
                None => UserIdHeader::Malformed,
            },
        },
    }
}

/// The directory of a user's uploads: `STORAGE_DIR/<id>/`.
pub open spec fn upload_folder(user_id: i32) -> Seq<char> {
    STORAGE_DIR@ + seq!['/'] + int_text(user_id as int) + seq!['/']
}

/// Where an upload named `filename` by a user is stored: `STORAGE_DIR/<id>/<sanitized name>`.
pub open spec fn upload_path(user_id: i32, filename: Seq<char>) -> Seq<char> {
    upload_folder(user_id) + sanitized(filename)
}

/// The directory of a user's uploads and where the upload named `filename` goes.
pub fn upload_location(user_id: i32, filename: &str) -> (res: (String, String))
    ensures
        res.0@ == upload_folder(user_id),
        res.1@ == upload_path(user_id, filename@),
{
    let mut folder = copy_str(STORAGE_DIR);
    push_char(&mut folder, '/');
    push_int_text(&mut folder, user_id as i64);
    push_char(&mut folder, '/');
    let mut path = copy_str(folder.as_str());
    let clean = sanitize_filename(filename);
    path.append(clean.as_str());
    (folder, path)
}

/// The answer to a stored upload: `Uploaded as <filename>`.
pub fn uploaded_message(filename: &str) -> (res: String)
    ensures
        res@ == "Uploaded as "@ + filename@,
{
    concat_str("Uploaded as ", filename)
}

} // verus!
