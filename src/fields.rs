//! Readers for the members of a JSON object, one for each kind of value a
//! record carries. Each is stated over a spec function that takes the member
//! as found (absent, or its value) to the value read, or to `None` when the
//! member cannot be read.
use vstd::prelude::*;
use crate::ids::{user_prefix, UserId};
use crate::json::{field_of, lookup, Json, Number};
use crate::text::{has_prefix, string_views};
use crate::time::{lenient_instant_of, offset_instant_of, opt_instant, Timestamp};

verus! {

/// The text of a URL as the `url` crate serializes it after parsing `s`.
pub uninterp spec fn url_text_of(s: Seq<char>) -> Option<Seq<char>>;

/// Relies on `url::Url::parse` and `From<Url> for String`: the
/// serialization of the parsed URL, or `None` when `s` does not parse.
#[verifier::external_body]
fn parse_url(s: &str) -> (r: Option<String>)
    ensures
        match r {
            Some(t) => url_text_of(s@) == Some(t@),
            None => url_text_of(s@) is None,
        },
{
    match url::Url::parse(s) {
        Ok(u) => Some(String::from(u)),
        Err(_) => None,
    }
}

pub open spec fn opt_text_view(o: Option<String>) -> Option<Seq<char>> {
    match o {
        Some(s) => Some(s@),
        None => None,
    }
}

pub open spec fn opt_user_view(o: Option<UserId>) -> Option<Seq<char>> {
    match o {
        Some(u) => Some(u@),
        None => None,
    }
}

/// A required string.
pub open spec fn text_of(f: Option<Json>) -> Option<Seq<char>> {
    match f {
        Some(Json::Str(s)) => Some(s@),
        _ => None,
    }
}

/// An optional string: absent and `null` read as `None`.
pub open spec fn opt_text_of(f: Option<Json>) -> Option<Option<Seq<char>>> {
    match f {
        None => Some(None),
        Some(Json::Null) => Some(None),
        Some(Json::Str(s)) => Some(Some(s@)),
        _ => None,
    }
}

pub open spec fn all_text(v: Seq<Json>) -> bool {
    forall|i: int| 0 <= i < v.len() ==> #[trigger] v[i] is Str
}

pub open spec fn text_view(j: Json) -> Seq<char> {
    match j {
        Json::Str(s) => s@,
        _ => Seq::empty(),
    }
}

/// A list of strings: absent reads as the empty list.
pub open spec fn text_list_of(f: Option<Json>) -> Option<Seq<Seq<char>>> {
    match f {
        None => Some(Seq::empty()),
        Some(Json::Array(v)) => if all_text(v@) {
            Some(v@.map_values(|j: Json| text_view(j)))
        } else {
            None
        },
        _ => None,
    }
}

/// An integer in `lo ..= hi`.
pub open spec fn int_in_of(f: Option<Json>, lo: int, hi: int) -> Option<int> {
    match f {
        Some(Json::Number(Number::Int(v))) => if lo <= v <= hi {
            Some(v as int)
        } else {
            None
        },
        _ => None,
    }
}

pub open spec fn bool_of(f: Option<Json>) -> Option<bool> {
    match f {
        Some(Json::Bool(b)) => Some(b),
        _ => None,
    }
}

pub open spec fn number_of(f: Option<Json>) -> Option<Number> {
    match f {
        Some(Json::Number(n)) => Some(n),
        _ => None,
    }
}

/// A user id: a string that begins with `U-`.
pub open spec fn user_of(f: Option<Json>) -> Option<Seq<char>> {
    match text_of(f) {
        Some(s) => if has_prefix(s, user_prefix()) {
            Some(s)
        } else {
            None
        },
        None => None,
    }
}

/// An optional user id: absent and `null` read as `None`.
pub open spec fn opt_user_of(f: Option<Json>) -> Option<Option<Seq<char>>> {
    match opt_text_of(f) {
        Some(Some(s)) => if has_prefix(s, user_prefix()) {
            Some(Some(s))
        } else {
            None
        },
        other => other,
    }
}

/// A timestamp that carries its offset.
pub open spec fn time_of(f: Option<Json>) -> Option<(int, int)> {
    match f {
        Some(Json::Str(s)) => offset_instant_of(s@),
        _ => None,
    }
}

/// A timestamp whose offset may be missing (then it is UTC).
pub open spec fn lenient_time_of(f: Option<Json>) -> Option<(int, int)> {
    match f {
        Some(Json::Str(s)) => lenient_instant_of(s@),
        _ => None,
    }
}

/// An optional timestamp that carries its offset: absent and `null` read as
/// `None`.
pub open spec fn opt_time_of(f: Option<Json>) -> Option<Option<(int, int)>> {
    match f {
        None => Some(None),
        Some(Json::Null) => Some(None),
        Some(Json::Str(s)) => match offset_instant_of(s@) {
            Some(t) => Some(Some(t)),
            None => None,
        },
        _ => None,
    }
}

/// An optional URL, read as its serialization: absent and `null` read as
/// `None`.
pub open spec fn opt_url_of(f: Option<Json>) -> Option<Option<Seq<char>>> {
    match f {
        None => Some(None),
        Some(Json::Null) => Some(None),
        Some(Json::Str(s)) => match url_text_of(s@) {
            Some(t) => Some(Some(t)),
            None => None,
        },
        _ => None,
    }
}

pub fn read_text(fields: &Vec<(String, Json)>, key: &str) -> (r: Option<String>)
    ensures
        opt_text_view(r) == text_of(field_of(fields@, key@)),
{
    match lookup(fields, key) {
        Some(Json::Str(s)) => Some(s.clone()),
        _ => None,
    }
}

pub fn read_opt_text(fields: &Vec<(String, Json)>, key: &str) -> (r: Option<Option<String>>)
    ensures
        match r {
            Some(v) => opt_text_of(field_of(fields@, key@)) == Some(opt_text_view(v)),
            None => opt_text_of(field_of(fields@, key@)) is None,
        },
{
    match lookup(fields, key) {
        None => Some(None),
        Some(Json::Null) => Some(None),
        Some(Json::Str(s)) => Some(Some(s.clone())),
        _ => None,
    }
}

pub fn read_text_list(fields: &Vec<(String, Json)>, key: &str) -> (r: Option<Vec<String>>)
    ensures
        match r {
            Some(v) => text_list_of(field_of(fields@, key@)) == Some(string_views(v@)),
            None => text_list_of(field_of(fields@, key@)) is None,
        },
{
    match lookup(fields, key) {
        None => {
            let out: Vec<String> = Vec::new();
            assert(string_views(out@) =~= Seq::<Seq<char>>::empty());
            Some(out)
        },
        Some(Json::Array(items)) => {
            let mut out: Vec<String> = Vec::new();
            let mut i: usize = 0;
            while i < items.len()
                invariant
                    field_of(fields@, key@) == Some(Json::Array(*items)),
                    i <= items@.len(),
                    out@.len() == i,
                    forall|k: int| 0 <= k < i ==> #[trigger] items@[k] is Str,
                    forall|k: int| 0 <= k < i ==> out@[k]@ == #[trigger] text_view(items@[k]),
                decreases items@.len() - i,
            {
                match &items[i] {
                    Json::Str(s) => out.push(s.clone()),
                    _ => {
                        assert(!(items@[i as int] is Str));
                        assert(!all_text(items@));
                        return None;
                    },
                }
                i = i + 1;
            }
            assert(string_views(out@) =~= items@.map_values(|j: Json| text_view(j)));
            Some(out)
        },
        _ => None,
    }
}

pub fn read_i32(fields: &Vec<(String, Json)>, key: &str) -> (r: Option<i32>)
    ensures
        match r {
            Some(v) => int_in_of(field_of(fields@, key@), i32::MIN as int, i32::MAX as int) == Some(
                v as int,
            ),
            None => int_in_of(field_of(fields@, key@), i32::MIN as int, i32::MAX as int) is None,
        },
{
    match lookup(fields, key) {
        Some(Json::Number(Number::Int(v))) => if i32::MIN as i64 <= *v && *v <= i32::MAX as i64 {
            Some(*v as i32)
        } else {
            None
        },
        _ => None,
    }
}

pub fn read_u32(fields: &Vec<(String, Json)>, key: &str) -> (r: Option<u32>)
    ensures
        match r {
            Some(v) => int_in_of(field_of(fields@, key@), 0, u32::MAX as int) == Some(v as int),
            None => int_in_of(field_of(fields@, key@), 0, u32::MAX as int) is None,
        },
{
    match lookup(fields, key) {
        Some(Json::Number(Number::Int(v))) => if 0 <= *v && *v <= u32::MAX as i64 {
            Some(*v as u32)
        } else {
            None
        },
        _ => None,
    }
}

pub fn read_bool(fields: &Vec<(String, Json)>, key: &str) -> (r: Option<bool>)
    ensures
        r == bool_of(field_of(fields@, key@)),
{
    match lookup(fields, key) {
        Some(Json::Bool(b)) => Some(*b),
        _ => None,
    }
}

pub fn read_number(fields: &Vec<(String, Json)>, key: &str) -> (r: Option<Number>)
    ensures
        r == number_of(field_of(fields@, key@)),
{
    match lookup(fields, key) {
        Some(Json::Number(n)) => Some(*n),
        _ => None,
    }
}

pub fn read_user(fields: &Vec<(String, Json)>, key: &str) -> (r: Option<UserId>)
    ensures
        opt_user_view(r) == user_of(field_of(fields@, key@)),
{
    match lookup(fields, key) {
        Some(Json::Str(s)) => UserId::parse(s.as_str()),
        _ => None,
    }
}

pub fn read_opt_user(fields: &Vec<(String, Json)>, key: &str) -> (r: Option<Option<UserId>>)
    ensures
        match r {
            Some(v) => opt_user_of(field_of(fields@, key@)) == Some(opt_user_view(v)),
            None => opt_user_of(field_of(fields@, key@)) is None,
        },
{
    match lookup(fields, key) {
        None => Some(None),
        Some(Json::Null) => Some(None),
        Some(Json::Str(s)) => match UserId::parse(s.as_str()) {
            Some(u) => Some(Some(u)),
            None => None,
        },
        _ => None,
    }
}

pub fn read_time(fields: &Vec<(String, Json)>, key: &str) -> (r: Option<Timestamp>)
    ensures
        opt_instant(r) == time_of(field_of(fields@, key@)),
{
    match lookup(fields, key) {
        Some(Json::Str(s)) => Timestamp::parse(s.as_str()),
        _ => None,
    }
}

pub fn read_lenient_time(fields: &Vec<(String, Json)>, key: &str) -> (r: Option<Timestamp>)
    ensures
        opt_instant(r) == lenient_time_of(field_of(fields@, key@)),
{
    match lookup(fields, key) {
        Some(Json::Str(s)) => Timestamp::parse_lenient(s.as_str()),
        _ => None,
    }
}

pub fn read_opt_time(fields: &Vec<(String, Json)>, key: &str) -> (r: Option<Option<Timestamp>>)
    ensures
        match r {
            Some(v) => opt_time_of(field_of(fields@, key@)) == Some(opt_instant(v)),
            None => opt_time_of(field_of(fields@, key@)) is None,
        },
{
    match lookup(fields, key) {
        None => Some(None),
        Some(Json::Null) => Some(None),
        Some(Json::Str(s)) => match Timestamp::parse(s.as_str()) {
            Some(t) => Some(Some(t)),
            None => None,
        },
        _ => None,
    }
}

pub fn read_opt_url(fields: &Vec<(String, Json)>, key: &str) -> (r: Option<Option<String>>)
    ensures
        match r {
            Some(v) => opt_url_of(field_of(fields@, key@)) == Some(opt_text_view(v)),
            None => opt_url_of(field_of(fields@, key@)) is None,
        },
{
    match lookup(fields, key) {
        None => Some(None),
        Some(Json::Null) => Some(None),
        Some(Json::Str(s)) => match parse_url(s.as_str()) {
            Some(t) => Some(Some(t)),
            None => None,
        },
        _ => None,
    }
}

} // verus!
