use vstd::prelude::*;

verus! {

/// A JSON number: an integer when it is one, else the bits of its IEEE-754
/// double.
#[derive(Clone, Copy, Debug, PartialEq, Eq)]
pub enum Number {
    Int(i64),
    Float(u64),
}

/// A JSON value as the wire carries it.
#[derive(Debug, PartialEq)]
pub enum Json {
    Null,
    Bool(bool),
    Number(Number),
    Str(String),
    Array(Vec<Json>),
    Object(Vec<(String, Json)>),
}

/// The value stored under `key` in an object's members: the first member
/// with that key, if any.
pub open spec fn field_of(fields: Seq<(String, Json)>, key: Seq<char>) -> Option<Json>
    decreases fields.len(),
{
    if fields.len() == 0 {
        None
    } else if fields[0].0@ == key {
        Some(fields[0].1)
    } else {
        field_of(fields.drop_first(), key)
    }
}

/// `j` is the JSON string `s`.
pub open spec fn is_str(j: Json, s: Seq<char>) -> bool {
    j matches Json::Str(t) && t@ == s
}

/// `j` is `null` when `v` is absent, else the JSON string of `v`.
pub open spec fn is_opt_str(j: Json, v: Option<Seq<char>>) -> bool {
    match v {
        None => j is Null,
        Some(s) => is_str(j, s),
    }
}

/// `j` is an array of the JSON strings `items`, in order.
pub open spec fn is_str_array(j: Json, items: Seq<Seq<char>>) -> bool {
    j matches Json::Array(v) && v@.len() == items.len() && forall|i: int|
        0 <= i < items.len() ==> #[trigger] is_str(v@[i], items[i])
}

/// Compares two texts.
pub fn same_text(a: &str, b: &str) -> (r: bool)
    ensures
        r == (a@ == b@),
{
    let n = a.unicode_len();
    if n != b.unicode_len() {
        return false;
    }
    let mut i: usize = 0;
    while i < n
        invariant
            n == a@.len(),
            n == b@.len(),
            i <= n,
            forall|j: int| 0 <= j < i ==> a@[j] == b@[j],
        decreases n - i,
    {
        if a.get_char(i) != b.get_char(i) {
            return false;
        }
        i = i + 1;
    }
    assert(a@ =~= b@);
    true
}

/// Looks up the member `key` of an object.
pub fn lookup<'a>(fields: &'a Vec<(String, Json)>, key: &str) -> (r: Option<&'a Json>)
    ensures
        match r {
            Some(j) => field_of(fields@, key@) == Some(*j),
            None => field_of(fields@, key@) is None,
        },
{
    let n = fields.len();
    let mut i: usize = 0;
    assert(fields@.subrange(0, n as int) =~= fields@);
    while i < n
        invariant
            n == fields@.len(),
            i <= n,
            field_of(fields@, key@) == field_of(fields@.subrange(i as int, n as int), key@),
        decreases n - i,
    {
        let ghost rest = fields@.subrange(i as int, n as int);
        assert(rest.drop_first() =~= fields@.subrange(i + 1, n as int));
        assert(rest[0] == fields@[i as int]);
        if same_text(fields[i].0.as_str(), key) {
            return Some(&fields[i].1);
        }
        i = i + 1;
    }
    None
}

/// Makes an object member.
pub fn member(key: &str, value: Json) -> (r: (String, Json))
    ensures
        r.0@ == key@,
        r.1 == value,
{
    (String::from_str(key), value)
}

/// The JSON string holding a copy of `s`.
pub fn text(s: &str) -> (r: Json)
    ensures
        is_str(r, s@),
{
    Json::Str(String::from_str(s))
}

/// The JSON string of `s`, or `null`.
pub fn opt_text(s: &Option<String>) -> (r: Json)
    ensures
        is_opt_str(r, match s {
            Some(t) => Some(t@),
            None => None,
        }),
{
    match s {
        Some(t) => Json::Str(t.clone()),
        None => Json::Null,
    }
}

/// The JSON array of the strings `items`.
pub fn text_array(items: &Vec<String>) -> (r: Json)
    ensures
        is_str_array(r, items@.map_values(|s: String| s@)),
{
    let mut out: Vec<Json> = Vec::new();
    let mut i: usize = 0;
    while i < items.len()
        invariant
            i <= items@.len(),
            out@.len() == i,
            forall|k: int| 0 <= k < i ==> #[trigger] is_str(out@[k], items@[k]@),
        decreases items@.len() - i,
    {
        out.push(Json::Str(items[i].clone()));
        i = i + 1;
    }
    Json::Array(out)
}

} // verus!
