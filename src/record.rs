use vstd::prelude::*;
use crate::fields::{
    bool_of, int_in_of, number_of, opt_text_of, opt_text_view, opt_time_of, opt_url_of,
    opt_user_of, opt_user_view, read_bool, read_i32, read_lenient_time, read_number,
    read_opt_text, read_opt_time, read_opt_url, read_opt_user, read_text, read_text_list,
    read_time, read_u32, read_user, lenient_time_of, text_list_of, text_of, time_of, user_of,
};
use crate::ids::{group_prefix, user_prefix, GroupId, RecordId, UserId};
use crate::json::{
    field_of, is_opt_str, is_str, is_str_array, lookup, member, opt_text, same_text, text,
    text_array, Json, Number,
};
use crate::text::{has_prefix, string_views};
use crate::time::{is_instant, is_opt_instant, opt_instant, Timestamp};

verus! {

/// The kind of a record.
#[derive(Clone, Copy, Debug, PartialEq, Eq, Structural)]
pub enum RecordType {
    Directory,
    Object,
    Texture,
    Audio,
    Link,
}

/// The lower-case wire name of a record type, which is what is written.
pub open spec fn wire_name(t: RecordType) -> Seq<char> {
    match t {
        RecordType::Directory => "directory"@,
        RecordType::Object => "object"@,
        RecordType::Texture => "texture"@,
        RecordType::Audio => "audio"@,
        RecordType::Link => "link"@,
    }
}

/// The capitalized spelling of a record type, which is also read.
pub open spec fn capitalized_name(t: RecordType) -> Seq<char> {
    match t {
        RecordType::Directory => "Directory"@,
        RecordType::Object => "Object"@,
        RecordType::Texture => "Texture"@,
        RecordType::Audio => "Audio"@,
        RecordType::Link => "Link"@,
    }
}

/// The record type that a wire text names, in either spelling.
pub open spec fn record_type_of(s: Seq<char>) -> Option<RecordType> {
    if s == "directory"@ || s == "Directory"@ {
        Some(RecordType::Directory)
    } else if s == "object"@ || s == "Object"@ {
        Some(RecordType::Object)
    } else if s == "texture"@ || s == "Texture"@ {
        Some(RecordType::Texture)
    } else if s == "audio"@ || s == "Audio"@ {
        Some(RecordType::Audio)
    } else if s == "link"@ || s == "Link"@ {
        Some(RecordType::Link)
    } else {
        None
    }
}

impl RecordType {
    /// Reads a record type from its wire text, in lower-case or capitalized
    /// spelling; any other text is refused.
    pub fn from_wire(s: &str) -> (r: Option<RecordType>)
        ensures
            r == record_type_of(s@),
    {
        if same_text(s, "directory") || same_text(s, "Directory") {
            Some(RecordType::Directory)
        } else if same_text(s, "object") || same_text(s, "Object") {
            Some(RecordType::Object)
        } else if same_text(s, "texture") || same_text(s, "Texture") {
            Some(RecordType::Texture)
        } else if same_text(s, "audio") || same_text(s, "Audio") {
            Some(RecordType::Audio)
        } else if same_text(s, "link") || same_text(s, "Link") {
            Some(RecordType::Link)
        } else {
            None
        }
    }

    /// The wire text of this record type.
    pub fn as_wire(&self) -> (r: &'static str)
        ensures
            r@ == wire_name(*self),
    {
        match self {
            RecordType::Directory => "directory",
            RecordType::Object => "object",
            RecordType::Texture => "texture",
            RecordType::Audio => "audio",
            RecordType::Link => "link",
        }
    }
}

/// Every record type is read from both its lower-case and its capitalized
/// spelling, and no other text is read as a record type.
pub proof fn lemma_record_type_spellings()
    ensures
        forall|t: RecordType|
            record_type_of(#[trigger] wire_name(t)) == Some(t) && record_type_of(
                capitalized_name(t),
            ) == Some(t),
        forall|s: Seq<char>|
            #[trigger] record_type_of(s) matches Some(t) ==> (s == wire_name(t) || s
                == capitalized_name(t)),
{
    reveal_strlit("directory");
    reveal_strlit("Directory");
    reveal_strlit("object");
    reveal_strlit("Object");
    reveal_strlit("texture");
    reveal_strlit("Texture");
    reveal_strlit("audio");
    reveal_strlit("Audio");
    reveal_strlit("link");
    reveal_strlit("Link");
    assert("directory"@.len() == 9 && "Directory"@.len() == 9);
    assert("object"@.len() == 6 && "Object"@.len() == 6);
    assert("texture"@.len() == 7 && "Texture"@.len() == 7);
    assert("audio"@.len() == 5 && "Audio"@.len() == 5);
    assert("link"@.len() == 4 && "Link"@.len() == 4);
    assert forall|t: RecordType|
        record_type_of(#[trigger] wire_name(t)) == Some(t) && record_type_of(capitalized_name(t))
            == Some(t) by {
        match t {
            RecordType::Directory => {},
            RecordType::Object => {
                assert(wire_name(t) != "directory"@);
                assert(capitalized_name(t) != "Directory"@);
            },
            RecordType::Texture => {
                assert(wire_name(t) != "directory"@);
                assert(capitalized_name(t) != "Directory"@);
                assert(wire_name(t) != "object"@);
                assert(capitalized_name(t) != "Object"@);
            },
            RecordType::Audio => {
                assert(wire_name(t) != "directory"@);
                assert(capitalized_name(t) != "Directory"@);
                assert(wire_name(t) != "object"@);
                assert(capitalized_name(t) != "Object"@);
                assert(wire_name(t) != "texture"@);
                assert(capitalized_name(t) != "Texture"@);
            },
            RecordType::Link => {
                assert(wire_name(t) != "directory"@);
                assert(capitalized_name(t) != "Directory"@);
                assert(wire_name(t) != "object"@);
                assert(capitalized_name(t) != "Object"@);
                assert(wire_name(t) != "texture"@);
                assert(capitalized_name(t) != "Texture"@);
                assert(wire_name(t) != "audio"@);
                assert(capitalized_name(t) != "Audio"@);
            },
        }
    }
}

/// `f` is a record type, in either spelling.
pub open spec fn record_type_field(f: Option<Json>) -> Option<RecordType> {
    match f {
        Some(Json::Str(s)) => record_type_of(s@),
        _ => None,
    }
}

fn read_record_type(fields: &Vec<(String, Json)>, key: &str) -> (r: Option<RecordType>)
    ensures
        r == record_type_field(field_of(fields@, key@)),
{
    match lookup(fields, key) {
        Some(Json::Str(s)) => RecordType::from_wire(s.as_str()),
        _ => None,
    }
}

/// The owner of a record: a user or a group, told apart on the wire by the
/// prefix of the id.
#[derive(Debug, PartialEq, Eq)]
pub enum RecordOwner {
    User(UserId),
    Group(GroupId),
}

impl View for RecordOwner {
    type V = Seq<char>;

    open spec fn view(&self) -> Seq<char> {
        match self {
            RecordOwner::User(u) => u@,
            RecordOwner::Group(g) => g@,
        }
    }
}

impl Clone for RecordOwner {
    fn clone(&self) -> (r: Self)
        ensures
            r == *self,
    {
        match self {
            RecordOwner::User(u) => RecordOwner::User(u.clone()),
            RecordOwner::Group(g) => RecordOwner::Group(g.clone()),
        }
    }
}

impl RecordOwner {
    /// Reads an owner id: a user when it begins with `U-`, a group when it
    /// begins with `G-`.
    pub fn parse(s: &str) -> (r: Option<RecordOwner>)
        ensures
            r matches Some(RecordOwner::User(_)) <==> has_prefix(s@, user_prefix()),
            r matches Some(RecordOwner::Group(_)) <==> has_prefix(s@, group_prefix()),
            r matches Some(o) ==> o@ == s@,
    {
        match UserId::parse(s) {
            Some(u) => Some(RecordOwner::User(u)),
            None => match GroupId::parse(s) {
                Some(g) => Some(RecordOwner::Group(g)),
                None => None,
            },
        }
    }

    pub fn as_str(&self) -> (r: &str)
        ensures
            r@ == self@,
    {
        match self {
            RecordOwner::User(u) => u.as_str(),
            RecordOwner::Group(g) => g.as_str(),
        }
    }
}

pub open spec fn opt_owner_view(o: Option<RecordOwner>) -> Option<Seq<char>> {
    match o {
        Some(o) => Some(o@),
        None => None,
    }
}

/// An optional owner: absent and `null` read as `None`; a string must be a
/// user or a group id.
pub open spec fn opt_owner_of(f: Option<Json>) -> Option<Option<Seq<char>>> {
    match opt_text_of(f) {
        Some(Some(s)) => if has_prefix(s, user_prefix()) || has_prefix(s, group_prefix()) {
            Some(Some(s))
        } else {
            None
        },
        other => other,
    }
}

fn read_opt_owner(fields: &Vec<(String, Json)>, key: &str) -> (r: Option<Option<RecordOwner>>)
    ensures
        match r {
            Some(v) => opt_owner_of(field_of(fields@, key@)) == Some(opt_owner_view(v)),
            None => opt_owner_of(field_of(fields@, key@)) is None,
        },
{
    match lookup(fields, key) {
        None => Some(None),
        Some(Json::Null) => Some(None),
        Some(Json::Str(s)) => match RecordOwner::parse(s.as_str()) {
            Some(o) => Some(Some(o)),
            None => None,
        },
        _ => None,
    }
}

} // verus!

verus! {

/// An `i32` member.
pub open spec fn i32_of(f: Option<Json>) -> Option<int> {
    int_in_of(f, i32::MIN as int, i32::MAX as int)
}

/// A `u32` member.
pub open spec fn u32_of(f: Option<Json>) -> Option<int> {
    int_in_of(f, 0, u32::MAX as int)
}

/// `j` is the JSON integer `v`.
pub open spec fn is_int(j: Json, v: int) -> bool {
    j matches Json::Number(Number::Int(x)) && x as int == v
}

fn opt_user_json(o: &Option<UserId>) -> (r: Json)
    ensures
        is_opt_str(r, opt_user_view(*o)),
{
    match o {
        Some(u) => text(u.as_str()),
        None => Json::Null,
    }
}

fn opt_owner_json(o: &Option<RecordOwner>) -> (r: Json)
    ensures
        is_opt_str(r, opt_owner_view(*o)),
{
    match o {
        Some(owner) => text(owner.as_str()),
        None => Json::Null,
    }
}

fn opt_time_json(t: &Option<Timestamp>) -> (r: Json)
    ensures
        is_opt_instant(r, opt_instant(*t)),
{
    match t {
        Some(t) => t.to_json(),
        None => Json::Null,
    }
}

/// A submission of a record to a group or event.
#[derive(Debug, PartialEq, Eq)]
pub struct Submission {
    pub id: String,
    pub owner_id: UserId,
    pub target_record_id: RecordId,
    pub submission_time: Timestamp,
    pub submitted_by_id: String,
    pub submitted_by_name: String,
    pub is_featured: bool,
    pub featured_by_user_id: String,
    pub featured_timestamp: Option<Timestamp>,
}

impl Clone for Submission {
    fn clone(&self) -> (r: Self)
        ensures
            r == *self,
    {
        Submission {
            id: self.id.clone(),
            owner_id: self.owner_id.clone(),
            target_record_id: self.target_record_id.clone(),
            submission_time: self.submission_time,
            submitted_by_id: self.submitted_by_id.clone(),
            submitted_by_name: self.submitted_by_name.clone(),
            is_featured: self.is_featured,
            featured_by_user_id: self.featured_by_user_id.clone(),
            featured_timestamp: self.featured_timestamp,
        }
    }
}

/// Every member of a submission object can be read. Its keys are written
/// in snake case.
pub open spec fn submission_decodable(j: Json) -> bool {
    match j {
        Json::Object(m) => {
            &&& text_of(field_of(m@, "id"@)) is Some
            &&& user_of(field_of(m@, "owner_id"@)) is Some
            &&& text_of(field_of(m@, "target_record_id"@)) is Some
            &&& time_of(field_of(m@, "submission_time"@)) is Some
            &&& text_of(field_of(m@, "submitted_by_id"@)) is Some
            &&& text_of(field_of(m@, "submitted_by_name"@)) is Some
            &&& bool_of(field_of(m@, "featured"@)) is Some
            &&& text_of(field_of(m@, "featured_by_user_id"@)) is Some
            &&& opt_time_of(field_of(m@, "featured_timestamp"@)) is Some
        },
        _ => false,
    }
}

/// `s` holds what the members of the submission object `j` read as.
pub open spec fn submission_decodes_to(j: Json, s: Submission) -> bool {
    match j {
        Json::Object(m) => {
            &&& text_of(field_of(m@, "id"@)) == Some(s.id@)
            &&& user_of(field_of(m@, "owner_id"@)) == Some(s.owner_id@)
            &&& text_of(field_of(m@, "target_record_id"@)) == Some(s.target_record_id@)
            &&& time_of(field_of(m@, "submission_time"@)) == Some(s.submission_time@)
            &&& text_of(field_of(m@, "submitted_by_id"@)) == Some(s.submitted_by_id@)
            &&& text_of(field_of(m@, "submitted_by_name"@)) == Some(s.submitted_by_name@)
            &&& bool_of(field_of(m@, "featured"@)) == Some(s.is_featured)
            &&& text_of(field_of(m@, "featured_by_user_id"@)) == Some(s.featured_by_user_id@)
            &&& opt_time_of(field_of(m@, "featured_timestamp"@)) == Some(
                opt_instant(s.featured_timestamp),
            )
        },
        _ => false,
    }
}

/// `j` is the object that a submission is written as, its members in
/// declaration order.
pub open spec fn submission_encoded_as(s: Submission, j: Json) -> bool {
    match j {
        Json::Object(m) => {
            &&& m@.len() == 9
            &&& m@[0].0@ == "id"@ && is_str(m@[0].1, s.id@)
            &&& m@[1].0@ == "owner_id"@ && is_str(m@[1].1, s.owner_id@)
            &&& m@[2].0@ == "target_record_id"@ && is_str(m@[2].1, s.target_record_id@)
            &&& m@[3].0@ == "submission_time"@ && is_instant(m@[3].1, s.submission_time@)
            &&& m@[4].0@ == "submitted_by_id"@ && is_str(m@[4].1, s.submitted_by_id@)
            &&& m@[5].0@ == "submitted_by_name"@ && is_str(m@[5].1, s.submitted_by_name@)
            &&& m@[6].0@ == "featured"@ && m@[6].1 == Json::Bool(s.is_featured)
            &&& m@[7].0@ == "featured_by_user_id"@ && is_str(m@[7].1, s.featured_by_user_id@)
            &&& m@[8].0@ == "featured_timestamp"@ && is_opt_instant(
                m@[8].1,
                opt_instant(s.featured_timestamp),
            )
        },
        _ => false,
    }
}

impl Submission {
    /// Reads a submission object.
    pub fn from_json(j: &Json) -> (r: Option<Submission>)
        ensures
            r is Some <==> submission_decodable(*j),
            r matches Some(s) ==> submission_decodes_to(*j, s),
    {
        let m = match j {
            Json::Object(m) => m,
            _ => return None,
        };
        let id = match read_text(m, "id") {
            Some(v) => v,
            None => return None,
        };
        let owner_id = match read_user(m, "owner_id") {
            Some(v) => v,
            None => return None,
        };
        let target_record_id = match read_text(m, "target_record_id") {
            Some(v) => RecordId(v),
            None => return None,
        };
        let submission_time = match read_time(m, "submission_time") {
            Some(v) => v,
            None => return None,
        };
        let submitted_by_id = match read_text(m, "submitted_by_id") {
            Some(v) => v,
            None => return None,
        };
        let submitted_by_name = match read_text(m, "submitted_by_name") {
            Some(v) => v,
            None => return None,
        };
        let is_featured = match read_bool(m, "featured") {
            Some(v) => v,
            None => return None,
        };
        let featured_by_user_id = match read_text(m, "featured_by_user_id") {
            Some(v) => v,
            None => return None,
        };
        let featured_timestamp = match read_opt_time(m, "featured_timestamp") {
            Some(v) => v,
            None => return None,
        };
        Some(
            Submission {
                id,
                owner_id,
                target_record_id,
                submission_time,
                submitted_by_id,
                submitted_by_name,
                is_featured,
                featured_by_user_id,
                featured_timestamp,
            },
        )
    }

    /// Writes this submission as a JSON object.
    pub fn to_json(&self) -> (r: Json)
        ensures
            submission_encoded_as(*self, r),
    {
        Json::Object(
            vec![
                member("id", text(self.id.as_str())),
                member("owner_id", text(self.owner_id.as_str())),
                member("target_record_id", text(self.target_record_id.as_str())),
                member("submission_time", self.submission_time.to_json()),
                member("submitted_by_id", text(self.submitted_by_id.as_str())),
                member("submitted_by_name", text(self.submitted_by_name.as_str())),
                member("featured", Json::Bool(self.is_featured)),
                member("featured_by_user_id", text(self.featured_by_user_id.as_str())),
                member("featured_timestamp", opt_time_json(&self.featured_timestamp)),
            ],
        )
    }
}

/// A list of submissions: absent reads as the empty list.
pub open spec fn submissions_decodable(f: Option<Json>) -> bool {
    match f {
        None => true,
        Some(Json::Array(v)) => forall|i: int|
            0 <= i < v@.len() ==> submission_decodable(#[trigger] v@[i]),
        _ => false,
    }
}

pub open spec fn submissions_decode_to(f: Option<Json>, subs: Seq<Submission>) -> bool {
    match f {
        None => subs.len() == 0,
        Some(Json::Array(v)) => v@.len() == subs.len() && forall|i: int|
            0 <= i < subs.len() ==> submission_decodes_to(#[trigger] v@[i], subs[i]),
        _ => false,
    }
}

fn read_submissions(fields: &Vec<(String, Json)>, key: &str) -> (r: Option<Vec<Submission>>)
    ensures
        r is Some <==> submissions_decodable(field_of(fields@, key@)),
        r matches Some(v) ==> submissions_decode_to(field_of(fields@, key@), v@),
{
    match lookup(fields, key) {
        None => Some(Vec::new()),
        Some(Json::Array(items)) => {
            let mut out: Vec<Submission> = Vec::new();
            let mut i: usize = 0;
            while i < items.len()
                invariant
                    field_of(fields@, key@) == Some(Json::Array(*items)),
                    i <= items@.len(),
                    out@.len() == i,
                    forall|k: int| 0 <= k < i ==> submission_decodable(#[trigger] items@[k]),
                    forall|k: int|
                        0 <= k < i ==> submission_decodes_to(#[trigger] items@[k], out@[k]),
                decreases items@.len() - i,
            {
                match Submission::from_json(&items[i]) {
                    Some(s) => out.push(s),
                    None => {
                        assert(!submission_decodable((*items)@[i as int]));
                        let ghost whole = Json::Array(*items);
                        assert(whole matches Json::Array(v) && v@ == (*items)@);
                        assert(!submissions_decodable(Some(whole)));
                        return None;
                    },
                }
                i = i + 1;
            }
            Some(out)
        },
        _ => None,
    }
}

fn submissions_json(subs: &Vec<Submission>) -> (r: Json)
    ensures
        r matches Json::Array(v) && v@.len() == subs@.len() && forall|i: int|
            0 <= i < subs@.len() ==> submission_encoded_as(subs@[i], #[trigger] v@[i]),
{
    let mut out: Vec<Json> = Vec::new();
    let mut i: usize = 0;
    while i < subs.len()
        invariant
            i <= subs@.len(),
            out@.len() == i,
            forall|k: int| 0 <= k < i ==> submission_encoded_as(subs@[k], #[trigger] out@[k]),
        decreases subs@.len() - i,
    {
        out.push(subs[i].to_json());
        i = i + 1;
    }
    Json::Array(out)
}

} // verus!

verus! {

/// One inventory entry.
#[derive(Debug, PartialEq, Eq)]
pub struct Record {
    pub id: RecordId,
    /// The serialized URL of the asset; a directory has none.
    pub asset_uri: Option<String>,
    pub global_version: i32,
    pub local_version: i32,
    pub last_update_by: Option<UserId>,
    pub last_update_machine: Option<String>,
    pub name: String,
    pub record_type: RecordType,
    pub owner_name: Option<String>,
    pub tags: Vec<String>,
    /// The backslash-separated path of the record.
    pub path: String,
    pub is_public: bool,
    pub is_for_patrons: bool,
    pub is_listed: bool,
    pub is_deleted: bool,
    pub thumbnail_uri: Option<String>,
    pub created_at: Option<Timestamp>,
    pub updated_at: Timestamp,
    pub random_order: i32,
    pub visits: i32,
    pub rating: Number,
    pub owner_id: Option<RecordOwner>,
    pub submissions: Vec<Submission>,
}

impl Record {
    /// Only a record that is not a directory has an asset.
    pub open spec fn wf(&self) -> bool {
        self.asset_uri is Some ==> self.record_type != RecordType::Directory
    }
}

fn clone_opt_text(o: &Option<String>) -> (r: Option<String>)
    ensures
        r == *o,
{
    match o {
        Some(s) => Some(s.clone()),
        None => None,
    }
}

fn clone_opt_user(o: &Option<UserId>) -> (r: Option<UserId>)
    ensures
        r == *o,
{
    match o {
        Some(u) => Some(u.clone()),
        None => None,
    }
}

fn clone_opt_owner(o: &Option<RecordOwner>) -> (r: Option<RecordOwner>)
    ensures
        r == *o,
{
    match o {
        Some(u) => Some(u.clone()),
        None => None,
    }
}

/// `a` and `b` hold the same content.
pub open spec fn same_record(a: Record, b: Record) -> bool {
    &&& a.id == b.id
    &&& a.asset_uri == b.asset_uri
    &&& a.global_version == b.global_version
    &&& a.local_version == b.local_version
    &&& a.last_update_by == b.last_update_by
    &&& a.last_update_machine == b.last_update_machine
    &&& a.name == b.name
    &&& a.record_type == b.record_type
    &&& a.owner_name == b.owner_name
    &&& a.tags@ == b.tags@
    &&& a.path == b.path
    &&& a.is_public == b.is_public
    &&& a.is_for_patrons == b.is_for_patrons
    &&& a.is_listed == b.is_listed
    &&& a.is_deleted == b.is_deleted
    &&& a.thumbnail_uri == b.thumbnail_uri
    &&& a.created_at == b.created_at
    &&& a.updated_at == b.updated_at
    &&& a.random_order == b.random_order
    &&& a.visits == b.visits
    &&& a.rating == b.rating
    &&& a.owner_id == b.owner_id
    &&& a.submissions@ == b.submissions@
}

impl Clone for Record {
    fn clone(&self) -> (r: Self)
        ensures
            same_record(r, *self),
    {
        let tags = self.tags.clone();
        let submissions = self.submissions.clone();
        assert(tags@ =~= self.tags@);
        assert(submissions@ =~= self.submissions@);
        Record {
            id: self.id.clone(),
            asset_uri: clone_opt_text(&self.asset_uri),
            global_version: self.global_version,
            local_version: self.local_version,
            last_update_by: clone_opt_user(&self.last_update_by),
            last_update_machine: clone_opt_text(&self.last_update_machine),
            name: self.name.clone(),
            record_type: self.record_type,
            owner_name: clone_opt_text(&self.owner_name),
            tags,
            path: self.path.clone(),
            is_public: self.is_public,
            is_for_patrons: self.is_for_patrons,
            is_listed: self.is_listed,
            is_deleted: self.is_deleted,
            thumbnail_uri: clone_opt_text(&self.thumbnail_uri),
            created_at: self.created_at,
            updated_at: self.updated_at,
            random_order: self.random_order,
            visits: self.visits,
            rating: self.rating,
            owner_id: clone_opt_owner(&self.owner_id),
            submissions,
        }
    }
}

/// Every member of a record object can be read. Members that the backend
/// may leave out (the optional ones, the tags and the submissions) may be
/// absent.
pub open spec fn record_members_readable(j: Json) -> bool {
    match j {
        Json::Object(m) => {
            let f = m@;
            &&& text_of(field_of(f, "id"@)) is Some
            &&& opt_url_of(field_of(f, "assetUri"@)) is Some
            &&& i32_of(field_of(f, "globalVersion"@)) is Some
            &&& i32_of(field_of(f, "localVersion"@)) is Some
            &&& opt_user_of(field_of(f, "lastModifyingUserId"@)) is Some
            &&& opt_text_of(field_of(f, "lastModifyingMachineId"@)) is Some
            &&& text_of(field_of(f, "name"@)) is Some
            &&& record_type_field(field_of(f, "recordType"@)) is Some
            &&& opt_text_of(field_of(f, "ownerName"@)) is Some
            &&& text_list_of(field_of(f, "tags"@)) is Some
            &&& text_of(field_of(f, "path"@)) is Some
            &&& bool_of(field_of(f, "isPublic"@)) is Some
            &&& bool_of(field_of(f, "isForPatrons"@)) is Some
            &&& bool_of(field_of(f, "isListed"@)) is Some
            &&& bool_of(field_of(f, "isDeleted"@)) is Some
            &&& opt_url_of(field_of(f, "thumbnailUri"@)) is Some
            &&& opt_time_of(field_of(f, "creationTime"@)) is Some
            &&& lenient_time_of(field_of(f, "lastModificationTime"@)) is Some
            &&& i32_of(field_of(f, "randomOrder"@)) is Some
            &&& i32_of(field_of(f, "visits"@)) is Some
            &&& number_of(field_of(f, "rating"@)) is Some
            &&& opt_owner_of(field_of(f, "ownerId"@)) is Some
            &&& submissions_decodable(field_of(f, "submissions"@))
        },
        _ => false,
    }
}

/// A record object names a directory and carries an asset.
pub open spec fn directory_with_asset(j: Json) -> bool {
    j matches Json::Object(m) && opt_url_of(field_of(m@, "assetUri"@)) matches Some(Some(_))
        && record_type_field(field_of(m@, "recordType"@)) == Some(RecordType::Directory)
}

/// A record object reads as a record: its members can be read, and a
/// directory carries no asset.
pub open spec fn record_decodable(j: Json) -> bool {
    record_members_readable(j) && !directory_with_asset(j)
}

/// `r` holds what the members of the record object `j` read as.
pub open spec fn record_decodes_to(j: Json, r: Record) -> bool {
    match j {
        Json::Object(m) => {
            let f = m@;
            &&& text_of(field_of(f, "id"@)) == Some(r.id@)
            &&& opt_url_of(field_of(f, "assetUri"@)) == Some(opt_text_view(r.asset_uri))
            &&& i32_of(field_of(f, "globalVersion"@)) == Some(r.global_version as int)
            &&& i32_of(field_of(f, "localVersion"@)) == Some(r.local_version as int)
            &&& opt_user_of(field_of(f, "lastModifyingUserId"@)) == Some(
                opt_user_view(r.last_update_by),
            )
            &&& opt_text_of(field_of(f, "lastModifyingMachineId"@)) == Some(
                opt_text_view(r.last_update_machine),
            )
            &&& text_of(field_of(f, "name"@)) == Some(r.name@)
            &&& record_type_field(field_of(f, "recordType"@)) == Some(r.record_type)
            &&& opt_text_of(field_of(f, "ownerName"@)) == Some(opt_text_view(r.owner_name))
            &&& text_list_of(field_of(f, "tags"@)) == Some(string_views(r.tags@))
            &&& text_of(field_of(f, "path"@)) == Some(r.path@)
            &&& bool_of(field_of(f, "isPublic"@)) == Some(r.is_public)
            &&& bool_of(field_of(f, "isForPatrons"@)) == Some(r.is_for_patrons)
            &&& bool_of(field_of(f, "isListed"@)) == Some(r.is_listed)
            &&& bool_of(field_of(f, "isDeleted"@)) == Some(r.is_deleted)
            &&& opt_url_of(field_of(f, "thumbnailUri"@)) == Some(opt_text_view(r.thumbnail_uri))
            &&& opt_time_of(field_of(f, "creationTime"@)) == Some(opt_instant(r.created_at))
            &&& lenient_time_of(field_of(f, "lastModificationTime"@)) == Some(r.updated_at@)
            &&& i32_of(field_of(f, "randomOrder"@)) == Some(r.random_order as int)
            &&& i32_of(field_of(f, "visits"@)) == Some(r.visits as int)
            &&& number_of(field_of(f, "rating"@)) == Some(r.rating)
            &&& opt_owner_of(field_of(f, "ownerId"@)) == Some(opt_owner_view(r.owner_id))
            &&& submissions_decode_to(field_of(f, "submissions"@), r.submissions@)
        },
        _ => false,
    }
}

/// `j` is the object that a record is written as: its members in
/// declaration order, keys in camel case, absent values as `null`.
pub open spec fn record_encoded_as(r: Record, j: Json) -> bool {
    match j {
        Json::Object(m) => {
            let f = m@;
            &&& f.len() == 23
            &&& f[0].0@ == "id"@ && is_str(f[0].1, r.id@)
            &&& f[1].0@ == "assetUri"@ && is_opt_str(f[1].1, opt_text_view(r.asset_uri))
            &&& f[2].0@ == "globalVersion"@ && is_int(f[2].1, r.global_version as int)
            &&& f[3].0@ == "localVersion"@ && is_int(f[3].1, r.local_version as int)
            &&& f[4].0@ == "lastModifyingUserId"@ && is_opt_str(
                f[4].1,
                opt_user_view(r.last_update_by),
            )
            &&& f[5].0@ == "lastModifyingMachineId"@ && is_opt_str(
                f[5].1,
                opt_text_view(r.last_update_machine),
            )
            &&& f[6].0@ == "name"@ && is_str(f[6].1, r.name@)
            &&& f[7].0@ == "recordType"@ && is_str(f[7].1, wire_name(r.record_type))
            &&& f[8].0@ == "ownerName"@ && is_opt_str(f[8].1, opt_text_view(r.owner_name))
            &&& f[9].0@ == "tags"@ && is_str_array(f[9].1, string_views(r.tags@))
            &&& f[10].0@ == "path"@ && is_str(f[10].1, r.path@)
            &&& f[11].0@ == "isPublic"@ && f[11].1 == Json::Bool(r.is_public)
            &&& f[12].0@ == "isForPatrons"@ && f[12].1 == Json::Bool(r.is_for_patrons)
            &&& f[13].0@ == "isListed"@ && f[13].1 == Json::Bool(r.is_listed)
            &&& f[14].0@ == "isDeleted"@ && f[14].1 == Json::Bool(r.is_deleted)
            &&& f[15].0@ == "thumbnailUri"@ && is_opt_str(f[15].1, opt_text_view(r.thumbnail_uri))
            &&& f[16].0@ == "creationTime"@ && is_opt_instant(f[16].1, opt_instant(r.created_at))
            &&& f[17].0@ == "lastModificationTime"@ && is_instant(f[17].1, r.updated_at@)
            &&& f[18].0@ == "randomOrder"@ && is_int(f[18].1, r.random_order as int)
            &&& f[19].0@ == "visits"@ && is_int(f[19].1, r.visits as int)
            &&& f[20].0@ == "rating"@ && f[20].1 == Json::Number(r.rating)
            &&& f[21].0@ == "ownerId"@ && is_opt_str(f[21].1, opt_owner_view(r.owner_id))
            &&& f[22].0@ == "submissions"@
            &&& f[22].1 matches Json::Array(v) && v@.len() == r.submissions@.len() && forall|i: int|
                0 <= i < r.submissions@.len() ==> submission_encoded_as(
                    r.submissions@[i],
                    #[trigger] v@[i],
                )
        },
        _ => false,
    }
}

/// Why a JSON value is not a record.
#[derive(Debug, PartialEq, Eq)]
pub enum DecodeError {
    /// The value is not an object.
    NotAnObject,
    /// The member with this key is missing or malformed.
    InvalidMember(String),
    /// A directory carries an asset.
    DirectoryWithAsset,
}

impl Record {
    /// Reads a record object. Absent optional members read as `None`, absent
    /// tags and submissions as empty lists, the record type in either
    /// spelling, and a modification time without offset as UTC.
    pub fn from_json(j: &Json) -> (r: Result<Record, DecodeError>)
        ensures
            r is Ok <==> record_decodable(*j),
            r matches Ok(rec) ==> record_decodes_to(*j, rec) && rec.wf(),
            r matches Err(DecodeError::NotAnObject) <==> !(j is Object),
            r matches Err(DecodeError::InvalidMember(_)) <==> j is Object
                && !record_members_readable(*j),
            r matches Err(DecodeError::DirectoryWithAsset) <==> record_members_readable(*j)
                && directory_with_asset(*j),
    {
        let m = match j {
            Json::Object(m) => m,
            _ => return Err(DecodeError::NotAnObject),
        };
        let id = match read_text(m, "id") {
            Some(v) => RecordId(v),
            None => return Err(DecodeError::InvalidMember(String::from_str("id"))),
        };
        let asset_uri = match read_opt_url(m, "assetUri") {
            Some(v) => v,
            None => return Err(DecodeError::InvalidMember(String::from_str("assetUri"))),
        };
        let global_version = match read_i32(m, "globalVersion") {
            Some(v) => v,
            None => return Err(DecodeError::InvalidMember(String::from_str("globalVersion"))),
        };
        let local_version = match read_i32(m, "localVersion") {
            Some(v) => v,
            None => return Err(DecodeError::InvalidMember(String::from_str("localVersion"))),
        };
        let last_update_by = match read_opt_user(m, "lastModifyingUserId") {
            Some(v) => v,
            None => return Err(
                DecodeError::InvalidMember(String::from_str("lastModifyingUserId")),
            ),
        };
        let last_update_machine = match read_opt_text(m, "lastModifyingMachineId") {
            Some(v) => v,
            None => return Err(
                DecodeError::InvalidMember(String::from_str("lastModifyingMachineId")),
            ),
        };
        let name = match read_text(m, "name") {
            Some(v) => v,
            None => return Err(DecodeError::InvalidMember(String::from_str("name"))),
        };
        let record_type = match read_record_type(m, "recordType") {
            Some(v) => v,
            None => return Err(DecodeError::InvalidMember(String::from_str("recordType"))),
        };
        let owner_name = match read_opt_text(m, "ownerName") {
            Some(v) => v,
            None => return Err(DecodeError::InvalidMember(String::from_str("ownerName"))),
        };
        let tags = match read_text_list(m, "tags") {
            Some(v) => v,
            None => return Err(DecodeError::InvalidMember(String::from_str("tags"))),
        };
        let path = match read_text(m, "path") {
            Some(v) => v,
            None => return Err(DecodeError::InvalidMember(String::from_str("path"))),
        };
        let is_public = match read_bool(m, "isPublic") {
            Some(v) => v,
            None => return Err(DecodeError::InvalidMember(String::from_str("isPublic"))),
        };
        let is_for_patrons = match read_bool(m, "isForPatrons") {
            Some(v) => v,
            None => return Err(DecodeError::InvalidMember(String::from_str("isForPatrons"))),
        };
        let is_listed = match read_bool(m, "isListed") {
            Some(v) => v,
            None => return Err(DecodeError::InvalidMember(String::from_str("isListed"))),
        };
        let is_deleted = match read_bool(m, "isDeleted") {
            Some(v) => v,
            None => return Err(DecodeError::InvalidMember(String::from_str("isDeleted"))),
        };
        let thumbnail_uri = match read_opt_url(m, "thumbnailUri") {
            Some(v) => v,
            None => return Err(DecodeError::InvalidMember(String::from_str("thumbnailUri"))),
        };
        let created_at = match read_opt_time(m, "creationTime") {
            Some(v) => v,
            None => return Err(DecodeError::InvalidMember(String::from_str("creationTime"))),
        };
        let updated_at = match read_lenient_time(m, "lastModificationTime") {
            Some(v) => v,
            None => return Err(
                DecodeError::InvalidMember(String::from_str("lastModificationTime")),
            ),
        };
        let random_order = match read_i32(m, "randomOrder") {
            Some(v) => v,
            None => return Err(DecodeError::InvalidMember(String::from_str("randomOrder"))),
        };
        let visits = match read_i32(m, "visits") {
            Some(v) => v,
            None => return Err(DecodeError::InvalidMember(String::from_str("visits"))),
        };
        let rating = match read_number(m, "rating") {
            Some(v) => v,
            None => return Err(DecodeError::InvalidMember(String::from_str("rating"))),
        };
        let owner_id = match read_opt_owner(m, "ownerId") {
            Some(v) => v,
            None => return Err(DecodeError::InvalidMember(String::from_str("ownerId"))),
        };
        let submissions = match read_submissions(m, "submissions") {
            Some(v) => v,
            None => return Err(DecodeError::InvalidMember(String::from_str("submissions"))),
        };
        if asset_uri.is_some() && record_type == RecordType::Directory {
            return Err(DecodeError::DirectoryWithAsset);
        }
        Ok(
            Record {
                id,
                asset_uri,
                global_version,
                local_version,
                last_update_by,
                last_update_machine,
                name,
                record_type,
                owner_name,
                tags,
                path,
                is_public,
                is_for_patrons,
                is_listed,
                is_deleted,
                thumbnail_uri,
                created_at,
                updated_at,
                random_order,
                visits,
                rating,
                owner_id,
                submissions,
            },
        )
    }

    /// Writes this record as a JSON object.
    pub fn to_json(&self) -> (r: Json)
        ensures
            record_encoded_as(*self, r),
    {
        proof {
            reveal_strlit("directory");
        }
        Json::Object(
            vec![
                member("id", text(self.id.as_str())),
                member("assetUri", opt_text(&self.asset_uri)),
                member("globalVersion", Json::Number(Number::Int(self.global_version as i64))),
                member("localVersion", Json::Number(Number::Int(self.local_version as i64))),
                member("lastModifyingUserId", opt_user_json(&self.last_update_by)),
                member("lastModifyingMachineId", opt_text(&self.last_update_machine)),
                member("name", text(self.name.as_str())),
                member("recordType", text(self.record_type.as_wire())),
                member("ownerName", opt_text(&self.owner_name)),
                member("tags", text_array(&self.tags)),
                member("path", text(self.path.as_str())),
                member("isPublic", Json::Bool(self.is_public)),
                member("isForPatrons", Json::Bool(self.is_for_patrons)),
                member("isListed", Json::Bool(self.is_listed)),
                member("isDeleted", Json::Bool(self.is_deleted)),
                member("thumbnailUri", opt_text(&self.thumbnail_uri)),
                member("creationTime", opt_time_json(&self.created_at)),
                member("lastModificationTime", self.updated_at.to_json()),
                member("randomOrder", Json::Number(Number::Int(self.random_order as i64))),
                member("visits", Json::Number(Number::Int(self.visits as i64))),
                member("rating", Json::Number(self.rating)),
                member("ownerId", opt_owner_json(&self.owner_id)),
                member("submissions", submissions_json(&self.submissions)),
            ],
        )
    }
}

} // verus!

verus! {

/// The attributes of one directory, as read by path. Its record type is
/// always directory and is not sent.
#[derive(Debug, PartialEq, Eq)]
pub struct DirectoryMetadata {
    pub id: RecordId,
    pub global_version: u32,
    pub local_version: u32,
    pub last_modify_user: UserId,
    pub last_modify_machine_user: String,
    pub name: String,
    pub owner_name: String,
    pub path: String,
    pub is_public: bool,
    pub is_for_patrons: bool,
    pub is_listed: bool,
    pub is_deleted: bool,
    pub created_at: Timestamp,
    pub updated_at: Timestamp,
}

/// Every member of a directory metadata object is present and readable.
pub open spec fn metadata_decodable(j: Json) -> bool {
    match j {
        Json::Object(m) => {
            let f = m@;
            &&& text_of(field_of(f, "id"@)) is Some
            &&& u32_of(field_of(f, "globalVersion"@)) is Some
            &&& u32_of(field_of(f, "localVersion"@)) is Some
            &&& user_of(field_of(f, "lastModifyingUserId"@)) is Some
            &&& text_of(field_of(f, "lastModifyingMachineId"@)) is Some
            &&& text_of(field_of(f, "name"@)) is Some
            &&& text_of(field_of(f, "ownerName"@)) is Some
            &&& text_of(field_of(f, "path"@)) is Some
            &&& bool_of(field_of(f, "isPublic"@)) is Some
            &&& bool_of(field_of(f, "isForPatrons"@)) is Some
            &&& bool_of(field_of(f, "isListed"@)) is Some
            &&& bool_of(field_of(f, "isDeleted"@)) is Some
            &&& time_of(field_of(f, "creationTime"@)) is Some
            &&& time_of(field_of(f, "lastModificationTime"@)) is Some
        },
        _ => false,
    }
}

/// `d` holds what the members of the metadata object `j` read as.
pub open spec fn metadata_decodes_to(j: Json, d: DirectoryMetadata) -> bool {
    match j {
        Json::Object(m) => {
            let f = m@;
            &&& text_of(field_of(f, "id"@)) == Some(d.id@)
            &&& u32_of(field_of(f, "globalVersion"@)) == Some(d.global_version as int)
            &&& u32_of(field_of(f, "localVersion"@)) == Some(d.local_version as int)
            &&& user_of(field_of(f, "lastModifyingUserId"@)) == Some(d.last_modify_user@)
            &&& text_of(field_of(f, "lastModifyingMachineId"@)) == Some(
                d.last_modify_machine_user@,
            )
            &&& text_of(field_of(f, "name"@)) == Some(d.name@)
            &&& text_of(field_of(f, "ownerName"@)) == Some(d.owner_name@)
            &&& text_of(field_of(f, "path"@)) == Some(d.path@)
            &&& bool_of(field_of(f, "isPublic"@)) == Some(d.is_public)
            &&& bool_of(field_of(f, "isForPatrons"@)) == Some(d.is_for_patrons)
            &&& bool_of(field_of(f, "isListed"@)) == Some(d.is_listed)
            &&& bool_of(field_of(f, "isDeleted"@)) == Some(d.is_deleted)
            &&& time_of(field_of(f, "creationTime"@)) == Some(d.created_at@)
            &&& time_of(field_of(f, "lastModificationTime"@)) == Some(d.updated_at@)
        },
        _ => false,
    }
}

/// `j` is the object that directory metadata is written as, its members in
/// declaration order.
pub open spec fn metadata_encoded_as(d: DirectoryMetadata, j: Json) -> bool {
    match j {
        Json::Object(m) => {
            let f = m@;
            &&& f.len() == 14
            &&& f[0].0@ == "id"@ && is_str(f[0].1, d.id@)
            &&& f[1].0@ == "globalVersion"@ && is_int(f[1].1, d.global_version as int)
            &&& f[2].0@ == "localVersion"@ && is_int(f[2].1, d.local_version as int)
            &&& f[3].0@ == "lastModifyingUserId"@ && is_str(f[3].1, d.last_modify_user@)
            &&& f[4].0@ == "lastModifyingMachineId"@ && is_str(
                f[4].1,
                d.last_modify_machine_user@,
            )
            &&& f[5].0@ == "name"@ && is_str(f[5].1, d.name@)
            &&& f[6].0@ == "ownerName"@ && is_str(f[6].1, d.owner_name@)
            &&& f[7].0@ == "path"@ && is_str(f[7].1, d.path@)
            &&& f[8].0@ == "isPublic"@ && f[8].1 == Json::Bool(d.is_public)
            &&& f[9].0@ == "isForPatrons"@ && f[9].1 == Json::Bool(d.is_for_patrons)
            &&& f[10].0@ == "isListed"@ && f[10].1 == Json::Bool(d.is_listed)
            &&& f[11].0@ == "isDeleted"@ && f[11].1 == Json::Bool(d.is_deleted)
            &&& f[12].0@ == "creationTime"@ && is_instant(f[12].1, d.created_at@)
            &&& f[13].0@ == "lastModificationTime"@ && is_instant(f[13].1, d.updated_at@)
        },
        _ => false,
    }
}

impl DirectoryMetadata {
    /// Reads a directory metadata object; every member is required.
    pub fn from_json(j: &Json) -> (r: Result<DirectoryMetadata, DecodeError>)
        ensures
            r is Ok <==> metadata_decodable(*j),
            r matches Ok(d) ==> metadata_decodes_to(*j, d),
            r matches Err(DecodeError::NotAnObject) <==> !(j is Object),
            r matches Err(DecodeError::InvalidMember(_)) <==> j is Object && !metadata_decodable(
                *j,
            ),
            !(r matches Err(DecodeError::DirectoryWithAsset)),
    {
        let m = match j {
            Json::Object(m) => m,
            _ => return Err(DecodeError::NotAnObject),
        };
        let id = match read_text(m, "id") {
            Some(v) => RecordId(v),
            None => return Err(DecodeError::InvalidMember(String::from_str("id"))),
        };
        let global_version = match read_u32(m, "globalVersion") {
            Some(v) => v,
            None => return Err(DecodeError::InvalidMember(String::from_str("globalVersion"))),
        };
        let local_version = match read_u32(m, "localVersion") {
            Some(v) => v,
            None => return Err(DecodeError::InvalidMember(String::from_str("localVersion"))),
        };
        let last_modify_user = match read_user(m, "lastModifyingUserId") {
            Some(v) => v,
            None => return Err(
                DecodeError::InvalidMember(String::from_str("lastModifyingUserId")),
            ),
        };
        let last_modify_machine_user = match read_text(m, "lastModifyingMachineId") {
            Some(v) => v,
            None => return Err(
                DecodeError::InvalidMember(String::from_str("lastModifyingMachineId")),
            ),
        };
        let name = match read_text(m, "name") {
            Some(v) => v,
            None => return Err(DecodeError::InvalidMember(String::from_str("name"))),
        };
        let owner_name = match read_text(m, "ownerName") {
            Some(v) => v,
            None => return Err(DecodeError::InvalidMember(String::from_str("ownerName"))),
        };
        let path = match read_text(m, "path") {
            Some(v) => v,
            None => return Err(DecodeError::InvalidMember(String::from_str("path"))),
        };
        let is_public = match read_bool(m, "isPublic") {
            Some(v) => v,
            None => return Err(DecodeError::InvalidMember(String::from_str("isPublic"))),
        };
        let is_for_patrons = match read_bool(m, "isForPatrons") {
            Some(v) => v,
            None => return Err(DecodeError::InvalidMember(String::from_str("isForPatrons"))),
        };
        let is_listed = match read_bool(m, "isListed") {
            Some(v) => v,
            None => return Err(DecodeError::InvalidMember(String::from_str("isListed"))),
        };
        let is_deleted = match read_bool(m, "isDeleted") {
            Some(v) => v,
            None => return Err(DecodeError::InvalidMember(String::from_str("isDeleted"))),
        };
        let created_at = match read_time(m, "creationTime") {
            Some(v) => v,
            None => return Err(DecodeError::InvalidMember(String::from_str("creationTime"))),
        };
        let updated_at = match read_time(m, "lastModificationTime") {
            Some(v) => v,
            None => return Err(
                DecodeError::InvalidMember(String::from_str("lastModificationTime")),
            ),
        };
        Ok(
            DirectoryMetadata {
                id,
                global_version,
                local_version,
                last_modify_user,
                last_modify_machine_user,
                name,
                owner_name,
                path,
                is_public,
                is_for_patrons,
                is_listed,
                is_deleted,
                created_at,
                updated_at,
            },
        )
    }

    /// Writes this metadata as a JSON object.
    pub fn to_json(&self) -> (r: Json)
        ensures
            metadata_encoded_as(*self, r),
    {
        Json::Object(
            vec![
                member("id", text(self.id.as_str())),
                member("globalVersion", Json::Number(Number::Int(self.global_version as i64))),
                member("localVersion", Json::Number(Number::Int(self.local_version as i64))),
                member("lastModifyingUserId", text(self.last_modify_user.as_str())),
                member("lastModifyingMachineId", text(self.last_modify_machine_user.as_str())),
                member("name", text(self.name.as_str())),
                member("ownerName", text(self.owner_name.as_str())),
                member("path", text(self.path.as_str())),
                member("isPublic", Json::Bool(self.is_public)),
                member("isForPatrons", Json::Bool(self.is_for_patrons)),
                member("isListed", Json::Bool(self.is_listed)),
                member("isDeleted", Json::Bool(self.is_deleted)),
                member("creationTime", self.created_at.to_json()),
                member("lastModificationTime", self.updated_at.to_json()),
            ],
        )
    }
}

/// A record object that leaves out its tags, owner name, thumbnail or
/// creation time still reads: those members read as no tags and as absent
/// values, and any record read from it holds exactly those defaults.
pub proof fn lemma_omitted_members_default(j: Json, r: Record)
    requires
        j matches Json::Object(m) && field_of(m@, "tags"@) is None && field_of(m@, "ownerName"@)
            is None && field_of(m@, "thumbnailUri"@) is None && field_of(m@, "creationTime"@)
            is None,
    ensures
        j matches Json::Object(m) && text_list_of(field_of(m@, "tags"@)) == Some(
            Seq::<Seq<char>>::empty(),
        ) && opt_text_of(field_of(m@, "ownerName"@)) == Some(None::<Seq<char>>) && opt_url_of(
            field_of(m@, "thumbnailUri"@),
        ) == Some(None::<Seq<char>>) && opt_time_of(field_of(m@, "creationTime"@)) == Some(
            None::<(int, int)>,
        ),
        record_decodes_to(j, r) ==> r.tags@.len() == 0 && r.owner_name is None
            && r.thumbnail_uri is None && r.created_at is None,
{
    if record_decodes_to(j, r) {
        assert(string_views(r.tags@).len() == 0);
    }
}

} // verus!
