use vstd::prelude::*;
use crate::text::{
    has_prefix, join_strings, join_with, lemma_join_split, split_on, split_string, starts_with,
    string_views,
};

verus! {

/// The prefix that every user id carries.
pub open spec fn user_prefix() -> Seq<char> {
    seq!['U', '-']
}

/// The prefix that every group id carries.
pub open spec fn group_prefix() -> Seq<char> {
    seq!['G', '-']
}

/// Identifies a user. Its text always begins with `U-`.
#[derive(Debug, PartialEq, Eq)]
pub struct UserId(String);

impl View for UserId {
    type V = Seq<char>;

    closed spec fn view(&self) -> Seq<char> {
        self.0@
    }
}

impl UserId {
    #[verifier::type_invariant]
    spec fn well_formed(self) -> bool {
        has_prefix(self.0@, user_prefix())
    }

    /// Parses a user id: succeeds exactly when `s` begins with `U-`.
    pub fn parse(s: &str) -> (r: Option<UserId>)
        ensures
            r is Some <==> has_prefix(s@, user_prefix()),
            r matches Some(id) ==> id@ == s@,
    {
        proof {
            reveal_strlit("U-");
            assert("U-"@ =~= user_prefix());
        }
        if starts_with(s, "U-") {
            Some(UserId(String::from_str(s)))
        } else {
            None
        }
    }

    pub fn as_str(&self) -> (r: &str)
        ensures
            r@ == self@,
            has_prefix(r@, user_prefix()),
    {
        proof {
            use_type_invariant(self);
        }
        self.0.as_str()
    }
}

impl Clone for UserId {
    fn clone(&self) -> (r: Self)
        ensures
            r == *self,
    {
        proof {
            use_type_invariant(self);
        }
        UserId(self.0.clone())
    }
}

/// Identifies a group. Its text always begins with `G-`.
#[derive(Debug, PartialEq, Eq)]
pub struct GroupId(String);

impl View for GroupId {
    type V = Seq<char>;

    closed spec fn view(&self) -> Seq<char> {
        self.0@
    }
}

impl GroupId {
    #[verifier::type_invariant]
    spec fn well_formed(self) -> bool {
        has_prefix(self.0@, group_prefix())
    }

    /// Parses a group id: succeeds exactly when `s` begins with `G-`.
    pub fn parse(s: &str) -> (r: Option<GroupId>)
        ensures
            r is Some <==> has_prefix(s@, group_prefix()),
            r matches Some(id) ==> id@ == s@,
    {
        proof {
            reveal_strlit("G-");
            assert("G-"@ =~= group_prefix());
        }
        if starts_with(s, "G-") {
            Some(GroupId(String::from_str(s)))
        } else {
            None
        }
    }

    pub fn as_str(&self) -> (r: &str)
        ensures
            r@ == self@,
            has_prefix(r@, group_prefix()),
    {
        proof {
            use_type_invariant(self);
        }
        self.0.as_str()
    }
}

impl Clone for GroupId {
    fn clone(&self) -> (r: Self)
        ensures
            r == *self,
    {
        proof {
            use_type_invariant(self);
        }
        GroupId(self.0.clone())
    }
}

/// A parse of a user id succeeds exactly on texts that begin with `U-`, and a
/// parse of a group id exactly on texts that begin with `G-`; what succeeds
/// keeps the text unchanged.
pub proof fn lemma_id_prefixes(s: Seq<char>)
    ensures
        has_prefix(s, user_prefix()) <==> (s.len() >= 2 && s[0] == 'U' && s[1] == '-'),
        has_prefix(s, group_prefix()) <==> (s.len() >= 2 && s[0] == 'G' && s[1] == '-'),
        !(has_prefix(s, user_prefix()) && has_prefix(s, group_prefix())),
{
    if s.len() >= 2 {
        assert(s.subrange(0, 2)[0] == s[0]);
        assert(s.subrange(0, 2)[1] == s[1]);
        if s[0] == 'U' && s[1] == '-' {
            assert(s.subrange(0, 2) =~= user_prefix());
        }
        if s[0] == 'G' && s[1] == '-' {
            assert(s.subrange(0, 2) =~= group_prefix());
        }
    }
}

/// Identifies a record. Any text is accepted; ids that this library makes
/// have the form `R-` followed by a lower-case UUID.
#[derive(Debug, PartialEq, Eq)]
pub struct RecordId(pub String);

impl View for RecordId {
    type V = Seq<char>;

    open spec fn view(&self) -> Seq<char> {
        self.0@
    }
}

impl RecordId {
    pub fn parse(s: &str) -> (r: RecordId)
        ensures
            r@ == s@,
    {
        RecordId(String::from_str(s))
    }

    pub fn as_str(&self) -> (r: &str)
        ensures
            r@ == self@,
    {
        self.0.as_str()
    }
}

impl Clone for RecordId {
    fn clone(&self) -> (r: Self)
        ensures
            r == *self,
    {
        RecordId(self.0.clone())
    }
}

/// A user's password.
#[derive(Debug, PartialEq, Eq)]
pub struct Password(String);

impl View for Password {
    type V = Seq<char>;

    closed spec fn view(&self) -> Seq<char> {
        self.0@
    }
}

impl Password {
    pub fn new(inner: String) -> (r: Password)
        ensures
            r@ == inner@,
    {
        Password(inner)
    }

    pub fn as_str(&self) -> (r: &str)
        ensures
            r@ == self@,
    {
        self.0.as_str()
    }
}

impl Clone for Password {
    fn clone(&self) -> (r: Self)
        ensures
            r == *self,
    {
        Password(self.0.clone())
    }
}

/// The bearer credential that a login hands out.
#[derive(Debug, PartialEq, Eq)]
pub struct SessionToken(String);

impl View for SessionToken {
    type V = Seq<char>;

    closed spec fn view(&self) -> Seq<char> {
        self.0@
    }
}

impl SessionToken {
    pub fn new(inner: String) -> (r: SessionToken)
        ensures
            r@ == inner@,
    {
        SessionToken(inner)
    }

    pub fn as_str(&self) -> (r: &str)
        ensures
            r@ == self@,
    {
        self.0.as_str()
    }

    /// The token on a line of input: the line without its ending (`\n` or
    /// `\r\n`).
    pub fn from_input_line(line: &str) -> (r: SessionToken)
        ensures
            r@ == line_content(line@),
    {
        let n = line.unicode_len();
        let mut end = n;
        if end > 0 && line.get_char(end - 1) == '\n' {
            end = end - 1;
            if end > 0 && line.get_char(end - 1) == '\r' {
                end = end - 1;
            }
        }
        SessionToken(String::from_str(line.substring_char(0, end)))
    }
}

/// A line of input without its ending: a final `\n`, and a `\r` before it.
pub open spec fn line_content(s: Seq<char>) -> Seq<char> {
    if s.len() > 0 && s.last() == '\n' {
        let t = s.drop_last();
        if t.len() > 0 && t.last() == '\r' {
            t.drop_last()
        } else {
            t
        }
    } else {
        s
    }
}

impl Clone for SessionToken {
    fn clone(&self) -> (r: Self)
        ensures
            r == *self,
    {
        SessionToken(self.0.clone())
    }
}

/// A one-time password, sent beside a password login.
#[derive(Debug, PartialEq, Eq)]
pub struct OneTimePassword(pub String);

impl View for OneTimePassword {
    type V = Seq<char>;

    open spec fn view(&self) -> Seq<char> {
        self.0@
    }
}

impl Clone for OneTimePassword {
    fn clone(&self) -> (r: Self)
        ensures
            r == *self,
    {
        OneTimePassword(self.0.clone())
    }
}

/// Whether a text is an e-mail address under `email_address`'s default rules.
pub uninterp spec fn is_email_address(s: Seq<char>) -> bool;

/// Relies on `email_address::EmailAddress::is_valid`: whether the text parses
/// as an address under the default options.
#[verifier::external_body]
fn email_is_valid(s: &str) -> (r: bool)
    ensures
        r == is_email_address(s@),
{
    email_address::EmailAddress::is_valid(s)
}

/// An e-mail address, kept as the text it was parsed from.
#[derive(Debug, PartialEq, Eq)]
pub struct EmailAddress(String);

impl View for EmailAddress {
    type V = Seq<char>;

    closed spec fn view(&self) -> Seq<char> {
        self.0@
    }
}

impl EmailAddress {
    #[verifier::type_invariant]
    spec fn well_formed(self) -> bool {
        is_email_address(self.0@)
    }

    /// Parses an address: succeeds exactly on valid addresses, and keeps
    /// the text.
    pub fn parse(s: &str) -> (r: Option<EmailAddress>)
        ensures
            r is Some <==> is_email_address(s@),
            r matches Some(e) ==> e@ == s@,
    {
        if email_is_valid(s) {
            Some(EmailAddress(String::from_str(s)))
        } else {
            None
        }
    }

    pub fn as_str(&self) -> (r: &str)
        ensures
            r@ == self@,
            is_email_address(r@),
    {
        proof {
            use_type_invariant(self);
        }
        self.0.as_str()
    }
}

impl Clone for EmailAddress {
    fn clone(&self) -> (r: Self)
        ensures
            r == *self,
    {
        proof {
            use_type_invariant(self);
        }
        EmailAddress(self.0.clone())
    }
}

/// The text of an authorization header: `neos <owner>:<token>`.
pub open spec fn authorization_header_text(owner: Seq<char>, token: Seq<char>) -> Seq<char> {
    seq!['n', 'e', 'o', 's', ' '] + owner + seq![':'] + token
}

/// The credential of an authenticated session.
#[derive(Debug)]
pub struct AuthorizationInfo {
    pub owner_id: UserId,
    pub token: SessionToken,
}

impl AuthorizationInfo {
    pub fn new(owner_id: UserId, token: SessionToken) -> (r: AuthorizationInfo)
        ensures
            r.owner_id == owner_id,
            r.token == token,
    {
        AuthorizationInfo { owner_id, token }
    }

    /// The value of the `Authorization` header for this credential.
    pub fn as_authorization_header_value(&self) -> (r: String)
        ensures
            r@ == authorization_header_text(self.owner_id@, self.token@),
    {
        proof {
            reveal_strlit("neos ");
            reveal_strlit(":");
        }
        let mut out = String::from_str("neos ");
        out.append(self.owner_id.as_str());
        out.append(":");
        out.append(self.token.as_str());
        out
    }
}

impl Clone for AuthorizationInfo {
    fn clone(&self) -> (r: Self)
        ensures
            r == *self,
    {
        AuthorizationInfo { owner_id: self.owner_id.clone(), token: self.token.clone() }
    }
}

/// What a successful login answers.
pub struct UserLoginPostResponse {
    pub user_id: UserId,
    pub token: SessionToken,
}

impl UserLoginPostResponse {
    pub fn to_authorization_info(&self) -> (r: AuthorizationInfo)
        ensures
            r.owner_id == self.user_id,
            r.token == self.token,
    {
        AuthorizationInfo { owner_id: self.user_id.clone(), token: self.token.clone() }
    }
}

/// A credential together with the user it belongs to.
#[derive(Debug)]
pub struct LoginResponse {
    pub using_token: AuthorizationInfo,
    pub user_id: UserId,
}

/// The segments of a `/`-separated path text.
pub open spec fn path_segments(s: Seq<char>) -> Seq<Seq<char>> {
    split_on(s, '/')
}

/// The `/`-separated text of a path.
pub open spec fn slash_path_text(segments: Seq<Seq<char>>) -> Seq<char> {
    join_with(segments, seq!['/'])
}

/// The query form of a path: segments joined by an escaped backslash.
pub open spec fn query_path_text(segments: Seq<Seq<char>>) -> Seq<char> {
    join_with(segments, seq!['%', '5', 'C'])
}

/// A path from the inventory root: a sequence of literal segments, in which
/// `.` and `..` have no special meaning.
#[derive(Debug, PartialEq, Eq)]
pub struct AbsoluteInventoryPath {
    inner: Vec<String>,
}

impl View for AbsoluteInventoryPath {
    type V = Seq<Seq<char>>;

    closed spec fn view(&self) -> Seq<Seq<char>> {
        string_views(self.inner@)
    }
}

impl AbsoluteInventoryPath {
    pub fn from_segments(segments: Vec<String>) -> (r: AbsoluteInventoryPath)
        ensures
            r@ == string_views(segments@),
    {
        AbsoluteInventoryPath { inner: segments }
    }

    /// Splits `s` at every `/`.
    pub fn parse(s: &str) -> (r: AbsoluteInventoryPath)
        ensures
            r@ == path_segments(s@),
    {
        AbsoluteInventoryPath { inner: split_string(s, '/') }
    }

    pub fn segments(&self) -> (r: &Vec<String>)
        ensures
            string_views(r@) == self@,
    {
        &self.inner
    }

    pub fn to_uri_query_value(&self) -> (r: String)
        ensures
            r@ == query_path_text(self@),
    {
        proof {
            reveal_strlit("%5C");
            assert("%5C"@ =~= seq!['%', '5', 'C']);
        }
        join_strings(&self.inner, "%5C")
    }

    pub fn to_absolute_path(&self) -> (r: String)
        ensures
            r@ == slash_path_text(self@),
    {
        proof {
            reveal_strlit("/");
            assert("/"@ =~= seq!['/']);
        }
        join_strings(&self.inner, "/")
    }
}

impl Default for AbsoluteInventoryPath {
    fn default() -> (r: Self)
        ensures
            r@ == Seq::<Seq<char>>::empty(),
    {
        let r = AbsoluteInventoryPath { inner: Vec::new() };
        assert(r@ =~= Seq::<Seq<char>>::empty());
        r
    }
}

impl Clone for AbsoluteInventoryPath {
    fn clone(&self) -> (r: Self)
        ensures
            r@ == self@,
    {
        let inner = self.inner.clone();
        assert(string_views(inner@) =~= string_views(self.inner@));
        AbsoluteInventoryPath { inner }
    }
}

/// Parsing a text as a path and writing the path with `/` again gives back
/// the text exactly, `.` and `..` segments included.
pub proof fn lemma_path_round_trip(s: Seq<char>)
    ensures
        slash_path_text(path_segments(s)) == s,
{
    lemma_join_split(s, '/');
}

} // verus!
