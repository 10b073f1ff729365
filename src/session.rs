use vstd::prelude::*;
use crate::api::{
    is_plain_request, listing_endpoint, listing_url, login_endpoint, login_url, metadata_endpoint,
    metadata_url, record_endpoint, record_url, session_endpoint, session_url, ApiRequest, Method,
};
use crate::fields::{opt_text_view, read_text, read_user, text_of, user_of};
use crate::ids::{
    authorization_header_text, AbsoluteInventoryPath, AuthorizationInfo, EmailAddress,
    OneTimePassword, Password, RecordId, SessionToken, UserId, UserLoginPostResponse,
};
use crate::json::{field_of, is_str, member, text, Json};
use crate::record::{
    metadata_decodable, metadata_decodes_to, record_decodable, record_decodes_to,
    record_encoded_as, DecodeError, DirectoryMetadata, Record,
};
use crate::text::{ascii_lower, lowercase_ascii};
use vstd::utf8::{encode_utf8, is_ascii_chars, is_ascii_chars_encode_utf8};

verus! {

/// How a user is named at login: by e-mail address or by user id.
#[derive(Debug, PartialEq, Eq)]
pub enum UserIdentifyPointer {
    Email { email: EmailAddress },
    UserId { user_id: UserId },
}

impl UserIdentifyPointer {
    pub fn email(value: EmailAddress) -> (r: UserIdentifyPointer)
        ensures
            r == (UserIdentifyPointer::Email { email: value }),
    {
        UserIdentifyPointer::Email { email: value }
    }

    pub fn user_id(value: UserId) -> (r: UserIdentifyPointer)
        ensures
            r == (UserIdentifyPointer::UserId { user_id: value }),
    {
        UserIdentifyPointer::UserId { user_id: value }
    }
}

/// The credentials that a session is opened with.
#[derive(Debug, PartialEq, Eq)]
pub enum LoginInfo {
    /// A password login; the one-time password, if any, goes in a header.
    ByPassword {
        user_identify_pointer: UserIdentifyPointer,
        password: Password,
        totp: Option<OneTimePassword>,
    },
    /// A token handed over out of band; no login request is made.
    ByTokenFromStdin { user_id: UserId },
}

impl LoginInfo {
    pub fn get_totp(&self) -> (r: Option<&OneTimePassword>)
        ensures
            match self {
                LoginInfo::ByPassword { totp, .. } => match totp {
                    Some(t) => r == Some(t),
                    None => r is None,
                },
                LoginInfo::ByTokenFromStdin { .. } => r is None,
            },
    {
        match self {
            LoginInfo::ByPassword { totp, .. } => match totp {
                Some(t) => Some(t),
                None => None,
            },
            LoginInfo::ByTokenFromStdin { .. } => None,
        }
    }
}

/// A lower-case hexadecimal digit.
pub open spec fn is_lower_hex(c: char) -> bool {
    ('0' <= c <= '9') || ('a' <= c <= 'f')
}

/// The hyphenated lower-case text of a UUID: 36 characters, hyphens at 8,
/// 13, 18 and 23, lower-case hexadecimal digits elsewhere.
pub open spec fn is_uuid_text(s: Seq<char>) -> bool {
    &&& s.len() == 36
    &&& forall|i: int|
        0 <= i < 36 ==> if i == 8 || i == 13 || i == 18 || i == 23 {
            #[trigger] s[i] == '-'
        } else {
            is_lower_hex(s[i])
        }
}

/// Relies on `uuid::Uuid::new_v4` and `Display for Uuid`, which writes the
/// hyphenated lower-case form.
#[verifier::external_body]
pub(crate) fn random_uuid_text() -> (r: String)
    ensures
        is_uuid_text(r@),
{
    uuid::Uuid::new_v4().to_string()
}

/// The URL-safe, unpadded base64 text of some bytes.
pub uninterp spec fn base64_url_unpadded_of(b: Seq<u8>) -> Seq<char>;

/// Relies on `base64::encode_config` with `URL_SAFE_NO_PAD`, which panics
/// only when the encoded length overflows `usize`.
#[verifier::external_body]
fn base64_url_unpadded(b: &[u8]) -> (r: String)
    requires
        b@.len() <= usize::MAX / 4,
    ensures
        r@ == base64_url_unpadded_of(b@),
{
    base64::encode_config(b, base64::URL_SAFE_NO_PAD)
}

/// The machine id derived from a seed: its bytes in URL-safe unpadded
/// base64, lower-cased.
pub open spec fn machine_id_text(seed: Seq<u8>) -> Seq<char> {
    base64_url_unpadded_of(seed).map_values(|c: char| ascii_lower(c))
}

/// Derives a machine id from the UTF-8 bytes of `seed`.
pub fn machine_id_from(seed: &str) -> (r: String)
    requires
        encode_utf8(seed@).len() <= usize::MAX / 4,
    ensures
        r@ == machine_id_text(encode_utf8(seed@)),
{
    let encoded = base64_url_unpadded(seed.as_bytes());
    lowercase_ascii(encoded.as_str())
}

/// The body of a login request.
#[derive(Debug)]
pub struct UserLoginPostBody {
    pub login_method: LoginInfo,
    /// A per-device nonce that tells client instances apart.
    pub generated_machine_id: String,
    pub remember_me: bool,
}

/// The machine id was derived from some random UUID.
pub open spec fn is_random_machine_id(id: Seq<char>) -> bool {
    exists|u: Seq<char>| is_uuid_text(u) && id == machine_id_text(#[trigger] encode_utf8(u))
}

/// `j` is the JSON object a login body is written as: the user's e-mail
/// (`email`) or id (`ownerId`), or for a token login the user id
/// (`user_id`); then the password, the machine id (`secretMachineId`) and
/// `rememberMe`. The one-time password is not part of it.
pub open spec fn login_body_encoded_as(b: UserLoginPostBody, j: Json) -> bool {
    match j {
        Json::Object(m) => {
            let f = m@;
            match b.login_method {
                LoginInfo::ByPassword { user_identify_pointer, password, .. } => {
                    &&& f.len() == 4
                    &&& match user_identify_pointer {
                        UserIdentifyPointer::Email { email } => f[0].0@ == "email"@ && is_str(
                            f[0].1,
                            email@,
                        ),
                        UserIdentifyPointer::UserId { user_id } => f[0].0@ == "ownerId"@
                            && is_str(f[0].1, user_id@),
                    }
                    &&& f[1].0@ == "password"@ && is_str(f[1].1, password@)
                    &&& f[2].0@ == "secretMachineId"@ && is_str(f[2].1, b.generated_machine_id@)
                    &&& f[3].0@ == "rememberMe"@ && f[3].1 == Json::Bool(b.remember_me)
                },
                LoginInfo::ByTokenFromStdin { user_id } => {
                    &&& f.len() == 3
                    &&& f[0].0@ == "user_id"@ && is_str(f[0].1, user_id@)
                    &&& f[1].0@ == "secretMachineId"@ && is_str(f[1].1, b.generated_machine_id@)
                    &&& f[2].0@ == "rememberMe"@ && f[2].1 == Json::Bool(b.remember_me)
                },
            }
        },
        _ => false,
    }
}

impl UserLoginPostBody {
    /// A login body with a machine id derived from a fresh random UUID.
    pub fn create(login_method: LoginInfo, remember_me: bool) -> (r: UserLoginPostBody)
        ensures
            r.login_method == login_method,
            r.remember_me == remember_me,
            is_random_machine_id(r.generated_machine_id@),
    {
        let seed = random_uuid_text();
        proof {
            assert(is_ascii_chars(seed@)) by {
                assert forall|i: int| 0 <= i < seed@.len() implies '\0' <= #[trigger] seed@[i]
                    <= '\u{7f}' by {
                    assert(is_uuid_text(seed@));
                }
            }
            is_ascii_chars_encode_utf8(seed@);
        }
        let generated_machine_id = machine_id_from(seed.as_str());
        assert(is_uuid_text(seed@) && generated_machine_id@ == machine_id_text(
            encode_utf8(seed@),
        ));
        UserLoginPostBody { login_method, generated_machine_id, remember_me }
    }

    /// Writes this body as JSON.
    pub fn to_json(&self) -> (r: Json)
        ensures
            login_body_encoded_as(*self, r),
    {
        let tail_id = member("secretMachineId", text(self.generated_machine_id.as_str()));
        let tail_remember = member("rememberMe", Json::Bool(self.remember_me));
        match &self.login_method {
            LoginInfo::ByPassword { user_identify_pointer, password, .. } => {
                let who = match user_identify_pointer {
                    UserIdentifyPointer::Email { email } => member("email", text(email.as_str())),
                    UserIdentifyPointer::UserId { user_id } => member(
                        "ownerId",
                        text(user_id.as_str()),
                    ),
                };
                Json::Object(
                    vec![who, member("password", text(password.as_str())), tail_id, tail_remember],
                )
            },
            LoginInfo::ByTokenFromStdin { user_id } => {
                Json::Object(
                    vec![member("user_id", text(user_id.as_str())), tail_id, tail_remember],
                )
            },
        }
    }
}

/// The text of the one-time password of a login, if any.
pub open spec fn totp_text(l: LoginInfo) -> Option<Seq<char>> {
    match l {
        LoginInfo::ByPassword { totp: Some(t), .. } => Some(t@),
        _ => None,
    }
}

/// The `Authorization` header text of a session, if it has a credential.
pub open spec fn header_of(auth: Option<AuthorizationInfo>) -> Option<Seq<char>> {
    match auth {
        Some(a) => Some(authorization_header_text(a.owner_id@, a.token@)),
        None => None,
    }
}

/// Why a response could not be used.
#[derive(Debug, PartialEq, Eq)]
pub enum ReadError {
    /// The status code was not a success.
    Status(u16),
    /// The body was not the list that was asked for.
    NotAList,
    /// The body, or the item at this index of a list, did not read.
    Malformed(DecodeError),
    /// The list item at this index did not read.
    MalformedItem(usize, DecodeError),
}

/// The first step of opening a session.
pub enum LoginStart {
    /// The session is ready without a request: it is anonymous.
    Ready(LoggedIn),
    /// The token for this user must be read from outside; no request is made.
    NeedsToken(UserId),
    /// Send this login request and hand its response to
    /// `PreLogin::session_from_login_response`.
    Send(ApiRequest),
}

/// Opens sessions.
pub struct PreLogin;

impl PreLogin {
    /// Starts a login: no credentials give an anonymous session, a token
    /// login asks for the token, and a password login gives the request to
    /// send, carrying a fresh machine id and the one-time password as a
    /// header.
    pub fn begin(login_info: Option<LoginInfo>) -> (r: LoginStart)
        ensures
            login_info is None ==> (r matches LoginStart::Ready(s) && s.authorization_info is None
                && s.current_user is None),
            login_info matches Some(LoginInfo::ByTokenFromStdin { user_id }) ==> r
                == LoginStart::NeedsToken(user_id),
            login_info matches Some(l) ==> l is ByPassword ==> (r matches LoginStart::Send(req)
                && req.method == Method::Post && req.url@ == login_url()
                && req.authorization is None && opt_text_view(req.totp) == totp_text(l) && (
            req.body matches Some(j) && exists|b: UserLoginPostBody|
                b.login_method == l && !b.remember_me && is_random_machine_id(
                    b.generated_machine_id@,
                ) && #[trigger] login_body_encoded_as(b, j))),
    {
        match login_info {
            None => LoginStart::Ready(PreLogin::from_session_data(None, None)),
            Some(LoginInfo::ByTokenFromStdin { user_id }) => LoginStart::NeedsToken(user_id),
            Some(l) => {
                let totp = match l.get_totp() {
                    Some(t) => Some(t.0.clone()),
                    None => None,
                };
                let body = UserLoginPostBody::create(l, false);
                let j = body.to_json();
                let req = ApiRequest {
                    method: Method::Post,
                    url: login_endpoint(),
                    authorization: None,
                    totp,
                    body: Some(j),
                };
                LoginStart::Send(req)
            },
        }
    }

    /// A session made from what the caller already holds.
    pub fn from_session_data(
        current_user: Option<UserId>,
        authorization_info: Option<AuthorizationInfo>,
    ) -> (r: LoggedIn)
        ensures
            r.current_user == current_user,
            r.authorization_info == authorization_info,
    {
        LoggedIn { authorization_info, current_user }
    }

    /// A session for a token that was handed over out of band.
    pub fn from_token(user_id: UserId, token: SessionToken) -> (r: LoggedIn)
        ensures
            r.current_user == Some(user_id),
            r.authorization_info == Some(AuthorizationInfo { owner_id: user_id, token }),
    {
        let owner = user_id.clone();
        PreLogin::from_session_data(Some(user_id), Some(AuthorizationInfo::new(owner, token)))
    }

    /// Reads a login response: a success whose body holds `userId` and
    /// `token` opens an authenticated session for that user.
    pub fn session_from_login_response(status: u16, body: &Json) -> (r: Result<
        LoggedIn,
        ReadError,
    >)
        ensures
            r is Ok <==> 200 <= status < 300 && login_response_decodable(*body),
            !(200 <= status < 300) ==> r == Err::<LoggedIn, ReadError>(ReadError::Status(status)),
            r matches Err(ReadError::Status(_)) ==> !(200 <= status < 300),
            r matches Err(ReadError::Malformed(_)) <==> 200 <= status < 300
                && !login_response_decodable(*body),
            !(r matches Err(ReadError::NotAList)) && !(r matches Err(ReadError::MalformedItem(_, _))),
            r matches Ok(s) ==> body matches Json::Object(m) && s.authorization_info matches Some(
                a,
            ) && user_of(field_of(m@, "userId"@)) == Some(a.owner_id@) && text_of(
                field_of(m@, "token"@),
            ) == Some(a.token@) && s.current_user == Some(a.owner_id),
    {
        if !(200 <= status && status < 300) {
            return Err(ReadError::Status(status));
        }
        match UserLoginPostResponse::from_json(body) {
            Ok(resp) => {
                let auth = resp.to_authorization_info();
                Ok(PreLogin::from_session_data(Some(resp.user_id), Some(auth)))
            },
            Err(e) => Err(ReadError::Malformed(e)),
        }
    }
}

/// A login response object holds a user id under `userId` and a token under
/// `token`.
pub open spec fn login_response_decodable(j: Json) -> bool {
    j matches Json::Object(m) && user_of(field_of(m@, "userId"@)) is Some && text_of(
        field_of(m@, "token"@),
    ) is Some
}

impl UserLoginPostResponse {
    /// Reads a login response object.
    pub fn from_json(j: &Json) -> (r: Result<UserLoginPostResponse, DecodeError>)
        ensures
            r is Ok <==> login_response_decodable(*j),
            r matches Ok(resp) ==> j matches Json::Object(m) && user_of(field_of(m@, "userId"@))
                == Some(resp.user_id@) && text_of(field_of(m@, "token"@)) == Some(resp.token@),
    {
        let m = match j {
            Json::Object(m) => m,
            _ => return Err(DecodeError::NotAnObject),
        };
        let user_id = match read_user(m, "userId") {
            Some(v) => v,
            None => return Err(DecodeError::InvalidMember(String::from_str("userId"))),
        };
        let token = match read_text(m, "token") {
            Some(v) => SessionToken::new(v),
            None => return Err(DecodeError::InvalidMember(String::from_str("token"))),
        };
        Ok(UserLoginPostResponse { user_id, token })
    }
}

/// An open session, authenticated or anonymous.
pub struct LoggedIn {
    pub authorization_info: Option<AuthorizationInfo>,
    pub current_user: Option<UserId>,
}

impl LoggedIn {
    pub open spec fn header(&self) -> Option<Seq<char>> {
        header_of(self.authorization_info)
    }

    /// The `Authorization` header of this session, if it has a credential.
    pub fn authorization_header(&self) -> (r: Option<String>)
        ensures
            opt_text_view(r) == self.header(),
    {
        match &self.authorization_info {
            Some(a) => Some(a.as_authorization_header_value()),
            None => None,
        }
    }

    fn plain_request(&self, method: Method, url: String) -> (r: ApiRequest)
        ensures
            is_plain_request(r, method, url@, self.header()),
    {
        ApiRequest {
            method,
            url,
            authorization: self.authorization_header(),
            totp: None,
            body: None,
        }
    }

    /// The request that fetches one record.
    pub fn get_record_request(&self, owner_id: &UserId, record_id: &RecordId) -> (r: ApiRequest)
        ensures
            is_plain_request(r, Method::Get, record_url(owner_id@, record_id@), self.header()),
    {
        self.plain_request(Method::Get, record_endpoint(owner_id, record_id))
    }

    /// The request that lists the children of a directory.
    pub fn get_directory_items_request(
        &self,
        owner_id: &UserId,
        path: &AbsoluteInventoryPath,
    ) -> (r: ApiRequest)
        ensures
            is_plain_request(r, Method::Get, listing_url(owner_id@, path@), self.header()),
    {
        self.plain_request(Method::Get, listing_endpoint(owner_id, path))
    }

    /// The request that fetches a directory's own attributes.
    pub fn get_directory_metadata_request(
        &self,
        owner_id: &UserId,
        path: &AbsoluteInventoryPath,
    ) -> (r: ApiRequest)
        ensures
            is_plain_request(r, Method::Get, metadata_url(owner_id@, path@), self.header()),
    {
        self.plain_request(Method::Get, metadata_endpoint(owner_id, path))
    }

    /// The request that deletes one record.
    pub fn delete_record_request(&self, owner_id: &UserId, record_id: &RecordId) -> (r:
        ApiRequest)
        ensures
            is_plain_request(r, Method::Delete, record_url(owner_id@, record_id@), self.header()),
    {
        self.plain_request(Method::Delete, record_endpoint(owner_id, record_id))
    }

    /// The request that creates or replaces a record under `record_id`.
    pub fn put_record_request(&self, owner_id: &UserId, record_id: &RecordId, record: &Record) -> (r:
        ApiRequest)
        ensures
            r.method == Method::Put,
            r.url@ == record_url(owner_id@, record_id@),
            opt_text_view(r.authorization) == self.header(),
            r.totp is None,
            r.body matches Some(j) && record_encoded_as(*record, j),
    {
        ApiRequest {
            method: Method::Put,
            url: record_endpoint(owner_id, record_id),
            authorization: self.authorization_header(),
            totp: None,
            body: Some(record.to_json()),
        }
    }

    /// The request that ends this session: none for an anonymous session,
    /// else one delete of the session named by its owner and token.
    pub fn logout_request(&self) -> (r: Option<ApiRequest>)
        ensures
            r is Some <==> self.authorization_info is Some,
            r matches Some(req) ==> self.authorization_info matches Some(a) && is_plain_request(
                req,
                Method::Delete,
                session_url(a.owner_id@, a.token@),
                self.header(),
            ),
    {
        match &self.authorization_info {
            Some(a) => Some(
                self.plain_request(
                    Method::Delete,
                    session_endpoint(&a.owner_id, a.token.as_str()),
                ),
            ),
            None => None,
        }
    }

    /// Reads the response to a record fetch: the record only for status 200
    /// with a body that reads as one; 403, 404 and every other status give
    /// `None`.
    pub fn record_from_response(status: u16, body: &Json) -> (r: Option<Record>)
        ensures
            r is Some <==> status == 200 && record_decodable(*body),
            r matches Some(rec) ==> record_decodes_to(*body, rec) && rec.wf(),
    {
        if status != 200 {
            return None;
        }
        match Record::from_json(body) {
            Ok(rec) => Some(rec),
            Err(_) => None,
        }
    }

    /// Reads the response to a directory listing: on success, the immediate
    /// children in the order given; an empty list is a valid answer.
    pub fn directory_items_from_response(status: u16, body: &Json) -> (r: Result<
        Vec<Record>,
        ReadError,
    >)
        ensures
            r is Ok <==> 200 <= status < 300 && listing_decodable(*body),
            !(200 <= status < 300) ==> r == Err::<Vec<Record>, ReadError>(ReadError::Status(status)),
            r matches Err(ReadError::Status(_)) ==> !(200 <= status < 300),
            r matches Err(ReadError::NotAList) <==> 200 <= status < 300 && !(body is Array),
            r matches Err(ReadError::MalformedItem(i, _)) ==> body matches Json::Array(items)
                && i < items@.len() && !record_decodable(items@[i as int]) && forall|k: int|
                0 <= k < i ==> record_decodable(#[trigger] items@[k]),
            !(r matches Err(ReadError::Malformed(_))),
            r matches Ok(v) ==> body matches Json::Array(items) && items@.len() == v@.len()
                && forall|i: int|
                0 <= i < v@.len() ==> record_decodes_to(#[trigger] items@[i], v@[i]),
    {
        if !(200 <= status && status < 300) {
            return Err(ReadError::Status(status));
        }
        let items = match body {
            Json::Array(items) => items,
            _ => return Err(ReadError::NotAList),
        };
        let mut out: Vec<Record> = Vec::new();
        let mut i: usize = 0;
        while i < items.len()
            invariant
                *body == Json::Array(*items),
                200 <= status < 300,
                i <= items@.len(),
                out@.len() == i,
                forall|k: int| 0 <= k < i ==> record_decodable(#[trigger] items@[k]),
                forall|k: int| 0 <= k < i ==> record_decodes_to(#[trigger] items@[k], out@[k]),
            decreases items@.len() - i,
        {
            match Record::from_json(&items[i]) {
                Ok(rec) => out.push(rec),
                Err(e) => {
                    let ghost whole = Json::Array(*items);
                    assert(whole matches Json::Array(v) && v@ == (*items)@);
                    assert(!record_decodable((*items)@[i as int]));
                    return Err(ReadError::MalformedItem(i, e));
                },
            }
            i = i + 1;
        }
        Ok(out)
    }

    /// Reads the response to a directory metadata fetch.
    pub fn directory_metadata_from_response(status: u16, body: &Json) -> (r: Result<
        DirectoryMetadata,
        ReadError,
    >)
        ensures
            r is Ok <==> 200 <= status < 300 && metadata_decodable(*body),
            !(200 <= status < 300) ==> r == Err::<DirectoryMetadata, ReadError>(ReadError::Status(status)),
            r matches Err(ReadError::Status(_)) ==> !(200 <= status < 300),
            r matches Err(ReadError::Malformed(_)) <==> 200 <= status < 300
                && !metadata_decodable(*body),
            !(r matches Err(ReadError::NotAList)) && !(r matches Err(ReadError::MalformedItem(_, _))),
            r matches Ok(d) ==> metadata_decodes_to(*body, d),
    {
        if !(200 <= status && status < 300) {
            return Err(ReadError::Status(status));
        }
        match DirectoryMetadata::from_json(body) {
            Ok(d) => Ok(d),
            Err(e) => Err(ReadError::Malformed(e)),
        }
    }
}

/// A listing body is an array of record objects.
pub open spec fn listing_decodable(j: Json) -> bool {
    j matches Json::Array(items) && forall|i: int|
        0 <= i < items@.len() ==> record_decodable(#[trigger] items@[i])
}

} // verus!
