use reinventory_manager::api::Method;
use reinventory_manager::cli::{Args, ArgsError, ColorPolicy, LogLevel, Platform, ToolSubCommand};
use reinventory_manager::ids::{
    AbsoluteInventoryPath, EmailAddress, OneTimePassword, Password, RecordId, SessionToken, UserId,
};
use reinventory_manager::json::{Json, Number};
use reinventory_manager::moving::{ItemOutcome, MoveAction, MovePhase};
use reinventory_manager::record::{Record, RecordType};
use reinventory_manager::session::{
    machine_id_from, LoggedIn, LoginInfo, LoginStart, PreLogin, ReadError, UserIdentifyPointer,
    UserLoginPostBody,
};
use reinventory_manager::status::{classify_status, StatusClass};

fn s(x: &str) -> Json {
    Json::Str(x.to_string())
}

fn obj(members: Vec<(&str, Json)>) -> Json {
    Json::Object(members.into_iter().map(|(k, v)| (k.to_string(), v)).collect())
}

fn record_json(id: &str, kind: &str, path: &str) -> Json {
    obj(vec![
        ("id", s(id)),
        ("globalVersion", Json::Number(Number::Int(1))),
        ("localVersion", Json::Number(Number::Int(1))),
        ("name", s("thing")),
        ("recordType", s(kind)),
        ("path", s(path)),
        ("isPublic", Json::Bool(false)),
        ("isForPatrons", Json::Bool(false)),
        ("isListed", Json::Bool(false)),
        ("isDeleted", Json::Bool(false)),
        ("lastModificationTime", s("2023-01-01T00:00:00Z")),
        ("randomOrder", Json::Number(Number::Int(0))),
        ("visits", Json::Number(Number::Int(0))),
        ("rating", Json::Number(Number::Float(0))),
    ])
}

fn member<'a>(j: &'a Json, key: &str) -> Option<&'a Json> {
    match j {
        Json::Object(m) => m.iter().find(|(k, _)| k == key).map(|(_, v)| v),
        _ => None,
    }
}

fn session() -> LoggedIn {
    PreLogin::from_token(UserId::parse("U-1").unwrap(), SessionToken::new("T-1".to_string()))
}

fn is_r_uuid(id: &str) -> bool {
    let chars: Vec<char> = id.chars().collect();
    chars.len() == 38
        && id.starts_with("R-")
        && chars[2..].iter().enumerate().all(|(i, c)| {
            if [8, 13, 18, 23].contains(&i) {
                *c == '-'
            } else {
                c.is_ascii_digit() || ('a'..='f').contains(c)
            }
        })
}

#[test]
fn login_by_email_then_response_gives_header() {
    let info = LoginInfo::ByPassword {
        user_identify_pointer: UserIdentifyPointer::email(EmailAddress::parse("a@b.com").unwrap()),
        password: Password::new("pw".to_string()),
        totp: None,
    };
    let req = match PreLogin::begin(Some(info)) {
        LoginStart::Send(req) => req,
        _ => panic!("a password login sends a request"),
    };
    assert_eq!(req.method, Method::Post);
    assert_eq!(req.url, "https://api.neos.com/api/userSessions");
    assert_eq!(req.authorization, None);
    assert_eq!(req.totp, None);
    let body = req.body.unwrap();
    assert_eq!(member(&body, "email"), Some(&s("a@b.com")));
    assert_eq!(member(&body, "password"), Some(&s("pw")));
    assert_eq!(member(&body, "rememberMe"), Some(&Json::Bool(false)));
    assert!(member(&body, "totp").is_none());
    let response = obj(vec![("userId", s("U-1")), ("token", s("T-1"))]);
    let session = PreLogin::session_from_login_response(200, &response).ok().unwrap();
    assert_eq!(session.authorization_header(), Some("neos U-1:T-1".to_string()));
    assert_eq!(session.current_user.unwrap().as_str(), "U-1");
}

#[test]
fn login_with_one_time_password_sends_header() {
    let info = LoginInfo::ByPassword {
        user_identify_pointer: UserIdentifyPointer::user_id(UserId::parse("U-9").unwrap()),
        password: Password::new("pw".to_string()),
        totp: Some(OneTimePassword("123456".to_string())),
    };
    match PreLogin::begin(Some(info)) {
        LoginStart::Send(req) => {
            assert_eq!(req.totp, Some("123456".to_string()));
            let body = req.body.unwrap();
            assert_eq!(member(&body, "ownerId"), Some(&s("U-9")));
            assert!(member(&body, "totp").is_none());
        }
        _ => panic!("a password login sends a request"),
    }
}

#[test]
fn login_without_credentials_is_anonymous() {
    match PreLogin::begin(None) {
        LoginStart::Ready(session) => {
            assert_eq!(session.authorization_header(), None);
            assert!(session.logout_request().is_none());
        }
        _ => panic!("no credentials make no request"),
    }
    match PreLogin::begin(Some(LoginInfo::ByTokenFromStdin { user_id: UserId::parse("U-2").unwrap() })) {
        LoginStart::NeedsToken(user) => assert_eq!(user.as_str(), "U-2"),
        _ => panic!("a token login asks for the token"),
    }
}

#[test]
fn login_response_errors() {
    let ok = obj(vec![("userId", s("U-1")), ("token", s("T-1"))]);
    assert!(matches!(PreLogin::session_from_login_response(403, &ok), Err(ReadError::Status(403))));
    let bad = obj(vec![("userId", s("X-1")), ("token", s("T-1"))]);
    assert!(matches!(PreLogin::session_from_login_response(200, &bad), Err(ReadError::Malformed(_))));
}

#[test]
fn machine_id_is_lowercased_base64() {
    assert_eq!(machine_id_from("abc"), "ywjj");
    assert_eq!(machine_id_from(""), "");
    assert_eq!(machine_id_from("\u{ff}\u{ff}"), "w7_dvw");
    let body = UserLoginPostBody::create(LoginInfo::ByTokenFromStdin { user_id: UserId::parse("U-1").unwrap() }, false);
    assert_eq!(body.generated_machine_id.len(), 48);
    assert_eq!(body.generated_machine_id, body.generated_machine_id.to_lowercase());
}

#[test]
fn requests_carry_session_header() {
    let sess = session();
    let owner = UserId::parse("U-1").unwrap();
    let id = RecordId::parse("R-aaa");
    let req = sess.get_record_request(&owner, &id);
    assert_eq!(req.method, Method::Get);
    assert_eq!(req.url, "https://api.neos.com/api/users/U-1/records/R-aaa");
    assert_eq!(req.authorization, Some("neos U-1:T-1".to_string()));
    let path = AbsoluteInventoryPath::parse("Inventory/Test");
    assert_eq!(
        sess.get_directory_items_request(&owner, &path).url,
        "https://api.neos.com/api/users/U-1/records?path=Inventory%5CTest"
    );
    assert_eq!(
        sess.get_directory_metadata_request(&owner, &path).url,
        "https://api.neos.com/api/users/U-1/records/root/Inventory/Test"
    );
    let logout = sess.logout_request().unwrap();
    assert_eq!(logout.method, Method::Delete);
    assert_eq!(logout.url, "https://api.neos.com/api/userSessions/U-1/T-1");
    assert_eq!(logout.authorization, Some("neos U-1:T-1".to_string()));
    let anon = PreLogin::from_session_data(None, None);
    assert_eq!(anon.get_record_request(&owner, &id).authorization, None);
}

#[test]
fn get_record_is_present_only_for_200() {
    let body = record_json("R-aaa", "object", "Inventory\\Y");
    assert!(LoggedIn::record_from_response(200, &body).is_some());
    assert!(LoggedIn::record_from_response(403, &body).is_none());
    assert!(LoggedIn::record_from_response(404, &body).is_none());
    assert!(LoggedIn::record_from_response(500, &body).is_none());
    assert!(LoggedIn::record_from_response(204, &body).is_none());
    assert!(LoggedIn::record_from_response(200, &Json::Null).is_none());
}

#[test]
fn empty_directory_lists_nothing() {
    let items = LoggedIn::directory_items_from_response(200, &Json::Array(vec![])).unwrap();
    assert!(items.is_empty());
}

#[test]
fn listing_reads_children_in_order() {
    let body = Json::Array(vec![
        record_json("R-1", "object", "Inventory"),
        record_json("R-2", "Directory", "Inventory"),
    ]);
    let items = LoggedIn::directory_items_from_response(200, &body).unwrap();
    assert_eq!(items.len(), 2);
    assert_eq!(items[0].id.as_str(), "R-1");
    assert_eq!(items[1].record_type, RecordType::Directory);
    assert!(matches!(LoggedIn::directory_items_from_response(404, &body), Err(ReadError::Status(404))));
    assert!(matches!(LoggedIn::directory_items_from_response(200, &Json::Null), Err(ReadError::NotAList)));
    let broken = Json::Array(vec![record_json("R-1", "object", "x"), Json::Bool(true)]);
    assert!(matches!(
        LoggedIn::directory_items_from_response(200, &broken),
        Err(ReadError::MalformedItem(1, _))
    ));
}

#[test]
fn metadata_response_status_is_checked() {
    assert!(matches!(LoggedIn::directory_metadata_from_response(500, &Json::Null), Err(ReadError::Status(500))));
    assert!(matches!(LoggedIn::directory_metadata_from_response(200, &Json::Null), Err(ReadError::Malformed(_))));
}

#[test]
fn move_with_new_id_deletes_then_puts() {
    let sess = session();
    let owner = UserId::parse("U-1").unwrap();
    let (mut batch, action) = sess.move_records(
        owner,
        vec![RecordId::parse("R-aaa")],
        vec!["Inventory".to_string(), "X".to_string()],
        false,
    );
    match action {
        MoveAction::Fetch(req) => {
            assert_eq!(req.method, Method::Get);
            assert_eq!(req.url, "https://api.neos.com/api/users/U-1/records/R-aaa");
        }
        _ => panic!("the batch starts with a fetch"),
    }
    let found = Record::from_json(&record_json("R-aaa", "object", "Inventory\\Y")).unwrap();
    match batch.on_fetched(&sess, Some(found)) {
        MoveAction::Delete(req) => {
            assert_eq!(req.method, Method::Delete);
            assert_eq!(req.url, "https://api.neos.com/api/users/U-1/records/R-aaa");
        }
        _ => panic!("a found record is deleted first"),
    }
    let put = match batch.on_deleted(&sess) {
        MoveAction::Put(req) => req,
        _ => panic!("then put again"),
    };
    assert_eq!(put.method, Method::Put);
    let new_id = put.url.strip_prefix("https://api.neos.com/api/users/U-1/records/").unwrap().to_string();
    assert!(is_r_uuid(&new_id), "{new_id}");
    assert_ne!(new_id, "R-aaa");
    let body = put.body.unwrap();
    assert_eq!(member(&body, "path"), Some(&s("Inventory\\X")));
    assert_eq!(member(&body, "id"), Some(&s(&new_id)));
    assert!(matches!(batch.on_put(&sess, 200), MoveAction::Finished));
    assert_eq!(batch.outcomes, vec![ItemOutcome::Moved(RecordId::parse(&new_id))]);
    assert!(batch.all_succeeded());
}

#[test]
fn move_keeping_id_reuses_it() {
    let sess = session();
    let (mut batch, _) = sess.move_records(
        UserId::parse("U-1").unwrap(),
        vec![RecordId::parse("R-aaa")],
        vec!["Inventory".to_string(), "X".to_string()],
        true,
    );
    let found = Record::from_json(&record_json("R-aaa", "texture", "Inventory\\Y")).unwrap();
    assert!(matches!(batch.on_fetched(&sess, Some(found)), MoveAction::Delete(_)));
    match &batch.phase {
        MovePhase::Deleting { target_id, record } => {
            assert_eq!(target_id.as_str(), "R-aaa");
            assert_eq!(record.id.as_str(), "R-aaa");
            assert_eq!(record.path, "Inventory\\X");
            assert_eq!(record.record_type, RecordType::Texture);
        }
        _ => panic!("the record waits to be put"),
    }
    match batch.on_deleted(&sess) {
        MoveAction::Put(req) => assert_eq!(req.url, "https://api.neos.com/api/users/U-1/records/R-aaa"),
        _ => panic!("then put again"),
    }
    assert!(matches!(batch.on_put(&sess, 500), MoveAction::Finished));
    assert_eq!(
        batch.outcomes,
        vec![ItemOutcome::PutFailed(500, StatusClass::ServerError)]
    );
    assert!(!batch.all_succeeded());
}

#[test]
fn move_stops_at_a_directory() {
    let sess = session();
    let (mut batch, _) = sess.move_records(
        UserId::parse("U-1").unwrap(),
        vec![RecordId::parse("R-dir"), RecordId::parse("R-next")],
        vec!["Inventory".to_string()],
        false,
    );
    let dir = Record::from_json(&record_json("R-dir", "directory", "Inventory\\D")).unwrap();
    assert!(matches!(batch.on_fetched(&sess, Some(dir)), MoveAction::Aborted));
    assert!(matches!(batch.phase, MovePhase::Aborted));
    assert!(batch.outcomes.is_empty());
    assert!(!batch.all_succeeded());
}

#[test]
fn move_skips_missing_records() {
    let sess = session();
    let (mut batch, _) = sess.move_records(
        UserId::parse("U-1").unwrap(),
        vec![RecordId::parse("R-gone"), RecordId::parse("R-next")],
        vec!["Inventory".to_string()],
        true,
    );
    match batch.on_fetched(&sess, None) {
        MoveAction::Fetch(req) => assert_eq!(req.url, "https://api.neos.com/api/users/U-1/records/R-next"),
        _ => panic!("a missing record is skipped"),
    }
    assert!(matches!(batch.on_fetched(&sess, None), MoveAction::Finished));
    assert_eq!(batch.outcomes, vec![ItemOutcome::NotFound, ItemOutcome::NotFound]);
    let (empty, action) = sess.move_records(UserId::parse("U-1").unwrap(), vec![], vec![], true);
    assert!(matches!(action, MoveAction::Finished));
    assert!(empty.all_succeeded());
}

#[test]
fn generated_ids_have_the_uuid_shape() {
    let a = RecordId::generate();
    let b = RecordId::generate();
    assert!(is_r_uuid(a.as_str()));
    assert_ne!(a, b);
    assert_eq!(RecordId::from_uuid_text("ABC-def").as_str(), "R-abc-def");
}

#[test]
fn status_codes_are_classified() {
    assert_eq!(classify_status(200), StatusClass::Success);
    assert_eq!(classify_status(204), StatusClass::Success);
    assert_eq!(classify_status(403), StatusClass::Unauthorized);
    assert_eq!(classify_status(404), StatusClass::NotFound);
    assert_eq!(classify_status(400), StatusClass::ClientError);
    assert_eq!(classify_status(503), StatusClass::ServerError);
    assert_eq!(classify_status(302), StatusClass::Unhandled);
    assert_eq!(classify_status(600), StatusClass::Unhandled);
}

fn args(email: Option<&str>, password: Option<&str>, user_id: Option<&str>, token: bool) -> Args {
    Args {
        email: email.map(|e| EmailAddress::parse(e).unwrap()),
        password: password.map(|p| Password::new(p.to_string())),
        totp: None,
        user_id: user_id.map(|u| UserId::parse(u).unwrap()),
        log_level: LogLevel::Warn,
        read_token_from_stdin: token,
        keep_record_id: false,
        color_policy: ColorPolicy::Auto,
        platform: None,
        sub_command: ToolSubCommand::Metadata { target_user: None, base_dir: AbsoluteInventoryPath::default() },
    }
}

#[test]
fn arguments_are_validated() {
    assert_eq!(args(Some("a@b.com"), Some("pw"), Some("U-1"), false).validate(true).err(), Some(ArgsError::BothEmailAndUserId));
    assert_eq!(args(None, Some("pw"), None, false).validate(true).err(), Some(ArgsError::MissingIdentity));
    assert_eq!(args(None, None, None, true).validate(true).err(), Some(ArgsError::MissingUserIdForToken));
    let ok = args(Some("a@b.com"), Some("pw"), None, false).validate(true).ok().unwrap();
    assert!(matches!(ok.login_info, Some(LoginInfo::ByPassword { .. })));
    assert!(ok.colored);
    assert_eq!(ok.platform, Platform::Neos);
    let token = args(None, None, Some("U-1"), true).validate(false).ok().unwrap();
    assert!(matches!(token.login_info, Some(LoginInfo::ByTokenFromStdin { .. })));
    assert!(!token.colored);
    let anon = args(None, None, None, false).validate(false).ok().unwrap();
    assert!(anon.login_info.is_none());
    let mut resonite = args(None, None, None, false);
    resonite.platform = Some(Platform::Resonite);
    assert_eq!(resonite.validate(false).err(), Some(ArgsError::UnsupportedPlatform));
    let mut always = args(None, None, None, false);
    always.color_policy = ColorPolicy::Always;
    assert!(always.validate(false).ok().unwrap().colored);
}
