use reinventory_manager::ids::{
    AbsoluteInventoryPath, AuthorizationInfo, EmailAddress, GroupId, RecordId, SessionToken,
    UserId, UserLoginPostResponse,
};
use reinventory_manager::text::{lowercase_ascii, split_string, starts_with};

#[test]
fn user_id_requires_prefix() {
    assert_eq!(UserId::parse("U-kisaragi").unwrap().as_str(), "U-kisaragi");
    assert_eq!(UserId::parse("U-").unwrap().as_str(), "U-");
    assert!(UserId::parse("u-kisaragi").is_none());
    assert!(UserId::parse("G-group").is_none());
    assert!(UserId::parse("U").is_none());
    assert!(UserId::parse("").is_none());
}

#[test]
fn group_id_requires_prefix() {
    assert_eq!(GroupId::parse("G-team").unwrap().as_str(), "G-team");
    assert!(GroupId::parse("U-team").is_none());
    assert!(GroupId::parse("g-team").is_none());
    assert!(GroupId::parse("G").is_none());
}

#[test]
fn record_id_accepts_any_text() {
    assert_eq!(RecordId::parse("anything at all").as_str(), "anything at all");
    assert_eq!(RecordId::parse("").as_str(), "");
}

#[test]
fn path_round_trips_through_slashes() {
    for text in ["Inventory/Test", "Inventory/./../x", "", "a//b/", "/lead", "..", "single"] {
        let path = AbsoluteInventoryPath::parse(text);
        assert_eq!(path.to_absolute_path(), text);
    }
}

#[test]
fn path_segments_are_literal() {
    let path = AbsoluteInventoryPath::parse("Inventory/./..");
    assert_eq!(path.segments(), &vec!["Inventory".to_string(), ".".to_string(), "..".to_string()]);
    let empty = AbsoluteInventoryPath::parse("");
    assert_eq!(empty.segments(), &vec![String::new()]);
}

#[test]
fn path_query_form_uses_escaped_backslash() {
    let path = AbsoluteInventoryPath::parse("Inventory/Test/Deep");
    assert_eq!(path.to_uri_query_value(), "Inventory%5CTest%5CDeep");
    let root = AbsoluteInventoryPath::default();
    assert_eq!(root.to_uri_query_value(), "");
    assert_eq!(root.to_absolute_path(), "");
}

#[test]
fn path_from_segments() {
    let path = AbsoluteInventoryPath::from_segments(vec!["Inventory".to_string(), "X".to_string()]);
    assert_eq!(path.to_absolute_path(), "Inventory/X");
}

#[test]
fn authorization_header_format() {
    let auth = AuthorizationInfo::new(UserId::parse("U-1").unwrap(), SessionToken::new("T-1".to_string()));
    assert_eq!(auth.as_authorization_header_value(), "neos U-1:T-1");
}

#[test]
fn login_response_gives_authorization() {
    let resp = UserLoginPostResponse {
        user_id: UserId::parse("U-abc").unwrap(),
        token: SessionToken::new("secret".to_string()),
    };
    let auth = resp.to_authorization_info();
    assert_eq!(auth.owner_id.as_str(), "U-abc");
    assert_eq!(auth.token.as_str(), "secret");
}

#[test]
fn email_addresses_are_checked() {
    assert_eq!(EmailAddress::parse("a@b.com").unwrap().as_str(), "a@b.com");
    assert!(EmailAddress::parse("not an address").is_none());
    assert!(EmailAddress::parse("").is_none());
}

#[test]
fn text_helpers() {
    assert!(starts_with("U-1", "U-"));
    assert!(!starts_with("U", "U-"));
    assert_eq!(split_string("a/b", '/'), vec!["a".to_string(), "b".to_string()]);
    assert_eq!(lowercase_ascii("AbC-Ä9"), "abc-Ä9");
}

#[test]
fn token_line_loses_its_ending() {
    assert_eq!(SessionToken::from_input_line("abc\n").as_str(), "abc");
    assert_eq!(SessionToken::from_input_line("abc\r\n").as_str(), "abc");
    assert_eq!(SessionToken::from_input_line("abc").as_str(), "abc");
    assert_eq!(SessionToken::from_input_line("a\rb\n").as_str(), "a\rb");
    assert_eq!(SessionToken::from_input_line("\n").as_str(), "");
}
