use reinventory_manager::json::{Json, Number};
use reinventory_manager::record::{DecodeError, DirectoryMetadata, Record, RecordOwner, RecordType, Submission};
use reinventory_manager::time::Timestamp;

fn s(x: &str) -> Json {
    Json::Str(x.to_string())
}

fn integer(v: i64) -> Json {
    Json::Number(Number::Int(v))
}

fn obj(members: Vec<(&str, Json)>) -> Json {
    Json::Object(members.into_iter().map(|(k, v)| (k.to_string(), v)).collect())
}

fn minimal_record(extra: Vec<(&str, Json)>) -> Json {
    let mut members = vec![
        ("id", s("R-aaa")),
        ("globalVersion", integer(1)),
        ("localVersion", integer(2)),
        ("name", s("thing")),
        ("recordType", s("object")),
        ("path", s("Inventory\\Y")),
        ("isPublic", Json::Bool(false)),
        ("isForPatrons", Json::Bool(false)),
        ("isListed", Json::Bool(true)),
        ("isDeleted", Json::Bool(false)),
        ("lastModificationTime", s("2023-01-01T00:00:00Z")),
        ("randomOrder", integer(0)),
        ("visits", integer(3)),
        ("rating", integer(0)),
    ];
    members.extend(extra);
    obj(members)
}

fn without(j: Json, key: &str) -> Json {
    match j {
        Json::Object(m) => Json::Object(m.into_iter().filter(|(k, _)| k != key).collect()),
        other => other,
    }
}

#[test]
fn record_type_reads_both_spellings() {
    let pairs = [
        ("directory", "Directory", RecordType::Directory),
        ("object", "Object", RecordType::Object),
        ("texture", "Texture", RecordType::Texture),
        ("audio", "Audio", RecordType::Audio),
        ("link", "Link", RecordType::Link),
    ];
    for (lower, capital, t) in pairs {
        assert_eq!(RecordType::from_wire(lower), Some(t));
        assert_eq!(RecordType::from_wire(capital), Some(t));
        assert_eq!(t.as_wire(), lower);
    }
    assert_eq!(RecordType::from_wire("DIRECTORY"), None);
    assert_eq!(RecordType::from_wire("dir"), None);
    assert_eq!(RecordType::from_wire(""), None);
}

#[test]
fn record_with_omitted_members_reads_with_defaults() {
    let rec = Record::from_json(&minimal_record(vec![])).unwrap();
    assert_eq!(rec.id.as_str(), "R-aaa");
    assert!(rec.tags.is_empty());
    assert_eq!(rec.owner_name, None);
    assert_eq!(rec.thumbnail_uri, None);
    assert_eq!(rec.created_at, None);
    assert_eq!(rec.asset_uri, None);
    assert_eq!(rec.last_update_by, None);
    assert_eq!(rec.owner_id, None);
    assert!(rec.submissions.is_empty());
    assert_eq!(rec.record_type, RecordType::Object);
    assert_eq!(rec.path, "Inventory\\Y");
    assert_eq!(rec.visits, 3);
    assert_eq!(rec.rating, Number::Int(0));
}

#[test]
fn record_reads_present_optional_members() {
    let j = minimal_record(vec![
        ("tags", Json::Array(vec![s("a"), s("b")])),
        ("ownerName", s("kisaragi")),
        ("thumbnailUri", s("https://example.com/t.webp")),
        ("creationTime", s("2022-12-31T23:00:00+00:00")),
        ("assetUri", s("neosdb:///abc.7zbson")),
        ("lastModifyingUserId", s("U-editor")),
        ("ownerId", s("G-team")),
        ("lastModifyingMachineId", Json::Null),
    ]);
    let rec = Record::from_json(&j).unwrap();
    assert_eq!(rec.tags, vec!["a".to_string(), "b".to_string()]);
    assert_eq!(rec.owner_name, Some("kisaragi".to_string()));
    assert_eq!(rec.thumbnail_uri, Some("https://example.com/t.webp".to_string()));
    assert_eq!(rec.created_at.unwrap().unix_seconds(), 1672527600);
    assert_eq!(rec.asset_uri, Some("neosdb:///abc.7zbson".to_string()));
    assert_eq!(rec.last_update_by.unwrap().as_str(), "U-editor");
    assert!(matches!(rec.owner_id, Some(RecordOwner::Group(_))));
    assert_eq!(rec.last_update_machine, None);
}

#[test]
fn modification_time_without_offset_is_utc() {
    let naive = Record::from_json(&minimal_record(vec![])).unwrap();
    let j = without(minimal_record(vec![]), "lastModificationTime");
    let j = match j {
        Json::Object(mut m) => {
            m.push(("lastModificationTime".to_string(), s("2023-01-01T00:00:00")));
            Json::Object(m)
        }
        other => other,
    };
    let rec = Record::from_json(&j).unwrap();
    assert_eq!(rec.updated_at, naive.updated_at);
    assert_eq!(rec.updated_at.unix_seconds(), 1672531200);
    assert_eq!(rec.updated_at.subsec_nanos(), 0);
}

#[test]
fn timestamps_parse_and_format() {
    let zoned = Timestamp::parse("2023-01-01T09:00:00+09:00").unwrap();
    assert_eq!(zoned.unix_seconds(), 1672531200);
    assert_eq!(Timestamp::parse("2023-01-01T00:00:00"), None);
    let lenient = Timestamp::parse_lenient("2023-01-01T00:00:00").unwrap();
    assert_eq!(lenient, zoned);
    assert_eq!(zoned.to_rfc3339(), "2023-01-01T00:00:00Z");
    let with_frac = Timestamp::parse_lenient("2023-01-01T00:00:00.5").unwrap();
    assert_eq!(with_frac.subsec_nanos(), 500_000_000);
    assert_eq!(with_frac.to_rfc3339(), "2023-01-01T00:00:00.500Z");
    assert_eq!(Timestamp::parse_lenient("yesterday"), None);
    assert_eq!(Timestamp::from_unix(0, 0).unwrap().to_rfc3339(), "1970-01-01T00:00:00Z");
    assert_eq!(Timestamp::from_unix(i64::MAX, 0), None);
}

#[test]
fn record_decode_errors() {
    assert_eq!(Record::from_json(&Json::Null), Err(DecodeError::NotAnObject));
    let j = without(minimal_record(vec![]), "name");
    assert_eq!(Record::from_json(&j), Err(DecodeError::InvalidMember("name".to_string())));
    let j = minimal_record(vec![("tags", Json::Null)]);
    assert_eq!(Record::from_json(&j), Err(DecodeError::InvalidMember("tags".to_string())));
    let j = minimal_record(vec![("ownerId", s("someone"))]);
    assert_eq!(Record::from_json(&j), Err(DecodeError::InvalidMember("ownerId".to_string())));
    let j = without(minimal_record(vec![]), "recordType");
    let j = match j {
        Json::Object(mut m) => {
            m.push(("recordType".to_string(), s("Folder")));
            Json::Object(m)
        }
        other => other,
    };
    assert_eq!(Record::from_json(&j), Err(DecodeError::InvalidMember("recordType".to_string())));
    let j = minimal_record(vec![("assetUri", s("not a url"))]);
    assert_eq!(Record::from_json(&j), Err(DecodeError::InvalidMember("assetUri".to_string())));
    let j = match without(minimal_record(vec![]), "globalVersion") {
        Json::Object(mut m) => {
            m.push(("globalVersion".to_string(), integer(i64::from(i32::MAX) + 1)));
            Json::Object(m)
        }
        other => other,
    };
    assert_eq!(Record::from_json(&j), Err(DecodeError::InvalidMember("globalVersion".to_string())));
}

#[test]
fn directory_with_asset_is_refused() {
    let j = without(minimal_record(vec![("assetUri", s("neosdb:///x"))]), "recordType");
    let j = match j {
        Json::Object(mut m) => {
            m.push(("recordType".to_string(), s("Directory")));
            Json::Object(m)
        }
        other => other,
    };
    assert_eq!(Record::from_json(&j), Err(DecodeError::DirectoryWithAsset));
}

#[test]
fn url_is_normalized() {
    let j = minimal_record(vec![("thumbnailUri", s("HTTPS://Example.COM"))]);
    let rec = Record::from_json(&j).unwrap();
    assert_eq!(rec.thumbnail_uri, Some("https://example.com/".to_string()));
}

#[test]
fn record_writes_in_camel_case() {
    let rec = Record::from_json(&minimal_record(vec![("tags", Json::Array(vec![s("t")]))])).unwrap();
    let j = rec.to_json();
    let members = match &j {
        Json::Object(m) => m,
        _ => panic!("not an object"),
    };
    let keys: Vec<&str> = members.iter().map(|(k, _)| k.as_str()).collect();
    assert_eq!(
        keys,
        vec![
            "id", "assetUri", "globalVersion", "localVersion", "lastModifyingUserId",
            "lastModifyingMachineId", "name", "recordType", "ownerName", "tags", "path",
            "isPublic", "isForPatrons", "isListed", "isDeleted", "thumbnailUri", "creationTime",
            "lastModificationTime", "randomOrder", "visits", "rating", "ownerId", "submissions",
        ]
    );
    assert_eq!(members[7].1, s("object"));
    assert_eq!(members[8].1, Json::Null);
    assert_eq!(members[17].1, s("2023-01-01T00:00:00Z"));
    let again = Record::from_json(&j).unwrap();
    assert_eq!(again, rec);
}

#[test]
fn submissions_read_in_snake_case() {
    let sub = obj(vec![
        ("id", s("S-1")),
        ("owner_id", s("U-owner")),
        ("target_record_id", s("R-aaa")),
        ("submission_time", s("2023-01-01T00:00:00Z")),
        ("submitted_by_id", s("U-x")),
        ("submitted_by_name", s("x")),
        ("featured", Json::Bool(true)),
        ("featured_by_user_id", s("U-y")),
    ]);
    let read = Submission::from_json(&sub).unwrap();
    assert_eq!(read.featured_timestamp, None);
    assert!(read.is_featured);
    assert_eq!(read.target_record_id.as_str(), "R-aaa");
    let rec = Record::from_json(&minimal_record(vec![("submissions", Json::Array(vec![sub]))])).unwrap();
    assert_eq!(rec.submissions.len(), 1);
    assert_eq!(Submission::from_json(&rec.submissions[0].to_json()).unwrap(), read);
    let bad = obj(vec![("id", s("S-1"))]);
    assert_eq!(Submission::from_json(&bad), None);
}

#[test]
fn directory_metadata_requires_every_member() {
    let j = obj(vec![
        ("id", s("R-dir")),
        ("globalVersion", integer(1)),
        ("localVersion", integer(1)),
        ("lastModifyingUserId", s("U-1")),
        ("lastModifyingMachineId", s("m")),
        ("name", s("Test")),
        ("ownerName", s("kisaragi")),
        ("path", s("Inventory")),
        ("isPublic", Json::Bool(false)),
        ("isForPatrons", Json::Bool(false)),
        ("isListed", Json::Bool(false)),
        ("isDeleted", Json::Bool(false)),
        ("creationTime", s("2023-01-01T00:00:00Z")),
        ("lastModificationTime", s("2023-01-02T00:00:00Z")),
    ]);
    let d = DirectoryMetadata::from_json(&j).unwrap();
    assert_eq!(d.name, "Test");
    assert_eq!(d.updated_at.unix_seconds(), 1672617600);
    assert_eq!(DirectoryMetadata::from_json(&d.to_json()).unwrap(), d);
    let missing = without(j, "ownerName");
    assert_eq!(
        DirectoryMetadata::from_json(&missing),
        Err(DecodeError::InvalidMember("ownerName".to_string()))
    );
}
