use distro_watch::fields::read_fields;
use distro_watch::json::{read_list, read_text};
use distro_watch::{
    decode, is_not_found, read_response, request_url, DistroMetadata, Error, ResponseFields,
    Status,
};

const DEBIAN: &[u8] = br#"{"based_ons": [], "origin": "USA", "architectures": ["i686","x86_64"], "desktop_environments": ["Cinnamon"], "categories": ["Beginners"], "status": "Active", "popularity": "36"}"#;

const KEYS: [&str; 7] = [
    "based_ons",
    "origin",
    "architectures",
    "desktop_environments",
    "categories",
    "status",
    "popularity",
];

fn strings(items: &[&str]) -> Vec<String> {
    items.iter().map(|item| item.to_string()).collect()
}

fn complete_fields() -> ResponseFields {
    ResponseFields {
        based_ons: Some(strings(&["Debian", "Ubuntu"])),
        origin: Some("Ireland".to_string()),
        architectures: Some(strings(&["x86_64"])),
        desktop_environments: Some(strings(&["Cinnamon", "MATE", "Xfce"])),
        categories: Some(strings(&["Beginners", "Desktop"])),
        status: Some("Active".to_string()),
        popularity: Some("2 (2,410 hits per day)".to_string()),
    }
}

fn body_without(key: &str) -> Vec<u8> {
    let mut object = match serde_json::from_slice::<serde_json::Value>(DEBIAN) {
        Ok(serde_json::Value::Object(object)) => object,
        _ => panic!("the sample is an object"),
    };
    assert!(object.remove(key).is_some());
    serde_json::to_vec(&serde_json::Value::Object(object)).unwrap()
}

fn body_with(key: &str, replacement: &str) -> Vec<u8> {
    let mut object = match serde_json::from_slice::<serde_json::Value>(DEBIAN) {
        Ok(serde_json::Value::Object(object)) => object,
        _ => panic!("the sample is an object"),
    };
    let value = serde_json::from_str::<serde_json::Value>(replacement).unwrap();
    assert!(object.insert(key.to_string(), value).is_some());
    serde_json::to_vec(&serde_json::Value::Object(object)).unwrap()
}

#[test]
fn request_url_appends_the_identifier() {
    assert_eq!(
        request_url("debian"),
        "https://diwa.demo-web-fahmi.my.id/api/v2/distributions/debian"
    );
    assert_eq!(
        request_url(""),
        "https://diwa.demo-web-fahmi.my.id/api/v2/distributions/"
    );
    assert_eq!(
        request_url("a b/ç"),
        "https://diwa.demo-web-fahmi.my.id/api/v2/distributions/a b/ç"
    );
}

#[test]
fn only_404_is_not_found() {
    assert!(is_not_found(404));
    assert!(!is_not_found(200));
    assert!(!is_not_found(403));
    assert!(!is_not_found(405));
    assert!(!is_not_found(500));
    assert!(!is_not_found(0));
}

#[test]
fn debian_is_found() {
    let metadata = read_response("debian", 200, DEBIAN).unwrap().unwrap();
    assert_eq!(metadata.name(), "debian");
    assert_eq!(metadata.based_on(), &Vec::<String>::new());
    assert_eq!(metadata.origin(), "USA");
    assert_eq!(metadata.architecture(), &strings(&["i686", "x86_64"]));
    assert_eq!(metadata.desktop(), &strings(&["Cinnamon"]));
    assert_eq!(metadata.category(), &strings(&["Beginners"]));
    assert_eq!(*metadata.status(), Status::Active);
    assert_eq!(metadata.popularity(), "36");
}

#[test]
fn nonexistent_is_absent() {
    assert_eq!(read_response("nonexistent-xyz", 404, b"").unwrap(), None);
}

#[test]
fn not_found_ignores_the_body() {
    for distro in ["", "debian", "nonexistent-xyz", "a/b c"] {
        assert_eq!(read_response(distro, 404, b"").unwrap(), None);
        assert_eq!(read_response(distro, 404, b"<html>").unwrap(), None);
        assert_eq!(read_response(distro, 404, DEBIAN).unwrap(), None);
        assert_eq!(read_response(distro, 404, b"{}").unwrap(), None);
    }
}

#[test]
fn name_is_the_identifier_asked_for() {
    let body = br#"{"name": "Ubuntu", "based_ons": ["Debian"], "origin": "Isle of Man", "architectures": [], "desktop_environments": [], "categories": [], "status": "Dormant (see notes)", "popularity": "7", "extra": {"deep": [1, null]}}"#;
    let metadata = read_response("not ubuntu", 200, body).unwrap().unwrap();
    assert_eq!(metadata.name(), "not ubuntu");
    assert_eq!(metadata.based_on(), &strings(&["Debian"]));
    assert_eq!(metadata.origin(), "Isle of Man");
    assert!(metadata.architecture().is_empty());
    assert!(metadata.desktop().is_empty());
    assert!(metadata.category().is_empty());
    assert_eq!(*metadata.status(), Status::Dormant);
    assert_eq!(metadata.popularity(), "7");
}

#[test]
fn each_missing_key_is_a_changed_api() {
    for key in KEYS {
        let body = body_without(key);
        let result = read_response("debian", 200, &body);
        assert!(
            matches!(result, Err(Error::DistroWatchApiChanged)),
            "without {key}: {result:?}"
        );
    }
}

#[test]
fn each_key_of_another_kind_is_a_changed_api() {
    for key in KEYS {
        for replacement in ["null", "7", "true", "{}", "[1]", "[\"a\", null]", "[[\"a\"]]"] {
            let body = body_with(key, replacement);
            let result = read_response("debian", 200, &body);
            assert!(
                matches!(result, Err(Error::DistroWatchApiChanged)),
                "{key} as {replacement}: {result:?}"
            );
        }
    }
}

#[test]
fn a_string_where_a_list_belongs_is_a_changed_api() {
    for key in ["based_ons", "architectures", "desktop_environments", "categories"] {
        let body = body_with(key, "\"text\"");
        let result = read_response("debian", 200, &body);
        assert!(matches!(result, Err(Error::DistroWatchApiChanged)));
    }
}

#[test]
fn a_list_where_a_string_belongs_is_a_changed_api() {
    for key in ["origin", "status", "popularity"] {
        let body = body_with(key, "[\"Active\"]");
        let result = read_response("debian", 200, &body);
        assert!(matches!(result, Err(Error::DistroWatchApiChanged)));
    }
}

#[test]
fn status_text_is_read_by_its_prefix() {
    let body = body_with("status", "\"Discontinued since 2019\"");
    let metadata = read_response("debian", 200, &body).unwrap().unwrap();
    assert_eq!(*metadata.status(), Status::Discontinued);
}

#[test]
fn unknown_status_is_a_changed_api() {
    let body = body_with("status", "\"Unknown\"");
    let result = read_response("debian", 200, &body);
    assert!(matches!(result, Err(Error::DistroWatchApiChanged)));
}

#[test]
fn json_of_another_kind_is_a_changed_api() {
    for body in ["{}", "[]", "null", "3", "\"Active\"", "[{\"origin\": \"USA\"}]"] {
        let result = read_response("debian", 200, body.as_bytes());
        assert!(
            matches!(result, Err(Error::DistroWatchApiChanged)),
            "{body}: {result:?}"
        );
    }
}

#[test]
fn a_body_that_is_not_json_is_a_failure() {
    let mut trailing = DEBIAN.to_vec();
    trailing.extend_from_slice(b" x");
    let bodies: [&[u8]; 5] = [b"", b"<html></html>", b"{\"origin\": ", &trailing, b"\xff\xfe"];
    for body in bodies {
        let fault = serde_json::from_slice::<serde_json::Value>(body).unwrap_err();
        match read_response("debian", 200, body) {
            Err(Error::ReqwestError(text)) => assert_eq!(text, fault.to_string()),
            other => panic!("{other:?}"),
        }
    }
}

#[test]
fn an_empty_body_is_described_as_the_reader_does() {
    match read_response("debian", 200, b"") {
        Err(Error::ReqwestError(text)) => {
            assert_eq!(text, "EOF while parsing a value at line 1 column 0")
        }
        other => panic!("{other:?}"),
    }
}

#[test]
fn other_status_codes_leave_it_to_the_body() {
    let found = read_response("debian", 500, DEBIAN).unwrap().unwrap();
    assert_eq!(found.origin(), "USA");
    assert!(matches!(
        read_response("debian", 500, b"{\"error\": \"down\"}"),
        Err(Error::DistroWatchApiChanged)
    ));
    assert!(matches!(
        read_response("debian", 429, b"Too Many Requests"),
        Err(Error::ReqwestError(_))
    ));
}

#[test]
fn the_same_answer_reads_the_same_twice() {
    let first = read_response("debian", 200, DEBIAN).unwrap();
    let second = read_response("debian", 200, DEBIAN).unwrap();
    assert!(first.is_some());
    assert_eq!(first, second);
    assert_eq!(
        read_response("debian", 404, DEBIAN).unwrap(),
        read_response("debian", 404, DEBIAN).unwrap()
    );
    let other = read_response("devuan", 200, DEBIAN).unwrap();
    assert_ne!(first, other);
}

#[test]
fn decode_reads_a_parsed_body() {
    let value = serde_json::from_slice::<serde_json::Value>(DEBIAN).unwrap();
    let metadata = decode("debian", &value).unwrap();
    assert_eq!(Some(metadata), read_response("debian", 200, DEBIAN).unwrap());
    let empty = serde_json::from_str::<serde_json::Value>("{}").unwrap();
    assert!(matches!(
        decode("debian", &empty),
        Err(Error::DistroWatchApiChanged)
    ));
}

#[test]
fn read_text_wants_a_string_under_the_key() {
    let value = serde_json::from_slice::<serde_json::Value>(DEBIAN).unwrap();
    assert_eq!(read_text(&value, "origin"), Some("USA".to_string()));
    assert_eq!(read_text(&value, "popularity"), Some("36".to_string()));
    assert_eq!(read_text(&value, "Origin"), None);
    assert_eq!(read_text(&value, "based_ons"), None);
    assert_eq!(read_text(&value, ""), None);
    let text = serde_json::from_str::<serde_json::Value>("\"origin\"").unwrap();
    assert_eq!(read_text(&text, "origin"), None);
}

#[test]
fn read_list_wants_strings_only() {
    let value = serde_json::from_str::<serde_json::Value>(
        r#"{"a": ["x", "y", "x"], "b": [], "c": ["x", 1], "d": "x", "e": [["x"]]}"#,
    )
    .unwrap();
    assert_eq!(read_list(&value, "a"), Some(strings(&["x", "y", "x"])));
    assert_eq!(read_list(&value, "b"), Some(Vec::new()));
    assert_eq!(read_list(&value, "c"), None);
    assert_eq!(read_list(&value, "d"), None);
    assert_eq!(read_list(&value, "e"), None);
    assert_eq!(read_list(&value, "f"), None);
    let list = serde_json::from_str::<serde_json::Value>("[\"a\"]").unwrap();
    assert_eq!(read_list(&list, "a"), None);
}

#[test]
fn read_fields_reads_each_key_by_itself() {
    let value = serde_json::from_str::<serde_json::Value>(
        r#"{"based_ons": ["Debian"], "origin": 3, "categories": ["Live Medium", null], "status": "Unknown", "popularity": "1"}"#,
    )
    .unwrap();
    let fields = read_fields(&value);
    assert_eq!(
        fields,
        ResponseFields {
            based_ons: Some(strings(&["Debian"])),
            origin: None,
            architectures: None,
            desktop_environments: None,
            categories: None,
            status: Some("Unknown".to_string()),
            popularity: Some("1".to_string()),
        }
    );
}

#[test]
fn complete_fields_make_a_record() {
    let metadata = DistroMetadata::from_fields("linuxmint", complete_fields()).unwrap();
    assert_eq!(metadata.name(), "linuxmint");
    assert_eq!(metadata.based_on(), &strings(&["Debian", "Ubuntu"]));
    assert_eq!(metadata.origin(), "Ireland");
    assert_eq!(metadata.architecture(), &strings(&["x86_64"]));
    assert_eq!(metadata.desktop(), &strings(&["Cinnamon", "MATE", "Xfce"]));
    assert_eq!(metadata.category(), &strings(&["Beginners", "Desktop"]));
    assert_eq!(*metadata.status(), Status::Active);
    assert_eq!(metadata.popularity(), "2 (2,410 hits per day)");
    assert_eq!(metadata.clone(), metadata);
}

#[test]
fn one_missing_field_makes_no_record() {
    let mut lacking = Vec::new();
    for _ in 0..7 {
        lacking.push(complete_fields());
    }
    lacking[0].based_ons = None;
    lacking[1].origin = None;
    lacking[2].architectures = None;
    lacking[3].desktop_environments = None;
    lacking[4].categories = None;
    lacking[5].status = None;
    lacking[6].popularity = None;
    for fields in lacking {
        assert!(matches!(
            DistroMetadata::from_fields("linuxmint", fields),
            Err(Error::DistroWatchApiChanged)
        ));
    }
}

#[test]
fn fields_with_an_unknown_status_make_no_record() {
    let mut fields = complete_fields();
    fields.status = Some("Unknown".to_string());
    assert!(matches!(
        DistroMetadata::from_fields("linuxmint", fields),
        Err(Error::DistroWatchApiChanged)
    ));
    let mut fields = complete_fields();
    fields.status = Some("Discontinued since 2019".to_string());
    let metadata = DistroMetadata::from_fields("linuxmint", fields).unwrap();
    assert_eq!(*metadata.status(), Status::Discontinued);
}
