use release_installer::json::Json;

#[test]
fn parse_decodes_every_kind_of_value() {
    let document = Json::parse(br#"{"n":null,"b":true,"i":-12,"s":"hi","a":[1,"two"],"o":{"k":false}}"#).unwrap();
    assert!(matches!(document.member("n"), Some(Json::Null)));
    assert!(matches!(document.member("b"), Some(Json::Bool(true))));
    match document.member("i") {
        Some(Json::Number(text)) => assert_eq!(text, "-12"),
        other => panic!("unexpected {:?}", other),
    }
    assert_eq!(document.member("s").unwrap().as_str(), Some("hi"));
    let items = document.member("a").unwrap().as_array().unwrap();
    assert_eq!(items.len(), 2);
    assert_eq!(items[1].as_str(), Some("two"));
    let inner = document.member("o").unwrap();
    assert!(matches!(inner.member("k"), Some(Json::Bool(false))));
}

#[test]
fn parse_rejects_what_is_no_document() {
    assert!(Json::parse(b"{").is_err());
    assert!(Json::parse(b"").is_err());
    assert!(Json::parse(b"{} {}").is_err());
    let message = Json::parse(b"[1,]").unwrap_err();
    assert_eq!(message, "trailing comma at line 1 column 4");
}

#[test]
fn member_is_absent_outside_objects() {
    let document = Json::parse(br#"[{"a":1}]"#).unwrap();
    assert!(document.member("a").is_none());
    assert!(Json::Null.member("a").is_none());
    let object = Json::parse(br#"{"a":1}"#).unwrap();
    assert!(object.member("b").is_none());
    assert!(object.member("A").is_none());
    assert!(object.member("a").is_some());
}

#[test]
fn accessors_answer_only_for_their_kind() {
    let text = Json::Text("x".to_string());
    let list = Json::Array(vec![]);
    assert_eq!(text.as_str(), Some("x"));
    assert!(text.as_array().is_none());
    assert!(list.as_str().is_none());
    assert_eq!(list.as_array().unwrap().len(), 0);
    assert!(Json::Number("1".to_string()).as_str().is_none());
}

#[test]
fn repeated_keys_keep_the_last_value() {
    let document = Json::parse(br#"{"a":"first","a":"second"}"#).unwrap();
    assert_eq!(document.member("a").unwrap().as_str(), Some("second"));
}
