use release_installer::error::ErrorKind;
use release_installer::feed::check_status;
use release_installer::feed::find_asset;
use release_installer::feed::latest_release_url;
use release_installer::feed::resolve_asset;
use release_installer::json::Json;
use release_installer::json::Member;

fn asset(name: &str, url: &str) -> Json {
    Json::Object(vec![
        Member { name: "name".to_string(), value: Json::Text(name.to_string()) },
        Member { name: "browser_download_url".to_string(), value: Json::Text(url.to_string()) },
    ])
}

fn feed(assets: Vec<Json>) -> Json {
    Json::Object(vec![
        Member { name: "tag_name".to_string(), value: Json::Text("v1".to_string()) },
        Member { name: "assets".to_string(), value: Json::Array(assets) },
    ])
}

#[test]
fn feed_address_names_owner_and_project() {
    assert_eq!(
        latest_release_url("octo", "game"),
        "https://api.github.com/repos/octo/game/releases/latest"
    );
}

#[test]
fn success_statuses_are_200_to_299() {
    assert!(check_status(200).is_ok());
    assert!(check_status(204).is_ok());
    assert!(check_status(299).is_ok());
    assert!(check_status(199).is_err());
    assert!(check_status(300).is_err());
    assert!(check_status(0).is_err());
}

#[test]
fn failure_status_is_in_the_message() {
    let error = check_status(404).unwrap_err();
    assert_eq!(error.kind, ErrorKind::Network);
    assert_eq!(error.message, "Failed to fetch release info: 404");
    let error = resolve_asset(503, b"{\"assets\":[]}", "x").unwrap_err();
    assert_eq!(error.kind, ErrorKind::Network);
    assert_eq!(error.message, "Failed to fetch release info: 503");
}

#[test]
fn resolves_first_matching_asset() {
    let body = br#"{"assets":[{"name":"other.zip","browser_download_url":"https://example/dl/other.zip"},{"name":"Game-1.0.zip","browser_download_url":"https://example/dl/Game-1.0.zip"},{"name":"Game-1.0.zip","browser_download_url":"https://example/dl/second.zip"}]}"#;
    let url = resolve_asset(200, body, "Game-1.0.zip").unwrap();
    assert_eq!(url, "https://example/dl/Game-1.0.zip");
}

#[test]
fn first_match_wins_in_a_document_built_by_hand() {
    let document = feed(vec![
        asset("a.zip", "https://example/a"),
        asset("b.zip", "https://example/b1"),
        asset("b.zip", "https://example/b2"),
    ]);
    assert_eq!(find_asset(&document, "b.zip").unwrap(), "https://example/b1");
    assert_eq!(find_asset(&document, "a.zip").unwrap(), "https://example/a");
}

#[test]
fn names_are_compared_exactly() {
    let document = feed(vec![asset("Game.zip", "https://example/g")]);
    assert_eq!(find_asset(&document, "game.zip").unwrap_err().kind, ErrorKind::NotFound);
    assert_eq!(find_asset(&document, "Game.zi").unwrap_err().kind, ErrorKind::NotFound);
    assert_eq!(find_asset(&document, "Game.zip ").unwrap_err().kind, ErrorKind::NotFound);
    assert_eq!(find_asset(&document, "Game.zip").unwrap(), "https://example/g");
}

#[test]
fn missing_asset_is_not_found() {
    let body = br#"{"assets":[{"name":"other.zip","browser_download_url":"u"}]}"#;
    let error = resolve_asset(200, body, "Game-1.0.zip").unwrap_err();
    assert_eq!(error.kind, ErrorKind::NotFound);
    assert_eq!(error.message, "Asset 'Game-1.0.zip' not found in latest release");
}

#[test]
fn empty_list_is_not_found() {
    let error = resolve_asset(200, br#"{"assets":[]}"#, "x.zip").unwrap_err();
    assert_eq!(error.kind, ErrorKind::NotFound);
}

#[test]
fn absent_list_is_a_parse_error() {
    let error = resolve_asset(200, br#"{"tag_name":"v1"}"#, "x.zip").unwrap_err();
    assert_eq!(error.kind, ErrorKind::Parse);
    assert_eq!(error.message, "No assets found in release");
}

#[test]
fn list_of_another_shape_is_a_parse_error() {
    let error = resolve_asset(200, br#"{"assets":{"name":"x.zip"}}"#, "x.zip").unwrap_err();
    assert_eq!(error.kind, ErrorKind::Parse);
    let error = resolve_asset(200, br#"[{"name":"x.zip"}]"#, "x.zip").unwrap_err();
    assert_eq!(error.kind, ErrorKind::Parse);
    let error = resolve_asset(200, b"null", "x.zip").unwrap_err();
    assert_eq!(error.kind, ErrorKind::Parse);
}

#[test]
fn malformed_body_is_a_parse_error() {
    let error = resolve_asset(200, b"{\"assets\": [", "x.zip").unwrap_err();
    assert_eq!(error.kind, ErrorKind::Parse);
    assert!(!error.message.is_empty());
    let error = resolve_asset(200, b"", "x.zip").unwrap_err();
    assert_eq!(error.kind, ErrorKind::Parse);
}

#[test]
fn matching_asset_without_location_is_a_parse_error() {
    let body = br#"{"assets":[{"name":"x.zip"},{"name":"x.zip","browser_download_url":"later"}]}"#;
    let error = resolve_asset(200, body, "x.zip").unwrap_err();
    assert_eq!(error.kind, ErrorKind::Parse);
    assert_eq!(error.message, "Asset URL not found");
    let body = br#"{"assets":[{"name":"x.zip","browser_download_url":7}]}"#;
    assert_eq!(resolve_asset(200, body, "x.zip").unwrap_err().kind, ErrorKind::Parse);
}

#[test]
fn entries_without_a_text_name_match_nothing() {
    let body = br#"{"assets":[{"name":7,"browser_download_url":"n"},{"browser_download_url":"m"},"x.zip",{"name":"x.zip","browser_download_url":"https://example/x"}]}"#;
    assert_eq!(resolve_asset(200, body, "x.zip").unwrap(), "https://example/x");
}
