use shardxl::json::Json;
use shardxl::json::print_json;
use shardxl::manifest::{
    client_jar_url, client_jar_url_from_text, locate_version_url, missing_jar_url_message, parse_version_manifest,
    version_not_found_message, ClientJarUrlError, VersionUrlError,
};

fn s(t: &str) -> Json {
    Json::Str(t.to_string())
}

fn obj(members: Vec<(&str, Json)>) -> Json {
    Json::Object(members.into_iter().map(|(k, v)| (k.to_string(), v)).collect())
}

fn version(id: &str, ty: &str, time: &str, url: &str) -> Json {
    obj(vec![("id", s(id)), ("type", s(ty)), ("url", s(url)), ("releaseTime", s(time))])
}

fn manifest() -> Json {
    obj(vec![
        ("latest", obj(vec![("release", s("1.20.1"))])),
        (
            "versions",
            Json::Array(vec![
                version("1.20.1", "release", "2023-06-12", "https://example/1.20.1.json"),
                obj(vec![("id", s("bad")), ("type", Json::Number(serde_json::Number::from(3u64)))]),
                version("23w31a", "snapshot", "2023-08-01", "https://example/23w31a.json"),
                obj(vec![("id", s("nourl")), ("type", s("release")), ("releaseTime", s("t"))]),
                obj(vec![("id", s("badurl")), ("url", Json::Null)]),
            ]),
        ),
    ])
}

#[test]
fn manifest_lists_complete_entries_in_order() {
    let vs = parse_version_manifest(&manifest()).unwrap();
    let ids: Vec<&str> = vs.iter().map(|v| v.id.as_str()).collect();
    assert_eq!(ids, vec!["1.20.1", "23w31a", "nourl"]);
    assert_eq!(vs[0].version_type, "release");
    assert_eq!(vs[0].release_time, "2023-06-12");
    assert_eq!(vs[1].version_type, "snapshot");
}

#[test]
fn manifest_without_versions_is_refused() {
    let e = parse_version_manifest(&obj(vec![("latest", Json::Null)])).unwrap_err();
    assert_eq!(e, "Missing 'versions' in manifest");
    let e = parse_version_manifest(&Json::Array(vec![])).unwrap_err();
    assert_eq!(e, "Missing 'versions' in manifest");
}

#[test]
fn manifest_with_non_array_versions_is_refused() {
    let e = parse_version_manifest(&obj(vec![("versions", s("x"))])).unwrap_err();
    assert_eq!(e, "'versions' is not an array");
}

#[test]
fn version_url_found() {
    assert_eq!(locate_version_url(&manifest(), "23w31a").ok(), Some("https://example/23w31a.json".to_string()));
}

#[test]
fn version_url_errors() {
    assert!(matches!(locate_version_url(&manifest(), "9.9"), Err(VersionUrlError::VersionNotFound)));
    assert!(matches!(locate_version_url(&manifest(), "nourl"), Err(VersionUrlError::MissingUrl)));
    assert!(matches!(locate_version_url(&manifest(), "badurl"), Err(VersionUrlError::InvalidUrl)));
    assert!(matches!(locate_version_url(&obj(vec![]), "x"), Err(VersionUrlError::InvalidManifest)));
    assert!(matches!(
        locate_version_url(&obj(vec![("versions", Json::Bool(true))]), "x"),
        Err(VersionUrlError::InvalidManifest)
    ));
}

#[test]
fn version_url_error_messages() {
    assert_eq!(VersionUrlError::InvalidManifest.message("1.0"), "Invalid manifest format");
    assert_eq!(VersionUrlError::VersionNotFound.message("1.0"), "Version 1.0 not found in manifest");
    assert_eq!(VersionUrlError::MissingUrl.message("1.0"), "Missing version URL");
    assert_eq!(VersionUrlError::InvalidUrl.message("1.0"), "Invalid version URL");
    assert_eq!(version_not_found_message("b1.7"), "Version b1.7 not found in manifest");
}

#[test]
fn client_jar_url_found_and_missing() {
    let good = obj(vec![(
        "downloads",
        obj(vec![("server", obj(vec![])), ("client", obj(vec![("sha1", s("aa")), ("url", s("https://example/client.jar"))]))]),
    )]);
    assert_eq!(client_jar_url(&good).ok(), Some("https://example/client.jar".to_string()));
    assert!(matches!(client_jar_url(&obj(vec![])), Err(ClientJarUrlError::MissingDownloads)));
    assert!(matches!(
        client_jar_url(&obj(vec![("downloads", obj(vec![]))])),
        Err(ClientJarUrlError::MissingClient)
    ));
    assert!(matches!(
        client_jar_url(&obj(vec![("downloads", obj(vec![("client", obj(vec![]))]))])),
        Err(ClientJarUrlError::MissingUrl)
    ));
    assert!(matches!(
        client_jar_url(&obj(vec![("downloads", obj(vec![("client", obj(vec![("url", Json::Number(serde_json::Number::from(1u64)))]))]))])),
        Err(ClientJarUrlError::InvalidUrl)
    ));
}

#[test]
fn client_jar_url_error_messages() {
    assert_eq!(ClientJarUrlError::MissingDownloads.message(), "Missing downloads in version JSON");
    assert_eq!(ClientJarUrlError::MissingClient.message(), "Missing client download info");
    assert_eq!(ClientJarUrlError::MissingUrl.message(), "Missing client JAR URL");
    assert_eq!(ClientJarUrlError::InvalidUrl.message(), "Invalid client JAR URL");
    assert_eq!(missing_jar_url_message(), "Missing client JAR URL in version JSON");
}

#[test]
fn json_lookups() {
    let m = manifest();
    assert!(m.get("latest").is_some());
    assert!(m.get("nothing").is_none());
    assert!(s("x").get("x").is_none());
    assert_eq!(s("x").as_str().map(|t| t.as_str()), Some("x"));
    assert!(Json::Null.as_str().is_none());
    assert_eq!(m.get("versions").and_then(|v| v.as_array()).map(|a| a.len()), Some(5));
    assert!(m.get_str("latest").is_none());
}

#[test]
fn client_jar_url_from_saved_text() {
    let text = r#"{"id": "1.20.1", "downloads": {"client": {"sha1": "ab", "size": 123, "url": "https://example/c.jar"}}}"#;
    assert_eq!(client_jar_url_from_text(text), Ok("https://example/c.jar".to_string()));
    assert_eq!(client_jar_url_from_text(r#"{"downloads": {}}"#), Err("Missing client download info".to_string()));
    assert_eq!(client_jar_url_from_text(r#"{"downloads": {"client": {"url": 5}}}"#), Err("Invalid client JAR URL".to_string()));
    assert_eq!(client_jar_url_from_text("[]"), Err("Missing downloads in version JSON".to_string()));
    let e = client_jar_url_from_text("{not json").unwrap_err();
    assert_eq!(e, serde_json::from_str::<serde_json::Value>("{not json").unwrap_err().to_string());
}

#[test]
fn printed_json_is_pretty() {
    let doc = obj(vec![("id", s("1.0")), ("size", Json::Number(serde_json::Number::from(7u64))), ("tags", Json::Array(vec![Json::Bool(true), Json::Null]))]);
    assert_eq!(print_json(&doc), "{\n  \"id\": \"1.0\",\n  \"size\": 7,\n  \"tags\": [\n    true,\n    null\n  ]\n}");
    assert_eq!(print_json(&Json::Array(vec![])), "[]");
}

#[test]
fn repeated_keys_last_one_counts() {
    let doc = obj(vec![("url", s("first")), ("id", s("x")), ("url", s("second"))]);
    assert_eq!(doc.get_str("url").map(|t| t.as_str()), Some("second"));
    assert_eq!(print_json(&doc), "{\n  \"id\": \"x\",\n  \"url\": \"second\"\n}");
}
