use shardxl::install::{
    c_client_jar_url, c_client_jar_url_from_text, c_download_outcome, c_download_report, c_version_url,
    failure_message, install_next, install_start, DownloadFailure, FailedStep, InstallAction, InstallStep,
};
use shardxl::json::Json;
use shardxl::models::InstallResult;

fn run(outcomes: Vec<Result<(), String>>) -> (InstallResult, Vec<InstallStep>) {
    let mut performed = Vec::new();
    let mut outcomes = outcomes.into_iter();
    let mut action = install_start();
    loop {
        match action {
            InstallAction::Perform(step) => {
                performed.push(step);
                let outcome = outcomes.next().expect("an outcome for each step");
                action = install_next(step, outcome);
            }
            InstallAction::Finish(r) => return (r, performed),
        }
    }
}

#[test]
fn install_runs_all_steps_in_order() {
    let (r, steps) = run(vec![Ok(()), Ok(()), Ok(())]);
    assert!(r.success);
    assert!(r.error.is_none());
    assert!(
        steps == vec![InstallStep::CreateDirectory, InstallStep::DownloadVersionJson, InstallStep::DownloadClientJar]
    );
}

#[test]
fn install_stops_at_directory_failure() {
    let (r, steps) = run(vec![Err("Permission denied (os error 13)".to_string())]);
    assert!(!r.success);
    assert_eq!(r.error.as_deref(), Some("Failed to create version directory: Permission denied (os error 13)"));
    assert_eq!(steps.len(), 1);
}

#[test]
fn install_reports_download_errors_as_given() {
    let (r, steps) = run(vec![Ok(()), Err("Version 9.9 not found in manifest".to_string())]);
    assert!(!r.success);
    assert_eq!(r.error.as_deref(), Some("Version 9.9 not found in manifest"));
    assert_eq!(steps.len(), 2);
    let (r, steps) = run(vec![Ok(()), Ok(()), Err("Missing client JAR URL".to_string())]);
    assert!(!r.success);
    assert_eq!(r.error.as_deref(), Some("Missing client JAR URL"));
    assert_eq!(steps.len(), 3);
}

#[test]
fn failure_messages() {
    assert_eq!(failure_message(&FailedStep::FetchManifest, "timeout"), "Failed to fetch manifest: timeout");
    assert_eq!(failure_message(&FailedStep::ParseManifest, "eof"), "Failed to parse manifest: eof");
    assert_eq!(failure_message(&FailedStep::DownloadVersionJson, "e"), "Failed to download version JSON: e");
    assert_eq!(failure_message(&FailedStep::ParseVersionJson, "e"), "Failed to parse version JSON: e");
    assert_eq!(failure_message(&FailedStep::CreateVersionDirectory, "e"), "Failed to create version directory: e");
    assert_eq!(failure_message(&FailedStep::WriteJsonFile, "e"), "Failed to write JSON file: e");
    assert_eq!(failure_message(&FailedStep::ReadJsonFile, "e"), "Failed to read JSON file: e");
    assert_eq!(failure_message(&FailedStep::ParseExistingJson, "e"), "Failed to parse existing JSON: e");
    assert_eq!(failure_message(&FailedStep::DownloadJar, "e"), "Failed to download JAR: e");
    assert_eq!(failure_message(&FailedStep::ReadJarBytes, "e"), "Failed to read JAR bytes: e");
    assert_eq!(failure_message(&FailedStep::WriteJarFile, "e"), "Failed to write JAR file: e");
}

#[test]
fn c_download_results() {
    let ok: Result<String, DownloadFailure> = Ok("/mc/versions/1.0/1.0.json".to_string());
    assert_eq!(c_download_report(&ok), "/mc/versions/1.0/1.0.json");
    assert_eq!(c_download_outcome(ok), Ok(()));
    let step: Result<String, DownloadFailure> = Err(DownloadFailure::Step(FailedStep::DownloadJar, "reset".to_string()));
    assert_eq!(c_download_report(&step), "Failed to download JAR: reset");
    assert_eq!(c_download_outcome(step), Err("Failed to download JAR: reset".to_string()));
    let missing: Result<String, DownloadFailure> = Err(DownloadFailure::VersionNotFound("9.9".to_string()));
    assert_eq!(c_download_report(&missing), "Version 9.9 not found in manifest");
    assert_eq!(c_download_outcome(missing), Err("Version 9.9 not found in manifest".to_string()));
    let nojar: Result<String, DownloadFailure> = Err(DownloadFailure::MissingJarUrl);
    assert_eq!(c_download_outcome(nojar), Err("Missing client JAR URL in version JSON".to_string()));
}

#[test]
fn c_install_fails_when_version_is_absent() {
    let json_step = c_download_outcome(Err(DownloadFailure::VersionNotFound("9.9".to_string())));
    let (r, steps) = run(vec![Ok(()), json_step]);
    assert!(!r.success);
    assert_eq!(r.error.as_deref(), Some("Version 9.9 not found in manifest"));
    assert_eq!(steps.len(), 2);
    let jar_step = c_download_outcome(Err(DownloadFailure::MissingJarUrl));
    let (r, _) = run(vec![Ok(()), Ok(()), jar_step]);
    assert!(!r.success);
    assert_eq!(r.error.as_deref(), Some("Missing client JAR URL in version JSON"));
}

fn s(t: &str) -> Json {
    Json::Str(t.to_string())
}

fn obj(members: Vec<(&str, Json)>) -> Json {
    Json::Object(members.into_iter().map(|(k, v)| (k.to_string(), v)).collect())
}

#[test]
fn c_lookups_report_single_messages() {
    let manifest = obj(vec![(
        "versions",
        Json::Array(vec![obj(vec![("id", s("1.0")), ("url", s("https://example/1.0.json"))]), obj(vec![("id", s("2.0"))])]),
    )]);
    assert!(matches!(c_version_url(&manifest, "1.0"), Ok(u) if u == "https://example/1.0.json"));
    assert!(matches!(c_version_url(&manifest, "2.0"), Err(DownloadFailure::VersionNotFound(id)) if id == "2.0"));
    assert!(matches!(c_version_url(&manifest, "3.0"), Err(DownloadFailure::VersionNotFound(id)) if id == "3.0"));
    assert!(matches!(c_version_url(&Json::Null, "1.0"), Err(DownloadFailure::VersionNotFound(_))));
    let good = obj(vec![("downloads", obj(vec![("client", obj(vec![("url", s("https://example/c.jar"))]))]))]);
    assert!(matches!(c_client_jar_url(&good), Ok(u) if u == "https://example/c.jar"));
    assert!(matches!(c_client_jar_url(&obj(vec![])), Err(DownloadFailure::MissingJarUrl)));
    assert!(matches!(
        c_client_jar_url_from_text(r#"{"downloads":{"client":{"url":"https://example/c.jar"}}}"#),
        Ok(u) if u == "https://example/c.jar"
    ));
    assert!(matches!(c_client_jar_url_from_text("{}"), Err(DownloadFailure::MissingJarUrl)));
    match c_client_jar_url_from_text("nope") {
        Err(f) => assert!(f.message().starts_with("Failed to parse existing JSON: ")),
        Ok(_) => panic!("text that is not JSON has no URL"),
    }
}
