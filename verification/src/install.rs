//! Installing a version: create its directory, download its JSON, download
//! its client JAR, stopping at the first failure. The caller performs each
//! step and reports how it went; [`install_next`] decides what comes next.
//! Also the messages the download steps report when they fail, and how the
//! C interface reports a download.

use vstd::prelude::*;
use crate::models::InstallResult;
use crate::json::{Json, json_text_parse};
use crate::manifest::{
    client_jar_url, client_jar_url_of, locate_version_url, missing_jar_url_message,
    missing_jar_url_text, version_not_found_message, version_not_found_text, version_url,
};

verus! {

/// The operation that failed during a download or an installation.
pub enum FailedStep {
    FetchManifest,
    ParseManifest,
    DownloadVersionJson,
    ParseVersionJson,
    CreateVersionDirectory,
    WriteJsonFile,
    ReadJsonFile,
    ParseExistingJson,
    DownloadJar,
    ReadJarBytes,
    WriteJarFile,
}

/// The words that open the message for a failed step.
pub open spec fn failed_step_text(step: FailedStep) -> Seq<char> {
    match step {
        FailedStep::FetchManifest => "Failed to fetch manifest"@,
        FailedStep::ParseManifest => "Failed to parse manifest"@,
        FailedStep::DownloadVersionJson => "Failed to download version JSON"@,
        FailedStep::ParseVersionJson => "Failed to parse version JSON"@,
        FailedStep::CreateVersionDirectory => "Failed to create version directory"@,
        FailedStep::WriteJsonFile => "Failed to write JSON file"@,
        FailedStep::ReadJsonFile => "Failed to read JSON file"@,
        FailedStep::ParseExistingJson => "Failed to parse existing JSON"@,
        FailedStep::DownloadJar => "Failed to download JAR"@,
        FailedStep::ReadJarBytes => "Failed to read JAR bytes"@,
        FailedStep::WriteJarFile => "Failed to write JAR file"@,
    }
}

/// "<what failed>: <detail>".
pub open spec fn failure_text(step: FailedStep, detail: Seq<char>) -> Seq<char> {
    failed_step_text(step) + ": "@ + detail
}

fn failed_step_words(step: &FailedStep) -> (r: String)
    ensures
        r@ == failed_step_text(*step),
{
    match step {
        FailedStep::FetchManifest => String::from_str("Failed to fetch manifest"),
        FailedStep::ParseManifest => String::from_str("Failed to parse manifest"),
        FailedStep::DownloadVersionJson => String::from_str("Failed to download version JSON"),
        FailedStep::ParseVersionJson => String::from_str("Failed to parse version JSON"),
        FailedStep::CreateVersionDirectory => String::from_str("Failed to create version directory"),
        FailedStep::WriteJsonFile => String::from_str("Failed to write JSON file"),
        FailedStep::ReadJsonFile => String::from_str("Failed to read JSON file"),
        FailedStep::ParseExistingJson => String::from_str("Failed to parse existing JSON"),
        FailedStep::DownloadJar => String::from_str("Failed to download JAR"),
        FailedStep::ReadJarBytes => String::from_str("Failed to read JAR bytes"),
        FailedStep::WriteJarFile => String::from_str("Failed to write JAR file"),
    }
}

/// The message for a failed step, `detail` being the underlying error.
pub fn failure_message(step: &FailedStep, detail: &str) -> (r: String)
    ensures
        r@ == failure_text(*step, detail@),
{
    let mut r = failed_step_words(step);
    r.append(": ");
    r.append(detail);
    r
}

/// Why a download of the C interface failed.
pub enum DownloadFailure {
    /// An operation failed; the text is the underlying error.
    Step(FailedStep, String),
    /// The manifest yields no download URL for this version.
    VersionNotFound(String),
    /// The version JSON yields no client JAR URL.
    MissingJarUrl,
}

/// The message reported for a failed download.
pub open spec fn download_failure_text(f: DownloadFailure) -> Seq<char> {
    match f {
        DownloadFailure::Step(step, detail) => failure_text(step, detail@),
        DownloadFailure::VersionNotFound(id) => version_not_found_text(id@),
        DownloadFailure::MissingJarUrl => missing_jar_url_text(),
    }
}

impl DownloadFailure {
    /// The message reported for this failure.
    pub fn message(&self) -> (r: String)
        ensures
            r@ == download_failure_text(*self),
    {
        match self {
            DownloadFailure::Step(step, detail) => failure_message(step, detail.as_str()),
            DownloadFailure::VersionNotFound(id) => version_not_found_message(id.as_str()),
            DownloadFailure::MissingJarUrl => missing_jar_url_message(),
        }
    }
}

/// A download's outcome as text: the path of the saved file, or the
/// failure's message.
pub open spec fn download_outcome_text(r: Result<String, DownloadFailure>) -> Result<Seq<char>, Seq<char>> {
    match r {
        Ok(path) => Ok(path@),
        Err(f) => Err(download_failure_text(f)),
    }
}

/// The download URL of version `version_id` for the C interface, which
/// reports every lookup failure as "Version <id> not found in manifest".
pub fn c_version_url(manifest: &Json, version_id: &str) -> (r: Result<String, DownloadFailure>)
    ensures
        match version_url(*manifest, version_id@) {
            Ok(u) => r is Ok && r->Ok_0@ == u,
            Err(_) => r matches Err(DownloadFailure::VersionNotFound(id)) && id@ == version_id@,
        },
{
    match locate_version_url(manifest, version_id) {
        Ok(u) => Ok(u),
        Err(_) => Err(DownloadFailure::VersionNotFound(String::from_str(version_id))),
    }
}

/// The client JAR URL of a version JSON for the C interface, which reports
/// every lookup failure as "Missing client JAR URL in version JSON".
pub fn c_client_jar_url(version_json: &Json) -> (r: Result<String, DownloadFailure>)
    ensures
        match client_jar_url_of(*version_json) {
            Ok(u) => r is Ok && r->Ok_0@ == u,
            Err(_) => r matches Err(DownloadFailure::MissingJarUrl),
        },
{
    match client_jar_url(version_json) {
        Ok(u) => Ok(u),
        Err(_) => Err(DownloadFailure::MissingJarUrl),
    }
}

/// The client JAR URL named in the text of a version JSON already on disk,
/// for the C interface: text that does not parse fails as "Failed to parse
/// existing JSON: <parser error>".
pub fn c_client_jar_url_from_text(content: &str) -> (r: Result<String, DownloadFailure>)
    ensures
        match json_text_parse(content@) {
            Err(e) => r matches Err(DownloadFailure::Step(step, detail))
                && step is ParseExistingJson && detail@ == e,
            Ok(j) => match client_jar_url_of(j) {
                Ok(u) => r is Ok && r->Ok_0@ == u,
                Err(_) => r matches Err(DownloadFailure::MissingJarUrl),
            },
        },
{
    match crate::json::parse_json_text(content) {
        Ok(j) => c_client_jar_url(&j),
        Err(e) => Err(DownloadFailure::Step(FailedStep::ParseExistingJson, e)),
    }
}

/// What the C interface hands back for a download: the path of the saved
/// file, or the failure's message.
pub fn c_download_report(r: &Result<String, DownloadFailure>) -> (s: String)
    ensures
        s@ == match download_outcome_text(*r) {
            Ok(p) => p,
            Err(m) => m,
        },
{
    match r {
        Ok(path) => path.clone(),
        Err(f) => f.message(),
    }
}

/// A download's outcome as an installation step: any failure is a failed
/// step carrying the failure's message.
pub fn c_download_outcome(r: Result<String, DownloadFailure>) -> (out: Result<(), String>)
    ensures
        match download_outcome_text(r) {
            Ok(_) => out is Ok,
            Err(m) => out is Err && out->Err_0@ == m,
        },
{
    match r {
        Ok(_) => Ok(()),
        Err(f) => Err(f.message()),
    }
}

/// The steps of an installation, in order.
#[derive(Clone, Copy, PartialEq, Eq, Structural)]
pub enum InstallStep {
    CreateDirectory,
    DownloadVersionJson,
    DownloadClientJar,
}

/// What to do next: perform a step, or report the result.
pub enum InstallAction {
    Perform(InstallStep),
    Finish(InstallResult),
}

/// Abstract view of an [`InstallAction`].
pub enum InstallMove {
    Go(InstallStep),
    Done(bool, Option<Seq<char>>),
}

impl View for InstallAction {
    type V = InstallMove;

    open spec fn view(&self) -> InstallMove {
        match self {
            InstallAction::Perform(s) => InstallMove::Go(*s),
            InstallAction::Finish(r) => InstallMove::Done(
                r.success,
                match r.error {
                    Some(e) => Some(e@),
                    None => None,
                },
            ),
        }
    }
}

/// The move after `step` ended with `outcome`. A failed directory creation
/// is reported as "Failed to create version directory: <error>"; a failed
/// download is reported with its own message.
pub open spec fn install_transition(step: InstallStep, outcome: Result<(), Seq<char>>) -> InstallMove {
    match outcome {
        Err(e) => InstallMove::Done(
            false,
            Some(
                if step is CreateDirectory {
                    failure_text(FailedStep::CreateVersionDirectory, e)
                } else {
                    e
                },
            ),
        ),
        Ok(()) => match step {
            InstallStep::CreateDirectory => InstallMove::Go(InstallStep::DownloadVersionJson),
            InstallStep::DownloadVersionJson => InstallMove::Go(InstallStep::DownloadClientJar),
            InstallStep::DownloadClientJar => InstallMove::Done(true, None),
        },
    }
}

/// The first move of an installation.
pub fn install_start() -> (r: InstallAction)
    ensures
        r@ == InstallMove::Go(InstallStep::CreateDirectory),
{
    InstallAction::Perform(InstallStep::CreateDirectory)
}

/// The move after `step` ended with `outcome`.
pub fn install_next(step: InstallStep, outcome: Result<(), String>) -> (r: InstallAction)
    ensures
        r@ == install_transition(step, match outcome { Ok(()) => Ok(()), Err(e) => Err(e@) }),
        r matches InstallAction::Finish(res) ==> res.well_formed(),
{
    match outcome {
        Err(e) => {
            let message = match step {
                InstallStep::CreateDirectory => failure_message(&FailedStep::CreateVersionDirectory, e.as_str()),
                _ => e,
            };
            InstallAction::Finish(InstallResult { success: false, error: Some(message) })
        },
        Ok(()) => match step {
            InstallStep::CreateDirectory => InstallAction::Perform(InstallStep::DownloadVersionJson),
            InstallStep::DownloadVersionJson => InstallAction::Perform(InstallStep::DownloadClientJar),
            InstallStep::DownloadClientJar => InstallAction::Finish(InstallResult { success: true, error: None }),
        },
    }
}

/// An installation driven from its start with the outcomes of the
/// directory creation and of the two downloads (a later outcome is not
/// used once an earlier step failed).
pub open spec fn run_install(
    create: Result<(), Seq<char>>,
    json: Result<(), Seq<char>>,
    jar: Result<(), Seq<char>>,
) -> InstallMove {
    match install_transition(InstallStep::CreateDirectory, create) {
        InstallMove::Go(s1) => match install_transition(s1, json) {
            InstallMove::Go(s2) => install_transition(s2, jar),
            m => m,
        },
        m => m,
    }
}

/// An installation succeeds exactly when the directory is created and both
/// downloads succeed; otherwise it reports the first failure, and the steps
/// after it are never performed.
pub proof fn law_install_first_failure(
    create: Result<(), Seq<char>>,
    json: Result<(), Seq<char>>,
    jar: Result<(), Seq<char>>,
)
    ensures
        run_install(create, json, jar) == (match (create, json, jar) {
            (Err(e), _, _) => InstallMove::Done(false, Some(failure_text(FailedStep::CreateVersionDirectory, e))),
            (Ok(()), Err(e), _) => InstallMove::Done(false, Some(e)),
            (Ok(()), Ok(()), Err(e)) => InstallMove::Done(false, Some(e)),
            (Ok(()), Ok(()), Ok(())) => InstallMove::Done(true, None),
        }),
{
}

/// A failed download ends a C installation at once, as a failure that
/// carries the download's message, whether it was the version JSON or the
/// client JAR that could not be had.
pub proof fn law_failed_download_fails_install(step: InstallStep, f: DownloadFailure)
    requires
        step is DownloadVersionJson || step is DownloadClientJar,
    ensures
        install_transition(step, Err(download_failure_text(f))) == InstallMove::Done(
            false,
            Some(download_failure_text(f)),
        ),
{
}

} // verus!
