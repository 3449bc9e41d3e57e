//! What the launcher tells its user.

use crate::chain::{chain_text, join_error_chain, string_views};
use crate::gatekeeper::{CycleError, Elapsed, Report};
use crate::pipeline::PipelineError;
use crate::probe::LocalVersionError;
use crate::remote::RemoteError;
use crate::text::{decimal, decimal_text, signed_decimal, signed_decimal_text};
use crate::version::{rejection_message, rejection_text, version_text, SemanticVersion};
use vstd::prelude::*;
use vstd::string::StringExecFns;

verus! {

/// What is said of a release that holds no asset for this platform.
pub const NO_DOWNLOAD: &'static str = "could not find download url";

/// How `humantime::format_duration` writes a span of `secs` seconds and
/// `nanos` nanoseconds.
pub uninterp spec fn humane_text(secs: u64, nanos: u32) -> Seq<char>;

/// Writes a span of time with `humantime::format_duration`, in the units that
/// a reader counts in.
#[verifier::external_body]
fn humane(secs: u64, nanos: u32) -> (r: String)
    requires
        nanos < 1_000_000_000,
    ensures
        r@ == humane_text(secs, nanos),
{
    humantime::format_duration(std::time::Duration::new(secs, nanos)).to_string()
}

/// The nanoseconds of a span that are shown: those beyond its whole seconds,
/// which are fewer than a second.
pub open spec fn shown_nanos(age: Elapsed) -> u32 {
    if age.nanos < 1_000_000_000 {
        age.nanos
    } else {
        999_999_999
    }
}

/// What is told to the user at the end of a cycle. Of a failure only the
/// first line is given here: the causes follow it, as a chain.
pub open spec fn report_text(report: Report) -> Seq<char> {
    match report {
        Report::Skipped { age } => "skipped checks, last checked `"@ + humane_text(
            age.secs,
            shown_nanos(age),
        ) + "` ago.\n"@,
        Report::UpToDate { local } => "you have the latest repak ("@ + version_text(local@)
            + ")"@,
        Report::Updated { from: Some(old_version), to } => "summary: repak "@ + version_text(
            old_version@,
        ) + " => "@ + version_text(to@),
        Report::Updated { from: None, to } => "summary: got the latest "@ + version_text(to@),
        Report::Failed { error } => "failed to check for updates!"@,
    }
}

/// Words a report.
pub fn report_message(report: &Report) -> (r: String)
    ensures
        r@ == report_text(*report),
{
    match report {
        Report::Skipped { age } => {
            let nanos: u32 = if age.nanos < 1_000_000_000 {
                age.nanos
            } else {
                999_999_999
            };
            let mut s = "skipped checks, last checked `".to_owned();
            s.append(humane(age.secs, nanos).as_str());
            s.append("` ago.\n");
            s
        },
        Report::UpToDate { local } => {
            let mut s = "you have the latest repak (".to_owned();
            s.append(local.to_text().as_str());
            s.append(")");
            s
        },
        Report::Updated { from: Some(old_version), to } => {
            let mut s = "summary: repak ".to_owned();
            s.append(old_version.to_text().as_str());
            s.append(" => ");
            s.append(to.to_text().as_str());
            s
        },
        Report::Updated { from: None, to } => {
            let mut s = "summary: got the latest ".to_owned();
            s.append(to.to_text().as_str());
            s
        },
        Report::Failed { error } => "failed to check for updates!".to_owned(),
    }
}

/// What is said of a failure to get the release.
pub open spec fn remote_error_text(error: RemoteError) -> Seq<char> {
    match error {
        RemoteError::Forbidden { text } => "got 403 on api request: "@ + text@,
        RemoteError::UnhandledStatus { status } => "unhandled status "@ + decimal(status as nat),
        RemoteError::Transport { message } => message@,
    }
}

/// Words a failure to get the release.
pub fn describe_remote_error(error: &RemoteError) -> (r: String)
    ensures
        r@ == remote_error_text(*error),
{
    match error {
        RemoteError::Forbidden { text } => {
            let mut s = "got 403 on api request: ".to_owned();
            s.append(text.as_str());
            s
        },
        RemoteError::UnhandledStatus { status } => {
            let mut s = "unhandled status ".to_owned();
            s.append(decimal_text(*status as u64).as_str());
            s
        },
        RemoteError::Transport { message } => message.clone(),
    }
}

/// What is said of a failure to fetch or to unpack. Of an extractor that
/// could not be started it names the archive; why it could not is the cause
/// behind that.
pub open spec fn pipeline_error_text(error: PipelineError) -> Seq<char> {
    match error {
        PipelineError::NoContentLength => "could not get content_length"@,
        PipelineError::Io { message } => message@,
        PipelineError::ExtractorFailed { archive, code: Some(c) } => "failed to extract "@
            + archive@ + ", exited with code "@ + signed_decimal(c as int),
        PipelineError::ExtractorFailed { archive, code: None } => "failed to extract "@
            + archive@ + ", exited without a code"@,
        PipelineError::ExtractorNotRun { archive, message } => "trying to extract "@ + archive@,
    }
}

/// Words a failure to fetch or to unpack.
pub fn describe_pipeline_error(error: &PipelineError) -> (r: String)
    ensures
        r@ == pipeline_error_text(*error),
{
    match error {
        PipelineError::NoContentLength => "could not get content_length".to_owned(),
        PipelineError::Io { message } => message.clone(),
        PipelineError::ExtractorFailed { archive, code: Some(c) } => {
            let mut s = "failed to extract ".to_owned();
            s.append(archive.as_str());
            s.append(", exited with code ");
            s.append(signed_decimal_text(*c).as_str());
            s
        },
        PipelineError::ExtractorFailed { archive, code: None } => {
            let mut s = "failed to extract ".to_owned();
            s.append(archive.as_str());
            s.append(", exited without a code");
            s
        },
        PipelineError::ExtractorNotRun { archive, message } => {
            let mut s = "trying to extract ".to_owned();
            s.append(archive.as_str());
            s
        },
    }
}

/// What is said before a download: that a newer version was found, where one
/// is installed; nothing where none is.
pub open spec fn notice_text(installed: Option<SemanticVersion>, version: SemanticVersion) -> Option<
    Seq<char>,
> {
    match installed {
        Some(_) => Some("found new version "@ + version_text(version@)),
        None => None,
    }
}

/// Words what is said before a download.
pub fn download_notice(installed: &Option<SemanticVersion>, version: &SemanticVersion) -> (r:
    Option<String>)
    ensures
        match r {
            Some(text) => notice_text(*installed, *version) == Some(text@),
            None => notice_text(*installed, *version) is None,
        },
{
    match installed {
        Some(_) => {
            let mut s = "found new version ".to_owned();
            s.append(version.to_text().as_str());
            Some(s)
        },
        None => None,
    }
}

/// What is said of an output that gave no version.
pub open spec fn local_error_text(error: LocalVersionError) -> Seq<char> {
    match error {
        LocalVersionError::NoToken => "could not parse local version."@,
        LocalVersionError::Syntax(err) => rejection_text(err),
    }
}

/// Words why an output gave no version.
pub fn describe_local_error(error: &LocalVersionError) -> (r: String)
    ensures
        r@ == local_error_text(*error),
{
    match error {
        LocalVersionError::NoToken => "could not parse local version.".to_owned(),
        LocalVersionError::Syntax(err) => rejection_message(err),
    }
}

/// The messages behind a failure to fetch or to unpack, the outermost first.
/// An extractor that could not be started gives two: why it could not, and
/// behind that what was being tried.
pub open spec fn pipeline_chain(error: PipelineError) -> Seq<Seq<char>> {
    match error {
        PipelineError::ExtractorNotRun { archive, message } => seq![
            message@,
            pipeline_error_text(error),
        ],
        _ => seq![pipeline_error_text(error)],
    }
}

/// The messages behind a failed cycle, the outermost first.
pub open spec fn failure_chain(error: CycleError) -> Seq<Seq<char>> {
    match error {
        CycleError::Remote(err) => seq![remote_error_text(err)],
        CycleError::RemoteVersion(err) => seq![rejection_text(err)],
        CycleError::NoDownload => seq![NO_DOWNLOAD@],
        CycleError::Download(err) => pipeline_chain(err),
        CycleError::Extract(err) => pipeline_chain(err),
    }
}

fn pipeline_messages(error: &PipelineError) -> (r: Vec<String>)
    ensures
        string_views(r@) == pipeline_chain(*error),
{
    let mut messages: Vec<String> = Vec::new();
    match error {
        PipelineError::ExtractorNotRun { archive, message } => {
            messages.push(message.clone());
        },
        _ => {},
    }
    messages.push(describe_pipeline_error(error));
    proof {
        assert(string_views(messages@) =~= pipeline_chain(*error));
    }
    messages
}

fn single(message: String) -> (r: Vec<String>)
    ensures
        r@ == seq![message],
{
    let mut messages: Vec<String> = Vec::new();
    messages.push(message);
    messages
}

/// Lists the messages behind a failed cycle, the outermost first.
pub fn failure_messages(error: &CycleError) -> (r: Vec<String>)
    ensures
        string_views(r@) == failure_chain(*error),
{
    let messages = match error {
        CycleError::Remote(err) => single(describe_remote_error(err)),
        CycleError::RemoteVersion(err) => single(rejection_message(err)),
        CycleError::NoDownload => single(NO_DOWNLOAD.to_owned()),
        CycleError::Download(err) => pipeline_messages(err),
        CycleError::Extract(err) => pipeline_messages(err),
    };
    proof {
        assert(string_views(messages@) =~= failure_chain(*error));
    }
    messages
}

/// Words a failed cycle in one line: its messages from the root cause to the
/// outermost, with " => " between them.
pub fn describe_failure(error: &CycleError) -> (r: String)
    ensures
        r@ == chain_text(failure_chain(*error)),
{
    let messages = failure_messages(error);
    join_error_chain(&messages)
}

} // verus!
