//! The update cycle as a state machine: from each state and each event to the
//! next state and to what has to be done next.

use crate::github::{Release, ReleaseAsset, ReleaseData};
use crate::pipeline::PipelineError;
use crate::platform::{asset_view, find_download, is_selection, Platform};
use crate::remote::{get_remote_version, remote_version_of, RemoteError};
use crate::version::{newer_than, SemanticVersion};
use vstd::prelude::*;

verus! {

/// The cooldown window, in seconds: one hour.
pub const CHECK_COOLDOWN_SECS: u64 = 3600;

/// A span of time: whole seconds, and the nanoseconds beyond them.
#[derive(Clone, Copy, Debug, PartialEq, Eq, Structural)]
pub struct Elapsed {
    pub secs: u64,
    pub nanos: u32,
}

/// Why a cycle failed.
#[derive(Debug)]
pub enum CycleError {
    /// The release host gave no release.
    Remote(RemoteError),
    /// Neither the tag nor the name of the release is a version.
    RemoteVersion(semver::Error),
    /// The release holds no asset for this platform.
    NoDownload,
    /// The asset was not fetched.
    Download(PipelineError),
    /// The asset was fetched and not unpacked.
    Extract(PipelineError),
}

/// What a release offers: its version, and its asset for this platform.
#[derive(Debug)]
pub struct Resolved {
    pub version: SemanticVersion,
    pub asset: Option<ReleaseAsset>,
}

/// What is told to the user when a cycle ends.
#[derive(Debug)]
pub enum Report {
    /// The last check is younger than the cooldown window.
    Skipped { age: Elapsed },
    /// The installed version is not older than the latest release.
    UpToDate { local: SemanticVersion },
    /// The latest release was installed.
    Updated { from: Option<SemanticVersion>, to: SemanticVersion },
    /// The cycle failed.
    Failed { error: CycleError },
}

/// Where a cycle stands.
#[derive(Debug)]
pub enum Stage {
    /// Nothing has happened yet.
    Unchecked,
    /// The age of the cooldown marker is being looked up.
    Deciding { forced: bool },
    /// The last check is recent enough: this cycle does without one.
    SkippedCooldown,
    /// The installed and the latest version are being looked up.
    Checking,
    /// The asset is being fetched.
    Downloading { local: Option<SemanticVersion>, remote: SemanticVersion, asset: ReleaseAsset },
    /// The fetched archive is being unpacked.
    Extracting { local: Option<SemanticVersion>, remote: SemanticVersion },
    /// The cycle failed.
    Failed,
    /// The cycle is over: the wrapped binary can be launched.
    Done,
}

/// What happened outside.
#[derive(Debug)]
pub enum Event {
    /// The launcher was started, with or without the flag that forces a check.
    Invoked { forced: bool },
    /// The cooldown marker was looked at: its age, or nothing where it is
    /// missing or its age cannot be told.
    MarkerRead { age: Option<Elapsed> },
    /// The installed binary and the release host were asked.
    Checked { local: Option<SemanticVersion>, remote: Result<Resolved, CycleError> },
    /// The download ended.
    Downloaded { result: Result<(), PipelineError> },
    /// The extraction ended.
    Extracted { result: Result<(), PipelineError> },
    /// The report was given and the marker touched where that was asked for.
    Concluded,
}

/// What has to be done next.
#[derive(Debug)]
pub enum Action {
    /// Look up the age of the cooldown marker.
    ReadMarker,
    /// Ask the installed binary for its version and the release host for the
    /// latest release.
    Check,
    /// Fetch the asset of the release with the given version, which takes
    /// the place of what is installed, if anything is.
    Download { asset: ReleaseAsset, version: SemanticVersion, installed: Option<SemanticVersion> },
    /// Unpack the archive of the given name.
    Extract { archive: String },
    /// Give the report, and refresh the cooldown marker where asked.
    Conclude { report: Report, touch_marker: bool },
    /// Nothing.
    Rest,
}

/// Whether a check is due: always when forced, and else when the marker is
/// missing or as old as the cooldown window.
pub open spec fn check_due(forced: bool, age: Option<Elapsed>) -> bool {
    forced || match age {
        Some(a) => a.secs >= CHECK_COOLDOWN_SECS,
        None => true,
    }
}

/// Whether the latest release has to be fetched: when nothing is installed,
/// or when the release is strictly newer than what is.
pub open spec fn update_due(local: Option<SemanticVersion>, remote: SemanticVersion) -> bool {
    match local {
        Some(l) => newer_than(remote@, l@),
        None => true,
    }
}

/// The state machine: the state that follows `stage` on `event`, and the
/// action that goes with the step. An event that a state does not wait for
/// changes nothing and asks for nothing.
pub open spec fn next(stage: Stage, event: Event) -> (Stage, Action) {
    match (stage, event) {
        (Stage::Unchecked, Event::Invoked { forced }) => (
            Stage::Deciding { forced },
            Action::ReadMarker,
        ),
        (Stage::Deciding { forced }, Event::MarkerRead { age }) => if check_due(forced, age) {
            (Stage::Checking, Action::Check)
        } else {
            (
                Stage::SkippedCooldown,
                Action::Conclude { report: Report::Skipped { age: age->0 }, touch_marker: false },
            )
        },
        (Stage::Checking, Event::Checked { local, remote }) => match remote {
            Err(error) => (
                Stage::Failed,
                Action::Conclude { report: Report::Failed { error }, touch_marker: true },
            ),
            Ok(resolved) => if !update_due(local, resolved.version) {
                (
                    Stage::Done,
                    Action::Conclude {
                        report: Report::UpToDate { local: local->0 },
                        touch_marker: true,
                    },
                )
            } else {
                match resolved.asset {
                    Some(asset) => (
                        Stage::Downloading { local, remote: resolved.version, asset },
                        Action::Download { asset, version: resolved.version, installed: local },
                    ),
                    None => (
                        Stage::Failed,
                        Action::Conclude {
                            report: Report::Failed { error: CycleError::NoDownload },
                            touch_marker: true,
                        },
                    ),
                }
            },
        },
        (Stage::Downloading { local, remote, asset }, Event::Downloaded { result }) => match result {
            Ok(_) => (Stage::Extracting { local, remote }, Action::Extract { archive: asset.name }),
            Err(e) => (
                Stage::Failed,
                Action::Conclude {
                    report: Report::Failed { error: CycleError::Download(e) },
                    touch_marker: true,
                },
            ),
        },
        (Stage::Extracting { local, remote }, Event::Extracted { result }) => match result {
            Ok(_) => (
                Stage::Done,
                Action::Conclude {
                    report: Report::Updated { from: local, to: remote },
                    touch_marker: true,
                },
            ),
            Err(e) => (
                Stage::Failed,
                Action::Conclude {
                    report: Report::Failed { error: CycleError::Extract(e) },
                    touch_marker: true,
                },
            ),
        },
        (Stage::SkippedCooldown, Event::Concluded) => (Stage::Done, Action::Rest),
        (Stage::Failed, Event::Concluded) => (Stage::Done, Action::Rest),
        (stage, _) => (stage, Action::Rest),
    }
}

/// Whether a check is due.
pub fn is_check_due(forced: bool, age: Option<Elapsed>) -> (r: bool)
    ensures
        r == check_due(forced, age),
{
    forced || match age {
        Some(a) => a.secs >= CHECK_COOLDOWN_SECS,
        None => true,
    }
}

/// Whether the latest release has to be fetched.
pub fn is_update_due(local: &Option<SemanticVersion>, remote: &SemanticVersion) -> (r: bool)
    ensures
        r == update_due(*local, *remote),
{
    match local {
        Some(l) => remote.is_newer_than(l),
        None => true,
    }
}

/// Whether `outcome` is what `release` offers on `platform`: its version and
/// its asset, or the error that it holds no version.
pub open spec fn resolves(
    release: ReleaseData,
    platform: Platform,
    outcome: Result<Resolved, CycleError>,
) -> bool {
    match outcome {
        Ok(resolved) => remote_version_of(release) == Some(resolved.version@) && is_selection(
            release.assets,
            platform.suffix(),
            asset_view(resolved.asset),
        ),
        Err(CycleError::RemoteVersion(_)) => remote_version_of(release) is None,
        Err(_) => false,
    }
}

/// Reads from a release what a cycle needs of it: its version, and the asset
/// for `platform` if it has one.
pub fn resolve(release: Release, platform: Platform) -> (r: Result<Resolved, CycleError>)
    ensures
        resolves(release@, platform, r),
{
    match get_remote_version(&release) {
        Ok(version) => Ok(Resolved { version, asset: find_download(release.assets, platform) }),
        Err(e) => Err(CycleError::RemoteVersion(e)),
    }
}

/// The event that ends a check: the installed version, where one was found,
/// and what the release host's answer offers or why it offers nothing.
pub fn checked(
    local: Option<SemanticVersion>,
    remote: Result<Release, RemoteError>,
    platform: Platform,
) -> (r: Event)
    ensures
        match r {
            Event::Checked { local: l, remote: outcome } => l == local && match remote {
                Ok(release) => resolves(release@, platform, outcome),
                Err(e) => outcome == Err::<Resolved, CycleError>(CycleError::Remote(e)),
            },
            _ => false,
        },
{
    match remote {
        Ok(release) => Event::Checked { local, remote: resolve(release, platform) },
        Err(e) => Event::Checked { local, remote: Err(CycleError::Remote(e)) },
    }
}

/// The step from `Checking` once the release is known to be needed: to
/// `Downloading` where the release has an asset for this platform, and else
/// to `Failed`.
fn begin_download(local: Option<SemanticVersion>, resolved: Resolved) -> (r: (Stage, Action))
    requires
        update_due(local, resolved.version),
    ensures
        r == next(Stage::Checking, Event::Checked { local, remote: Ok(resolved) }),
{
    match resolved.asset {
        Some(asset) => {
            let installed = match &local {
                Some(l) => Some(l.clone()),
                None => None,
            };
            let fetch = Action::Download {
                asset: asset.clone(),
                version: resolved.version.clone(),
                installed,
            };
            (Stage::Downloading { local, remote: resolved.version, asset }, fetch)
        },
        None => (
            Stage::Failed,
            Action::Conclude {
                report: Report::Failed { error: CycleError::NoDownload },
                touch_marker: true,
            },
        ),
    }
}

/// Takes one step of the state machine.
pub fn step(stage: Stage, event: Event) -> (r: (Stage, Action))
    ensures
        r == next(stage, event),
{
    match (stage, event) {
        (Stage::Unchecked, Event::Invoked { forced }) => (
            Stage::Deciding { forced },
            Action::ReadMarker,
        ),
        (Stage::Deciding { forced }, Event::MarkerRead { age }) => match age {
            Some(a) => {
                if forced || a.secs >= CHECK_COOLDOWN_SECS {
                    (Stage::Checking, Action::Check)
                } else {
                    (
                        Stage::SkippedCooldown,
                        Action::Conclude { report: Report::Skipped { age: a }, touch_marker: false },
                    )
                }
            },
            None => (Stage::Checking, Action::Check),
        },
        (Stage::Checking, Event::Checked { local, remote }) => match remote {
            Err(error) => (
                Stage::Failed,
                Action::Conclude { report: Report::Failed { error }, touch_marker: true },
            ),
            Ok(resolved) => match local {
                Some(installed) => {
                    if resolved.version.is_newer_than(&installed) {
                        begin_download(Some(installed), resolved)
                    } else {
                        (
                            Stage::Done,
                            Action::Conclude {
                                report: Report::UpToDate { local: installed },
                                touch_marker: true,
                            },
                        )
                    }
                },
                None => begin_download(None, resolved),
            },
        },
        (Stage::Downloading { local, remote, asset }, Event::Downloaded { result }) => match result {
            Ok(_) => (Stage::Extracting { local, remote }, Action::Extract { archive: asset.name }),
            Err(e) => (
                Stage::Failed,
                Action::Conclude {
                    report: Report::Failed { error: CycleError::Download(e) },
                    touch_marker: true,
                },
            ),
        },
        (Stage::Extracting { local, remote }, Event::Extracted { result }) => match result {
            Ok(_) => (
                Stage::Done,
                Action::Conclude {
                    report: Report::Updated { from: local, to: remote },
                    touch_marker: true,
                },
            ),
            Err(e) => (
                Stage::Failed,
                Action::Conclude {
                    report: Report::Failed { error: CycleError::Extract(e) },
                    touch_marker: true,
                },
            ),
        },
        (Stage::SkippedCooldown, Event::Concluded) => (Stage::Done, Action::Rest),
        (Stage::Failed, Event::Concluded) => (Stage::Done, Action::Rest),
        (stage, _) => (stage, Action::Rest),
    }
}

} // verus!
