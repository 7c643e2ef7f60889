//! The export from start to end: what is looked up, what is written, in
//! which order, and where it stops.
//!
//! The export does no reading and no writing of its own. It is started with
//! what the lock holds, says which file to write next, and goes on when it is
//! told how the writing went.

use vstd::prelude::*;
use vstd::string::*;
use rattler_conda_types::Platform;
use crate::classify::{
    classify_packages, has_secondary, ignored_count, kept_secondary, native_packages,
};
use crate::error::{Artifact, ExportError, MissingKey};
use crate::explicit::{
    all_have_digest, build_explicit_spec, explicit_spec_contents, explicit_spec_file_text,
    lemma_url_lines_of_pinned, names_first_without_digest,
};
use crate::package::{LockedPackage, SecondaryPackage, UnsupportedPolicy};
use crate::requirements::{all_locations_are_text, render_requirements, requirement_lines};
use crate::trusted::{platform_as_string, platform_name};

verus! {

/// The platform to export for: the one asked for, or else the best one of
/// the environment.
pub open spec fn platform_or_best(requested: Option<Platform>, best: Platform) -> Platform {
    match requested {
        Some(requested) => requested,
        None => best,
    }
}

/// Picks the platform to export for: the one asked for, or else the best
/// one of the environment.
pub fn resolve_platform(requested: Option<Platform>, best: Platform) -> (platform: Platform)
    ensures
        platform == platform_or_best(requested, best),
{
    match requested {
        Some(requested) => requested,
        None => best,
    }
}

/// What the command line asks of an export.
#[derive(Clone, Debug)]
pub struct Args {
    /// The environment to export, if one is named.
    pub environment: Option<String>,
    /// The platform to export for, if one is named.
    pub platform: Option<Platform>,
    /// Leave packages of the secondary ecosystem out of the export.
    pub ignore_pypi_errors: bool,
    /// Write packages of the secondary ecosystem to a requirements file.
    pub write_pypi_requirements: bool,
}

impl Args {
    /// What the two switches say of unsupported packages.
    pub fn policy(&self) -> (policy: UnsupportedPolicy)
        ensures
            policy == UnsupportedPolicy::of_flags(
                self.ignore_pypi_errors,
                self.write_pypi_requirements,
            ),
    {
        UnsupportedPolicy::from_flags(self.ignore_pypi_errors, self.write_pypi_requirements)
    }

    /// The request that these arguments make of the environment found
    /// under the name `environment`, whose best platform is `best_platform`,
    /// in the project declared at `manifest`.
    pub fn request(&self, environment: String, best_platform: Platform, manifest: String) -> (request:
        ExportRequest)
        ensures
            request.environment == environment,
            request.platform == platform_or_best(self.platform, best_platform),
            request.manifest == manifest,
            request.policy == UnsupportedPolicy::of_flags(
                self.ignore_pypi_errors,
                self.write_pypi_requirements,
            ),
    {
        ExportRequest {
            environment,
            platform: resolve_platform(self.platform, best_platform),
            manifest,
            policy: self.policy(),
        }
    }
}

/// The name of the file of the pinned list.
pub open spec fn explicit_spec_file_name(platform: Platform, environment: Seq<char>) -> Seq<char> {
    "conda-"@ + platform_name(platform) + "-"@ + environment + ".lock"@
}

/// The name of the requirements file.
pub open spec fn requirements_file_name(platform: Platform, environment: Seq<char>) -> Seq<char> {
    "requirements-"@ + platform_name(platform) + "-"@ + environment + ".txt"@
}

/// Names the file of the pinned list after platform and environment.
pub fn explicit_spec_file(platform: &Platform, environment: &str) -> (name: String)
    ensures
        name@ == explicit_spec_file_name(*platform, environment@),
{
    let mut name = String::from_str("conda-");
    name.append(platform_as_string(platform).as_str());
    name.append("-");
    name.append(environment);
    name.append(".lock");
    name
}

/// Names the requirements file after platform and environment.
pub fn requirements_file(platform: &Platform, environment: &str) -> (name: String)
    ensures
        name@ == requirements_file_name(*platform, environment@),
{
    let mut name = String::from_str("requirements-");
    name.append(platform_as_string(platform).as_str());
    name.append("-");
    name.append(environment);
    name.append(".txt");
    name
}

/// What an export is asked for.
#[derive(Clone, Debug)]
pub struct ExportRequest {
    /// The name of the environment.
    pub environment: String,
    /// The platform.
    pub platform: Platform,
    /// Where the project is declared, as shown to the user in errors.
    pub manifest: String,
    /// What to do with packages of the secondary ecosystem.
    pub policy: UnsupportedPolicy,
}

/// What a lock holds for one environment and platform.
#[derive(Clone, Debug)]
pub enum LockSlice {
    /// The lock has no environment of that name.
    NoEnvironment,
    /// The environment has no packages for that platform.
    NoPlatform,
    /// The packages, in the order of the lock.
    Packages(Vec<LockedPackage>),
}

/// A file for the caller to write. An existing file of that name is
/// replaced.
#[derive(Clone, Debug, PartialEq, Eq)]
pub struct FileToWrite {
    /// Which of the two files this is.
    pub artifact: Artifact,
    /// The name of the file, to be taken in the working directory.
    pub name: String,
    /// The whole text of the file.
    pub contents: String,
}

/// An export that waits for a file to be written.
#[derive(Clone, Debug)]
pub struct PendingExport {
    /// What was asked for.
    pub request: ExportRequest,
    /// The file that is being written.
    pub artifact: Artifact,
    /// The packages kept for the requirements file.
    pub secondary: Vec<SecondaryPackage>,
}

/// What an export does next.
#[derive(Clone, Debug)]
pub enum ExportStep {
    /// `file` is to be written. The outcome of the writing goes to
    /// `pending`, by [`PendingExport::written`] or
    /// [`PendingExport::write_failed`].
    Write { file: FileToWrite, pending: PendingExport },
    /// The export is complete.
    Finished,
    /// The export has stopped. What was written before stays.
    Failed(ExportError),
}

/// How an export begins.
#[derive(Clone, Debug)]
pub struct ExportStart {
    /// How many packages were left out as unsupported, each worth a warning.
    pub ignored: usize,
    /// What the export does first.
    pub step: ExportStep,
}

/// Whether `error` says that the lock lacks `key`, under the name `name`.
pub open spec fn is_not_found(
    error: ExportError,
    key: MissingKey,
    name: Seq<char>,
    manifest: Seq<char>,
) -> bool {
    &&& error matches ExportError::NotFound { key: missing, name: missing_name, manifest: shown }
    &&& missing == key
    &&& missing_name@ == name
    &&& shown@ == manifest
}

/// Whether `step` hands out the pinned list of `packages` for writing, and
/// waits with what the policy keeps for the requirements.
pub open spec fn writes_explicit_spec(
    step: ExportStep,
    request: ExportRequest,
    packages: Seq<LockedPackage>,
) -> bool {
    &&& step matches ExportStep::Write { file, pending }
    &&& file.artifact == Artifact::ExplicitSpec
    &&& file.name@ == explicit_spec_file_name(request.platform, request.environment@)
    &&& file.contents@ == explicit_spec_file_text(request.platform, native_packages(packages))
    &&& pending.request == request
    &&& pending.artifact == Artifact::ExplicitSpec
    &&& pending.secondary@ == kept_secondary(packages, request.policy)
}

/// Whether `step` is the first step of an export of `slice`.
pub open spec fn is_first_step(step: ExportStep, request: ExportRequest, slice: LockSlice) -> bool {
    match slice {
        LockSlice::NoEnvironment => {
            &&& step matches ExportStep::Failed(error)
            &&& is_not_found(
                error,
                MissingKey::Environment,
                request.environment@,
                request.manifest@,
            )
        },
        LockSlice::NoPlatform => {
            &&& step matches ExportStep::Failed(error)
            &&& is_not_found(
                error,
                MissingKey::Platform,
                platform_name(request.platform),
                request.manifest@,
            )
        },
        LockSlice::Packages(packages) => {
            if request.policy == UnsupportedPolicy::Fail && has_secondary(packages@) {
                step matches ExportStep::Failed(ExportError::Configuration)
            } else if !all_have_digest(native_packages(packages@)) {
                &&& step matches ExportStep::Failed(error)
                &&& names_first_without_digest(error, native_packages(packages@))
            } else {
                writes_explicit_spec(step, request, packages@)
            }
        },
    }
}

/// How many packages the first step of an export of `slice` leaves out:
/// those that the policy ignores, unless the lock lacks what was asked for.
pub open spec fn ignored_at_start(request: ExportRequest, slice: LockSlice) -> nat {
    match slice {
        LockSlice::Packages(packages) => ignored_count(packages@, request.policy),
        _ => 0,
    }
}

/// Starts an export with what the lock holds. The slice is selected, the
/// packages are split by ecosystem and the native ones pinned; then the file
/// of the pinned list is handed out for writing. Nothing is handed out if
/// the lock lacks the environment or the platform, if the policy refuses a
/// package, or if a native package has no digest.
pub fn start_export(request: ExportRequest, slice: LockSlice) -> (start: ExportStart)
    ensures
        is_first_step(start.step, request, slice),
        start.ignored == ignored_at_start(request, slice),
{
    match slice {
        LockSlice::NoEnvironment => ExportStart {
            ignored: 0,
            step: ExportStep::Failed(
                ExportError::NotFound {
                    key: MissingKey::Environment,
                    name: request.environment,
                    manifest: request.manifest,
                },
            ),
        },
        LockSlice::NoPlatform => ExportStart {
            ignored: 0,
            step: ExportStep::Failed(
                ExportError::NotFound {
                    key: MissingKey::Platform,
                    name: platform_as_string(&request.platform),
                    manifest: request.manifest,
                },
            ),
        },
        LockSlice::Packages(packages) => {
            let classified = match classify_packages(packages, request.policy) {
                Ok(classified) => classified,
                Err(error) => {
                    return ExportStart { ignored: 0, step: ExportStep::Failed(error) };
                },
            };
            let ignored = classified.ignored;
            let spec = match build_explicit_spec(request.platform, classified.native.as_slice()) {
                Ok(spec) => spec,
                Err(error) => {
                    return ExportStart { ignored, step: ExportStep::Failed(error) };
                },
            };
            proof {
                lemma_url_lines_of_pinned(spec.entries@, classified.native@);
            }
            let file = FileToWrite {
                artifact: Artifact::ExplicitSpec,
                name: explicit_spec_file(&request.platform, request.environment.as_str()),
                contents: explicit_spec_contents(&spec),
            };
            assert(file.contents@ =~= explicit_spec_file_text(
                request.platform,
                native_packages(packages@),
            ));
            ExportStart {
                ignored,
                step: ExportStep::Write {
                    file,
                    pending: PendingExport {
                        request,
                        artifact: Artifact::ExplicitSpec,
                        secondary: classified.secondary,
                    },
                },
            }
        },
    }
}

/// Whether `step` is what follows on the writing of the file that `pending`
/// waited for.
pub open spec fn is_step_after_write(step: ExportStep, pending: PendingExport) -> bool {
    if pending.artifact == Artifact::ExplicitSpec && pending.request.policy
        == UnsupportedPolicy::EmitAsRequirements {
        if all_locations_are_text(pending.secondary@) {
            &&& step matches ExportStep::Write { file, pending: next }
            &&& file.artifact == Artifact::Requirements
            &&& file.name@ == requirements_file_name(
                pending.request.platform,
                pending.request.environment@,
            )
            &&& file.contents@ == requirement_lines(pending.secondary@)
            &&& next.request == pending.request
            &&& next.artifact == Artifact::Requirements
            &&& next.secondary@.len() == 0
        } else {
            step matches ExportStep::Failed(ExportError::Encoding)
        }
    } else {
        step is Finished
    }
}

/// Whether `step` reports that the file that `pending` waited for could not
/// be written.
pub open spec fn is_step_after_failure(
    step: ExportStep,
    pending: PendingExport,
    path: Seq<char>,
    cause: Seq<char>,
) -> bool {
    &&& step matches ExportStep::Failed(ExportError::Io { artifact, path: failed, cause: why })
    &&& artifact == pending.artifact
    &&& failed@ == path
    &&& why@ == cause
}

impl PendingExport {
    /// Goes on after the file was written. After the pinned list the
    /// requirements file follows, if the policy asks for one; it is written
    /// even where no package was kept for it. After the requirements file
    /// the export is complete.
    pub fn written(self) -> (step: ExportStep)
        ensures
            is_step_after_write(step, self),
    {
        match self.artifact {
            Artifact::Requirements => ExportStep::Finished,
            Artifact::ExplicitSpec => {
                match self.request.policy {
                    UnsupportedPolicy::EmitAsRequirements => {
                        match render_requirements(self.secondary.as_slice()) {
                            Ok(contents) => {
                                let file = FileToWrite {
                                    artifact: Artifact::Requirements,
                                    name: requirements_file(
                                        &self.request.platform,
                                        self.request.environment.as_str(),
                                    ),
                                    contents,
                                };
                                ExportStep::Write {
                                    file,
                                    pending: PendingExport {
                                        request: self.request,
                                        artifact: Artifact::Requirements,
                                        secondary: Vec::new(),
                                    },
                                }
                            },
                            Err(error) => ExportStep::Failed(error),
                        }
                    },
                    _ => ExportStep::Finished,
                }
            },
        }
    }

    /// Stops after the file could not be written to `path`, for the reason
    /// in `cause`.
    pub fn write_failed(self, path: String, cause: String) -> (step: ExportStep)
        ensures
            is_step_after_failure(step, self, path@, cause@),
    {
        ExportStep::Failed(ExportError::Io { artifact: self.artifact, path, cause })
    }
}

} // verus!
