//! The ways an export fails.

use vstd::prelude::*;
use vstd::string::*;

verus! {

/// The key that a lock was asked for and did not hold.
#[derive(Clone, Copy, Debug, PartialEq, Eq)]
pub enum MissingKey {
    Environment,
    Platform,
}

/// The file that an export writes.
#[derive(Clone, Copy, Debug, PartialEq, Eq)]
pub enum Artifact {
    /// The pinned package list.
    ExplicitSpec,
    /// The requirements of the secondary ecosystem.
    Requirements,
}

/// Why an export stopped. Every one of these ends the export.
#[derive(Clone, Debug, PartialEq, Eq)]
pub enum ExportError {
    /// The lock holds no environment of this name, or no packages for this
    /// platform. `manifest` is where the project is declared.
    NotFound { key: MissingKey, name: String, manifest: String },
    /// A native package carries no digest to pin it by.
    Integrity { package: String },
    /// The lock holds packages of the secondary ecosystem and the policy
    /// says to refuse them.
    Configuration,
    /// A local path is not valid Unicode and cannot be written as text.
    Encoding,
    /// A file could not be written.
    Io { artifact: Artifact, path: String, cause: String },
}

impl ExportError {
    /// What the user is told.
    pub open spec fn message_text(self) -> Seq<char> {
        match self {
            ExportError::NotFound { key: MissingKey::Environment, name, manifest } => {
                "unknown environment '"@ + name@ + "' in "@ + manifest@
            },
            ExportError::NotFound { key: MissingKey::Platform, name, manifest } => {
                "platform '"@ + name@ + "' not found in "@ + manifest@
            },
            ExportError::Integrity { package } => {
                "Package "@ + package@ + " does not contain an md5 hash"@
            },
            ExportError::Configuration => {
                "PyPI packages are not supported. Specify `--ignore-pypi-errors` to ignore this erroror `--write-pypi-requirements` to write pypi requirements to a separate requirements.txt file"@
            },
            ExportError::Encoding => "Could not convert a local path to text"@,
            ExportError::Io { artifact: Artifact::ExplicitSpec, path, cause } => {
                "Could not write environment file: "@ + cause@
            },
            ExportError::Io { artifact: Artifact::Requirements, path, cause } => {
                "Could not write requirements file: "@ + cause@
            },
        }
    }

    /// Spells the error out for the user.
    pub fn message(&self) -> (text: String)
        ensures
            text@ == self.message_text(),
    {
        match self {
            ExportError::NotFound { key: MissingKey::Environment, name, manifest } => {
                let mut text = String::from_str("unknown environment '");
                text.append(name.as_str());
                text.append("' in ");
                text.append(manifest.as_str());
                text
            },
            ExportError::NotFound { key: MissingKey::Platform, name, manifest } => {
                let mut text = String::from_str("platform '");
                text.append(name.as_str());
                text.append("' not found in ");
                text.append(manifest.as_str());
                text
            },
            ExportError::Integrity { package } => {
                let mut text = String::from_str("Package ");
                text.append(package.as_str());
                text.append(" does not contain an md5 hash");
                text
            },
            ExportError::Configuration => {
                String::from_str(
                    "PyPI packages are not supported. Specify `--ignore-pypi-errors` to ignore this erroror `--write-pypi-requirements` to write pypi requirements to a separate requirements.txt file",
                )
            },
            ExportError::Encoding => String::from_str("Could not convert a local path to text"),
            ExportError::Io { artifact: Artifact::ExplicitSpec, path, cause } => {
                let mut text = String::from_str("Could not write environment file: ");
                text.append(cause.as_str());
                text
            },
            ExportError::Io { artifact: Artifact::Requirements, path, cause } => {
                let mut text = String::from_str("Could not write requirements file: ");
                text.append(cause.as_str());
                text
            },
        }
    }
}

} // verus!
