//! The packages of a lock, as far as the export reads them.

use vstd::prelude::*;
use std::path::PathBuf;
use url::Url;

verus! {

/// A hash algorithm that a requirement line can name.
#[derive(Clone, Copy, Debug, PartialEq, Eq)]
pub enum HashAlgorithm {
    Md5,
    Sha256,
}

/// The digests recorded for a package of the secondary ecosystem.
#[derive(Clone, Copy, Debug, PartialEq, Eq)]
pub enum PackageHashes {
    /// Only an MD5 digest.
    Md5([u8; 16]),
    /// Only a SHA-256 digest.
    Sha256([u8; 32]),
    /// Both digests.
    Md5Sha256([u8; 16], [u8; 32]),
}

impl PackageHashes {
    /// The algorithm of the digest that stands for the package: SHA-256
    /// wherever it is recorded, MD5 otherwise.
    pub open spec fn preferred_algorithm(self) -> HashAlgorithm {
        match self {
            PackageHashes::Md5(_) => HashAlgorithm::Md5,
            PackageHashes::Sha256(_) => HashAlgorithm::Sha256,
            PackageHashes::Md5Sha256(_, _) => HashAlgorithm::Sha256,
        }
    }

    /// The bytes of the digest that stands for the package.
    pub open spec fn preferred_digest(self) -> Seq<u8> {
        match self {
            PackageHashes::Md5(md5) => md5@,
            PackageHashes::Sha256(sha256) => sha256@,
            PackageHashes::Md5Sha256(_, sha256) => sha256@,
        }
    }

    /// Picks the one digest that stands for the package. Where both kinds
    /// are recorded the stronger one, SHA-256, is taken and the MD5 digest is
    /// passed over.
    pub fn preferred(&self) -> (chosen: (HashAlgorithm, &[u8]))
        ensures
            chosen.0 == self.preferred_algorithm(),
            chosen.1@ == self.preferred_digest(),
    {
        match self {
            PackageHashes::Md5(md5) => (HashAlgorithm::Md5, md5.as_slice()),
            PackageHashes::Sha256(sha256) => (HashAlgorithm::Sha256, sha256.as_slice()),
            PackageHashes::Md5Sha256(_, sha256) => (HashAlgorithm::Sha256, sha256.as_slice()),
        }
    }
}

/// Where a package of the secondary ecosystem is found.
#[derive(Clone, Debug)]
pub enum Location {
    /// A remote URL.
    Url(Url),
    /// A path on the local file system.
    Path(PathBuf),
}

/// A binary package of the primary ecosystem.
#[derive(Clone, Debug)]
pub struct NativePackage {
    /// The normalized name of the package.
    pub name: String,
    /// Where the package archive is found.
    pub url: Url,
    /// The MD5 digest of the archive, if the lock records one.
    pub md5: Option<[u8; 16]>,
}

/// A package of the secondary ecosystem.
#[derive(Clone, Debug)]
pub struct SecondaryPackage {
    /// Where the package is found.
    pub location: Location,
    /// Whether the package is installed in editable mode.
    pub editable: bool,
    /// The digests of the package, if the lock records any.
    pub hashes: Option<PackageHashes>,
}

/// One package of a lock, of either ecosystem.
#[derive(Clone, Debug)]
pub enum LockedPackage {
    Native(NativePackage),
    Secondary(SecondaryPackage),
}

/// What to do with a package of the secondary ecosystem, which the pinned
/// list cannot hold.
#[derive(Clone, Copy, Debug, PartialEq, Eq)]
pub enum UnsupportedPolicy {
    /// Refuse the whole export.
    Fail,
    /// Leave the package out.
    Ignore,
    /// Keep the package for the requirements file.
    EmitAsRequirements,
}

impl UnsupportedPolicy {
    /// The policy that two switches ask for: one to ignore unsupported
    /// packages, one to write them out as requirements. With neither set,
    /// such packages are refused. The switches exclude each other; it is for
    /// the caller to refuse both at once, and here the first one wins.
    pub open spec fn of_flags(ignore_unsupported: bool, emit_as_requirements: bool) -> Self {
        if ignore_unsupported {
            UnsupportedPolicy::Ignore
        } else if emit_as_requirements {
            UnsupportedPolicy::EmitAsRequirements
        } else {
            UnsupportedPolicy::Fail
        }
    }

    /// Turns the two switches into a policy.
    pub fn from_flags(ignore_unsupported: bool, emit_as_requirements: bool) -> (policy: Self)
        ensures
            policy == Self::of_flags(ignore_unsupported, emit_as_requirements),
    {
        if ignore_unsupported {
            UnsupportedPolicy::Ignore
        } else if emit_as_requirements {
            UnsupportedPolicy::EmitAsRequirements
        } else {
            UnsupportedPolicy::Fail
        }
    }
}

} // verus!
