//! Splitting the packages of a lock by ecosystem.

use vstd::prelude::*;
use crate::error::ExportError;
use crate::package::{LockedPackage, NativePackage, SecondaryPackage, UnsupportedPolicy};

verus! {

/// The packages of a lock, split by ecosystem.
#[derive(Clone, Debug)]
pub struct ClassifiedPackages {
    /// The native packages, in the order of the lock.
    pub native: Vec<NativePackage>,
    /// The packages kept for the requirements file, in the order of the lock.
    pub secondary: Vec<SecondaryPackage>,
    /// How many packages were left out as unsupported.
    pub ignored: usize,
}

/// The native packages among `packages`, in their order.
pub open spec fn native_packages(packages: Seq<LockedPackage>) -> Seq<NativePackage>
    decreases packages.len(),
{
    if packages.len() == 0 {
        Seq::empty()
    } else {
        let before = native_packages(packages.drop_last());
        match packages.last() {
            LockedPackage::Native(package) => before.push(package),
            LockedPackage::Secondary(_) => before,
        }
    }
}

/// The packages of the secondary ecosystem among `packages`, in their order.
pub open spec fn secondary_packages(packages: Seq<LockedPackage>) -> Seq<SecondaryPackage>
    decreases packages.len(),
{
    if packages.len() == 0 {
        Seq::empty()
    } else {
        let before = secondary_packages(packages.drop_last());
        match packages.last() {
            LockedPackage::Native(_) => before,
            LockedPackage::Secondary(package) => before.push(package),
        }
    }
}

/// Whether `packages` holds a package of the secondary ecosystem.
pub open spec fn has_secondary(packages: Seq<LockedPackage>) -> bool {
    exists|i: int| 0 <= i < packages.len() && #[trigger] packages[i] is Secondary
}

/// The packages that `policy` keeps for the requirements file.
pub open spec fn kept_secondary(
    packages: Seq<LockedPackage>,
    policy: UnsupportedPolicy,
) -> Seq<SecondaryPackage> {
    if policy == UnsupportedPolicy::EmitAsRequirements {
        secondary_packages(packages)
    } else {
        Seq::empty()
    }
}

/// How many packages `policy` leaves out.
pub open spec fn ignored_count(packages: Seq<LockedPackage>, policy: UnsupportedPolicy) -> nat {
    if policy == UnsupportedPolicy::Ignore {
        secondary_packages(packages).len()
    } else {
        0
    }
}

/// No more packages are picked than the list holds.
pub proof fn lemma_secondary_packages_len(packages: Seq<LockedPackage>)
    ensures
        secondary_packages(packages).len() <= packages.len(),
    decreases packages.len(),
{
    if packages.len() > 0 {
        lemma_secondary_packages_len(packages.drop_last());
    }
}

/// Splits the packages of one environment and platform by ecosystem. The
/// native packages are all kept. What becomes of the others is up to
/// `policy`: they are kept for the requirements file, left out and counted,
/// or, under [`UnsupportedPolicy::Fail`], the first of them ends the export
/// with [`ExportError::Configuration`]. The order of the lock is kept.
pub fn classify_packages(packages: Vec<LockedPackage>, policy: UnsupportedPolicy) -> (result:
    Result<ClassifiedPackages, ExportError>)
    ensures
        result is Err <==> policy == UnsupportedPolicy::Fail && has_secondary(packages@),
        match result {
            Ok(classified) => {
                &&& classified.native@ == native_packages(packages@)
                &&& classified.secondary@ == kept_secondary(packages@, policy)
                &&& classified.ignored == ignored_count(packages@, policy)
            },
            Err(error) => error == ExportError::Configuration,
        },
{
    let ghost all = packages@;
    assert(all.len() == packages.len());
    let mut native: Vec<NativePackage> = Vec::new();
    let mut secondary: Vec<SecondaryPackage> = Vec::new();
    let mut ignored: usize = 0;
    for package in it: packages
        invariant
            it.seq() == all,
            all.len() <= usize::MAX,
            native@ == native_packages(all.take(it.index() as int)),
            secondary@ == kept_secondary(all.take(it.index() as int), policy),
            ignored == ignored_count(all.take(it.index() as int), policy),
            policy == UnsupportedPolicy::Fail ==> !has_secondary(all.take(it.index() as int)),
    {
        let ghost index = it.index() as int;
        proof {
            let done = all.take(index + 1);
            assert(done.drop_last() =~= all.take(index));
            lemma_secondary_packages_len(all.take(index));
        }
        match package {
            LockedPackage::Native(package) => native.push(package),
            LockedPackage::Secondary(package) => {
                match policy {
                    UnsupportedPolicy::Ignore => {
                        ignored = ignored + 1;
                    },
                    UnsupportedPolicy::EmitAsRequirements => secondary.push(package),
                    UnsupportedPolicy::Fail => {
                        return Err(ExportError::Configuration);
                    },
                }
            },
        }
    }
    proof {
        assert(all.take(all.len() as int) =~= all);
    }
    Ok(ClassifiedPackages { native, secondary, ignored })
}

} // verus!
