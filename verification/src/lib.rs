//! Turns one environment and platform of a resolved dependency lock into a
//! pinned package list and, on request, a requirements file.
//!
//! The lock's packages come in as [`package::LockedPackage`] values. They
//! are split by ecosystem under an [`package::UnsupportedPolicy`], the native
//! ones are pinned by their digest, the others are rendered as requirement
//! lines, and both artifacts are handed back as text under a file name
//! derived from platform and environment. Reading the lock and writing the
//! files is left to the caller, whom [`export::start_export`] leads through
//! the steps.

pub mod classify;
pub mod error;
pub mod explicit;
pub mod export;
pub mod package;
pub mod requirements;
pub mod text;
pub mod trusted;
