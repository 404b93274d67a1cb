//! The names of the twelve build-time environment variables that the
//! metadata fields are read from. They are the ones Cargo exports for the
//! package being compiled; reading them is left to the caller, since the
//! verified library does no environment access itself.

use vstd::prelude::*;

verus! {

/// Variable holding the colon separated author list.
pub const AUTHORS: &'static str = "CARGO_PKG_AUTHORS";

/// Variable holding the package description.
pub const DESCRIPTION: &'static str = "CARGO_PKG_DESCRIPTION";

/// Variable holding the package home page.
pub const HOMEPAGE: &'static str = "CARGO_PKG_HOMEPAGE";

/// Variable holding the package license.
pub const LICENSE: &'static str = "CARGO_PKG_LICENSE";

/// Variable holding the package license file.
pub const LICENSE_FILE: &'static str = "CARGO_PKG_LICENSE_FILE";

/// Variable holding the package name.
pub const NAME: &'static str = "CARGO_PKG_NAME";

/// Variable holding the package repository.
pub const REPOSITORY: &'static str = "CARGO_PKG_REPOSITORY";

/// Variable holding the full package version.
pub const VERSION: &'static str = "CARGO_PKG_VERSION";

/// Variable holding the major version component.
pub const VERSION_MAJOR: &'static str = "CARGO_PKG_VERSION_MAJOR";

/// Variable holding the minor version component.
pub const VERSION_MINOR: &'static str = "CARGO_PKG_VERSION_MINOR";

/// Variable holding the patch version component.
pub const VERSION_PATCH: &'static str = "CARGO_PKG_VERSION_PATCH";

/// Variable holding the pre-release version component.
pub const VERSION_PRE: &'static str = "CARGO_PKG_VERSION_PRE";

} // verus!
