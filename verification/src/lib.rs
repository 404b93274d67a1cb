//! Package metadata accessors baked in at build time.
//!
//! A build tool exports a fixed list of environment variables describing the
//! package being compiled (name, version, authors, license, and so on). This
//! crate defines the [`PackageInfo`] contract — twelve accessors, one per
//! metadata field — and a generator that, given a type declaration, emits an
//! implementation of that contract whose method bodies return the values as
//! compile-time string literals. A field whose variable is unset or empty is
//! reported as absent; any other value is baked in exactly as found.

use vstd::prelude::*;

pub mod expand;
pub mod generate;
pub mod metadata;
pub mod vars;

verus! {

/// Accessor functions to common Cargo package information as specified in Cargo.toml
pub trait PackageInfo {
    /// Colon separated list of authors from the manifest of the package
    fn authors() -> Option<String>;

    /// The description from the manifest of the package
    fn description() -> Option<String>;

    /// The home page from the manifest of the package
    fn homepage() -> Option<String>;

    /// The license from the manifest of the package
    fn license() -> Option<String>;

    /// The license file from the manifest of the package
    fn license_file() -> Option<String>;

    /// The name of the package
    fn name() -> Option<String>;

    /// The repository from the manifest of the package
    fn repository() -> Option<String>;

    /// The full version of the package
    fn version() -> Option<String>;

    /// The major version of the package
    fn version_major() -> Option<String>;

    /// The minor version of the package
    fn version_minor() -> Option<String>;

    /// The patch version of the package
    fn version_patch() -> Option<String>;

    /// The pre-release version of the package
    fn version_pre() -> Option<String>;
}

} // verus!
