//! The package metadata record and the present/absent rule.
//!
//! A metadata field is absent exactly when its source environment value is
//! the empty string; otherwise it is present with that exact text. A variable
//! that the build tool did not set at all is read the same way as one set to
//! the empty string.

use vstd::prelude::*;

verus! {

/// The raw text of the twelve build-time environment variables, as read from
/// the process environment: `None` where a variable is unset.
pub struct EnvValues {
    pub authors: Option<String>,
    pub description: Option<String>,
    pub homepage: Option<String>,
    pub license: Option<String>,
    pub license_file: Option<String>,
    pub name: Option<String>,
    pub repository: Option<String>,
    pub version: Option<String>,
    pub version_major: Option<String>,
    pub version_minor: Option<String>,
    pub version_patch: Option<String>,
    pub version_pre: Option<String>,
}

/// Mathematical view of [`EnvValues`].
pub struct EnvValuesView {
    pub authors: Option<Seq<char>>,
    pub description: Option<Seq<char>>,
    pub homepage: Option<Seq<char>>,
    pub license: Option<Seq<char>>,
    pub license_file: Option<Seq<char>>,
    pub name: Option<Seq<char>>,
    pub repository: Option<Seq<char>>,
    pub version: Option<Seq<char>>,
    pub version_major: Option<Seq<char>>,
    pub version_minor: Option<Seq<char>>,
    pub version_patch: Option<Seq<char>>,
    pub version_pre: Option<Seq<char>>,
}

impl View for EnvValues {
    type V = EnvValuesView;

    open spec fn view(&self) -> EnvValuesView {
        EnvValuesView {
            authors: self.authors.deep_view(),
            description: self.description.deep_view(),
            homepage: self.homepage.deep_view(),
            license: self.license.deep_view(),
            license_file: self.license_file.deep_view(),
            name: self.name.deep_view(),
            repository: self.repository.deep_view(),
            version: self.version.deep_view(),
            version_major: self.version_major.deep_view(),
            version_minor: self.version_minor.deep_view(),
            version_patch: self.version_patch.deep_view(),
            version_pre: self.version_pre.deep_view(),
        }
    }
}

/// The text a metadata field is materialized from: an unset variable reads as
/// the empty string, a set one as its exact text.
pub open spec fn spec_env_value(v: Option<Seq<char>>) -> Seq<char> {
    match v {
        None => Seq::empty(),
        Some(s) => s,
    }
}

/// What a generated accessor reports for a field whose source text is `v`:
/// absent when `v` is empty, otherwise present with exactly `v`.
pub open spec fn spec_accessor(v: Seq<char>) -> Option<Seq<char>> {
    if v.len() == 0 {
        None
    } else {
        Some(v)
    }
}

/// An unset or empty environment variable yields an absent field, for every
/// one of the twelve fields: they all report through `spec_accessor` over
/// `spec_env_value`.
pub proof fn lemma_absent_when_unset_or_empty(v: Option<Seq<char>>)
    requires
        v matches Some(s) ==> s.len() == 0,
    ensures
        spec_accessor(spec_env_value(v)) is None,
{
}

/// A non-empty environment value `s` yields a present field holding exactly
/// `s` — no trimming, no transformation — for every one of the twelve fields.
pub proof fn lemma_present_exact(v: Option<Seq<char>>, s: Seq<char>)
    requires
        v == Some(s),
        s.len() > 0,
    ensures
        spec_accessor(spec_env_value(v)) == Some(s),
{
}

/// Coerce one environment lookup result: unset becomes the empty string.
pub fn env_value_or_empty(v: Option<String>) -> (r: String)
    ensures
        r@ == spec_env_value(v.deep_view()),
{
    match v {
        None => String::new(),
        Some(s) => s,
    }
}

/// The package metadata record: twelve fields of raw text, one per known
/// environment variable. A field holds the empty string exactly when it is
/// absent.
pub struct PackageMetadata {
    pub authors: String,
    pub description: String,
    pub homepage: String,
    pub license: String,
    pub license_file: String,
    pub name: String,
    pub repository: String,
    pub version: String,
    pub version_major: String,
    pub version_minor: String,
    pub version_patch: String,
    pub version_pre: String,
}

/// Mathematical view of [`PackageMetadata`].
pub struct PackageMetadataView {
    pub authors: Seq<char>,
    pub description: Seq<char>,
    pub homepage: Seq<char>,
    pub license: Seq<char>,
    pub license_file: Seq<char>,
    pub name: Seq<char>,
    pub repository: Seq<char>,
    pub version: Seq<char>,
    pub version_major: Seq<char>,
    pub version_minor: Seq<char>,
    pub version_patch: Seq<char>,
    pub version_pre: Seq<char>,
}

impl View for PackageMetadata {
    type V = PackageMetadataView;

    open spec fn view(&self) -> PackageMetadataView {
        PackageMetadataView {
            authors: self.authors@,
            description: self.description@,
            homepage: self.homepage@,
            license: self.license@,
            license_file: self.license_file@,
            name: self.name@,
            repository: self.repository@,
            version: self.version@,
            version_major: self.version_major@,
            version_minor: self.version_minor@,
            version_patch: self.version_patch@,
            version_pre: self.version_pre@,
        }
    }
}

/// The record that a given environment state materializes: each field the
/// coerced text of its variable.
pub open spec fn spec_metadata_of_env(e: EnvValuesView) -> PackageMetadataView {
    PackageMetadataView {
        authors: spec_env_value(e.authors),
        description: spec_env_value(e.description),
        homepage: spec_env_value(e.homepage),
        license: spec_env_value(e.license),
        license_file: spec_env_value(e.license_file),
        name: spec_env_value(e.name),
        repository: spec_env_value(e.repository),
        version: spec_env_value(e.version),
        version_major: spec_env_value(e.version_major),
        version_minor: spec_env_value(e.version_minor),
        version_patch: spec_env_value(e.version_patch),
        version_pre: spec_env_value(e.version_pre),
    }
}

impl PackageMetadata {
    /// Colon separated list of authors, or absent.
    pub fn authors(&self) -> (r: Option<String>)
        ensures
            r.deep_view() == spec_accessor(self@.authors),
    {
        if self.authors.as_str().is_empty() {
            None
        } else {
            Some(self.authors.clone())
        }
    }

    /// The package description, or absent.
    pub fn description(&self) -> (r: Option<String>)
        ensures
            r.deep_view() == spec_accessor(self@.description),
    {
        if self.description.as_str().is_empty() {
            None
        } else {
            Some(self.description.clone())
        }
    }

    /// The package home page, or absent.
    pub fn homepage(&self) -> (r: Option<String>)
        ensures
            r.deep_view() == spec_accessor(self@.homepage),
    {
        if self.homepage.as_str().is_empty() {
            None
        } else {
            Some(self.homepage.clone())
        }
    }

    /// The package license, or absent.
    pub fn license(&self) -> (r: Option<String>)
        ensures
            r.deep_view() == spec_accessor(self@.license),
    {
        if self.license.as_str().is_empty() {
            None
        } else {
            Some(self.license.clone())
        }
    }

    /// The package license file, or absent.
    pub fn license_file(&self) -> (r: Option<String>)
        ensures
            r.deep_view() == spec_accessor(self@.license_file),
    {
        if self.license_file.as_str().is_empty() {
            None
        } else {
            Some(self.license_file.clone())
        }
    }

    /// The package name, or absent.
    pub fn name(&self) -> (r: Option<String>)
        ensures
            r.deep_view() == spec_accessor(self@.name),
    {
        if self.name.as_str().is_empty() {
            None
        } else {
            Some(self.name.clone())
        }
    }

    /// The package repository, or absent.
    pub fn repository(&self) -> (r: Option<String>)
        ensures
            r.deep_view() == spec_accessor(self@.repository),
    {
        if self.repository.as_str().is_empty() {
            None
        } else {
            Some(self.repository.clone())
        }
    }

    /// The full package version, or absent.
    pub fn version(&self) -> (r: Option<String>)
        ensures
            r.deep_view() == spec_accessor(self@.version),
    {
        if self.version.as_str().is_empty() {
            None
        } else {
            Some(self.version.clone())
        }
    }

    /// The major version component, or absent.
    pub fn version_major(&self) -> (r: Option<String>)
        ensures
            r.deep_view() == spec_accessor(self@.version_major),
    {
        if self.version_major.as_str().is_empty() {
            None
        } else {
            Some(self.version_major.clone())
        }
    }

    /// The minor version component, or absent.
    pub fn version_minor(&self) -> (r: Option<String>)
        ensures
            r.deep_view() == spec_accessor(self@.version_minor),
    {
        if self.version_minor.as_str().is_empty() {
            None
        } else {
            Some(self.version_minor.clone())
        }
    }

    /// The patch version component, or absent.
    pub fn version_patch(&self) -> (r: Option<String>)
        ensures
            r.deep_view() == spec_accessor(self@.version_patch),
    {
        if self.version_patch.as_str().is_empty() {
            None
        } else {
            Some(self.version_patch.clone())
        }
    }

    /// The pre-release version component, or absent.
    pub fn version_pre(&self) -> (r: Option<String>)
        ensures
            r.deep_view() == spec_accessor(self@.version_pre),
    {
        if self.version_pre.as_str().is_empty() {
            None
        } else {
            Some(self.version_pre.clone())
        }
    }

    /// Materialize the record from the environment lookups, coercing each
    /// unset variable to the empty string.
    pub fn from_env(env: EnvValues) -> (m: PackageMetadata)
        ensures
            m@ == spec_metadata_of_env(env@),
    {
        PackageMetadata {
            authors: env_value_or_empty(env.authors),
            description: env_value_or_empty(env.description),
            homepage: env_value_or_empty(env.homepage),
            license: env_value_or_empty(env.license),
            license_file: env_value_or_empty(env.license_file),
            name: env_value_or_empty(env.name),
            repository: env_value_or_empty(env.repository),
            version: env_value_or_empty(env.version),
            version_major: env_value_or_empty(env.version_major),
            version_minor: env_value_or_empty(env.version_minor),
            version_patch: env_value_or_empty(env.version_patch),
            version_pre: env_value_or_empty(env.version_pre),
        }
    }
}

} // verus!
