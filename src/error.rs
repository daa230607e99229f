//! What can stop a site build.

use vstd::prelude::*;

verus! {

/// One of the three settings a build needs from its environment.
#[derive(Clone, Copy, Debug, PartialEq, Eq, Structural)]
pub enum Setting {
    /// The product version, printed on every page.
    Version,
    /// The version in the form used inside URLs.
    VersionForUrl,
    /// The toolchain version named on the start page.
    RustVersion,
}

/// One of the two version manifests.
#[derive(Clone, Copy, Debug, PartialEq, Eq, Structural)]
pub enum ManifestKind {
    Api,
    Guide,
}

/// One of the eight template fragments a site is composed from.
#[derive(Clone, Copy, Debug, PartialEq, Eq, Structural)]
pub enum Fragment {
    Shell,
    Head,
    Header,
    Footer,
    Start,
    Landing,
    Api,
    Guide,
}

/// Why a build stopped. Every failure ends the build.
#[derive(Clone, Copy, Debug, PartialEq, Eq, Structural)]
pub enum SiteError {
    /// A required setting is absent.
    Configuration(Setting),
    /// A manifest is not a JSON document.
    Input(ManifestKind),
    /// A fragment does not parse, or does not render with its context.
    Template(Fragment),
}

impl Setting {
    /// The environment variable that holds this setting.
    pub fn variable(&self) -> (r: &'static str)
        ensures
            r@ == self.variable_spec(),
    {
        match self {
            Setting::Version => "HC_VERSION",
            Setting::VersionForUrl => "HC_VERSION_FOR_URL",
            Setting::RustVersion => "HC_RUST_VERSION",
        }
    }

    pub open spec fn variable_spec(&self) -> Seq<char> {
        match self {
            Setting::Version => "HC_VERSION"@,
            Setting::VersionForUrl => "HC_VERSION_FOR_URL"@,
            Setting::RustVersion => "HC_RUST_VERSION"@,
        }
    }
}

impl ManifestKind {
    /// The file, in the working directory, that holds this manifest.
    pub fn file_name(&self) -> (r: &'static str)
        ensures
            r@ == self.file_name_spec(),
    {
        match self {
            ManifestKind::Api => "api_versions.json",
            ManifestKind::Guide => "guide_versions.json",
        }
    }

    pub open spec fn file_name_spec(&self) -> Seq<char> {
        match self {
            ManifestKind::Api => "api_versions.json"@,
            ManifestKind::Guide => "guide_versions.json"@,
        }
    }
}

} // verus!
