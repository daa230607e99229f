//! The settings a build reads from its environment, checked once.

use vstd::prelude::*;
use crate::error::{SiteError, Setting};

verus! {

/// The three settings every build needs.
pub struct SiteConfig {
    /// Product version, e.g. `1.2.3`.
    pub version: String,
    /// The version as it appears in URLs, e.g. `1-2-3`.
    pub version_for_url: String,
    /// Toolchain version shown on the start page.
    pub rust_version: String,
}

impl SiteConfig {
    /// Builds the configuration from the values found for each setting,
    /// reporting the first absent one in the order version, URL version,
    /// toolchain version.
    pub fn from_settings(
        version: Option<String>,
        version_for_url: Option<String>,
        rust_version: Option<String>,
    ) -> (r: Result<SiteConfig, SiteError>)
        ensures
            version is None ==> r == Err::<SiteConfig, SiteError>(
                SiteError::Configuration(Setting::Version),
            ),
            version is Some && version_for_url is None ==> r == Err::<SiteConfig, SiteError>(
                SiteError::Configuration(Setting::VersionForUrl),
            ),
            version is Some && version_for_url is Some && rust_version is None ==> r == Err::<
                SiteConfig,
                SiteError,
            >(SiteError::Configuration(Setting::RustVersion)),
            r is Ok <==> (version is Some && version_for_url is Some && rust_version is Some),
            r matches Ok(c) ==> c.version == version.unwrap() && c.version_for_url
                == version_for_url.unwrap() && c.rust_version == rust_version.unwrap(),
    {
        let version = match version {
            Some(v) => v,
            None => return Err(SiteError::Configuration(Setting::Version)),
        };
        let version_for_url = match version_for_url {
            Some(v) => v,
            None => return Err(SiteError::Configuration(Setting::VersionForUrl)),
        };
        let rust_version = match rust_version {
            Some(v) => v,
            None => return Err(SiteError::Configuration(Setting::RustVersion)),
        };
        Ok(SiteConfig { version, version_for_url, rust_version })
    }
}

} // verus!
