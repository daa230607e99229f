//! The two version manifests, parsed as JSON and otherwise passed through
//! to the templates untouched.

use vstd::prelude::*;
use crate::error::{SiteError, ManifestKind};

verus! {

#[verifier::external_type_specification]
#[verifier::external_body]
pub struct ExJsonValue(serde_json::Value);

#[verifier::external_type_specification]
#[verifier::external_body]
pub struct ExJsonError(serde_json::Error);

/// The JSON document that `text` holds, if it holds one.
pub uninterp spec fn json_document(text: Seq<char>) -> Option<serde_json::Value>;

/// Relies on `serde_json::from_str` into a `serde_json::Value`: it succeeds
/// exactly on well-formed JSON text, and the value depends on the text alone.
#[verifier::external_body]
fn parse_json(text: &str) -> (r: Result<serde_json::Value, serde_json::Error>)
    ensures
        match r {
            Ok(v) => json_document(text@) == Some(v),
            Err(_) => json_document(text@) is None,
        },
{
    serde_json::from_str::<serde_json::Value>(text)
}

/// The parsed API and guide manifests.
pub struct Manifests {
    pub api: serde_json::Value,
    pub guide: serde_json::Value,
}

/// What loading the two manifest texts gives: the API manifest is checked
/// first.
pub open spec fn manifests_outcome(api_text: Seq<char>, guide_text: Seq<char>) -> Result<
    (serde_json::Value, serde_json::Value),
    SiteError,
> {
    match json_document(api_text) {
        None => Err(SiteError::Input(ManifestKind::Api)),
        Some(api) => match json_document(guide_text) {
            None => Err(SiteError::Input(ManifestKind::Guide)),
            Some(guide) => Ok((api, guide)),
        },
    }
}

impl Manifests {
    pub open spec fn pair(&self) -> (serde_json::Value, serde_json::Value) {
        (self.api, self.guide)
    }

    /// Parses both manifest texts.
    pub fn load(api_text: &str, guide_text: &str) -> (r: Result<Manifests, SiteError>)
        ensures
            match r {
                Ok(m) => manifests_outcome(api_text@, guide_text@) == Ok::<
                    (serde_json::Value, serde_json::Value),
                    SiteError,
                >(m.pair()),
                Err(e) => manifests_outcome(api_text@, guide_text@) == Err::<
                    (serde_json::Value, serde_json::Value),
                    SiteError,
                >(e),
            },
    {
        let api = match parse_json(api_text) {
            Ok(v) => v,
            Err(_) => return Err(SiteError::Input(ManifestKind::Api)),
        };
        let guide = match parse_json(guide_text) {
            Ok(v) => v,
            Err(_) => return Err(SiteError::Input(ManifestKind::Guide)),
        };
        Ok(Manifests { api, guide })
    }
}

} // verus!
