//! Static documentation-site renderer and the plain-value zome callbacks
//! that accompany it.

pub mod config;
pub mod date;
pub mod error;
pub mod laws;
pub mod manifest;
pub mod site;
pub mod template;
pub mod zome;
