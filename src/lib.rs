//! Source distribution support: resolving the file list that a packaging
//! tool reports into archive entries, and validating a project's
//! `[build-system]` descriptor.

pub mod error;
pub mod manifest;
pub mod paths;
pub mod pyproject;
