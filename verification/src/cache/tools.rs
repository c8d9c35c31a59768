//! The parameters with which a caller asks for a package to be cached.

use vstd::prelude::*;

verus! {

/// A package version of the registry.
#[derive(Clone, Debug, PartialEq, Eq)]
pub struct CacheCrateFromCratesIOParams {
    pub crate_name: String,
    pub version: String,
    /// The workspace members to cache, where only some are wanted.
    pub members: Option<Vec<String>>,
    /// Whether an entry that is already cached is to be replaced.
    pub update: Option<bool>,
}

/// A package of a repository, at a branch or at a tag.
#[derive(Clone, Debug, PartialEq, Eq)]
pub struct CacheCrateFromGitHubParams {
    pub crate_name: String,
    pub github_url: String,
    pub branch: Option<String>,
    pub tag: Option<String>,
    /// The workspace members to cache, where only some are wanted.
    pub members: Option<Vec<String>>,
    /// Whether an entry that is already cached is to be replaced.
    pub update: Option<bool>,
}

/// A package in a directory of the local file system.
#[derive(Clone, Debug, PartialEq, Eq)]
pub struct CacheCrateFromLocalParams {
    pub crate_name: String,
    pub version: String,
    pub path: String,
    /// The workspace members to cache, where only some are wanted.
    pub members: Option<Vec<String>>,
    /// Whether an entry that is already cached is to be replaced.
    pub update: Option<bool>,
}

} // verus!
