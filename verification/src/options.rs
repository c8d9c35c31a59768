//! The options under which a crate is analyzed.

use vstd::prelude::*;

verus! {

/// `std::path::PathBuf`: an owned file system path.
#[verifier::external_type_specification]
#[verifier::external_body]
pub struct ExPathBuf(std::path::PathBuf);

/// Options of the run as a whole.
#[derive(Clone, Debug, PartialEq, Eq)]
pub struct GeneralOptions {
    /// Whether to say which package and target were chosen.
    pub verbose: bool,
}

/// What of a project is to be analyzed.
#[derive(Debug, PartialEq, Eq)]
pub struct ProjectOptions {
    /// Analyze the package's library.
    pub lib: bool,
    /// Analyze the binary of this name.
    pub bin: Option<String>,
    /// The package to analyze.
    pub package: Option<String>,
    /// Do not activate the `default` feature.
    pub no_default_features: bool,
    /// Activate all available features.
    pub all_features: bool,
    /// The features to activate.
    pub features: Vec<String>,
    /// Analyze for this target triple.
    pub target: Option<String>,
    /// Where the project's manifest lies.
    pub manifest_path: std::path::PathBuf,
}

} // verus!
