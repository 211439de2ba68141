//! Preparing the executable search path.
//!
//! Where the working directory holds a package manifest of the companion
//! package ecosystem, the binaries of its installed dependencies are put in
//! front of the search path. Whatever keeps that from being done is a
//! warning, never a failure.

use crate::error::EnvironmentWarning;
use crate::path::{adjoined, join};
use vstd::prelude::*;

verus! {

/// Where the package manifest is looked for.
pub open spec fn manifest_location(working_dir: Seq<char>) -> Seq<char> {
    adjoined(working_dir, "package.json"@)
}

/// Where the directory of installed dependencies is looked for.
pub open spec fn dependency_location(working_dir: Seq<char>) -> Seq<char> {
    adjoined(working_dir, "node_modules"@)
}

/// The directory that holds the binaries of the installed dependencies.
pub open spec fn binary_location(working_dir: Seq<char>) -> Seq<char> {
    adjoined(dependency_location(working_dir), ".bin"@)
}

/// The two places whose existence decides whether the search path is
/// extended.
#[derive(Clone, Debug, PartialEq, Eq)]
pub struct ProbeTargets {
    pub manifest: String,
    pub dependencies: String,
}

/// What was found in the working directory and in the environment.
#[derive(Clone, Debug, PartialEq, Eq)]
pub struct EnvironmentProbe {
    pub manifest_exists: bool,
    pub dependencies_exist: bool,
    /// The entries of the search path in their order, or `None` if the
    /// variable is not set.
    pub search_path: Option<Vec<String>>,
}

/// What is to become of the search path.
#[derive(Clone, Debug, PartialEq, Eq)]
pub enum Augmentation {
    /// There is no package manifest: nothing is done and nothing reported.
    Unchanged,
    /// The search path stays as it is, and the warning is reported.
    Skipped(EnvironmentWarning),
    /// The search path is replaced by these entries.
    Replaced(Vec<String>),
}

/// `EnvironmentProbe` with its strings as text.
pub struct EnvironmentProbeView {
    pub manifest_exists: bool,
    pub dependencies_exist: bool,
    pub search_path: Option<Seq<Seq<char>>>,
}

/// `Augmentation` with its strings as text.
pub enum AugmentationView {
    Unchanged,
    Skipped(EnvironmentWarning),
    Replaced(Seq<Seq<char>>),
}

impl View for EnvironmentProbe {
    type V = EnvironmentProbeView;

    open spec fn view(&self) -> EnvironmentProbeView {
        EnvironmentProbeView {
            manifest_exists: self.manifest_exists,
            dependencies_exist: self.dependencies_exist,
            search_path: self.search_path.deep_view(),
        }
    }
}

impl View for Augmentation {
    type V = AugmentationView;

    open spec fn view(&self) -> AugmentationView {
        match self {
            Augmentation::Unchanged => AugmentationView::Unchanged,
            Augmentation::Skipped(warning) => AugmentationView::Skipped(*warning),
            Augmentation::Replaced(entries) => AugmentationView::Replaced(entries.deep_view()),
        }
    }
}

impl AugmentationView {
    /// The warning to report, if any.
    pub open spec fn warning(self) -> Option<EnvironmentWarning> {
        match self {
            AugmentationView::Skipped(warning) => Some(warning),
            _ => None,
        }
    }
}

/// What is to become of the search path, given what was found and the
/// directory of the dependencies' binaries.
pub open spec fn augmented(probe: EnvironmentProbeView, binaries: Seq<char>) -> AugmentationView {
    if !probe.manifest_exists {
        AugmentationView::Unchanged
    } else if !probe.dependencies_exist {
        AugmentationView::Skipped(EnvironmentWarning::DependenciesMissing)
    } else {
        match probe.search_path {
            Some(entries) => AugmentationView::Replaced(seq![binaries] + entries),
            None => AugmentationView::Skipped(EnvironmentWarning::SearchPathUnset),
        }
    }
}

/// The places to probe for a working directory.
pub fn probe_targets(working_dir: &str) -> (targets: ProbeTargets)
    ensures
        targets.manifest@ == manifest_location(working_dir@),
        targets.dependencies@ == dependency_location(working_dir@),
{
    ProbeTargets {
        manifest: join(working_dir, "package.json"),
        dependencies: join(working_dir, "node_modules"),
    }
}

/// Puts `dir` in front of the entries of a search path. The entries that
/// were there follow it in their order.
pub fn prepend_search_dir(dir: String, entries: Vec<String>) -> (extended: Vec<String>)
    ensures
        extended.deep_view() == seq![dir@] + entries.deep_view(),
{
    let mut extended = entries;
    extended.insert(0, dir);
    assert(extended.deep_view() =~= seq![dir@] + entries.deep_view());
    extended
}

/// Decides what is to become of the search path.
///
/// Without a package manifest nothing is done. With a manifest but without
/// the dependency directory, or without a search path to extend, the search
/// path stays as it is and a warning says why. Otherwise the directory of
/// the dependencies' binaries is put in front of the entries found.
pub fn augment_search_path(working_dir: &str, probe: EnvironmentProbe) -> (outcome: Augmentation)
    ensures
        outcome@ == augmented(probe@, binary_location(working_dir@)),
        !probe.manifest_exists ==> outcome@ is Unchanged,
        probe.manifest_exists && !probe.dependencies_exist ==> outcome@
            == AugmentationView::Skipped(EnvironmentWarning::DependenciesMissing),
        probe.manifest_exists && probe.dependencies_exist ==> match probe@.search_path {
            Some(entries) => outcome@ == AugmentationView::Replaced(
                seq![binary_location(working_dir@)] + entries,
            ),
            None => outcome@ == AugmentationView::Skipped(EnvironmentWarning::SearchPathUnset),
        },
{
    if !probe.manifest_exists {
        Augmentation::Unchanged
    } else if !probe.dependencies_exist {
        Augmentation::Skipped(EnvironmentWarning::DependenciesMissing)
    } else {
        match probe.search_path {
            Some(entries) => {
                let dependencies = join(working_dir, "node_modules");
                let binaries = join(dependencies.as_str(), ".bin");
                Augmentation::Replaced(prepend_search_dir(binaries, entries))
            },
            None => Augmentation::Skipped(EnvironmentWarning::SearchPathUnset),
        }
    }
}

} // verus!
