//! The data that flows through an invocation: what the command line asked
//! for, what is handed to the project loader, and what the loader resolves.

use crate::command::CommandKind;
use vstd::prelude::*;

verus! {

/// The options shared by all commands. They are passed on to the project
/// loader as they are; only the verbosity and the log filter are read here,
/// to set up logging.
#[derive(Clone, Debug, PartialEq, Eq)]
pub struct Options {
    /// How often the verbosity flag was given.
    pub verbosity: u8,
    /// The parts of the tool whose log output is wanted.
    pub log_filter: Vec<String>,
    /// A working directory to use in place of the one the loader would pick.
    pub working_dir: Option<String>,
}

/// The parsed command line.
#[derive(Clone, Debug, PartialEq, Eq)]
pub struct CliInvocation {
    pub command: CommandKind,
    pub options: Options,
    /// Where the project manifest is, if the command line says so.
    pub manifest_path: Option<String>,
    /// Arguments passed through to the built program.
    pub bin_args: Vec<String>,
}

/// What is read from the process before the configuration is resolved.
#[derive(Clone, Debug, PartialEq, Eq)]
pub struct ProcessFacts {
    /// The home directory, or `None` if it cannot be determined.
    pub home: Option<String>,
    /// The directory the process is in.
    pub working_dir: String,
}

/// What the project loader is asked to load.
#[derive(Clone, Debug, PartialEq, Eq)]
pub struct LoadRequest {
    pub options: Options,
    /// The directory the process is in, in the common convention.
    pub working_dir: String,
    /// The normalised manifest path.
    pub manifest_path: String,
    pub watch: bool,
    pub bin_args: Vec<String>,
}

/// One build target described by the manifest.
#[derive(Clone, Debug, PartialEq, Eq)]
pub struct Project {
    pub name: String,
}

/// The execution context that the project loader resolved.
#[derive(Clone, Debug, PartialEq, Eq)]
pub struct ResolvedConfig {
    pub working_dir: String,
    pub manifest_path: String,
    pub watch: bool,
    pub bin_args: Vec<String>,
    /// The projects that the manifest describes.
    pub projects: Vec<Project>,
    /// The position in `projects` of the current project, if one is
    /// selected. A position outside `projects` selects nothing.
    pub current: Option<usize>,
}

/// `Options` with its strings as text.
pub struct OptionsView {
    pub verbosity: u8,
    pub log_filter: Seq<Seq<char>>,
    pub working_dir: Option<Seq<char>>,
}

/// `CliInvocation` with its strings as text.
pub struct CliInvocationView {
    pub command: CommandKind,
    pub options: OptionsView,
    pub manifest_path: Option<Seq<char>>,
    pub bin_args: Seq<Seq<char>>,
}

/// `ProcessFacts` as text.
pub struct ProcessFactsView {
    pub home: Option<Seq<char>>,
    pub working_dir: Seq<char>,
}

/// `LoadRequest` with its strings as text.
pub struct LoadRequestView {
    pub options: OptionsView,
    pub working_dir: Seq<char>,
    pub manifest_path: Seq<char>,
    pub watch: bool,
    pub bin_args: Seq<Seq<char>>,
}

/// `Project` as text.
pub struct ProjectView {
    pub name: Seq<char>,
}

/// `ResolvedConfig` with its strings as text.
pub struct ResolvedConfigView {
    pub working_dir: Seq<char>,
    pub manifest_path: Seq<char>,
    pub watch: bool,
    pub bin_args: Seq<Seq<char>>,
    pub projects: Seq<ProjectView>,
    pub current: Option<usize>,
}

impl View for Options {
    type V = OptionsView;

    open spec fn view(&self) -> OptionsView {
        OptionsView {
            verbosity: self.verbosity,
            log_filter: self.log_filter.deep_view(),
            working_dir: self.working_dir.deep_view(),
        }
    }
}

impl View for CliInvocation {
    type V = CliInvocationView;

    open spec fn view(&self) -> CliInvocationView {
        CliInvocationView {
            command: self.command,
            options: self.options@,
            manifest_path: self.manifest_path.deep_view(),
            bin_args: self.bin_args.deep_view(),
        }
    }
}

impl View for ProcessFacts {
    type V = ProcessFactsView;

    open spec fn view(&self) -> ProcessFactsView {
        ProcessFactsView { home: self.home.deep_view(), working_dir: self.working_dir@ }
    }
}

impl View for LoadRequest {
    type V = LoadRequestView;

    open spec fn view(&self) -> LoadRequestView {
        LoadRequestView {
            options: self.options@,
            working_dir: self.working_dir@,
            manifest_path: self.manifest_path@,
            watch: self.watch,
            bin_args: self.bin_args.deep_view(),
        }
    }
}

impl View for Project {
    type V = ProjectView;

    open spec fn view(&self) -> ProjectView {
        ProjectView { name: self.name@ }
    }
}

impl View for ResolvedConfig {
    type V = ResolvedConfigView;

    open spec fn view(&self) -> ResolvedConfigView {
        ResolvedConfigView {
            working_dir: self.working_dir@,
            manifest_path: self.manifest_path@,
            watch: self.watch,
            bin_args: self.bin_args.deep_view(),
            projects: self.projects@.map_values(|project: Project| project@),
            current: self.current,
        }
    }
}

impl ResolvedConfigView {
    /// The single project that the configuration selects: the one at the
    /// selected position, if a position is selected and lies in the list.
    pub open spec fn current_project(self) -> Option<ProjectView> {
        match self.current {
            Some(at) => if at < self.projects.len() {
                Some(self.projects[at as int])
            } else {
                None
            },
            None => None,
        }
    }
}

impl ResolvedConfig {
    /// The current project, or `None` if none can be determined.
    pub fn current_project(&self) -> (found: Option<&Project>)
        ensures
            match found {
                Some(project) => self@.current_project() == Some(project@),
                None => self@.current_project() is None,
            },
    {
        match self.current {
            Some(at) => if at < self.projects.len() {
                Some(&self.projects[at])
            } else {
                None
            },
            None => None,
        }
    }

    /// Takes the current project out of the configuration.
    pub fn into_current_project(self) -> (found: Option<Project>)
        ensures
            match found {
                Some(project) => self@.current_project() == Some(project@),
                None => self@.current_project() is None,
            },
    {
        let mut projects = self.projects;
        match self.current {
            Some(at) => if at < projects.len() {
                Some(projects.remove(at))
            } else {
                None
            },
            None => None,
        }
    }
}

} // verus!
