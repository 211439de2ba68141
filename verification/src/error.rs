//! Failures that end an invocation, and warnings that do not.

use vstd::prelude::*;
use vstd::string::*;

verus! {

/// A path could not be resolved.
#[derive(Clone, Copy, Debug, PartialEq, Eq, Structural)]
pub enum ResolutionError {
    /// The path begins with the home-directory marker and the home directory
    /// is not known.
    HomeUnavailable,
}

/// No configuration could be resolved, or the resolved one lacks what the
/// selected operation needs.
#[derive(Clone, Debug, PartialEq, Eq)]
pub enum ConfigError {
    /// The manifest path, as given on the command line, cannot be normalised.
    ManifestPath { raw: String, cause: ResolutionError },
    /// The project loader rejected the request; its message is kept as is.
    Load(String),
    /// The operation works on a single project and none is current.
    NoCurrentProject,
}

/// Why an invocation failed.
#[derive(Clone, Debug, PartialEq, Eq)]
pub enum Error {
    Config(ConfigError),
    /// The process could not enter the resolved working directory.
    Io(String),
    /// The operation itself failed; its message is passed on unchanged.
    Handler(String),
}

/// A condition that keeps the search path from being extended. It is
/// reported and the invocation goes on.
#[derive(Clone, Copy, Debug, PartialEq, Eq, Structural)]
pub enum EnvironmentWarning {
    /// The package manifest is there but its dependency directory is not.
    DependenciesMissing,
    /// The search path variable is not set.
    SearchPathUnset,
}

/// `ConfigError` with its strings as text.
pub enum ConfigErrorView {
    ManifestPath { raw: Seq<char>, cause: ResolutionError },
    Load(Seq<char>),
    NoCurrentProject,
}

/// `Error` with its strings as text.
pub enum ErrorView {
    Config(ConfigErrorView),
    Io(Seq<char>),
    Handler(Seq<char>),
}

impl View for ConfigError {
    type V = ConfigErrorView;

    open spec fn view(&self) -> ConfigErrorView {
        match self {
            ConfigError::ManifestPath { raw, cause } => ConfigErrorView::ManifestPath {
                raw: raw@,
                cause: *cause,
            },
            ConfigError::Load(message) => ConfigErrorView::Load(message@),
            ConfigError::NoCurrentProject => ConfigErrorView::NoCurrentProject,
        }
    }
}

impl View for Error {
    type V = ErrorView;

    open spec fn view(&self) -> ErrorView {
        match self {
            Error::Config(error) => ErrorView::Config(error@),
            Error::Io(message) => ErrorView::Io(message@),
            Error::Handler(message) => ErrorView::Handler(message@),
        }
    }
}

impl ResolutionError {
    pub open spec fn message_spec(self) -> Seq<char> {
        "home directory could not be determined"@
    }

    /// The failure in words.
    pub fn message(&self) -> (text: String)
        ensures
            text@ == self.message_spec(),
    {
        String::from_str("home directory could not be determined")
    }
}

impl ConfigErrorView {
    pub open spec fn message(self) -> Seq<char> {
        match self {
            ConfigErrorView::ManifestPath { raw, cause } => "manifest_path: "@ + raw + ": "@
                + cause.message_spec(),
            ConfigErrorView::Load(message) => message,
            ConfigErrorView::NoCurrentProject => "no current project"@,
        }
    }
}

impl ConfigError {
    /// The failure in words: which path could not be normalised and why, the
    /// loader's own message, or that no project is current.
    pub fn message(&self) -> (text: String)
        ensures
            text@ == self@.message(),
    {
        match self {
            ConfigError::ManifestPath { raw, cause } => {
                let mut text = String::from_str("manifest_path: ");
                text.append(raw.as_str());
                text.append(": ");
                let reason = cause.message();
                text.append(reason.as_str());
                text
            },
            ConfigError::Load(message) => message.clone(),
            ConfigError::NoCurrentProject => String::from_str("no current project"),
        }
    }
}

impl ErrorView {
    pub open spec fn message(self) -> Seq<char> {
        match self {
            ErrorView::Config(error) => error.message(),
            ErrorView::Io(message) => message,
            ErrorView::Handler(message) => message,
        }
    }
}

impl Error {
    /// The failure in words, as it is reported when the process exits.
    pub fn message(&self) -> (text: String)
        ensures
            text@ == self@.message(),
    {
        match self {
            Error::Config(error) => error.message(),
            Error::Io(message) => message.clone(),
            Error::Handler(message) => message.clone(),
        }
    }
}

/// The exit code with which the process reports the outcome of an
/// invocation: zero for success, one for any failure.
pub fn exit_code(outcome: &Result<(), Error>) -> (code: u8)
    ensures
        outcome is Ok ==> code == 0,
        outcome is Err ==> code == 1,
{
    match outcome {
        Ok(_) => 0,
        Err(_) => 1,
    }
}

impl EnvironmentWarning {
    pub open spec fn message_spec(self) -> Seq<char> {
        match self {
            EnvironmentWarning::DependenciesMissing =>
                "dependency directory not found, continuing without it"@,
            EnvironmentWarning::SearchPathUnset => "search path variable not found, ignoring"@,
        }
    }

    /// The warning in words.
    pub fn message(&self) -> (text: String)
        ensures
            text@ == self.message_spec(),
    {
        match self {
            EnvironmentWarning::DependenciesMissing => String::from_str(
                "dependency directory not found, continuing without it",
            ),
            EnvironmentWarning::SearchPathUnset => String::from_str(
                "search path variable not found, ignoring",
            ),
        }
    }
}

} // verus!
