//! Orchestration core of a build-tool front end.
//!
//! The crate turns a parsed command line into a resolved execution context,
//! decides how the executable search path is to be prepared, and routes the
//! context to exactly one long-running operation. Everything here is a
//! function from plain values to plain values: reading the process
//! environment, loading the project manifest and running the operations are
//! left to the caller, which reports what happened as an event.

use crate::command::{CommandKind, Operation};
use crate::config::{
    CliInvocation, CliInvocationView, LoadRequest, LoadRequestView, ProcessFacts,
    ProcessFactsView, ResolvedConfig, ResolvedConfigView,
};
use crate::dispatch::{call_view, dispatch, routed, HandlerCall, HandlerCallView};
use crate::environment::{
    augment_search_path, augmented, binary_location, Augmentation, AugmentationView,
    EnvironmentProbe, EnvironmentProbeView,
};
use crate::error::{ConfigError, ConfigErrorView};
use crate::path::{
    conventional, has_home_marker, normalize_conventions, normalize_path, normalized,
};
use crate::pipeline::{begun, Action, ActionView, Phase, Pipeline, Step};
use vstd::prelude::*;

pub mod cancel;
pub mod command;
pub mod config;
pub mod dispatch;
pub mod environment;
pub mod error;
pub mod path;
pub mod pipeline;

verus! {

/// Begins an invocation.
///
/// The command that creates a fresh project is served at once: the first
/// action is the creation, and no configuration is ever resolved for it.
/// For every other command the first action sets up logging, and the
/// pipeline goes on from there, one `Pipeline::step` for each event.
pub fn run(args: CliInvocation) -> (first: Step)
    ensures
        first@ == begun(args@),
        args.command == CommandKind::New <==> first@.action == Some(ActionView::CreateProject),
        args.command == CommandKind::New <==> first@.next.phase is Creating,
{
    match args.command.operation() {
        None => Pipeline::advance(None, Phase::Creating, Action::CreateProject),
        Some(operation) => {
            let verbosity = args.options.verbosity;
            let filter = args.options.log_filter.clone();
            assert(filter.deep_view() =~= args.options.log_filter.deep_view());
            Pipeline::advance(
                None,
                Phase::Logging(args, operation),
                Action::InitLogging { verbosity, filter },
            )
        },
    }
}

/// The manifest path that is used when the command line gives none.
pub open spec fn default_manifest() -> Seq<char> {
    "Cargo.toml"@
}

impl CliInvocationView {
    /// The manifest path as it was asked for, before it is normalised.
    pub open spec fn raw_manifest_path(self) -> Seq<char> {
        match self.manifest_path {
            Some(path) => path,
            None => default_manifest(),
        }
    }
}

/// What the project loader is asked for, given the command line and what
/// was read from the process; or why nothing can be asked.
pub open spec fn load_request(args: CliInvocationView, process: ProcessFactsView) -> Result<
    LoadRequestView,
    ConfigErrorView,
> {
    match normalized(args.raw_manifest_path(), process.home) {
        Ok(manifest_path) => Ok(
            LoadRequestView {
                options: args.options,
                working_dir: conventional(process.working_dir),
                manifest_path,
                watch: args.command == CommandKind::Watch,
                bin_args: args.bin_args,
            },
        ),
        Err(cause) => Err(ConfigErrorView::ManifestPath { raw: args.raw_manifest_path(), cause }),
    }
}

/// The text-level reading of a resolution result.
pub open spec fn request_view(result: Result<LoadRequest, ConfigError>) -> Result<
    LoadRequestView,
    ConfigErrorView,
> {
    match result {
        Ok(request) => Ok(request@),
        Err(error) => Err(error@),
    }
}

/// Resolves the command line against the process it runs in.
///
/// The manifest path, `Cargo.toml` where none is given, is normalised with
/// the home directory; the working directory is put in the common
/// convention; the watch flag is set for the watch command. The options and
/// the pass-through arguments are handed on as they are. The only failure
/// is a manifest path that begins with the home-directory marker while the
/// home directory is unknown; the error then names the path as given.
pub fn resolve_config(args: CliInvocation, process: &ProcessFacts) -> (result: Result<
    LoadRequest,
    ConfigError,
>)
    ensures
        request_view(result) == load_request(args@, process@),
        result is Err <==> process.home is None && has_home_marker(
            conventional(args@.raw_manifest_path()),
        ),
        args.manifest_path is None ==> result is Ok,
{
    proof {
        reveal_strlit("Cargo.toml");
    }
    let raw = match args.manifest_path {
        Some(path) => path,
        None => "Cargo.toml".to_owned(),
    };
    let home = match &process.home {
        Some(dir) => Some(dir.as_str()),
        None => None,
    };
    match normalize_path(raw.as_str(), home) {
        Ok(manifest_path) => Ok(
            LoadRequest {
                options: args.options,
                working_dir: normalize_conventions(process.working_dir.as_str()),
                manifest_path,
                watch: match args.command {
                    CommandKind::Watch => true,
                    _ => false,
                },
                bin_args: args.bin_args,
            },
        ),
        Err(cause) => Err(ConfigError::ManifestPath { raw, cause }),
    }
}

/// What is to be done once the configuration is resolved: what becomes of
/// the search path, and which handler is called.
#[derive(Debug, PartialEq, Eq)]
pub struct Execution {
    pub search_path: Augmentation,
    pub call: Result<HandlerCall, ConfigError>,
}

/// `Execution` with its strings as text.
pub struct ExecutionView {
    pub search_path: AugmentationView,
    pub call: Result<HandlerCallView, ConfigErrorView>,
}

impl View for Execution {
    type V = ExecutionView;

    open spec fn view(&self) -> ExecutionView {
        ExecutionView { search_path: self.search_path@, call: call_view(self.call) }
    }
}

/// The execution of an operation on a configuration, given what was found
/// in its working directory and in the environment.
pub open spec fn executed(
    command: Operation,
    config: ResolvedConfigView,
    probe: EnvironmentProbeView,
) -> ExecutionView {
    ExecutionView {
        search_path: augmented(probe, binary_location(config.working_dir)),
        call: routed(command, config),
    }
}

/// Plans the execution of an operation: decides what becomes of the search
/// path in the configuration's working directory, and routes the operation
/// to its handler. The search path is decided whether or not the routing
/// succeeds.
pub fn execute_command(
    command: Operation,
    config: ResolvedConfig,
    probe: EnvironmentProbe,
) -> (plan: Execution)
    ensures
        plan@ == executed(command, config@, probe@),
{
    let search_path = augment_search_path(config.working_dir.as_str(), probe);
    let call = dispatch(command, config);
    Execution { search_path, call }
}

} // verus!
