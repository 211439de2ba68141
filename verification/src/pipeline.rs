//! The order of an invocation, as a state machine.
//!
//! The pipeline is advanced by events. Each step answers the outcome of the
//! action that the pipeline asked for last with the next action to perform:
//! set up logging, read the process, load the project, enter its working
//! directory, probe the environment, extend the search path, start the
//! cancellation monitor, call the handler, exit. An event that the current
//! phase does not wait for changes nothing and asks for nothing.

use crate::command::{CommandKind, Operation};
use crate::config::{
    CliInvocation, CliInvocationView, LoadRequest, LoadRequestView, ProcessFacts,
    ProcessFactsView, ResolvedConfig, ResolvedConfigView,
};
use crate::dispatch::{call_view, HandlerCall, HandlerCallView};
use crate::environment::{
    binary_location, dependency_location, manifest_location, probe_targets, Augmentation,
    AugmentationView, EnvironmentProbe, EnvironmentProbeView, ProbeTargets,
};
use crate::error::{ConfigError, ConfigErrorView, EnvironmentWarning, Error, ErrorView};
use crate::{execute_command, executed, load_request, resolve_config};
use vstd::prelude::*;

verus! {

/// What the caller reports back to the pipeline.
#[derive(Debug, PartialEq, Eq)]
pub enum Event {
    /// Logging is set up.
    LoggingReady,
    /// The home directory and the working directory were read.
    ProcessRead(ProcessFacts),
    /// The project loader returned, with a configuration or its message.
    Loaded(Result<ResolvedConfig, String>),
    /// The process tried to enter the working directory.
    DirChanged(Result<(), String>),
    /// The working directory and the environment were probed.
    Probed(EnvironmentProbe),
    /// The search path was replaced.
    SearchPathSet,
    /// The cancellation monitor is running.
    MonitorStarted,
    /// The handler, or the creation of a fresh project, returned.
    Finished(Result<(), String>),
}

/// What the pipeline asks the caller to do.
#[derive(Debug, PartialEq, Eq)]
pub enum Action {
    /// Create a fresh project; no configuration is resolved for it.
    CreateProject,
    /// Set up logging with this verbosity and filter.
    InitLogging { verbosity: u8, filter: Vec<String> },
    /// Read the home directory and the working directory of the process.
    ReadProcess,
    /// Ask the project loader for the configuration.
    Load(LoadRequest),
    /// Make this directory the working directory of the process.
    ChangeDir(String),
    /// Find out whether the two places exist, and read the search path.
    Probe(ProbeTargets),
    /// Replace the search path by these entries.
    SetSearchPath(Vec<String>),
    /// Start the cancellation monitor.
    StartMonitor,
    /// Call the handler and wait for it.
    Invoke(HandlerCall),
    /// Leave, with success or with the failure to report.
    Exit(Result<(), Error>),
}

/// Where an invocation stands. Each phase but the last waits for the
/// outcome of one action.
#[derive(Debug, PartialEq, Eq)]
pub enum Phase {
    /// A fresh project is being created.
    Creating,
    /// Logging is being set up.
    Logging(CliInvocation, Operation),
    /// The process is being read.
    Reading(CliInvocation, Operation),
    /// The project is being loaded.
    Loading(Operation),
    /// The process is entering the working directory of the configuration.
    Entering(Operation, ResolvedConfig),
    /// The configuration is resolved; the environment is being probed.
    Probing(Operation, ResolvedConfig),
    /// The search path is being replaced.
    Augmenting(Result<HandlerCall, ConfigError>),
    /// The cancellation monitor is being started.
    Arming(Result<HandlerCall, ConfigError>),
    /// The handler is running.
    Running,
    /// The invocation is over.
    Done,
}

/// The state of an invocation: its phase, and the working directory of the
/// process as far as the pipeline was told of it.
#[derive(Debug, PartialEq, Eq)]
pub struct Pipeline {
    pub phase: Phase,
    pub process_dir: Option<String>,
}

/// The result of one step.
#[derive(Debug, PartialEq, Eq)]
pub struct Step {
    pub next: Pipeline,
    /// What to do now; `None` where the event was not waited for.
    pub action: Option<Action>,
    /// What to report before doing it.
    pub warning: Option<EnvironmentWarning>,
}

/// `Event` with its strings as text.
pub enum EventView {
    LoggingReady,
    ProcessRead(ProcessFactsView),
    Loaded(Result<ResolvedConfigView, Seq<char>>),
    DirChanged(Result<(), Seq<char>>),
    Probed(EnvironmentProbeView),
    SearchPathSet,
    MonitorStarted,
    Finished(Result<(), Seq<char>>),
}

/// `ProbeTargets` as text.
pub struct ProbeTargetsView {
    pub manifest: Seq<char>,
    pub dependencies: Seq<char>,
}

/// `Action` with its strings as text.
pub enum ActionView {
    CreateProject,
    InitLogging { verbosity: u8, filter: Seq<Seq<char>> },
    ReadProcess,
    Load(LoadRequestView),
    ChangeDir(Seq<char>),
    Probe(ProbeTargetsView),
    SetSearchPath(Seq<Seq<char>>),
    StartMonitor,
    Invoke(HandlerCallView),
    Exit(Result<(), ErrorView>),
}

/// `Phase` with its strings as text.
pub enum PhaseView {
    Creating,
    Logging(CliInvocationView, Operation),
    Reading(CliInvocationView, Operation),
    Loading(Operation),
    Entering(Operation, ResolvedConfigView),
    Probing(Operation, ResolvedConfigView),
    Augmenting(Result<HandlerCallView, ConfigErrorView>),
    Arming(Result<HandlerCallView, ConfigErrorView>),
    Running,
    Done,
}

/// `Pipeline` with its strings as text: the state that the laws of the
/// pipeline speak of.
pub struct PipelineView {
    pub phase: PhaseView,
    pub process_dir: Option<Seq<char>>,
}

/// `Step` with its strings as text.
pub struct StepView {
    pub next: PipelineView,
    pub action: Option<ActionView>,
    pub warning: Option<EnvironmentWarning>,
}

/// The text-level reading of an outcome that carries no value.
pub open spec fn outcome_view(outcome: Result<(), String>) -> Result<(), Seq<char>> {
    match outcome {
        Ok(_) => Ok(()),
        Err(message) => Err(message@),
    }
}

/// The text-level reading of what the project loader returned.
pub open spec fn loaded_view(outcome: Result<ResolvedConfig, String>) -> Result<
    ResolvedConfigView,
    Seq<char>,
> {
    match outcome {
        Ok(config) => Ok(config@),
        Err(message) => Err(message@),
    }
}

/// The text-level reading of an exit.
pub open spec fn exit_view(outcome: Result<(), Error>) -> Result<(), ErrorView> {
    match outcome {
        Ok(_) => Ok(()),
        Err(error) => Err(error@),
    }
}

impl View for Event {
    type V = EventView;

    open spec fn view(&self) -> EventView {
        match self {
            Event::LoggingReady => EventView::LoggingReady,
            Event::ProcessRead(facts) => EventView::ProcessRead(facts@),
            Event::Loaded(outcome) => EventView::Loaded(loaded_view(*outcome)),
            Event::DirChanged(outcome) => EventView::DirChanged(outcome_view(*outcome)),
            Event::Probed(probe) => EventView::Probed(probe@),
            Event::SearchPathSet => EventView::SearchPathSet,
            Event::MonitorStarted => EventView::MonitorStarted,
            Event::Finished(outcome) => EventView::Finished(outcome_view(*outcome)),
        }
    }
}

impl View for ProbeTargets {
    type V = ProbeTargetsView;

    open spec fn view(&self) -> ProbeTargetsView {
        ProbeTargetsView { manifest: self.manifest@, dependencies: self.dependencies@ }
    }
}

impl View for Action {
    type V = ActionView;

    open spec fn view(&self) -> ActionView {
        match self {
            Action::CreateProject => ActionView::CreateProject,
            Action::InitLogging { verbosity, filter } => ActionView::InitLogging {
                verbosity: *verbosity,
                filter: filter.deep_view(),
            },
            Action::ReadProcess => ActionView::ReadProcess,
            Action::Load(request) => ActionView::Load(request@),
            Action::ChangeDir(dir) => ActionView::ChangeDir(dir@),
            Action::Probe(targets) => ActionView::Probe(targets@),
            Action::SetSearchPath(entries) => ActionView::SetSearchPath(entries.deep_view()),
            Action::StartMonitor => ActionView::StartMonitor,
            Action::Invoke(call) => ActionView::Invoke(call@),
            Action::Exit(outcome) => ActionView::Exit(exit_view(*outcome)),
        }
    }
}

impl View for Phase {
    type V = PhaseView;

    open spec fn view(&self) -> PhaseView {
        match self {
            Phase::Creating => PhaseView::Creating,
            Phase::Logging(args, operation) => PhaseView::Logging(args@, *operation),
            Phase::Reading(args, operation) => PhaseView::Reading(args@, *operation),
            Phase::Loading(operation) => PhaseView::Loading(*operation),
            Phase::Entering(operation, config) => PhaseView::Entering(*operation, config@),
            Phase::Probing(operation, config) => PhaseView::Probing(*operation, config@),
            Phase::Augmenting(call) => PhaseView::Augmenting(call_view(*call)),
            Phase::Arming(call) => PhaseView::Arming(call_view(*call)),
            Phase::Running => PhaseView::Running,
            Phase::Done => PhaseView::Done,
        }
    }
}

impl View for Pipeline {
    type V = PipelineView;

    open spec fn view(&self) -> PipelineView {
        PipelineView { phase: self.phase@, process_dir: self.process_dir.deep_view() }
    }
}

impl View for Step {
    type V = StepView;

    open spec fn view(&self) -> StepView {
        StepView {
            next: self.next@,
            action: match self.action {
                Some(action) => Some(action@),
                None => None,
            },
            warning: self.warning,
        }
    }
}

/// The places to probe for a working directory.
pub open spec fn targets_of(working_dir: Seq<char>) -> ProbeTargetsView {
    ProbeTargetsView {
        manifest: manifest_location(working_dir),
        dependencies: dependency_location(working_dir),
    }
}

/// How the return of a handler ends the invocation: success is success, and
/// a failure is passed on with its message unchanged.
pub open spec fn finished(outcome: Result<(), Seq<char>>) -> Result<(), ErrorView> {
    match outcome {
        Ok(_) => Ok(()),
        Err(message) => Err(ErrorView::Handler(message)),
    }
}

/// The step that enters `phase` and asks for `action`, with the process in
/// `process_dir`.
pub open spec fn advance(
    process_dir: Option<Seq<char>>,
    phase: PhaseView,
    action: ActionView,
) -> StepView {
    StepView { next: PipelineView { phase, process_dir }, action: Some(action), warning: None }
}

/// The step that ends the invocation with `outcome`.
pub open spec fn conclude(
    process_dir: Option<Seq<char>>,
    outcome: Result<(), ErrorView>,
) -> StepView {
    advance(process_dir, PhaseView::Done, ActionView::Exit(outcome))
}

/// The step that follows the probe of the environment: the search path is
/// replaced first where it is to be extended; otherwise the cancellation
/// monitor is started at once, after the warning, if there is one.
pub open spec fn prepare(
    process_dir: Option<Seq<char>>,
    search_path: AugmentationView,
    call: Result<HandlerCallView, ConfigErrorView>,
) -> StepView {
    match search_path {
        AugmentationView::Replaced(entries) => advance(
            process_dir,
            PhaseView::Augmenting(call),
            ActionView::SetSearchPath(entries),
        ),
        _ => StepView {
            next: PipelineView { phase: PhaseView::Arming(call), process_dir },
            action: Some(ActionView::StartMonitor),
            warning: search_path.warning(),
        },
    }
}

impl PipelineView {
    /// The step that the pipeline takes on an event.
    pub open spec fn step(self, event: EventView) -> StepView {
        let process_dir = self.process_dir;
        match (self.phase, event) {
            (PhaseView::Creating, EventView::Finished(outcome)) => conclude(
                process_dir,
                finished(outcome),
            ),
            (PhaseView::Logging(args, operation), EventView::LoggingReady) => advance(
                process_dir,
                PhaseView::Reading(args, operation),
                ActionView::ReadProcess,
            ),
            (PhaseView::Reading(args, operation), EventView::ProcessRead(facts)) => {
                match load_request(args, facts) {
                    Ok(request) => advance(
                        Some(facts.working_dir),
                        PhaseView::Loading(operation),
                        ActionView::Load(request),
                    ),
                    Err(error) => conclude(
                        Some(facts.working_dir),
                        Err(ErrorView::Config(error)),
                    ),
                }
            },
            (PhaseView::Loading(operation), EventView::Loaded(outcome)) => match outcome {
                Ok(config) => advance(
                    process_dir,
                    PhaseView::Entering(operation, config),
                    ActionView::ChangeDir(config.working_dir),
                ),
                Err(message) => conclude(
                    process_dir,
                    Err(ErrorView::Config(ConfigErrorView::Load(message))),
                ),
            },
            (PhaseView::Entering(operation, config), EventView::DirChanged(outcome)) => {
                match outcome {
                    Ok(_) => advance(
                        Some(config.working_dir),
                        PhaseView::Probing(operation, config),
                        ActionView::Probe(targets_of(config.working_dir)),
                    ),
                    Err(message) => conclude(process_dir, Err(ErrorView::Io(message))),
                }
            },
            (PhaseView::Probing(operation, config), EventView::Probed(probe)) => {
                let plan = executed(operation, config, probe);
                prepare(process_dir, plan.search_path, plan.call)
            },
            (PhaseView::Augmenting(call), EventView::SearchPathSet) => advance(
                process_dir,
                PhaseView::Arming(call),
                ActionView::StartMonitor,
            ),
            (PhaseView::Arming(call), EventView::MonitorStarted) => match call {
                Ok(call) => advance(process_dir, PhaseView::Running, ActionView::Invoke(call)),
                Err(error) => conclude(process_dir, Err(ErrorView::Config(error))),
            },
            (PhaseView::Running, EventView::Finished(outcome)) => conclude(
                process_dir,
                finished(outcome),
            ),
            _ => StepView { next: self, action: None, warning: None },
        }
    }
}

/// How an invocation begins: with the creation of a fresh project for the
/// command that asks for one, and with the set-up of logging for every
/// other command.
pub open spec fn begun(args: CliInvocationView) -> StepView {
    match args.command.operation_spec() {
        None => advance(None, PhaseView::Creating, ActionView::CreateProject),
        Some(operation) => advance(
            None,
            PhaseView::Logging(args, operation),
            ActionView::InitLogging {
                verbosity: args.options.verbosity,
                filter: args.options.log_filter,
            },
        ),
    }
}

fn finish(outcome: Result<(), String>) -> (exit: Result<(), Error>)
    ensures
        exit_view(exit) == finished(outcome_view(outcome)),
{
    match outcome {
        Ok(_) => Ok(()),
        Err(message) => Err(Error::Handler(message)),
    }
}

impl Pipeline {
    pub(crate) fn advance(process_dir: Option<String>, phase: Phase, action: Action) -> (step: Step)
        ensures
            step@ == advance(process_dir.deep_view(), phase@, action@),
    {
        Step { next: Pipeline { phase, process_dir }, action: Some(action), warning: None }
    }

    fn conclude(process_dir: Option<String>, outcome: Result<(), Error>) -> (step: Step)
        ensures
            step@ == conclude(process_dir.deep_view(), exit_view(outcome)),
    {
        Pipeline::advance(process_dir, Phase::Done, Action::Exit(outcome))
    }

    /// Advances the pipeline by one event.
    pub fn step(self, event: Event) -> (step: Step)
        ensures
            step@ == self@.step(event@),
    {
        let Pipeline { phase, process_dir } = self;
        match (phase, event) {
            (Phase::Creating, Event::Finished(outcome)) => Pipeline::conclude(
                process_dir,
                finish(outcome),
            ),
            (Phase::Logging(args, operation), Event::LoggingReady) => Pipeline::advance(
                process_dir,
                Phase::Reading(args, operation),
                Action::ReadProcess,
            ),
            (Phase::Reading(args, operation), Event::ProcessRead(facts)) => {
                let resolved = resolve_config(args, &facts);
                let process_dir = Some(facts.working_dir);
                match resolved {
                    Ok(request) => Pipeline::advance(
                        process_dir,
                        Phase::Loading(operation),
                        Action::Load(request),
                    ),
                    Err(error) => Pipeline::conclude(process_dir, Err(Error::Config(error))),
                }
            },
            (Phase::Loading(operation), Event::Loaded(outcome)) => match outcome {
                Ok(config) => {
                    let dir = config.working_dir.clone();
                    Pipeline::advance(
                        process_dir,
                        Phase::Entering(operation, config),
                        Action::ChangeDir(dir),
                    )
                },
                Err(message) => Pipeline::conclude(
                    process_dir,
                    Err(Error::Config(ConfigError::Load(message))),
                ),
            },
            (Phase::Entering(operation, config), Event::DirChanged(outcome)) => match outcome {
                Ok(_) => {
                    let targets = probe_targets(config.working_dir.as_str());
                    let dir = config.working_dir.clone();
                    Pipeline::advance(
                        Some(dir),
                        Phase::Probing(operation, config),
                        Action::Probe(targets),
                    )
                },
                Err(message) => Pipeline::conclude(process_dir, Err(Error::Io(message))),
            },
            (Phase::Probing(operation, config), Event::Probed(probe)) => {
                let plan = execute_command(operation, config, probe);
                match plan.search_path {
                    Augmentation::Replaced(entries) => Pipeline::advance(
                        process_dir,
                        Phase::Augmenting(plan.call),
                        Action::SetSearchPath(entries),
                    ),
                    Augmentation::Skipped(warning) => Step {
                        next: Pipeline { phase: Phase::Arming(plan.call), process_dir },
                        action: Some(Action::StartMonitor),
                        warning: Some(warning),
                    },
                    Augmentation::Unchanged => Pipeline::advance(
                        process_dir,
                        Phase::Arming(plan.call),
                        Action::StartMonitor,
                    ),
                }
            },
            (Phase::Augmenting(call), Event::SearchPathSet) => Pipeline::advance(
                process_dir,
                Phase::Arming(call),
                Action::StartMonitor,
            ),
            (Phase::Arming(call), Event::MonitorStarted) => match call {
                Ok(call) => Pipeline::advance(process_dir, Phase::Running, Action::Invoke(call)),
                Err(error) => Pipeline::conclude(process_dir, Err(Error::Config(error))),
            },
            (Phase::Running, Event::Finished(outcome)) => Pipeline::conclude(
                process_dir,
                finish(outcome),
            ),
            (phase, _) => Step {
                next: Pipeline { phase, process_dir },
                action: None,
                warning: None,
            },
        }
    }
}

impl PhaseView {
    /// How far the phase is along the invocation. Creating a fresh project
    /// stands where a running handler stands: only the end follows.
    pub open spec fn stage(self) -> nat {
        match self {
            PhaseView::Logging(_, _) => 0,
            PhaseView::Reading(_, _) => 1,
            PhaseView::Loading(_) => 2,
            PhaseView::Entering(_, _) => 3,
            PhaseView::Probing(_, _) => 4,
            PhaseView::Augmenting(_) => 5,
            PhaseView::Arming(_) => 6,
            PhaseView::Running => 7,
            PhaseView::Creating => 7,
            PhaseView::Done => 8,
        }
    }

    /// The configuration is being resolved.
    pub open spec fn resolving(self) -> bool {
        self.stage() <= 3
    }
}

impl PipelineView {
    /// Where the configuration is resolved, the process is in its working
    /// directory.
    pub open spec fn settled(self) -> bool {
        match self.phase {
            PhaseView::Probing(_, config) => self.process_dir == Some(config.working_dir),
            _ => true,
        }
    }
}

impl ActionView {
    /// The place of the action in the order of an invocation: the stage of
    /// the phase that waits for its outcome.
    pub open spec fn rank(self) -> nat {
        match self {
            ActionView::InitLogging { .. } => 0,
            ActionView::ReadProcess => 1,
            ActionView::Load(_) => 2,
            ActionView::ChangeDir(_) => 3,
            ActionView::Probe(_) => 4,
            ActionView::SetSearchPath(_) => 5,
            ActionView::StartMonitor => 6,
            ActionView::Invoke(_) => 7,
            ActionView::CreateProject => 7,
            ActionView::Exit(_) => 8,
        }
    }
}

impl StepView {
    /// The step calls a handler.
    pub open spec fn invokes(self) -> bool {
        self.action matches Some(ActionView::Invoke(_))
    }
}

/// The state that a sequence of events leads to.
pub open spec fn after(state: PipelineView, events: Seq<EventView>) -> PipelineView
    decreases events.len(),
{
    if events.len() == 0 {
        state
    } else {
        after(state, events.drop_last()).step(events.last()).next
    }
}

/// The step that the event at position `at` of a sequence causes.
pub open spec fn step_at(state: PipelineView, events: Seq<EventView>, at: int) -> StepView {
    after(state, events.take(at)).step(events[at])
}

/// Resolution ends in the working directory, or in a reported failure.
///
/// A step that completes the resolution is the answer to a successful
/// change of directory, asked for the working directory of the very
/// configuration that is then resolved, and it records that directory as
/// the one the process is in. A step that ends the invocation while the
/// configuration is being resolved exits with an error. Every other step
/// from such a phase stays in resolution.
pub proof fn lemma_resolution_enters_or_fails(state: PipelineView, event: EventView)
    requires
        state.phase.resolving(),
    ensures
        ({
            let step = state.step(event);
            match step.next.phase {
                PhaseView::Probing(operation, config) => {
                    &&& state.phase == PhaseView::Entering(operation, config)
                    &&& event matches EventView::DirChanged(Ok(_))
                    &&& step.next.process_dir == Some(config.working_dir)
                },
                PhaseView::Entering(_, config) => step.action == Some(
                    ActionView::ChangeDir(config.working_dir),
                ) || step.action is None,
                PhaseView::Done => step.action matches Some(ActionView::Exit(Err(_))),
                _ => step.next.phase.resolving(),
            }
        }),
{
}

/// No step unsettles the pipeline.
pub proof fn lemma_step_keeps_settled(state: PipelineView, event: EventView)
    requires
        state.settled(),
    ensures
        state.step(event).next.settled(),
{
}

/// After an invocation is begun, whatever events follow: wherever the
/// configuration is resolved, its working directory is the directory that
/// the process is in.
pub proof fn lemma_resolved_in_working_dir(args: CliInvocationView, events: Seq<EventView>)
    ensures
        after(begun(args).next, events).settled(),
    decreases events.len(),
{
    if events.len() > 0 {
        lemma_resolved_in_working_dir(args, events.drop_last());
        lemma_step_keeps_settled(after(begun(args).next, events.drop_last()), events.last());
    }
}

/// The command that creates a fresh project is never routed: its
/// invocation begins with the creation, resolves no configuration, and
/// whatever events follow it only waits for the creation to return or is
/// over, so that no step of it calls a handler.
pub proof fn lemma_new_is_never_routed(args: CliInvocationView, events: Seq<EventView>)
    requires
        args.command == CommandKind::New,
    ensures
        begun(args).action == Some(ActionView::CreateProject),
        after(begun(args).next, events).phase is Creating || after(
            begun(args).next,
            events,
        ).phase is Done,
        forall|event: EventView|
            !(#[trigger] after(begun(args).next, events).step(event)).invokes(),
    decreases events.len(),
{
    if events.len() > 0 {
        lemma_new_is_never_routed(args, events.drop_last());
    }
}

/// Every other command begins with the set-up of logging, before anything
/// else is asked for.
pub proof fn lemma_logging_comes_first(args: CliInvocationView)
    requires
        args.command != CommandKind::New,
    ensures
        begun(args).action == Some(
            ActionView::InitLogging {
                verbosity: args.options.verbosity,
                filter: args.options.log_filter,
            },
        ),
        begun(args).next.phase.stage() == 0,
{
}

/// The pipeline only moves forward: a step that asks for an action enters
/// the phase that waits for its outcome, which is a later phase, and a step
/// that asks for nothing changes nothing.
pub proof fn lemma_step_advances(state: PipelineView, event: EventView)
    ensures
        match state.step(event).action {
            Some(action) => {
                &&& state.step(event).next.phase.stage() > state.phase.stage()
                &&& state.step(event).next.phase.stage() == action.rank()
            },
            None => state.step(event).next == state,
        },
{
}

/// A handler is called only once everything is prepared: the step that
/// calls it answers the start of the cancellation monitor, and the monitor
/// is started only in answer to the probe of the environment, where the
/// search path stays as it is, or to the replacement of the search path.
pub proof fn lemma_handler_follows_monitor(state: PipelineView, event: EventView)
    ensures
        state.step(event).invokes() ==> state.phase is Arming && event is MonitorStarted
            && state.step(event).next.phase is Running,
        state.step(event).action == Some(ActionView::StartMonitor) ==> (state.phase is Probing
            && event is Probed) || (state.phase is Augmenting && event is SearchPathSet),
{
}

/// The pipeline records a new working directory of the process only when
/// the process was read, and when the process has entered the working
/// directory of the configuration.
pub proof fn lemma_process_dir_changes(state: PipelineView, event: EventView)
    ensures
        state.step(event).next.process_dir != state.process_dir ==> {
            ||| state.phase is Reading && event is ProcessRead
            ||| state.phase is Entering && event matches EventView::DirChanged(Ok(_))
        },
{
}

/// What a step does about the search path.
///
/// It asks for the search path to be replaced exactly when it answers a
/// probe that found the package manifest, its dependency directory and a
/// search path; the entries that replace it are the directory of the
/// dependencies' binaries followed by the entries found, in their order.
/// Without the manifest the search path is left alone and nothing is
/// reported. With the manifest but without the dependency directory, or
/// without a search path, it is left alone and the step warns of that.
pub proof fn lemma_search_path_preparation(state: PipelineView, event: EventView)
    ensures
        ({
            let step = state.step(event);
            let probing = state.phase is Probing && event is Probed;
            let probe = event->Probed_0;
            &&& match step.action {
                Some(ActionView::SetSearchPath(entries)) => {
                    &&& probing
                    &&& probe.manifest_exists
                    &&& probe.dependencies_exist
                    &&& probe.search_path is Some
                    &&& entries == seq![binary_location(state.phase->Probing_1.working_dir)]
                        + probe.search_path->0
                },
                _ => !(probing && probe.manifest_exists && probe.dependencies_exist
                    && probe.search_path is Some),
            }
            &&& step.warning == Some(EnvironmentWarning::DependenciesMissing) <==> probing
                && probe.manifest_exists && !probe.dependencies_exist
            &&& step.warning == Some(EnvironmentWarning::SearchPathUnset) <==> probing
                && probe.manifest_exists && probe.dependencies_exist && probe.search_path is None
            &&& probing && !probe.manifest_exists ==> step.warning is None && step.action == Some(
                ActionView::StartMonitor,
            )
        }),
{
}

proof fn lemma_stage_grows(state: PipelineView, events: Seq<EventView>, from: int)
    requires
        0 <= from <= events.len(),
    ensures
        after(state, events).phase.stage() >= after(state, events.take(from)).phase.stage(),
    decreases events.len(),
{
    if from == events.len() {
        assert(events.take(from) =~= events);
    } else {
        assert(events.drop_last().take(from) =~= events.take(from));
        lemma_stage_grows(state, events.drop_last(), from);
        lemma_step_advances(after(state, events.drop_last()), events.last());
    }
}

/// Actions come in their order, each at most once: of two steps that a
/// sequence of events causes, the later one asks for a later action. So
/// the configuration is loaded before its working directory is entered,
/// the directory is entered before the environment is probed, the search
/// path is replaced before the cancellation monitor is started, the monitor
/// is started before the handler is called, and none of this happens twice.
pub proof fn lemma_actions_come_in_order(
    state: PipelineView,
    events: Seq<EventView>,
    first: int,
    second: int,
)
    requires
        0 <= first < second < events.len(),
        step_at(state, events, first).action is Some,
        step_at(state, events, second).action is Some,
    ensures
        step_at(state, events, first).action->0.rank() < step_at(
            state,
            events,
            second,
        ).action->0.rank(),
{
    lemma_step_advances(after(state, events.take(first)), events[first]);
    let upto = events.take(second);
    assert(upto.take(first + 1) =~= events.take(first + 1));
    assert(events.take(first + 1).drop_last() =~= events.take(first));
    assert(events.take(first + 1).last() == events[first]);
    lemma_stage_grows(state, upto, first + 1);
    lemma_step_advances(after(state, upto), events[second]);
}

/// At most one handler is called: of the steps that a sequence of events
/// causes, no two call a handler.
pub proof fn lemma_at_most_one_handler(
    state: PipelineView,
    events: Seq<EventView>,
    first: int,
    second: int,
)
    requires
        0 <= first < second < events.len(),
    ensures
        !(step_at(state, events, first).invokes() && step_at(state, events, second).invokes()),
{
    if step_at(state, events, first).invokes() && step_at(state, events, second).invokes() {
        lemma_actions_come_in_order(state, events, first, second);
    }
}

} // verus!
