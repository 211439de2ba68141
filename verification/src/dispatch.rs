//! The routing table from an operation to the handler that carries it out.

use crate::command::Operation;
use crate::config::{Project, ProjectView, ResolvedConfig, ResolvedConfigView};
use crate::error::{ConfigError, ConfigErrorView};
use vstd::prelude::*;

verus! {

/// One call of a long-running handler, with what the handler is given.
#[derive(Clone, Debug, PartialEq, Eq)]
pub enum HandlerCall {
    /// Build all projects of the configuration.
    BuildAll(ResolvedConfig),
    /// Serve the current project.
    Serve(Project),
    /// Test all projects of the configuration.
    TestAll(ResolvedConfig),
    /// Run the end-to-end tests of all projects of the configuration.
    EndToEndAll(ResolvedConfig),
    /// Watch the current project and rebuild it on changes.
    Watch(Project),
}

/// `HandlerCall` with its strings as text.
pub enum HandlerCallView {
    BuildAll(ResolvedConfigView),
    Serve(ProjectView),
    TestAll(ResolvedConfigView),
    EndToEndAll(ResolvedConfigView),
    Watch(ProjectView),
}

impl View for HandlerCall {
    type V = HandlerCallView;

    open spec fn view(&self) -> HandlerCallView {
        match self {
            HandlerCall::BuildAll(config) => HandlerCallView::BuildAll(config@),
            HandlerCall::Serve(project) => HandlerCallView::Serve(project@),
            HandlerCall::TestAll(config) => HandlerCallView::TestAll(config@),
            HandlerCall::EndToEndAll(config) => HandlerCallView::EndToEndAll(config@),
            HandlerCall::Watch(project) => HandlerCallView::Watch(project@),
        }
    }
}

impl HandlerCallView {
    /// The operation that the call carries out.
    pub open spec fn operation(self) -> Operation {
        match self {
            HandlerCallView::BuildAll(_) => Operation::Build,
            HandlerCallView::Serve(_) => Operation::Serve,
            HandlerCallView::TestAll(_) => Operation::Test,
            HandlerCallView::EndToEndAll(_) => Operation::EndToEnd,
            HandlerCallView::Watch(_) => Operation::Watch,
        }
    }
}

/// The call that an operation is routed to. The three operations on all
/// projects are given the whole configuration; serving and watching are
/// given the current project and fail where there is none.
pub open spec fn routed(operation: Operation, config: ResolvedConfigView) -> Result<
    HandlerCallView,
    ConfigErrorView,
> {
    match operation {
        Operation::Build => Ok(HandlerCallView::BuildAll(config)),
        Operation::Serve => match config.current_project() {
            Some(project) => Ok(HandlerCallView::Serve(project)),
            None => Err(ConfigErrorView::NoCurrentProject),
        },
        Operation::Test => Ok(HandlerCallView::TestAll(config)),
        Operation::EndToEnd => Ok(HandlerCallView::EndToEndAll(config)),
        Operation::Watch => match config.current_project() {
            Some(project) => Ok(HandlerCallView::Watch(project)),
            None => Err(ConfigErrorView::NoCurrentProject),
        },
    }
}

/// The text-level reading of a routing result.
pub open spec fn call_view(result: Result<HandlerCall, ConfigError>) -> Result<
    HandlerCallView,
    ConfigErrorView,
> {
    match result {
        Ok(call) => Ok(call@),
        Err(error) => Err(error@),
    }
}

/// Routes an operation to exactly one handler call. It fails only for
/// serving and watching, and only when the configuration has no current
/// project.
pub fn dispatch(operation: Operation, config: ResolvedConfig) -> (result: Result<
    HandlerCall,
    ConfigError,
>)
    ensures
        call_view(result) == routed(operation, config@),
        result is Ok ==> result->Ok_0@.operation() == operation,
        result is Err <==> (operation == Operation::Serve || operation == Operation::Watch)
            && config@.current_project() is None,
{
    match operation {
        Operation::Build => Ok(HandlerCall::BuildAll(config)),
        Operation::Serve => match config.into_current_project() {
            Some(project) => Ok(HandlerCall::Serve(project)),
            None => Err(ConfigError::NoCurrentProject),
        },
        Operation::Test => Ok(HandlerCall::TestAll(config)),
        Operation::EndToEnd => Ok(HandlerCall::EndToEndAll(config)),
        Operation::Watch => match config.into_current_project() {
            Some(project) => Ok(HandlerCall::Watch(project)),
            None => Err(ConfigError::NoCurrentProject),
        },
    }
}

} // verus!
