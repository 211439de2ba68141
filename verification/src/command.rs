//! Command classification: what the command line selected, and what may be
//! routed to an operation once the configuration is resolved.

use vstd::prelude::*;

verus! {

/// The command selected on the command line.
#[derive(Clone, Copy, Debug, PartialEq, Eq, Structural)]
pub enum CommandKind {
    New,
    Build,
    Serve,
    Test,
    EndToEnd,
    Watch,
}

/// A command that needs a resolved configuration. `CommandKind::New` has no
/// counterpart here: it creates a fresh project and is served before any
/// configuration is resolved, so no value of this type stands for it.
#[derive(Clone, Copy, Debug, PartialEq, Eq, Structural)]
pub enum Operation {
    Build,
    Serve,
    Test,
    EndToEnd,
    Watch,
}

impl CommandKind {
    /// The operation that the command routes to, if it needs a configuration.
    pub open spec fn operation_spec(self) -> Option<Operation> {
        match self {
            CommandKind::New => None,
            CommandKind::Build => Some(Operation::Build),
            CommandKind::Serve => Some(Operation::Serve),
            CommandKind::Test => Some(Operation::Test),
            CommandKind::EndToEnd => Some(Operation::EndToEnd),
            CommandKind::Watch => Some(Operation::Watch),
        }
    }

    /// Classifies the command: `None` for `New`, the matching operation for
    /// every other command.
    #[verifier::when_used_as_spec(operation_spec)]
    pub fn operation(self) -> (routed: Option<Operation>)
        ensures
            routed == self.operation_spec(),
            routed is None <==> self == CommandKind::New,
    {
        match self {
            CommandKind::New => None,
            CommandKind::Build => Some(Operation::Build),
            CommandKind::Serve => Some(Operation::Serve),
            CommandKind::Test => Some(Operation::Test),
            CommandKind::EndToEnd => Some(Operation::EndToEnd),
            CommandKind::Watch => Some(Operation::Watch),
        }
    }
}

} // verus!
