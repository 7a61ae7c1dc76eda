//! The commands of the command line and what each asks of the program.

use vstd::prelude::*;

verus! {

/// What the command line holds.
pub struct Args {
    pub command: Option<Commands>,
}

#[derive(Debug, Clone, Copy, PartialEq, Eq, Structural)]
pub enum Commands {
    /// Generates a default properties file.
    GenConfig,
    /// Enables a debug window viewer to display the current world.
    DebugView,
}

/// Side effects of a command that are carried out elsewhere.
#[derive(Debug, Clone, Copy, PartialEq, Eq, Structural)]
pub enum ArgsSideEffect {
    Exit,
    AddDebuggingWindowPlugins,
}

impl Commands {
    /// Whether the command has the default properties file written before
    /// anything else is done.
    pub open spec fn writes_config_spec(self) -> bool {
        self == Commands::GenConfig
    }

    #[verifier::when_used_as_spec(writes_config_spec)]
    pub fn writes_config(self) -> (writes: bool)
        ensures
            writes == self.writes_config_spec(),
    {
        match self {
            Commands::GenConfig => true,
            Commands::DebugView => false,
        }
    }
}

/// What `command` asks of the program once it has been carried out.
pub open spec fn side_effect(command: Option<Commands>) -> Option<ArgsSideEffect> {
    match command {
        Some(Commands::GenConfig) => Some(ArgsSideEffect::Exit),
        Some(Commands::DebugView) => Some(ArgsSideEffect::AddDebuggingWindowPlugins),
        None => None,
    }
}

/// Tells what is left to do for `command`: the program ends after the
/// properties file was generated, it adds the debugging window for the debug
/// view, and without a command it runs as it is.
pub fn process_command(command: Option<Commands>) -> (effect: Option<ArgsSideEffect>)
    ensures
        effect == side_effect(command),
{
    if let Some(command) = command {
        match command {
            Commands::GenConfig => Some(ArgsSideEffect::Exit),
            Commands::DebugView => Some(ArgsSideEffect::AddDebuggingWindowPlugins),
        }
    } else {
        None
    }
}

} // verus!
