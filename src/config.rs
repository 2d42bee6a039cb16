//! Startup settings, taken from the environment and the command line.
use crate::script::Bindings;
use vstd::prelude::*;
use vstd::string::StringExecFns;

verus! {

/// Why the program cannot start.
#[derive(Debug, Clone, Copy, PartialEq, Eq, Structural)]
pub enum StartupError {
    /// No compositor instance is named in the environment.
    MissingSignature,
    /// No attach script was given on the command line.
    MissingScript,
}

impl StartupError {
    /// The line printed before the program exits.
    pub fn message(&self) -> (r: String)
        ensures
            r@ == match self {
                StartupError::MissingSignature => "Fatal Error: Hyprland is not run."@,
                StartupError::MissingScript => "Usage: provide a script to execute."@,
            },
    {
        match self {
            StartupError::MissingSignature => String::from_str("Fatal Error: Hyprland is not run."),
            StartupError::MissingScript => String::from_str("Usage: provide a script to execute."),
        }
    }
}

/// What the bridge runs with: the compositor instance and the scripts.
#[derive(Debug, Clone, PartialEq, Eq)]
pub struct Config {
    pub signature: String,
    pub bindings: Bindings,
}

/// Builds the settings from the instance signature found in the environment
/// (if any) and the command line `args`, whose first element is the program's
/// own name, the second the attach script and the third, if given, the detach
/// script. A missing signature is reported before a missing script.
pub fn configure(signature: Option<String>, args: Vec<String>) -> (r: Result<Config, StartupError>)
    ensures
        signature is None ==> r == Err::<Config, StartupError>(StartupError::MissingSignature),
        signature is Some && args@.len() < 2 ==> r == Err::<Config, StartupError>(
            StartupError::MissingScript,
        ),
        signature is Some && args@.len() >= 2 ==> r is Ok,
        r is Ok ==> {
            let c = r->Ok_0;
            &&& c.signature == signature->Some_0
            &&& c.bindings.attached == args@[1]
            &&& c.bindings.detached == if args@.len() >= 3 {
                Some(args@[2])
            } else {
                None
            }
        },
{
    let signature = match signature {
        Some(s) => s,
        None => return Err(StartupError::MissingSignature),
    };
    if args.len() < 2 {
        return Err(StartupError::MissingScript);
    }
    let attached = args[1].clone();
    let detached = if args.len() >= 3 {
        Some(args[2].clone())
    } else {
        None
    };
    Ok(Config { signature, bindings: Bindings { attached, detached } })
}

} // verus!
