//! What is decided before the service process is created: whether it may be
//! created at all, and with which command line.

use crate::address::{decimal, decimal_text};
use vstd::prelude::*;
use vstd::string::*;

verus! {

/// Why no service process came to be. None of these is retried.
#[derive(Clone, Copy, Debug, PartialEq, Eq)]
pub enum SpawnError {
    /// The service executable is not where it is expected on disk.
    BinaryNotFound,
    /// No port allocation is waiting for a process: a mistake of the caller.
    PortNotAllocated,
    /// The executable is there, but the operating system did not start it.
    SpawnFailure,
}

/// How the platform lets a process be terminated together with its
/// descendants.
#[derive(Clone, Copy, Debug, PartialEq, Eq)]
pub enum TreeKill {
    /// The child gets a process group of its own, which can be signalled as
    /// one.
    ProcessGroup,
    /// Only the child itself can be terminated.
    Unsupported,
}

/// The environment variable that asks for a verbose service.
pub const VERBOSE_VARIABLE: &'static str = "VERBOSE";

/// Whether a value of the `VERBOSE` variable asks for verbose output: it is
/// `1`, or `true` in any mix of upper and lower case.
pub open spec fn is_truthy(value: Seq<char>) -> bool {
    ||| value.len() == 1 && value[0] == '1'
    ||| {
        &&& value.len() == 4
        &&& (value[0] == 't' || value[0] == 'T')
        &&& (value[1] == 'r' || value[1] == 'R')
        &&& (value[2] == 'u' || value[2] == 'U')
        &&& (value[3] == 'e' || value[3] == 'E')
    }
}

/// The arguments that the service is started with: `--port <PORT>`, then
/// `--verbose` where it was asked for.
pub open spec fn spawn_arguments(port: u16, verbose: bool) -> Seq<Seq<char>> {
    if verbose {
        seq!["--port"@, decimal(port as nat), "--verbose"@]
    } else {
        seq!["--port"@, decimal(port as nat)]
    }
}

/// Reads the `VERBOSE` variable; `None` stands for a variable that is not
/// set.
pub fn verbose_requested(value: Option<&str>) -> (verbose: bool)
    ensures
        verbose == (value matches Some(v) && is_truthy(v@)),
{
    match value {
        None => false,
        Some(v) => {
            let n = v.unicode_len();
            if n == 1 {
                v.get_char(0) == '1'
            } else if n == 4 {
                let c0 = v.get_char(0);
                let c1 = v.get_char(1);
                let c2 = v.get_char(2);
                let c3 = v.get_char(3);
                (c0 == 't' || c0 == 'T') && (c1 == 'r' || c1 == 'R') && (c2 == 'u' || c2 == 'U')
                    && (c3 == 'e' || c3 == 'E')
            } else {
                false
            }
        },
    }
}

pub fn spawn_args(port: u16, verbose: bool) -> (args: Vec<String>)
    ensures
        args.deep_view() == spawn_arguments(port, verbose),
{
    let mut args: Vec<String> = Vec::new();
    args.push(String::from_str("--port"));
    args.push(decimal_text(port));
    if verbose {
        args.push(String::from_str("--verbose"));
    }
    assert(args.deep_view() =~= spawn_arguments(port, verbose));
    args
}

/// An order to create the service process.
#[derive(Debug, PartialEq, Eq)]
pub struct SpawnCommand {
    /// The port that the service is told to listen on.
    pub port: u16,
    /// The arguments after the executable's path.
    pub args: Vec<String>,
    /// Whether the child is to lead a process group of its own.
    pub own_process_group: bool,
}

pub struct SpawnCommandModel {
    pub port: u16,
    pub args: Seq<Seq<char>>,
    pub own_process_group: bool,
}

impl View for SpawnCommand {
    type V = SpawnCommandModel;

    open spec fn view(&self) -> SpawnCommandModel {
        SpawnCommandModel {
            port: self.port,
            args: self.args.deep_view(),
            own_process_group: self.own_process_group,
        }
    }
}

/// The command for a service on `port`.
pub open spec fn command_for(port: u16, verbose: bool, tree_kill: TreeKill) -> SpawnCommandModel {
    SpawnCommandModel {
        port,
        args: spawn_arguments(port, verbose),
        own_process_group: tree_kill == TreeKill::ProcessGroup,
    }
}

/// What the checks before a spawn come to: the executable is looked at first,
/// the port second, and only when both are in order is there a command.
pub open spec fn spawn_decision(
    binary_exists: bool,
    port: Option<u16>,
    verbose: bool,
    tree_kill: TreeKill,
) -> Result<SpawnCommandModel, SpawnError> {
    if !binary_exists {
        Err(SpawnError::BinaryNotFound)
    } else {
        match port {
            None => Err(SpawnError::PortNotAllocated),
            Some(p) => Ok(command_for(p, verbose, tree_kill)),
        }
    }
}

/// Checks what has to hold before a process is created. The caller creates
/// one only for the command that comes back.
pub fn plan_spawn(binary_exists: bool, port: Option<u16>, verbose: bool, tree_kill: TreeKill) -> (plan:
    Result<SpawnCommand, SpawnError>)
    ensures
        match plan {
            Ok(command) => spawn_decision(binary_exists, port, verbose, tree_kill) == Ok::<
                SpawnCommandModel,
                SpawnError,
            >(command@),
            Err(e) => spawn_decision(binary_exists, port, verbose, tree_kill) == Err::<
                SpawnCommandModel,
                SpawnError,
            >(e),
        },
{
    if !binary_exists {
        return Err(SpawnError::BinaryNotFound);
    }
    match port {
        None => Err(SpawnError::PortNotAllocated),
        Some(p) => {
            let own_process_group = match tree_kill {
                TreeKill::ProcessGroup => true,
                TreeKill::Unsupported => false,
            };
            Ok(SpawnCommand { port: p, args: spawn_args(p, verbose), own_process_group })
        },
    }
}

/// A missing executable is reported as such whatever else holds, and then
/// there is no command to run.
pub proof fn law_missing_binary_never_spawns(port: Option<u16>, verbose: bool, tree_kill: TreeKill)
    ensures
        spawn_decision(false, port, verbose, tree_kill) == Err::<SpawnCommandModel, SpawnError>(
            SpawnError::BinaryNotFound,
        ),
{
}

} // verus!
