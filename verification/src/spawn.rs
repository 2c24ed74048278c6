//! Spawn planning for one backend worker: the paths that must exist before
//! a spawn is attempted, and the exact command line of the spawn.

use vstd::prelude::*;
use vstd::string::StringExecFns;

use crate::config::ModelConfig;
use crate::numfmt::{decimal_u16, spec_decimal};

verus! {

/// Why a worker could not be spawned.
#[derive(Debug)]
pub enum SpawnError {
    /// The interpreter or the entry-point script is missing; the offending
    /// path is carried.
    MissingDependency(String),
}

/// The command line of one worker spawn: the interpreter to run, and its
/// arguments in order.
pub struct SpawnCommand {
    pub program: String,
    pub args: Vec<String>,
}

/// The environment-local interpreter expected under a worker's
/// installation path.
pub open spec fn spec_interpreter_path(path: Seq<char>) -> Seq<char> {
    path + "/venv/bin/python"@
}

/// The worker's RPC entry-point script under its installation path.
pub open spec fn spec_entry_point_path(path: Seq<char>) -> Seq<char> {
    path + "/grpc_server.py"@
}

/// The path of the interpreter a worker is launched with.
pub fn interpreter_path(config: &ModelConfig) -> (r: String)
    ensures
        r@ == spec_interpreter_path(config.path@),
{
    let mut p = config.path.clone();
    p.append("/venv/bin/python");
    p
}

/// The path of the script a worker runs.
pub fn entry_point_path(config: &ModelConfig) -> (r: String)
    ensures
        r@ == spec_entry_point_path(config.path@),
{
    let mut p = config.path.clone();
    p.append("/grpc_server.py");
    p
}

/// Decides one spawn, given whether the two required paths exist: if either
/// is missing the spawn is refused with that path, without any side effect;
/// otherwise the exact command line is produced — the interpreter, running
/// the entry point with the worker's port as its argument.
pub fn plan_spawn(config: &ModelConfig, interpreter_exists: bool, entry_point_exists: bool) -> (r:
    Result<SpawnCommand, SpawnError>)
    ensures
        !interpreter_exists ==> (r matches Err(SpawnError::MissingDependency(p)) && p@
            == spec_interpreter_path(config.path@)),
        interpreter_exists && !entry_point_exists ==> (r matches Err(
            SpawnError::MissingDependency(p),
        ) && p@ == spec_entry_point_path(config.path@)),
        interpreter_exists && entry_point_exists ==> (r matches Ok(cmd) && cmd.program@
            == spec_interpreter_path(config.path@) && cmd.args@.len() == 3 && cmd.args@[0]@
            == spec_entry_point_path(config.path@) && cmd.args@[1]@ == "--port"@ && cmd.args@[2]@
            == spec_decimal(config.port as int)),
{
    let program = interpreter_path(config);
    if !interpreter_exists {
        return Err(SpawnError::MissingDependency(program));
    }
    let entry = entry_point_path(config);
    if !entry_point_exists {
        return Err(SpawnError::MissingDependency(entry));
    }
    let mut args: Vec<String> = Vec::new();
    args.push(entry);
    args.push("--port".to_owned());
    args.push(decimal_u16(config.port));
    Ok(SpawnCommand { program, args })
}

} // verus!
