use vstd::prelude::*;
use vstd::string::StringExecFns;

use crate::settings::ServiceAction;

verus! {

/// What became of one attempt to run the engine on a playbook.
#[derive(Clone, Copy, Debug, PartialEq, Eq, Structural)]
pub enum EngineOutcome {
    /// The engine ran and exited with this code.
    Exited(i32),
    /// The engine was terminated by a signal.
    Signaled,
    /// The engine binary could not be located.
    EngineMissing,
    /// The playbook could not be written out, or the child could not be spawned.
    IoFailure,
}

/// The ways an invocation can fail.
#[derive(Clone, Debug, PartialEq, Eq)]
pub enum ClusterError {
    UnknownService { name: String, action: ServiceAction },
    EngineMissing,
    IoFailure,
    EngineFailure { code: i32 },
    EngineAborted,
}

/// The result of running a plan: success (exit code 0) or the first failure.
pub type Status = Result<(), ClusterError>;

/// The exit code for failures detected by the tool itself.
pub const DISPATCH_FAILURE_CODE: i32 = 2;

/// The status that one engine outcome stands for.
pub open spec fn spec_status_of(o: EngineOutcome) -> Status {
    match o {
        EngineOutcome::Exited(code) => if code == 0 {
            Ok(())
        } else {
            Err(ClusterError::EngineFailure { code })
        },
        EngineOutcome::Signaled => Err(ClusterError::EngineAborted),
        EngineOutcome::EngineMissing => Err(ClusterError::EngineMissing),
        EngineOutcome::IoFailure => Err(ClusterError::IoFailure),
    }
}

pub fn status_of(o: EngineOutcome) -> (r: Status)
    ensures
        r == spec_status_of(o),
{
    match o {
        EngineOutcome::Exited(code) => if code == 0 {
            Ok(())
        } else {
            Err(ClusterError::EngineFailure { code })
        },
        EngineOutcome::Signaled => Err(ClusterError::EngineAborted),
        EngineOutcome::EngineMissing => Err(ClusterError::EngineMissing),
        EngineOutcome::IoFailure => Err(ClusterError::IoFailure),
    }
}

/// The process exit code of a status: 0 on success, the engine's own code on
/// engine failure, and a fixed code for everything else.
pub open spec fn spec_exit_code(s: Status) -> i32 {
    match s {
        Ok(()) => 0,
        Err(ClusterError::EngineFailure { code }) => code,
        Err(_) => DISPATCH_FAILURE_CODE,
    }
}

pub fn exit_code(s: &Status) -> (r: i32)
    ensures
        r == spec_exit_code(*s),
{
    match s {
        Ok(()) => 0,
        Err(ClusterError::EngineFailure { code }) => *code,
        Err(_) => DISPATCH_FAILURE_CODE,
    }
}

pub open spec fn spec_action_verb(a: ServiceAction) -> Seq<char> {
    match a {
        ServiceAction::Deploy => "deploy"@,
        ServiceAction::Delete => "delete"@,
    }
}

/// The one-line message shown for an error; it starts with the kind.
pub open spec fn spec_message(e: ClusterError) -> Seq<char> {
    match e {
        ClusterError::UnknownService { name, action } => "Unknown service '"@ + name@ + "', can't "@
            + spec_action_verb(action),
        ClusterError::EngineMissing => "Engine missing: the playbook engine is not on PATH"@,
        ClusterError::IoFailure => "I/O failure: the playbook could not be written or the engine spawned"@,
        ClusterError::EngineFailure { .. } => "Engine failure: the playbook engine exited with a non-zero code"@,
        ClusterError::EngineAborted => "Engine aborted: the playbook engine was terminated by a signal"@,
    }
}

impl ClusterError {
    pub fn message(&self) -> (r: String)
        ensures
            r@ == spec_message(*self),
    {
        match self {
            ClusterError::UnknownService { name, action } => {
                let mut m = String::from_str("Unknown service '");
                m.append(name.as_str());
                m.append("', can't ");
                match action {
                    ServiceAction::Deploy => m.append("deploy"),
                    ServiceAction::Delete => m.append("delete"),
                }
                m
            },
            ClusterError::EngineMissing => String::from_str(
                "Engine missing: the playbook engine is not on PATH",
            ),
            ClusterError::IoFailure => String::from_str(
                "I/O failure: the playbook could not be written or the engine spawned",
            ),
            ClusterError::EngineFailure { .. } => String::from_str(
                "Engine failure: the playbook engine exited with a non-zero code",
            ),
            ClusterError::EngineAborted => String::from_str(
                "Engine aborted: the playbook engine was terminated by a signal",
            ),
        }
    }
}

} // verus!
