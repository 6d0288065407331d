//! Drives a Raspberry Pi cluster through an external playbook engine.
//!
//! The library decides which embedded playbooks a subcommand runs, in what
//! order, with which engine options, and what the invocation as a whole
//! returns. Writing a playbook out and spawning the engine are left to the
//! caller, which performs each [`Action`] and reports the engine's outcome
//! back to the [`Execution`].
pub mod commands;
pub mod options;
pub mod playbook;
pub mod runner;
pub mod settings;
pub mod status;

pub use commands::{
    CommandRunner, SERVICE_NAME_DOCKER, SERVICE_NAME_KUBERNETES, intent_message, run_delete_service,
    run_deploy_service, run_reboot, run_service, run_update,
};
pub use options::{engine_args, verbosity_switch};
pub use playbook::Playbook;
pub use runner::{Action, AnsibleAggregatePlaybook, AnsiblePlaybook, Execution, launch_message};
pub use settings::{ClusterSettings, ServiceAction, SubCommand};
pub use status::{ClusterError, DISPATCH_FAILURE_CODE, EngineOutcome, Status, exit_code, status_of};
