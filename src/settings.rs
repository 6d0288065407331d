use vstd::prelude::*;

verus! {

/// What a service subcommand asks for.
#[derive(Clone, Copy, Debug, PartialEq, Eq, Structural)]
pub enum ServiceAction {
    Deploy,
    Delete,
}

/// The subcommand of one invocation.
#[derive(Clone, Debug, PartialEq, Eq)]
pub enum SubCommand {
    Reboot,
    Update,
    /// `service_name` is checked against the known services at dispatch time.
    Service { action: ServiceAction, service_name: String },
}

/// What the engine is run with: the cluster's settings and the subcommand.
#[derive(Clone, Debug, PartialEq, Eq)]
pub struct ClusterSettings {
    /// Path of the inventory that lists the cluster's hosts.
    pub inventory: String,
    /// Remote user, where it differs from the engine's default.
    pub user: Option<String>,
    /// How many `-v` the engine gets; 0 gives none.
    pub verbosity: u8,
    /// Run the engine in check mode, changing nothing on the hosts.
    pub dry_run: bool,
    pub subcommand: SubCommand,
}

} // verus!
