use vstd::prelude::*;
use vstd::string::StringExecFns;

use crate::playbook::Playbook;
use crate::runner::{Action, AnsibleAggregatePlaybook, AnsiblePlaybook, Execution};
use crate::settings::{ClusterSettings, ServiceAction, SubCommand};
use crate::status::ClusterError;

verus! {

/// The services the tool knows how to deploy and delete.
pub const SERVICE_NAME_DOCKER: &'static str = "docker";

pub const SERVICE_NAME_KUBERNETES: &'static str = "kubernetes";

/// The playbooks a service subcommand runs, in order; `None` for a service
/// outside the known ones.
pub open spec fn spec_service_plan(action: ServiceAction, name: Seq<char>) -> Option<Seq<Playbook>> {
    if name == SERVICE_NAME_KUBERNETES@ {
        match action {
            ServiceAction::Deploy => Some(
                seq![Playbook::InstallKubernetes, Playbook::SetupKubernetesCluster],
            ),
            ServiceAction::Delete => Some(seq![Playbook::UninstallKubernetes]),
        }
    } else if name == SERVICE_NAME_DOCKER@ {
        match action {
            ServiceAction::Deploy => Some(seq![Playbook::InstallDocker]),
            ServiceAction::Delete => Some(seq![Playbook::UninstallDocker]),
        }
    } else {
        None
    }
}

/// `r` is what dispatching a service subcommand returns: a run of its plan
/// that has just begun, or `UnknownService` with the name and action given.
pub open spec fn service_dispatched(
    r: Result<(Execution, Action), ClusterError>,
    action: ServiceAction,
    name: Seq<char>,
) -> bool {
    match spec_service_plan(action, name) {
        Some(entries) => r matches Ok((e, a)) && e.started_with(entries, a),
        None => r matches Err(ClusterError::UnknownService { name: n, action: act }) && n@ == name
            && act == action,
    }
}

/// `r` is what dispatching `cmd` returns: a run of its plan that has just
/// begun, or `UnknownService` for a service outside the known ones.
pub open spec fn dispatched(cmd: SubCommand, r: Result<(Execution, Action), ClusterError>) -> bool {
    match cmd {
        SubCommand::Reboot => r matches Ok((e, a)) && e.started_with(seq![Playbook::Reboot], a),
        SubCommand::Update => r matches Ok((e, a)) && e.started_with(seq![Playbook::Update], a),
        SubCommand::Service { action, service_name } => service_dispatched(r, action, service_name@),
    }
}

/// Dispatch refuses a subcommand only when it names a service outside the
/// known ones; every other subcommand yields a plan of at least one playbook.
pub proof fn lemma_dispatch_plan_nonempty(cmd: SubCommand, r: Result<(Execution, Action), ClusterError>)
    requires
        dispatched(cmd, r),
    ensures
        r is Err <==> (cmd matches SubCommand::Service { service_name, .. } && service_name@
            != SERVICE_NAME_KUBERNETES@ && service_name@ != SERVICE_NAME_DOCKER@),
        r matches Ok((e, a)) ==> e.entries().len() > 0 && a is Launch,
{
}

/// The line logged before a service subcommand runs.
pub open spec fn spec_intent_message(action: ServiceAction, name: Seq<char>) -> Seq<char> {
    match action {
        ServiceAction::Deploy => "Deploying service '"@ + name + "' to cluster"@,
        ServiceAction::Delete => "Deleting service '"@ + name + "' from cluster"@,
    }
}

/// The informational line stating what a subcommand is about to do, where it
/// has one: service subcommands do, reboot and update do not.
pub fn intent_message(cmd: &SubCommand) -> (r: Option<String>)
    ensures
        match *cmd {
            SubCommand::Service { action, service_name } => r matches Some(m) && m@
                == spec_intent_message(action, service_name@),
            _ => r is None,
        },
{
    match cmd {
        SubCommand::Service { action, service_name } => {
            let mut m = match action {
                ServiceAction::Deploy => String::from_str("Deploying service '"),
                ServiceAction::Delete => String::from_str("Deleting service '"),
            };
            m.append(service_name.as_str());
            match action {
                ServiceAction::Deploy => m.append("' to cluster"),
                ServiceAction::Delete => m.append("' from cluster"),
            }
            Some(m)
        },
        _ => None,
    }
}

/// Begins a reboot of every host.
pub fn run_reboot() -> (r: (Execution, Action))
    ensures
        r.0.started_with(seq![Playbook::Reboot], r.1),
{
    AnsiblePlaybook::load(Playbook::Reboot).run()
}

/// Begins an update of every host.
pub fn run_update() -> (r: (Execution, Action))
    ensures
        r.0.started_with(seq![Playbook::Update], r.1),
{
    AnsiblePlaybook::load(Playbook::Update).run()
}

fn unknown_service(service: &String, action: ServiceAction) -> (r: Result<(Execution, Action), ClusterError>)
    ensures
        r matches Err(ClusterError::UnknownService { name: n, action: act }) && n@ == service@
            && act == action,
{
    Err(ClusterError::UnknownService { name: service.clone(), action })
}

/// Begins deploying `service` to the cluster.
pub fn run_deploy_service(service: &String) -> (r: Result<(Execution, Action), ClusterError>)
    ensures
        service_dispatched(r, ServiceAction::Deploy, service@),
{
    let mut playbook = AnsibleAggregatePlaybook::new();
    if *service == String::from_str(SERVICE_NAME_KUBERNETES) {
        playbook.add_playbook(AnsiblePlaybook::load(Playbook::InstallKubernetes));
        playbook.add_playbook(AnsiblePlaybook::load(Playbook::SetupKubernetesCluster));
        assert(playbook.entries() =~= seq![
            Playbook::InstallKubernetes,
            Playbook::SetupKubernetesCluster,
        ]);
    } else if *service == String::from_str(SERVICE_NAME_DOCKER) {
        playbook.add_playbook(AnsiblePlaybook::load(Playbook::InstallDocker));
    } else {
        return unknown_service(service, ServiceAction::Deploy);
    }
    Ok(playbook.run())
}

/// Begins deleting `service` from the cluster.
pub fn run_delete_service(service: &String) -> (r: Result<(Execution, Action), ClusterError>)
    ensures
        service_dispatched(r, ServiceAction::Delete, service@),
{
    let mut playbook = AnsibleAggregatePlaybook::new();
    if *service == String::from_str(SERVICE_NAME_KUBERNETES) {
        playbook.add_playbook(AnsiblePlaybook::load(Playbook::UninstallKubernetes));
    } else if *service == String::from_str(SERVICE_NAME_DOCKER) {
        playbook.add_playbook(AnsiblePlaybook::load(Playbook::UninstallDocker));
    } else {
        return unknown_service(service, ServiceAction::Delete);
    }
    Ok(playbook.run())
}

/// Begins the service subcommand `action` on `service`.
pub fn run_service(action: ServiceAction, service: &String) -> (r: Result<(Execution, Action), ClusterError>)
    ensures
        service_dispatched(r, action, service@),
{
    match action {
        ServiceAction::Deploy => run_deploy_service(service),
        ServiceAction::Delete => run_delete_service(service),
    }
}

/// Something that, run, yields the plan it stands for, already begun.
pub trait CommandRunner {
    /// What `run` may return.
    spec fn runs_as(&self, r: Result<(Execution, Action), ClusterError>) -> bool;

    fn run(&self) -> (r: Result<(Execution, Action), ClusterError>)
        ensures
            self.runs_as(r),
    ;
}

impl CommandRunner for ClusterSettings {
    open spec fn runs_as(&self, r: Result<(Execution, Action), ClusterError>) -> bool {
        dispatched(self.subcommand, r)
    }

    /// Dispatches the subcommand of these settings.
    fn run(&self) -> (r: Result<(Execution, Action), ClusterError>) {
        match &self.subcommand {
            SubCommand::Reboot => Ok(run_reboot()),
            SubCommand::Update => Ok(run_update()),
            SubCommand::Service { action, service_name } => run_service(*action, service_name),
        }
    }
}

} // verus!
