use picluster::{
    Action, AnsibleAggregatePlaybook, AnsiblePlaybook, ClusterError, ClusterSettings,
    DISPATCH_FAILURE_CODE, EngineOutcome, Execution, Playbook, ServiceAction, SubCommand,
    engine_args, exit_code, intent_message, launch_message, run_reboot, run_service, run_update,
    status_of, verbosity_switch,
};

fn settings() -> ClusterSettings {
    ClusterSettings {
        inventory: "/etc/hosts.ini".to_string(),
        user: None,
        verbosity: 0,
        dry_run: false,
        subcommand: SubCommand::Reboot,
    }
}

#[test]
fn playbook_names_are_their_file_stems() {
    assert_eq!(Playbook::Reboot.name(), "reboot");
    assert_eq!(Playbook::Update.name(), "update");
    assert_eq!(Playbook::InstallKubernetes.name(), "install-kubernetes");
    assert_eq!(Playbook::UninstallKubernetes.name(), "uninstall-kubernetes");
    assert_eq!(Playbook::SetupKubernetesCluster.name(), "setup-kubernetes-cluster");
    assert_eq!(Playbook::InstallDocker.name(), "install-docker");
    assert_eq!(Playbook::UninstallDocker.name(), "uninstall-docker");
}

#[test]
fn outcomes_map_to_statuses() {
    assert_eq!(status_of(EngineOutcome::Exited(0)), Ok(()));
    assert_eq!(status_of(EngineOutcome::Exited(1)), Err(ClusterError::EngineFailure { code: 1 }));
    assert_eq!(status_of(EngineOutcome::Signaled), Err(ClusterError::EngineAborted));
    assert_eq!(status_of(EngineOutcome::EngineMissing), Err(ClusterError::EngineMissing));
    assert_eq!(status_of(EngineOutcome::IoFailure), Err(ClusterError::IoFailure));
}

#[test]
fn exit_codes() {
    assert_eq!(exit_code(&Ok(())), 0);
    assert_eq!(exit_code(&Err(ClusterError::EngineFailure { code: 4 })), 4);
    assert_eq!(exit_code(&Err(ClusterError::EngineFailure { code: 130 })), 130);
    assert_eq!(exit_code(&Err(ClusterError::EngineMissing)), DISPATCH_FAILURE_CODE);
    assert_eq!(exit_code(&Err(ClusterError::IoFailure)), DISPATCH_FAILURE_CODE);
    assert_eq!(exit_code(&Err(ClusterError::EngineAborted)), DISPATCH_FAILURE_CODE);
    let unknown = ClusterError::UnknownService { name: "x".to_string(), action: ServiceAction::Deploy };
    assert_eq!(exit_code(&Err(unknown)), 2);
}

#[test]
fn error_messages_start_with_their_kind() {
    let unknown = ClusterError::UnknownService { name: "redis".to_string(), action: ServiceAction::Deploy };
    assert_eq!(unknown.message(), "Unknown service 'redis', can't deploy");
    assert!(ClusterError::EngineMissing.message().starts_with("Engine missing"));
    assert!(ClusterError::IoFailure.message().starts_with("I/O failure"));
    assert!(ClusterError::EngineFailure { code: 1 }.message().starts_with("Engine failure"));
    assert!(ClusterError::EngineAborted.message().starts_with("Engine aborted"));
}

#[test]
fn verbosity_switch_repeats_v() {
    assert_eq!(verbosity_switch(1), "-v");
    assert_eq!(verbosity_switch(3), "-vvv");
}

#[test]
fn engine_args_minimal() {
    assert_eq!(engine_args(&settings(), "/tmp/a.yaml"), vec!["--inventory", "/etc/hosts.ini", "/tmp/a.yaml"]);
}

#[test]
fn engine_args_verbosity_without_user() {
    let mut s = settings();
    s.verbosity = 1;
    assert_eq!(engine_args(&s, "p.yaml"), vec!["--inventory", "/etc/hosts.ini", "-v", "p.yaml"]);
}

#[test]
fn engine_args_check_mode_only() {
    let mut s = settings();
    s.dry_run = true;
    assert_eq!(engine_args(&s, "p.yaml"), vec!["--inventory", "/etc/hosts.ini", "--check", "p.yaml"]);
}

#[test]
fn engine_args_depend_on_path_only_at_the_end() {
    let mut s = settings();
    s.user = Some("admin".to_string());
    s.verbosity = 4;
    let a = engine_args(&s, "/tmp/one.yaml");
    let b = engine_args(&s, "/tmp/two.yaml");
    assert_eq!(a, engine_args(&s, "/tmp/one.yaml"));
    assert_eq!(a[..a.len() - 1], b[..b.len() - 1]);
    assert_eq!(a.last().unwrap(), "/tmp/one.yaml");
    assert_eq!(b.last().unwrap(), "/tmp/two.yaml");
}

#[test]
fn launch_message_names_the_playbook() {
    assert_eq!(launch_message(Playbook::SetupKubernetesCluster), "Running playbook 'setup-kubernetes-cluster'");
}

#[test]
fn intent_only_for_services() {
    assert_eq!(intent_message(&SubCommand::Reboot), None);
    assert_eq!(intent_message(&SubCommand::Update), None);
    let cmd = SubCommand::Service { action: ServiceAction::Delete, service_name: "kubernetes".to_string() };
    assert_eq!(intent_message(&cmd), Some("Deleting service 'kubernetes' from cluster".to_string()));
}

#[test]
fn reboot_and_update_start_their_playbook() {
    let (_, a) = run_reboot();
    assert_eq!(a, Action::Launch(Playbook::Reboot));
    let (mut e, a) = run_update();
    assert_eq!(a, Action::Launch(Playbook::Update));
    assert_eq!(e.on_outcome(EngineOutcome::Exited(0)), Action::Finish(Ok(())));
}

#[test]
fn service_plans() {
    let first = |action, name: &str| match run_service(action, &name.to_string()) {
        Ok((_, a)) => a,
        Err(_) => panic!("known service refused"),
    };
    assert_eq!(first(ServiceAction::Deploy, "docker"), Action::Launch(Playbook::InstallDocker));
    assert_eq!(first(ServiceAction::Delete, "kubernetes"), Action::Launch(Playbook::UninstallKubernetes));
    assert!(run_service(ServiceAction::Deploy, &"Docker".to_string()).is_err());
    assert!(run_service(ServiceAction::Delete, &"".to_string()).is_err());
}

#[test]
fn empty_aggregate_succeeds_at_once() {
    let mut agg = AnsibleAggregatePlaybook::new();
    let (_, a) = agg.run();
    assert_eq!(a, Action::Finish(Ok(())));
}

#[test]
fn aggregate_refuses_additions_after_run() {
    let mut agg = AnsibleAggregatePlaybook::new();
    assert!(agg.add_playbook(AnsiblePlaybook::load(Playbook::InstallDocker)));
    assert_eq!(agg.len(), 1);
    let _ = agg.run();
    assert!(!agg.add_playbook(AnsiblePlaybook::load(Playbook::Reboot)));
    assert_eq!(agg.len(), 1);
}

#[test]
fn aggregate_runs_in_insertion_order() {
    let mut agg = AnsibleAggregatePlaybook::new();
    agg.add_playbook(AnsiblePlaybook::load(Playbook::Update));
    agg.add_playbook(AnsiblePlaybook::load(Playbook::InstallDocker));
    agg.add_playbook(AnsiblePlaybook::load(Playbook::Reboot));
    let (mut e, a) = agg.run();
    assert_eq!(a, Action::Launch(Playbook::Update));
    assert_eq!(e.on_outcome(EngineOutcome::Exited(0)), Action::Launch(Playbook::InstallDocker));
    assert_eq!(e.on_outcome(EngineOutcome::Exited(0)), Action::Launch(Playbook::Reboot));
    assert_eq!(e.on_outcome(EngineOutcome::Exited(0)), Action::Finish(Ok(())));
}

#[test]
fn execution_stops_on_signal_and_missing_engine() {
    let (mut e, _) = Execution::start(vec![Playbook::Update, Playbook::Reboot]);
    assert_eq!(e.on_outcome(EngineOutcome::Signaled), Action::Finish(Err(ClusterError::EngineAborted)));
    let (mut e, _) = Execution::start(vec![Playbook::Update, Playbook::Reboot]);
    assert_eq!(e.on_outcome(EngineOutcome::Exited(0)), Action::Launch(Playbook::Reboot));
    assert_eq!(e.on_outcome(EngineOutcome::EngineMissing), Action::Finish(Err(ClusterError::EngineMissing)));
    let (mut e, _) = AnsiblePlaybook::load(Playbook::Reboot).run();
    assert_eq!(e.on_outcome(EngineOutcome::IoFailure), Action::Finish(Err(ClusterError::IoFailure)));
}
