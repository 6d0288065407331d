use vstd::prelude::*;

verus! {

/// The closed set of playbooks embedded in the tool.
#[derive(Clone, Copy, Debug, PartialEq, Eq, Structural)]
pub enum Playbook {
    Reboot,
    Update,
    InstallKubernetes,
    UninstallKubernetes,
    SetupKubernetesCluster,
    InstallDocker,
    UninstallDocker,
}

impl Playbook {
    /// The logical name of a playbook, which is also its file stem.
    pub open spec fn spec_name(self) -> Seq<char> {
        match self {
            Playbook::Reboot => "reboot"@,
            Playbook::Update => "update"@,
            Playbook::InstallKubernetes => "install-kubernetes"@,
            Playbook::UninstallKubernetes => "uninstall-kubernetes"@,
            Playbook::SetupKubernetesCluster => "setup-kubernetes-cluster"@,
            Playbook::InstallDocker => "install-docker"@,
            Playbook::UninstallDocker => "uninstall-docker"@,
        }
    }

    pub fn name(&self) -> (r: &'static str)
        ensures
            r@ == self.spec_name(),
    {
        match self {
            Playbook::Reboot => "reboot",
            Playbook::Update => "update",
            Playbook::InstallKubernetes => "install-kubernetes",
            Playbook::UninstallKubernetes => "uninstall-kubernetes",
            Playbook::SetupKubernetesCluster => "setup-kubernetes-cluster",
            Playbook::InstallDocker => "install-docker",
            Playbook::UninstallDocker => "uninstall-docker",
        }
    }
}

} // verus!
