//! The entry point of the cluster test harness: which commands it drives the
//! cluster with, and the managers of what a test brings up.

use vstd::prelude::*;
use crate::namespace;
use crate::namespace::{argv_view, namespace_command};
use crate::test_pod;
use crate::test_pod::pod_command;

verus! {

/// The commands that the harness drives the cluster with.
#[derive(Debug, Clone)]
pub struct Interface {
    pub deploy_vector_command: String,
    pub deploy_test_pod_command: String,
    pub collect_test_logs_command: String,
    pub kubectl_command: String,
}

/// The test harness.
#[derive(Debug, Clone)]
pub struct Framework {
    interface: Interface,
}

impl Framework {
    /// The commands of the harness.
    pub closed spec fn commands(&self) -> Interface {
        self.interface
    }

    /// A harness that drives the cluster with the commands of `interface`.
    pub fn new(interface: Interface) -> (r: Self)
        ensures
            r.commands() == interface,
    {
        Framework { interface }
    }

    /// A manager of a test namespace, with the command line that creates it.
    pub fn namespace(&self, namespace: &str) -> (r: (namespace::Manager, Vec<String>))
        ensures
            r.0.kubectl() == self.commands().kubectl_command@,
            r.0.name() == namespace@,
            argv_view(r.1@) == namespace_command(self.commands().kubectl_command@, "create"@, namespace@),
    {
        let manager = namespace::Manager::new(self.interface.kubectl_command.as_str(), namespace);
        let up = manager.up();
        (manager, up)
    }

    /// A manager of a test pod, with the command line that creates it.
    pub fn test_pod(&self, config: test_pod::Config) -> (r: (test_pod::Manager, Vec<String>))
        ensures
            r.0.kubectl() == self.commands().kubectl_command@,
            r.0.namespace() is None,
            r.0.resource_path() == config.resource_path(),
            argv_view(r.1@) == pod_command(self.commands().kubectl_command@, "create"@, None, config.resource_path()),
    {
        let manager = test_pod::Manager::new(self.interface.kubectl_command.as_str(), config, None);
        let up = manager.up();
        (manager, up)
    }
}

} // verus!
