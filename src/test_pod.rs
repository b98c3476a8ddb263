//! Test pods of a cluster driven through the `kubectl` command: the command
//! lines that create and delete one from its resource file.

use vstd::prelude::*;
use crate::custom_resource_file::CustomResourceFile;
use crate::namespace::argv_view;
use crate::resource_version::opt_string_view;

verus! {

/// The description of a test pod.
#[derive(Debug, Clone)]
pub struct Config {
    custom_resource_file: CustomResourceFile,
}

impl Config {
    /// Where the pod's resource description lies.
    pub closed spec fn resource_path(&self) -> Seq<char> {
        self.custom_resource_file.location()
    }

    /// The pod described by the resource file.
    pub fn from_resource_file(custom_resource_file: CustomResourceFile) -> (r: Self)
        ensures
            r.resource_path() == custom_resource_file.location(),
    {
        Config { custom_resource_file }
    }
}

/// A test pod that a test creates and deletes.
#[derive(Debug, Clone)]
pub struct Manager {
    kubectl_command: String,
    config: Config,
    namespace: Option<String>,
}

/// The command line that runs a subcommand on the resource file, in a
/// namespace where one is given.
pub open spec fn pod_command(
    kubectl: Seq<char>,
    subcommand: Seq<char>,
    namespace: Option<Seq<char>>,
    path: Seq<char>,
) -> Seq<Seq<char>> {
    match namespace {
        Some(ns) => seq![kubectl, subcommand, "-n"@, ns, "-f"@, path],
        None => seq![kubectl, subcommand, "-f"@, path],
    }
}

impl Manager {
    /// The command that runs `kubectl`.
    pub closed spec fn kubectl(&self) -> Seq<char> {
        self.kubectl_command@
    }

    /// The namespace of the pod, if one is given.
    pub closed spec fn namespace(&self) -> Option<Seq<char>> {
        opt_string_view(self.namespace)
    }

    /// Where the pod's resource description lies.
    pub closed spec fn resource_path(&self) -> Seq<char> {
        self.config.resource_path()
    }

    /// A manager of the pod of `config`, driven through `kubectl_command`.
    pub fn new(kubectl_command: &str, config: Config, namespace: Option<String>) -> (r: Self)
        ensures
            r.kubectl() == kubectl_command@,
            r.namespace() == opt_string_view(namespace),
            r.resource_path() == config.resource_path(),
    {
        Manager { kubectl_command: kubectl_command.to_owned(), config, namespace }
    }

    /// The command line that creates the pod.
    pub fn up(&self) -> (r: Vec<String>)
        ensures
            argv_view(r@) == pod_command(self.kubectl(), "create"@, self.namespace(), self.resource_path()),
    {
        self.command("create")
    }

    /// The command line that deletes the pod.
    pub fn down(self) -> (r: Vec<String>)
        ensures
            argv_view(r@) == pod_command(self.kubectl(), "delete"@, self.namespace(), self.resource_path()),
    {
        self.command("delete")
    }

    fn command(&self, subcommand: &str) -> (r: Vec<String>)
        ensures
            argv_view(r@) == pod_command(self.kubectl(), subcommand@, self.namespace(), self.resource_path()),
    {
        let mut r: Vec<String> = vec![self.kubectl_command.clone(), subcommand.to_owned()];
        match &self.namespace {
            Some(ns) => {
                r.push("-n".to_owned());
                r.push(ns.clone());
            },
            None => {},
        }
        r.push("-f".to_owned());
        r.push(self.config.custom_resource_file.path().to_owned());
        assert(argv_view(r@) =~= pod_command(self.kubectl(), subcommand@, self.namespace(), self.resource_path()));
        r
    }
}

} // verus!
