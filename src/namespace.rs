//! Test namespaces of a cluster driven through the `kubectl` command: the
//! command lines that create and delete one.

use vstd::prelude::*;

verus! {

/// The views of the words of a command line.
pub open spec fn argv_view(argv: Seq<String>) -> Seq<Seq<char>> {
    argv.map_values(|a: String| a@)
}

/// A namespace that a test creates and deletes.
#[derive(Debug, Clone)]
pub struct Manager {
    kubectl_command: String,
    namespace: String,
}

/// The command line that runs a subcommand on a namespace.
pub open spec fn namespace_command(kubectl: Seq<char>, subcommand: Seq<char>, namespace: Seq<char>) -> Seq<Seq<char>> {
    seq![kubectl, subcommand, "namespace"@, namespace]
}

impl Manager {
    /// The command that runs `kubectl`.
    pub closed spec fn kubectl(&self) -> Seq<char> {
        self.kubectl_command@
    }

    /// The namespace managed.
    pub closed spec fn name(&self) -> Seq<char> {
        self.namespace@
    }

    /// A manager of `namespace`, driven through `kubectl_command`.
    pub fn new(kubectl_command: &str, namespace: &str) -> (r: Self)
        ensures
            r.kubectl() == kubectl_command@,
            r.name() == namespace@,
    {
        Manager { kubectl_command: kubectl_command.to_owned(), namespace: namespace.to_owned() }
    }

    /// The command line that creates the namespace.
    pub fn up(&self) -> (r: Vec<String>)
        ensures
            argv_view(r@) == namespace_command(self.kubectl(), "create"@, self.name()),
    {
        self.exec("create")
    }

    /// The command line that deletes the namespace.
    pub fn down(self) -> (r: Vec<String>)
        ensures
            argv_view(r@) == namespace_command(self.kubectl(), "delete"@, self.name()),
    {
        self.exec("delete")
    }

    fn exec(&self, subcommand: &str) -> (r: Vec<String>)
        ensures
            argv_view(r@) == namespace_command(self.kubectl(), subcommand@, self.name()),
    {
        let r = vec![
            self.kubectl_command.clone(),
            subcommand.to_owned(),
            "namespace".to_owned(),
            self.namespace.clone(),
        ];
        assert(argv_view(r@) =~= namespace_command(self.kubectl(), subcommand@, self.name()));
        r
    }
}

} // verus!
