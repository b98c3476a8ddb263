//! A resource description written to a file for `kubectl -f`.

use vstd::prelude::*;

verus! {

/// A file that holds a resource description; whoever writes it removes it.
#[derive(Debug, Clone)]
pub struct CustomResourceFile {
    path: String,
}

impl CustomResourceFile {
    /// Where the file lies.
    pub closed spec fn location(&self) -> Seq<char> {
        self.path@
    }

    /// The file written at `path`.
    pub fn from_path(path: String) -> (r: Self)
        ensures
            r.location() == path@,
    {
        CustomResourceFile { path }
    }

    /// Where the file lies.
    pub fn path(&self) -> (r: &str)
        ensures
            r@ == self.location(),
    {
        self.path.as_str()
    }
}

} // verus!
