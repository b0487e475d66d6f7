use vstd::prelude::*;

verus! {

/// A discovered version-controlled project: its display name (the directory's
/// base name) and the directory's location as a path string.
#[derive(Debug)]
pub struct Project {
    pub name: String,
    pub path: String,
}

impl Project {
    /// Builds a project record from its name and path.
    pub fn new(name: String, path: String) -> (p: Project)
        ensures
            p.name == name,
            p.path == path,
    {
        Project { name, path }
    }
}

impl Clone for Project {
    /// Cloning preserves the record's value.
    fn clone(&self) -> (p: Self)
        ensures
            p == *self,
    {
        Project { name: self.name.clone(), path: self.path.clone() }
    }
}

} // verus!
