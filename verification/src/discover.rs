use vstd::prelude::*;
use crate::project::Project;

verus! {

/// One directory entry found under a configured root, reduced to what
/// discovery decides on: its base name, its full path, and whether a `.git`
/// entry exists directly inside it.
pub struct EntryInfo {
    pub name: String,
    pub path: String,
    pub has_git: bool,
}

/// The project record that a qualifying entry turns into.
pub open spec fn project_of(e: EntryInfo) -> Project {
    Project { name: e.name, path: e.path }
}

/// The projects among `entries`: exactly the entries with a `.git` child,
/// in their original order, each turned into a project record.
pub open spec fn projects_spec(entries: Seq<EntryInfo>) -> Seq<Project>
    decreases entries.len(),
{
    if entries.len() == 0 {
        Seq::empty()
    } else {
        let rest = projects_spec(entries.drop_last());
        if entries.last().has_git {
            rest.push(project_of(entries.last()))
        } else {
            rest
        }
    }
}

/// Discovery decision: keeps exactly the entries that contain a `.git` child
/// and turns each into a project named after its directory.
pub fn collect_projects(entries: &Vec<EntryInfo>) -> (r: Vec<Project>)
    ensures
        r@ == projects_spec(entries@),
{
    let mut r: Vec<Project> = Vec::new();
    let mut i: usize = 0;
    while i < entries.len()
        invariant
            i <= entries@.len(),
            r@ == projects_spec(entries@.take(i as int)),
        decreases entries@.len() - i,
    {
        if entries[i].has_git {
            r.push(Project::new(entries[i].name.clone(), entries[i].path.clone()));
        }
        proof {
            assert(entries@.take(i + 1).drop_last() =~= entries@.take(i as int));
            assert(entries@.take(i + 1).last() == entries@[i as int]);
        }
        i += 1;
    }
    proof {
        assert(entries@.take(entries@.len() as int) =~= entries@);
    }
    r
}

/// The projects found under a sequence of roots, given each root's entries:
/// the concatenation, in configured root order, of each root's projects.
/// Within a root the entry order is whatever the directory enumeration gave.
pub open spec fn projects_of_roots(roots: Seq<Vec<EntryInfo>>) -> Seq<Project>
    decreases roots.len(),
{
    if roots.len() == 0 {
        Seq::empty()
    } else {
        projects_of_roots(roots.drop_last()) + projects_spec(roots.last()@)
    }
}

/// Discovery over all configured roots: concatenates each root's projects in
/// configured order. A root that could not be read contributes an empty entry
/// list and therefore no projects.
pub fn discover(roots: &Vec<Vec<EntryInfo>>) -> (r: Vec<Project>)
    ensures
        r@ == projects_of_roots(roots@),
{
    let mut r: Vec<Project> = Vec::new();
    let mut i: usize = 0;
    while i < roots.len()
        invariant
            i <= roots@.len(),
            r@ == projects_of_roots(roots@.take(i as int)),
        decreases roots@.len() - i,
    {
        let mut part = collect_projects(&roots[i]);
        r.append(&mut part);
        proof {
            assert(roots@.take(i + 1).drop_last() =~= roots@.take(i as int));
            assert(roots@.take(i + 1).last() == roots@[i as int]);
        }
        i += 1;
    }
    proof {
        assert(roots@.take(roots@.len() as int) =~= roots@);
    }
    r
}

} // verus!
