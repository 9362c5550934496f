//! The configuration: an ordered list of named filesystem locations.

use vstd::prelude::*;

verus! {

/// A named filesystem location.
///
/// Neither field is validated: the name is a lookup key that is expected, but
/// not required, to be unique within a configuration, and the path is only
/// checked when the program tries to enter it.
#[derive(Debug, PartialEq, Eq)]
pub struct Project {
    pub name: String,
    pub path: String,
}

/// What a [`Project`] is, mathematically: two character sequences.
pub ghost struct ProjectView {
    pub name: Seq<char>,
    pub path: Seq<char>,
}

impl View for Project {
    type V = ProjectView;

    open spec fn view(&self) -> ProjectView {
        ProjectView { name: self.name@, path: self.path@ }
    }
}

/// The views of a run of projects, in order.
pub open spec fn views(projects: Seq<Project>) -> Seq<ProjectView> {
    projects.map_values(|p: Project| p@)
}

impl Project {
    /// A project called `name` that lives at `path`.
    pub fn new(name: String, path: String) -> (project: Project)
        ensures
            project.name == name,
            project.path == path,
    {
        Project { name, path }
    }
}

impl Clone for Project {
    /// A copy with the same name and path.
    fn clone(&self) -> (copy: Project)
        ensures
            copy == *self,
    {
        Project { name: self.name.clone(), path: self.path.clone() }
    }
}

/// The loaded configuration. The order of the projects is the order in which
/// the file lists them.
#[derive(Debug, PartialEq, Eq)]
pub struct Config {
    pub projects: Vec<Project>,
}

impl View for Config {
    type V = Seq<ProjectView>;

    open spec fn view(&self) -> Seq<ProjectView> {
        views(self.projects@)
    }
}

impl Config {
    /// A configuration that lists `projects` in this order.
    pub fn new(projects: Vec<Project>) -> (config: Config)
        ensures
            config.projects == projects,
    {
        Config { projects }
    }
}

impl Clone for Config {
    /// A copy that lists the same projects in the same order.
    fn clone(&self) -> (copy: Config)
        ensures
            copy@ == self@,
    {
        let mut projects: Vec<Project> = Vec::new();
        let mut i: usize = 0;
        while i < self.projects.len()
            invariant
                i <= self.projects.len(),
                projects@.len() == i,
                forall|k: int| 0 <= k < i ==> projects@[k] == self.projects@[k],
            decreases self.projects.len() - i,
        {
            projects.push(self.projects[i].clone());
            i += 1;
        }
        assert(projects@ =~= self.projects@);
        Config { projects }
    }
}

} // verus!
