//! Resolving a project name against a configuration.
//!
//! A name is compared with each project's name exactly: case matters and
//! nothing is trimmed or normalised. Every project is examined, so that a name
//! that occurs more than once is always noticed.

use vstd::prelude::*;
use crate::config::{views, Config, Project, ProjectView};

verus! {

/// The predicate "this project is called `target`".
pub open spec fn named(target: Seq<char>) -> spec_fn(ProjectView) -> bool {
    |p: ProjectView| p.name == target
}

/// The projects called `target`, in the order of the configuration.
pub open spec fn matching(projects: Seq<ProjectView>, target: Seq<char>) -> Seq<ProjectView> {
    projects.filter(named(target))
}

/// The outcome of a lookup.
#[derive(Debug, PartialEq, Eq)]
pub enum Resolution {
    /// No project has the name.
    NoMatch,
    /// Exactly one project has the name.
    Unique(Project),
    /// Two or more projects share the name: the configuration is defective.
    Duplicate,
}

/// What a [`Resolution`] is, mathematically.
pub ghost enum ResolutionView {
    NoMatch,
    Unique(ProjectView),
    Duplicate,
}

impl View for Resolution {
    type V = ResolutionView;

    open spec fn view(&self) -> ResolutionView {
        match self {
            Resolution::NoMatch => ResolutionView::NoMatch,
            Resolution::Unique(project) => ResolutionView::Unique(project@),
            Resolution::Duplicate => ResolutionView::Duplicate,
        }
    }
}

/// How a lookup of `target` in `projects` ends: by the number of matches.
pub open spec fn resolution_of(projects: Seq<ProjectView>, target: Seq<char>) -> ResolutionView {
    let found = matching(projects, target);
    if found.len() == 0 {
        ResolutionView::NoMatch
    } else if found.len() == 1 {
        ResolutionView::Unique(found[0])
    } else {
        ResolutionView::Duplicate
    }
}

/// Filtering one element more: the element joins the matches iff it has the name.
proof fn matching_push(projects: Seq<ProjectView>, target: Seq<char>, next: ProjectView)
    ensures
        matching(projects.push(next), target) == if next.name == target {
            matching(projects, target).push(next)
        } else {
            matching(projects, target)
        },
{
    reveal(Seq::filter);
    assert(projects.push(next).drop_last() =~= projects);
}

/// Copies out the projects called `target`, in configuration order.
pub fn find_matches(config: &Config, target: &String) -> (found: Vec<Project>)
    ensures
        views(found@) == matching(config@, target@),
{
    let mut found: Vec<Project> = Vec::new();
    let mut i: usize = 0;
    proof {
        reveal(Seq::filter);
        assert(config@.take(0) =~= Seq::<ProjectView>::empty());
        assert(views(found@) =~= matching(config@.take(0), target@));
    }
    while i < config.projects.len()
        invariant
            i <= config.projects.len(),
            config@.len() == config.projects.len(),
            views(found@) == matching(config@.take(i as int), target@),
        decreases config.projects.len() - i,
    {
        let project = &config.projects[i];
        let ghost before = found@;
        proof {
            matching_push(config@.take(i as int), target@, project@);
            assert(config@.take(i as int).push(project@) =~= config@.take(i + 1));
        }
        if project.name == *target {
            found.push(project.clone());
            assert(views(found@) =~= views(before).push(project@));
        }
        i += 1;
    }
    assert(config@.take(i as int) =~= config@);
    found
}

/// Looks `target` up in `config` and classifies the result.
pub fn resolve(config: &Config, target: &String) -> (resolution: Resolution)
    ensures
        resolution@ == resolution_of(config@, target@),
{
    let mut found = find_matches(config, target);
    let ghost all = found@;
    if found.len() == 0 {
        Resolution::NoMatch
    } else if found.len() == 1 {
        let project = found.pop().unwrap();
        assert(project@ == views(all)[0]);
        Resolution::Unique(project)
    } else {
        Resolution::Duplicate
    }
}

/// A name that no project has is not found: the lookup ends in `NoMatch`.
pub proof fn absent_name_is_not_found(projects: Seq<ProjectView>, target: Seq<char>)
    requires
        forall|k: int| 0 <= k < projects.len() ==> projects[k].name != target,
    ensures
        matching(projects, target) == Seq::<ProjectView>::empty(),
        resolution_of(projects, target) == ResolutionView::NoMatch,
{
    projects.lemma_all_neg_filter_empty(named(target));
    assert(matching(projects, target) =~= Seq::<ProjectView>::empty());
}

/// A name that exactly one project has, whatever else the configuration
/// holds, resolves to that project and to no other.
pub proof fn unique_name_is_found(projects: Seq<ProjectView>, target: Seq<char>, at: int)
    requires
        0 <= at < projects.len(),
        projects[at].name == target,
        forall|k: int| 0 <= k < projects.len() && k != at ==> projects[k].name != target,
    ensures
        matching(projects, target) == seq![projects[at]],
        resolution_of(projects, target) == ResolutionView::Unique(projects[at]),
{
    let before = projects.take(at);
    let after = projects.skip(at + 1);
    absent_name_is_not_found(before, target);
    absent_name_is_not_found(after, target);
    matching_push(before, target, projects[at]);
    assert(projects =~= before.push(projects[at]) + after);
    Seq::filter_distributes_over_add(before.push(projects[at]), after, named(target));
    assert(matching(projects, target) =~= seq![projects[at]]);
}

/// A name that two different projects have resolves to `Duplicate`, wherever
/// the two stand and whatever their paths are.
pub proof fn repeated_name_is_duplicate(
    projects: Seq<ProjectView>,
    target: Seq<char>,
    first: int,
    second: int,
)
    requires
        0 <= first < projects.len(),
        0 <= second < projects.len(),
        first != second,
        projects[first].name == target,
        projects[second].name == target,
    ensures
        matching(projects, target).len() >= 2,
        resolution_of(projects, target) == ResolutionView::Duplicate,
{
    let (low, high) = if first < second { (first, second) } else { (second, first) };
    let head = projects.take(high);
    let tail = projects.skip(high + 1);
    assert(projects =~= head.push(projects[high]) + tail);
    Seq::filter_distributes_over_add(head.push(projects[high]), tail, named(target));
    matching_push(head, target, projects[high]);
    assert(head[low] == projects[low]);
    head.lemma_filter_contains(named(target), low);
    assert(matching(head, target).len() >= 1);
}

} // verus!
