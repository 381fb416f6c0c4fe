use vstd::prelude::*;

use crate::error::ProjectNotFound;

verus! {

/// A project as the server reports it. Projects form a tree through
/// `parent_id`; at most one project per account is the inbox.
#[derive(Debug, Clone, PartialEq)]
pub struct Project {
    pub id: String,
    pub name: String,
    pub comment_count: i64,
    pub order: i64,
    pub color: String,
    pub is_shared: bool,
    pub is_favorite: bool,
    pub parent_id: Option<String>,
    pub is_inbox_project: bool,
    pub is_team_inbox: bool,
    pub view_style: String,
    pub url: String,
}

/// Whether position `i` holds the first project whose `name` field equals
/// `name` exactly.
pub open spec fn is_first_match(projects: Seq<Project>, name: Seq<char>, i: int) -> bool {
    &&& 0 <= i < projects.len()
    &&& projects[i].name@ == name
    &&& forall|j: int| 0 <= j < i ==> projects[j].name@ != name
}

/// The first project in listing order whose `name` equals `name` exactly
/// (case-sensitive, with no fuzzy fallback); `ProjectNotFound` when no
/// project matches. Duplicate names resolve to the first occurrence.
pub fn find_project_by_name(projects: Vec<Project>, name: &String) -> (r: Result<
    Project,
    ProjectNotFound,
>)
    ensures
        match r {
            Ok(p) => exists|i: int| is_first_match(projects@, name@, i) && p == projects@[i],
            Err(_) => forall|i: int|
                0 <= i < projects@.len() ==> projects@[i].name@ != name@,
        },
{
    let mut rest = projects;
    let n = rest.len();
    let mut i: usize = 0;
    while i < n
        invariant
            0 <= i <= n,
            n == rest@.len(),
            rest@ == projects@,
            forall|j: int| 0 <= j < i ==> projects@[j].name@ != name@,
        decreases n - i,
    {
        if rest[i].name == *name {
            let p = rest.remove(i);
            proof {
                assert(is_first_match(projects@, name@, i as int) && p == projects@[i as int]);
            }
            return Ok(p);
        }
        i = i + 1;
    }
    Err(ProjectNotFound::new())
}

/// The display names of the projects, in listing order, as they are
/// presented for a single-choice selection.
pub fn project_names(projects: &Vec<Project>) -> (r: Vec<String>)
    ensures
        r@.len() == projects@.len(),
        forall|i: int| 0 <= i < projects@.len() ==> r@[i] == projects@[i].name,
{
    let mut names: Vec<String> = Vec::new();
    let mut i: usize = 0;
    while i < projects.len()
        invariant
            0 <= i <= projects@.len(),
            names@.len() == i,
            forall|j: int| 0 <= j < i ==> names@[j] == projects@[j].name,
        decreases projects@.len() - i,
    {
        names.push(projects[i].name.clone());
        i = i + 1;
    }
    names
}

} // verus!
