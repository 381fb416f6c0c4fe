use vstd::prelude::*;

use crate::task::TaskCreate;

verus! {

/// The next thing the create flow must do: resolve one still-missing
/// field, in the fixed field order, or submit the completed request.
#[derive(Debug, PartialEq)]
pub enum Action {
    /// Ask the user for the task's content.
    PromptContent,
    /// Fetch the projects and let the user pick one by name.
    FetchProjects,
    /// Ask the user for the due string.
    PromptDue,
    /// Fetch the labels and let the user pick any number by name.
    FetchLabels,
    /// Ask the user for the priority.
    PromptPriority,
    /// Every field is resolved; hand the request to the create call.
    Submit,
}

/// One answer handed back to the resolver: the field it fills, with the
/// value the prompt or the lookup produced.
#[derive(Debug)]
pub enum Event {
    ContentEntered(String),
    ProjectChosen(String),
    DueEntered(String),
    LabelsChosen(Vec<String>),
    PriorityEntered(u8),
}

/// The create flow's state: each field either already supplied by the
/// caller or still to be resolved. Fields are resolved one at a time, in
/// the fixed order content, project, due, labels, priority; each
/// unresolved field issues exactly one prompt or one lookup, and there is
/// no cross-field backtracking.
#[derive(Debug)]
pub struct Resolver {
    pub content: Option<String>,
    pub project_id: Option<String>,
    pub due: Option<String>,
    pub labels: Option<Vec<String>>,
    pub priority: Option<u8>,
}

/// The action the resolver takes next: the first unresolved field in the
/// fixed order decides it; a fully resolved state submits.
pub open spec fn spec_next_action(r: Resolver) -> Action {
    if r.content is None {
        Action::PromptContent
    } else if r.project_id is None {
        Action::FetchProjects
    } else if r.due is None {
        Action::PromptDue
    } else if r.labels is None {
        Action::FetchLabels
    } else if r.priority is None {
        Action::PromptPriority
    } else {
        Action::Submit
    }
}

/// The state after one answer: the answered field is filled; no event
/// ever empties a field.
pub open spec fn spec_record(r: Resolver, e: Event) -> Resolver {
    match e {
        Event::ContentEntered(s) => Resolver { content: Some(s), ..r },
        Event::ProjectChosen(id) => Resolver { project_id: Some(id), ..r },
        Event::DueEntered(s) => Resolver { due: Some(s), ..r },
        Event::LabelsChosen(names) => Resolver { labels: Some(names), ..r },
        Event::PriorityEntered(p) => Resolver { priority: Some(p), ..r },
    }
}

/// Whether every field is resolved.
pub open spec fn spec_complete(r: Resolver) -> bool {
    &&& r.content is Some
    &&& r.project_id is Some
    &&& r.due is Some
    &&& r.labels is Some
    &&& r.priority is Some
}

/// The request a fully resolved state denotes.
pub open spec fn spec_request_of(r: Resolver) -> TaskCreate {
    TaskCreate {
        content: r.content.unwrap(),
        due_string: Some(r.due.unwrap()),
        priority: Some(r.priority.unwrap() as i32),
        project_id: Some(r.project_id.unwrap()),
        labels: Some(r.labels.unwrap()),
    }
}

impl Resolver {
    /// Start the create flow from what the caller supplied on the command
    /// line. A supplied field is taken as-is; an empty label list counts
    /// as not supplied.
    pub fn new(
        content: Option<String>,
        due: Option<String>,
        project: Option<String>,
        labels: Vec<String>,
        priority: Option<u8>,
    ) -> (r: Resolver)
        ensures
            r.content == content,
            r.due == due,
            r.project_id == project,
            labels@.len() > 0 ==> r.labels == Some(labels),
            labels@.len() == 0 ==> r.labels is None,
            r.priority == priority,
    {
        let labels_field: Option<Vec<String>> = if labels.len() > 0 {
            Some(labels)
        } else {
            None
        };
        Resolver { content, project_id: project, due, labels: labels_field, priority }
    }

    /// The next action, decided by the first unresolved field in the
    /// fixed order. A field the caller supplied is never the subject of
    /// an action.
    pub fn next_action(&self) -> (a: Action)
        ensures
            a == spec_next_action(*self),
    {
        if self.content.is_none() {
            Action::PromptContent
        } else if self.project_id.is_none() {
            Action::FetchProjects
        } else if self.due.is_none() {
            Action::PromptDue
        } else if self.labels.is_none() {
            Action::FetchLabels
        } else if self.priority.is_none() {
            Action::PromptPriority
        } else {
            Action::Submit
        }
    }

    /// Record one answer: the answered field is filled with the value
    /// produced; every other field is untouched.
    pub fn record(&mut self, e: Event)
        ensures
            *final(self) == spec_record(*old(self), e),
    {
        match e {
            Event::ContentEntered(s) => {
                self.content = Some(s);
            },
            Event::ProjectChosen(id) => {
                self.project_id = Some(id);
            },
            Event::DueEntered(s) => {
                self.due = Some(s);
            },
            Event::LabelsChosen(names) => {
                self.labels = Some(names);
            },
            Event::PriorityEntered(p) => {
                self.priority = Some(p);
            },
        }
    }

    /// The one-shot terminal step: a fully resolved state yields the
    /// request holding exactly the resolved values; an unresolved state
    /// yields nothing.
    pub fn to_request(self) -> (r: Option<TaskCreate>)
        ensures
            spec_complete(self) ==> r == Some(spec_request_of(self)),
            !spec_complete(self) ==> r is None,
    {
        match (self.content, self.project_id, self.due, self.labels, self.priority) {
            (Some(content), Some(project_id), Some(due), Some(labels), Some(priority)) => {
                let mut req = TaskCreate::new(content);
                req.project(project_id);
                req.due(due);
                req.labels(labels);
                req.priority(priority as i32);
                Some(req)
            },
            _ => None,
        }
    }
}

/// Law: the resolution order is fixed. A field's action is taken only
/// once every earlier field is resolved — in particular the project is
/// resolved before label choices are presented — and submission happens
/// only when every field is resolved.
pub proof fn lemma_resolution_order_is_fixed(r: Resolver)
    ensures
        spec_next_action(r) == Action::FetchProjects ==> r.content is Some,
        spec_next_action(r) == Action::PromptDue ==> r.content is Some && r.project_id is Some,
        spec_next_action(r) == Action::FetchLabels ==> r.content is Some && r.project_id is Some
            && r.due is Some,
        spec_next_action(r) == Action::PromptPriority ==> r.content is Some
            && r.project_id is Some && r.due is Some && r.labels is Some,
        spec_next_action(r) == Action::Submit ==> spec_complete(r),
{
}

/// Law: resolution of a field with a caller-supplied value never triggers
/// the prompt or the lookup for that field — the field is full from
/// construction on, no answer ever empties it, and a full field is never
/// the one the next action is about.
pub proof fn lemma_supplied_field_never_asked(r: Resolver, e: Event)
    ensures
        r.content is Some ==> spec_next_action(r) != Action::PromptContent && spec_record(
            r,
            e,
        ).content is Some,
        r.project_id is Some ==> spec_next_action(r) != Action::FetchProjects && spec_record(
            r,
            e,
        ).project_id is Some,
        r.due is Some ==> spec_next_action(r) != Action::PromptDue && spec_record(
            r,
            e,
        ).due is Some,
        r.labels is Some ==> spec_next_action(r) != Action::FetchLabels && spec_record(
            r,
            e,
        ).labels is Some,
        r.priority is Some ==> spec_next_action(r) != Action::PromptPriority && spec_record(
            r,
            e,
        ).priority is Some,
{
}

} // verus!
