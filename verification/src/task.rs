use vstd::prelude::*;
use vstd::string::StringExecFns;

verus! {

/// A reference to a related entity in a loosely-typed field: absent, an
/// integer identifier, or a string identifier.
#[derive(Debug, Clone, PartialEq)]
pub enum RefId {
    Absent,
    IntId(i64),
    StrId(String),
}

/// A due-date specification attached to a task.
#[derive(Debug, Clone, PartialEq)]
pub struct Due {
    pub date: String,
    pub string: String,
    pub lang: String,
    pub is_recurring: bool,
}

/// A task as the server reports it.
#[derive(Debug, Clone, PartialEq)]
pub struct Task {
    pub id: String,
    pub assigner_id: RefId,
    pub assignee_id: RefId,
    pub project_id: String,
    pub section_id: RefId,
    pub parent_id: RefId,
    pub order: i64,
    pub content: String,
    pub description: String,
    pub is_completed: bool,
    pub labels: Vec<String>,
    pub priority: i64,
    pub comment_count: i64,
    pub creator_id: String,
    pub created_at: String,
    pub due: Option<Due>,
    pub url: String,
}

/// A query expression handed to the task listing verbatim.
#[derive(Debug, Clone, PartialEq)]
pub struct TaskFilter {
    pub day_filter: String,
}

impl TaskFilter {
    /// The query-string form: `?filter=` followed by the raw expression,
    /// with no escaping of any character.
    pub fn to_string(self) -> (r: String)
        ensures
            r@ == "?filter="@ + self.day_filter@,
    {
        String::from_str("?filter=").concat(self.day_filter.as_str())
    }
}

/// The write-only projection of a task that the create endpoint accepts.
/// Only `content` is required; every other field takes a server-side
/// default when absent.
#[derive(Debug, Clone, PartialEq)]
pub struct TaskCreate {
    pub content: String,
    pub due_string: Option<String>,
    pub priority: Option<i32>,
    pub project_id: Option<String>,
    pub labels: Option<Vec<String>>,
}

impl TaskCreate {
    /// The request as `new` shapes it: only `content` set.
    pub open spec fn spec_new(content: String) -> TaskCreate {
        TaskCreate {
            content,
            due_string: None,
            priority: None,
            project_id: None,
            labels: None,
        }
    }

    /// The request with its due string replaced.
    pub open spec fn spec_with_due(t: TaskCreate, date: String) -> TaskCreate {
        TaskCreate { due_string: Some(date), ..t }
    }

    /// The request with its priority replaced.
    pub open spec fn spec_with_priority(t: TaskCreate, priority: i32) -> TaskCreate {
        TaskCreate { priority: Some(priority), ..t }
    }

    /// The request with its project reference replaced.
    pub open spec fn spec_with_project(t: TaskCreate, id: String) -> TaskCreate {
        TaskCreate { project_id: Some(id), ..t }
    }

    /// The request with its label names replaced (last write wins; labels
    /// do not accumulate across calls).
    pub open spec fn spec_with_labels(t: TaskCreate, labels: Vec<String>) -> TaskCreate {
        TaskCreate { labels: Some(labels), ..t }
    }

    pub fn new(content: String) -> (r: TaskCreate)
        ensures
            r == TaskCreate::spec_new(content),
    {
        TaskCreate {
            content,
            due_string: None,
            priority: None,
            project_id: None,
            labels: None,
        }
    }

    pub fn due<'a>(&'a mut self, date: String) -> (ret: &'a mut TaskCreate)
        ensures
            *ret == TaskCreate::spec_with_due(*old(self), date),
            *final(self) == *final(ret),
    {
        self.due_string = Some(date);
        self
    }

    pub fn priority<'a>(&'a mut self, priority: i32) -> (ret: &'a mut TaskCreate)
        ensures
            *ret == TaskCreate::spec_with_priority(*old(self), priority),
            *final(self) == *final(ret),
    {
        self.priority = Some(priority);
        self
    }

    pub fn project<'a>(&'a mut self, id: String) -> (ret: &'a mut TaskCreate)
        ensures
            *ret == TaskCreate::spec_with_project(*old(self), id),
            *final(self) == *final(ret),
    {
        self.project_id = Some(id);
        self
    }

    pub fn labels<'a>(&'a mut self, labels: Vec<String>) -> (ret: &'a mut TaskCreate)
        ensures
            *ret == TaskCreate::spec_with_labels(*old(self), labels),
            *final(self) == *final(ret),
    {
        self.labels = Some(labels);
        self
    }

    /// Whether the request meets the invariant the create endpoint needs:
    /// a non-empty `content`. Callers check this before submission; the
    /// create call itself does not re-validate.
    pub fn has_content(&self) -> (r: bool)
        ensures
            r == (self.content@.len() > 0),
    {
        !self.content.as_str().is_empty()
    }
}

/// One application of a builder setter, for stating laws over whole
/// setter chains.
pub enum BuildStep {
    Due(String),
    Priority(i32),
    Project(String),
    Labels(Vec<String>),
}

/// The request after one setter application.
pub open spec fn apply_step(t: TaskCreate, s: BuildStep) -> TaskCreate {
    match s {
        BuildStep::Due(date) => TaskCreate::spec_with_due(t, date),
        BuildStep::Priority(p) => TaskCreate::spec_with_priority(t, p),
        BuildStep::Project(id) => TaskCreate::spec_with_project(t, id),
        BuildStep::Labels(ls) => TaskCreate::spec_with_labels(t, ls),
    }
}

/// The request after a chain of setter applications, in order.
pub open spec fn apply_steps(t: TaskCreate, ss: Seq<BuildStep>) -> TaskCreate
    decreases ss.len(),
{
    if ss.len() == 0 {
        t
    } else {
        apply_steps(apply_step(t, ss[0]), ss.drop_first())
    }
}

/// Law: no setter touches `content`, so any chain of setters leaves it as
/// it stood before the chain ran.
pub proof fn lemma_steps_keep_content(t: TaskCreate, ss: Seq<BuildStep>)
    ensures
        apply_steps(t, ss).content == t.content,
    decreases ss.len(),
{
    if ss.len() > 0 {
        lemma_steps_keep_content(apply_step(t, ss[0]), ss.drop_first());
    }
}

/// Law: however a request is built, its `content` is exactly the value
/// passed to `new`, and it is non-empty whenever that value was non-empty.
pub proof fn lemma_builder_keeps_content(content: String, ss: Seq<BuildStep>)
    ensures
        apply_steps(TaskCreate::spec_new(content), ss).content == content,
        content@.len() > 0 ==> apply_steps(TaskCreate::spec_new(content), ss).content@.len() > 0,
{
    lemma_steps_keep_content(TaskCreate::spec_new(content), ss);
}

} // verus!
