use todoist::cmd::default_list_filter;
use todoist::cmd::project_line;
use todoist::cmd::task_contents;
use todoist::cmd::task_row;
use todoist::labels::label_names;
use todoist::labels::label_names_for;
use todoist::labels::Label;
use todoist::project::Project;
use todoist::survey::Question;
use todoist::task::RefId;
use todoist::task::Task;
use todoist::Config;

fn task(id: &str, content: &str, priority: i64) -> Task {
    Task {
        id: String::from(id),
        assigner_id: RefId::Absent,
        assignee_id: RefId::Absent,
        project_id: String::from("1"),
        section_id: RefId::Absent,
        parent_id: RefId::IntId(9),
        order: 1,
        content: String::from(content),
        description: String::new(),
        is_completed: false,
        labels: Vec::new(),
        priority,
        comment_count: 0,
        creator_id: String::from("u1"),
        created_at: String::from("2023-01-01T00:00:00Z"),
        due: None,
        url: String::new(),
    }
}

fn label(id: &str, name: &str) -> Label {
    Label {
        id: String::from(id),
        name: String::from(name),
        color: String::from("red"),
        order: 0,
        is_favorite: false,
    }
}

#[test]
fn default_filter_selects_today_and_overdue() {
    let f = default_list_filter(None);
    assert_eq!(f.day_filter, "today|overdue");
    assert_eq!(f.to_string(), "?filter=today|overdue");
}

#[test]
fn caller_filter_passes_through() {
    let f = default_list_filter(Some(String::from("p1 & #Work")));
    assert_eq!(f.day_filter, "p1 & #Work");
}

#[test]
fn task_row_has_id_project_content_priority() {
    let t = task("42", "Buy milk", 3);
    let row = task_row(&t, String::from("Inbox"));
    assert_eq!(
        row,
        vec![
            String::from("42"),
            String::from("Inbox"),
            String::from("Buy milk"),
            String::from("3"),
        ]
    );
}

#[test]
fn task_contents_keep_listing_order() {
    let tasks = vec![task("1", "first", 1), task("2", "second", 2)];
    assert_eq!(
        task_contents(&tasks),
        vec![String::from("first"), String::from("second")]
    );
}

#[test]
fn project_line_joins_id_and_name() {
    let p = Project {
        id: String::from("7"),
        name: String::from("Work"),
        comment_count: 0,
        order: 0,
        color: String::from("blue"),
        is_shared: false,
        is_favorite: false,
        parent_id: None,
        is_inbox_project: false,
        is_team_inbox: false,
        view_style: String::from("list"),
        url: String::new(),
    };
    assert_eq!(project_line(&p), "7 | Work");
}

#[test]
fn label_names_keep_listing_order() {
    let labels = vec![label("1", "home"), label("2", "urgent")];
    assert_eq!(
        label_names(&labels),
        vec![String::from("home"), String::from("urgent")]
    );
}

#[test]
fn chosen_label_indices_map_back_to_names() {
    let labels = vec![label("1", "home"), label("2", "urgent"), label("3", "errand")];
    let names = label_names_for(&labels, &vec![2, 0]);
    assert_eq!(names, vec![String::from("errand"), String::from("home")]);
}

#[test]
fn question_keeps_its_prompt() {
    let q = Question::new(String::from("Your tasks name"));
    assert_eq!(q.prompt_text(), "Your tasks name");
}

#[test]
fn config_holds_the_api_key() {
    let c = Config::new(String::from("abc123"));
    assert_eq!(c.api_key, "abc123");
}
