use todoist::client::bearer_header;
use todoist::client::close_url;
use todoist::client::create_path;
use todoist::client::find_path;
use todoist::client::full_url;
use todoist::client::project_view_path;
use todoist::client::projects_path;
use todoist::client::view_path;
use todoist::task::TaskFilter;

#[test]
fn filter_serializes_verbatim() {
    let f = TaskFilter { day_filter: String::from("today|overdue") };
    assert_eq!(f.to_string(), "?filter=today|overdue");
}

#[test]
fn filter_keeps_every_character_unescaped() {
    let f = TaskFilter { day_filter: String::from("#Work & @home / p1") };
    assert_eq!(f.to_string(), "?filter=#Work & @home / p1");
}

#[test]
fn find_path_appends_filter_query() {
    let f = TaskFilter { day_filter: String::from("today|overdue") };
    assert_eq!(find_path(Some(f)), "/tasks?filter=today|overdue");
}

#[test]
fn find_path_without_filter_is_bare() {
    assert_eq!(find_path(None), "/tasks");
}

#[test]
fn sub_paths_carry_identifiers() {
    assert_eq!(view_path(&String::from("42")), "/tasks/42");
    assert_eq!(project_view_path(&String::from("7")), "/projects/7");
    assert_eq!(projects_path(), "/projects");
    assert_eq!(create_path(), "/tasks");
}

#[test]
fn full_url_prefixes_the_versioned_base() {
    assert_eq!(
        full_url(&String::from("/tasks")),
        "https://api.todoist.com/rest/v2/tasks"
    );
}

#[test]
fn close_url_wraps_the_identifier() {
    assert_eq!(
        close_url(&String::from("42")),
        "https://api.todoist.com/rest/v2/tasks/42/close"
    );
}

#[test]
fn bearer_header_carries_token() {
    let (name, value) = bearer_header(String::from("secret-token"));
    assert_eq!(name, "Authorization");
    assert_eq!(value, "Bearer secret-token");
}
