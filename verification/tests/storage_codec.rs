use todo_list::storage::{parse_tasks, render_tasks, tasks_from_text};
use todo_list::{Task, TaskList};

fn list_of(items: &[(&str, bool)]) -> TaskList {
    let task = items
        .iter()
        .map(|(t, c)| {
            let mut task = Task::new((*t).to_string());
            task.completed = *c;
            task
        })
        .collect();
    TaskList { task }
}

#[test]
fn render_one_task_exactly() {
    let list = list_of(&[("a", false)]);
    assert_eq!(
        render_tasks(&list),
        "{\"task\":[{\"title\":\"a\",\"completed\":false}]}"
    );
}

#[test]
fn render_empty_collection_exactly() {
    let list = list_of(&[]);
    assert_eq!(render_tasks(&list), "{\"task\":[]}");
}

#[test]
fn render_escapes_quote_and_backslash() {
    let list = list_of(&[("a\"b\\c", true)]);
    assert_eq!(
        render_tasks(&list),
        "{\"task\":[{\"title\":\"a\\\"b\\\\c\",\"completed\":true}]}"
    );
}

#[test]
fn parse_reads_canonical_document() {
    let text = "{\"task\":[{\"title\":\"one\",\"completed\":true},{\"title\":\"two\",\"completed\":false}]}";
    let list = parse_tasks(text).expect("well-formed document");
    assert_eq!(list.task.len(), 2);
    assert_eq!(list.task[0].title, "one");
    assert!(list.task[0].completed);
    assert_eq!(list.task[1].title, "two");
    assert!(!list.task[1].completed);
}

#[test]
fn round_trip_preserves_order_and_fields() {
    let list = list_of(&[("first", false), ("se\"cond", true), ("th\\ird", false), ("", true)]);
    let text = render_tasks(&list);
    let back = parse_tasks(&text).expect("a rendering always parses");
    assert_eq!(back.task.len(), list.task.len());
    for (a, b) in list.task.iter().zip(back.task.iter()) {
        assert_eq!(a.title, b.title);
        assert_eq!(a.completed, b.completed);
    }
}

#[test]
fn load_then_save_reproduces_a_stored_document() {
    let text = "{\"task\":[{\"title\":\"keep me\",\"completed\":true}]}";
    let loaded = tasks_from_text(text);
    assert_eq!(render_tasks(&loaded), text);
}

#[test]
fn malformed_text_degrades_to_empty() {
    assert!(tasks_from_text("").task.is_empty());
    assert!(tasks_from_text("garbage").task.is_empty());
    assert!(tasks_from_text("{\"task\":}").task.is_empty());
    assert!(tasks_from_text("{\"task\":[").task.is_empty());
    assert!(tasks_from_text("{\"task\":[]} ").task.is_empty());
    assert!(tasks_from_text("{\"task\":[{\"title\":\"a\",\"completed\":maybe}]}")
        .task
        .is_empty());
}

#[test]
fn parse_rejects_trailing_text() {
    assert!(parse_tasks("{\"task\":[]}}").is_none());
    assert!(parse_tasks("{\"task\":[]}x").is_none());
}

#[test]
fn parse_rejects_unknown_escape() {
    assert!(parse_tasks("{\"task\":[{\"title\":\"a\\n\",\"completed\":false}]}").is_none());
}

#[test]
fn unicode_titles_survive_the_round_trip() {
    let list = list_of(&[("caf\u{e9} \u{2713}", false)]);
    let text = render_tasks(&list);
    let back = parse_tasks(&text).expect("parses");
    assert_eq!(back.task[0].title, "caf\u{e9} \u{2713}");
}
