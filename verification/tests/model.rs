use todo_lifecycle::model::todo::{parse_global_id, Todo, TodoState, SEPARATOR};

fn all_states() -> Vec<TodoState> {
    vec![
        TodoState::NotStarted,
        TodoState::InProgress,
        TodoState::Completed,
        TodoState::Paused,
        TodoState::Failed,
    ]
}

fn sample(state: TodoState) -> Todo {
    Todo {
        user_uuid: String::from("alice"),
        todo_uuid: String::from("t1"),
        todo_type: String::from("resize"),
        state,
        source_file: String::from("in.csv"),
        result_file: None,
    }
}

#[test]
fn separator_is_underscore() {
    assert_eq!(SEPARATOR, '_');
}

#[test]
fn state_names_are_the_variant_names() {
    assert_eq!(TodoState::NotStarted.name(), "NotStarted");
    assert_eq!(TodoState::InProgress.name(), "InProgress");
    assert_eq!(TodoState::Completed.name(), "Completed");
    assert_eq!(TodoState::Paused.name(), "Paused");
    assert_eq!(TodoState::Failed.name(), "Failed");
}

#[test]
fn state_names_read_back() {
    for state in all_states() {
        assert_eq!(TodoState::from_name(&state.name()), Some(state));
    }
}

#[test]
fn unknown_state_names_read_as_nothing() {
    assert_eq!(TodoState::from_name(""), None);
    assert_eq!(TodoState::from_name("paused"), None);
    assert_eq!(TodoState::from_name("Paused "), None);
    assert_eq!(TodoState::from_name("Done"), None);
    assert_eq!(TodoState::from_name("NotStartedX"), None);
    assert_eq!(TodoState::from_name("Paused"), Some(TodoState::Paused));
    assert_eq!(TodoState::from_name("NotStarted"), Some(TodoState::NotStarted));
}

#[test]
fn new_todo_is_not_started_without_result() {
    let todo = Todo::new(
        String::from("alice"),
        String::from("resize"),
        String::from("in.csv"),
    );
    assert_eq!(todo.user_uuid, "alice");
    assert_eq!(todo.todo_type, "resize");
    assert_eq!(todo.source_file, "in.csv");
    assert_eq!(todo.state, TodoState::NotStarted);
    assert_eq!(todo.result_file, None);
}

#[test]
fn todo_with_given_uuid() {
    let todo = Todo::with_uuid(
        String::from("alice"),
        String::from("t1"),
        String::from("resize"),
        String::from("in.csv"),
    );
    assert_eq!(todo, sample(TodoState::NotStarted));
    assert_eq!(todo.get_global_id(), "alice_t1");
}

#[test]
fn new_todo_has_a_hyphenated_version_4_uuid() {
    let todo = Todo::new(String::from("u"), String::from("t"), String::from("s"));
    let id: Vec<char> = todo.todo_uuid.chars().collect();
    assert_eq!(id.len(), 36);
    for (i, c) in id.iter().enumerate() {
        if i == 8 || i == 13 || i == 18 || i == 23 {
            assert_eq!(*c, '-');
        } else {
            assert!(c.is_ascii_digit() || ('a'..='f').contains(c));
        }
    }
    assert_eq!(id[14], '4');
    let parsed = uuid::Uuid::parse_str(&todo.todo_uuid).unwrap();
    assert_eq!(parsed.get_version_num(), 4);
    assert!(!todo.todo_uuid.contains(SEPARATOR));
}

#[test]
fn new_todos_get_different_ids() {
    let first = Todo::new(String::from("u"), String::from("t"), String::from("s"));
    let second = Todo::new(String::from("u"), String::from("t"), String::from("s"));
    assert_ne!(first.todo_uuid, second.todo_uuid);
    assert_ne!(first.get_global_id(), second.get_global_id());
}

#[test]
fn global_id_joins_user_and_todo() {
    assert_eq!(sample(TodoState::NotStarted).get_global_id(), "alice_t1");
    let mut odd = sample(TodoState::Paused);
    odd.user_uuid = String::new();
    odd.todo_uuid = String::from("é");
    assert_eq!(odd.get_global_id(), "_é");
}

#[test]
fn global_id_of_new_todo_parses_back() {
    let todo = Todo::new(String::from("alice"), String::from("t"), String::from("s"));
    let id = todo.get_global_id();
    assert_eq!(id, format!("alice_{}", todo.todo_uuid));
    assert_eq!(
        parse_global_id(&id),
        Some((String::from("alice"), todo.todo_uuid.clone()))
    );
}

#[test]
fn parse_global_id_splits_on_the_first_two_separators() {
    assert_eq!(
        parse_global_id("alice_t1"),
        Some((String::from("alice"), String::from("t1")))
    );
    assert_eq!(
        parse_global_id("a_b_c"),
        Some((String::from("a"), String::from("b")))
    );
    assert_eq!(parse_global_id("_x"), Some((String::new(), String::from("x"))));
    assert_eq!(parse_global_id("a_"), Some((String::from("a"), String::new())));
    assert_eq!(parse_global_id("_"), Some((String::new(), String::new())));
    assert_eq!(parse_global_id("a__b"), Some((String::from("a"), String::new())));
    assert_eq!(
        parse_global_id("é√_üö"),
        Some((String::from("é√"), String::from("üö")))
    );
}

#[test]
fn parse_global_id_without_separator_is_nothing() {
    assert_eq!(parse_global_id(""), None);
    assert_eq!(parse_global_id("alice"), None);
    assert_eq!(parse_global_id("alice-t1"), None);
}

#[test]
fn user_id_with_separator_does_not_parse_back() {
    let mut todo = sample(TodoState::NotStarted);
    todo.user_uuid = String::from("a_b");
    assert_eq!(todo.get_global_id(), "a_b_t1");
    assert_eq!(
        parse_global_id(&todo.get_global_id()),
        Some((String::from("a"), String::from("b")))
    );
}

#[test]
fn can_transition_to_any_other_state_only() {
    for from in all_states() {
        for to in all_states() {
            assert_eq!(sample(from).can_transition_to(&to), from != to);
        }
    }
    assert!(sample(TodoState::Completed).can_transition_to(&TodoState::NotStarted));
    assert!(!sample(TodoState::Completed).can_transition_to(&TodoState::Completed));
}
