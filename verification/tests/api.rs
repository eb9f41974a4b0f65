use std::collections::HashMap;
use todo_lifecycle::api::todo::{
    complete_todo, fail_todo, get_todo, identifier_of, pause_todo, start_todo, state_transition,
    submit_outcome, submit_todo, transition_outcome, SubmitTodoRequest, TodoCompletionRequest,
    TodoError, TodoIdentifier,
};
use todo_lifecycle::model::todo::{Todo, TodoState};
use todo_lifecycle::repository::ddb::{DDBError, DDBRepository, PutRequest, QueryRequest};
use todo_lifecycle::repository::item::{AttributeValue, Item};

/// A table in memory that answers the two requests as a keyed table does.
struct Table {
    records: HashMap<(String, String), Item>,
    accepts_writes: bool,
}

fn key_text(item: &Item, name: &str) -> String {
    match item.get(name) {
        Some(AttributeValue::S(text)) => text.clone(),
        _ => panic!("key attribute {name} is missing"),
    }
}

impl Table {
    fn new() -> Table {
        Table { records: HashMap::new(), accepts_writes: true }
    }

    fn put(&mut self, request: PutRequest) -> bool {
        assert_eq!(request.table_name, "todo");
        if !self.accepts_writes {
            return false;
        }
        let key = (key_text(&request.item, "pK"), key_text(&request.item, "sK"));
        self.records.insert(key, request.item);
        true
    }

    fn query(&self, request: &QueryRequest) -> Result<Option<Vec<Item>>, DDBError> {
        assert_eq!(request.table_name, "todo");
        assert_eq!(request.key_condition_expression, "#pK = :user_id and #sK = :todo_uuid");
        let key = (
            key_text(&request.expression_attribute_values, ":user_id"),
            key_text(&request.expression_attribute_values, ":todo_uuid"),
        );
        Ok(Some(self.records.get(&key).cloned().into_iter().collect()))
    }
}

fn repository() -> DDBRepository {
    DDBRepository::init(String::from("todo"))
}

fn get(table: &Table, id: &str) -> Option<Todo> {
    let request = repository().get_todo_request(id)?;
    DDBRepository::get_todo_outcome(table.query(&request))
}

fn put(table: &mut Table, todo: Todo) -> Result<(), DDBError> {
    let request = repository().put_todo_request(todo);
    DDBRepository::put_todo_outcome(table.put(request))
}

fn submit(table: &mut Table, user: &str, kind: &str, source: &str) -> Result<String, TodoError> {
    let request = SubmitTodoRequest {
        user_id: String::from(user),
        todo_type: String::from(kind),
        source_file: String::from(source),
    };
    let todo = submit_todo(&request);
    let identifier = identifier_of(&todo);
    let written = put(table, todo);
    submit_outcome(identifier, written).map(|identifier| identifier.todo_global_id)
}

fn transition(
    table: &mut Table,
    id: &str,
    new_state: TodoState,
    result_file: Option<String>,
) -> Result<String, TodoError> {
    let todo = state_transition(get(table, id), new_state, result_file)?;
    let identifier = identifier_of(&todo);
    let written = put(table, todo);
    transition_outcome(identifier, written).map(|identifier| identifier.todo_global_id)
}

fn all_states() -> Vec<TodoState> {
    vec![
        TodoState::NotStarted,
        TodoState::InProgress,
        TodoState::Completed,
        TodoState::Paused,
        TodoState::Failed,
    ]
}

fn sample(state: TodoState, result_file: Option<&str>) -> Todo {
    Todo {
        user_uuid: String::from("alice"),
        todo_uuid: String::from("t1"),
        todo_type: String::from("resize"),
        state,
        source_file: String::from("in.csv"),
        result_file: result_file.map(String::from),
    }
}

#[test]
fn status_codes_of_the_errors() {
    assert_eq!(TodoError::TodoNotFound.status_code(), 404);
    assert_eq!(TodoError::TodoUpdateFailure.status_code(), 424);
    assert_eq!(TodoError::TodoCreationFailure.status_code(), 424);
    assert_eq!(TodoError::BadTodoRequest.status_code(), 400);
}

#[test]
fn labels_of_the_errors() {
    assert_eq!(TodoError::TodoNotFound.label(), "TodoNotFound");
    assert_eq!(TodoError::TodoUpdateFailure.label(), "TodoUpdateFailure");
    assert_eq!(TodoError::TodoCreationFailure.label(), "TodoCreationFailure");
    assert_eq!(TodoError::BadTodoRequest.label(), "BadTodoRequest");
}

#[test]
fn get_todo_answers_found_or_not_found() {
    let todo = sample(TodoState::Paused, Some("out.csv"));
    assert_eq!(get_todo(Some(todo.clone())), Ok(todo));
    assert_eq!(get_todo(None), Err(TodoError::TodoNotFound));
}

#[test]
fn submit_todo_makes_a_new_todo_from_the_request() {
    let request = SubmitTodoRequest {
        user_id: String::from("alice"),
        todo_type: String::from("resize"),
        source_file: String::from("in.csv"),
    };
    let todo = submit_todo(&request);
    assert_eq!(todo.user_uuid, "alice");
    assert_eq!(todo.todo_type, "resize");
    assert_eq!(todo.source_file, "in.csv");
    assert_eq!(todo.state, TodoState::NotStarted);
    assert_eq!(todo.result_file, None);
    assert_eq!(todo.todo_uuid.chars().count(), 36);
    assert_eq!(
        identifier_of(&todo).todo_global_id,
        format!("alice_{}", todo.todo_uuid)
    );
}

#[test]
fn outcomes_follow_the_write() {
    let identifier = TodoIdentifier { todo_global_id: String::from("alice_t1") };
    assert_eq!(submit_outcome(identifier.clone(), Ok(())), Ok(identifier.clone()));
    assert_eq!(
        submit_outcome(identifier.clone(), Err(DDBError)),
        Err(TodoError::TodoCreationFailure)
    );
    assert_eq!(transition_outcome(identifier.clone(), Ok(())), Ok(identifier.clone()));
    assert_eq!(
        transition_outcome(identifier, Err(DDBError)),
        Err(TodoError::TodoUpdateFailure)
    );
}

#[test]
fn state_transition_decides_on_what_was_found() {
    assert_eq!(
        state_transition(None, TodoState::InProgress, None),
        Err(TodoError::TodoNotFound)
    );
    for from in all_states() {
        for to in all_states() {
            let decision = state_transition(
                Some(sample(from, Some("old.csv"))),
                to,
                Some(String::from("new.csv")),
            );
            if from == to {
                assert_eq!(decision, Err(TodoError::BadTodoRequest));
            } else {
                assert_eq!(decision, Ok(sample(to, Some("new.csv"))));
            }
        }
    }
}

#[test]
fn state_transition_without_result_file_clears_it() {
    assert_eq!(
        state_transition(Some(sample(TodoState::Completed, Some("out.csv"))), TodoState::InProgress, None),
        Ok(sample(TodoState::InProgress, None))
    );
}

#[test]
fn entry_points_have_fixed_targets() {
    let found = || Some(sample(TodoState::NotStarted, Some("old.csv")));
    assert_eq!(start_todo(found()), Ok(sample(TodoState::InProgress, None)));
    assert_eq!(pause_todo(found()), Ok(sample(TodoState::Paused, None)));
    assert_eq!(fail_todo(found()), Ok(sample(TodoState::Failed, None)));
    let request = TodoCompletionRequest { result_file: String::from("out.csv") };
    assert_eq!(
        complete_todo(found(), &request),
        Ok(sample(TodoState::Completed, Some("out.csv")))
    );
    assert_eq!(start_todo(None), Err(TodoError::TodoNotFound));
    assert_eq!(pause_todo(None), Err(TodoError::TodoNotFound));
    assert_eq!(fail_todo(None), Err(TodoError::TodoNotFound));
    assert_eq!(complete_todo(None, &request), Err(TodoError::TodoNotFound));
    assert_eq!(
        start_todo(Some(sample(TodoState::InProgress, None))),
        Err(TodoError::BadTodoRequest)
    );
    assert_eq!(
        pause_todo(Some(sample(TodoState::Paused, None))),
        Err(TodoError::BadTodoRequest)
    );
    assert_eq!(
        fail_todo(Some(sample(TodoState::Failed, None))),
        Err(TodoError::BadTodoRequest)
    );
    assert_eq!(
        complete_todo(Some(sample(TodoState::Completed, None)), &request),
        Err(TodoError::BadTodoRequest)
    );
}

#[test]
fn submit_gives_an_identifier_that_parses_back() {
    let mut table = Table::new();
    let first = submit(&mut table, "alice", "resize", "in.csv").unwrap();
    let second = submit(&mut table, "alice", "resize", "in.csv").unwrap();
    assert_ne!(first, second);
    let tokens: Vec<&str> = first.split('_').collect();
    assert_eq!(tokens.len(), 2);
    assert_eq!(tokens[0], "alice");
    assert_eq!(tokens[1].len(), 36);
    assert_eq!(table.records.len(), 2);
}

#[test]
fn get_after_submit_returns_the_submitted_todo() {
    let mut table = Table::new();
    let id = submit(&mut table, "alice", "resize", "in.csv").unwrap();
    let todo = get(&table, &id).unwrap();
    assert_eq!(todo.get_global_id(), id);
    assert_eq!(todo.user_uuid, "alice");
    assert_eq!(todo.todo_type, "resize");
    assert_eq!(todo.source_file, "in.csv");
    assert_eq!(todo.state, TodoState::NotStarted);
    assert_eq!(todo.result_file, None);
}

#[test]
fn submit_fails_when_the_write_fails() {
    let mut table = Table::new();
    table.accepts_writes = false;
    assert_eq!(
        submit(&mut table, "alice", "resize", "in.csv"),
        Err(TodoError::TodoCreationFailure)
    );
    assert!(table.records.is_empty());
}

#[test]
fn transition_to_another_state_is_stored() {
    for from in all_states() {
        for to in all_states() {
            if from == to {
                continue;
            }
            let mut table = Table::new();
            put(&mut table, sample(from, None)).unwrap();
            assert_eq!(
                transition(&mut table, "alice_t1", to, None),
                Ok(String::from("alice_t1"))
            );
            assert_eq!(get(&table, "alice_t1"), Some(sample(to, None)));
        }
    }
}

#[test]
fn transition_to_the_same_state_is_refused_and_changes_nothing() {
    for state in all_states() {
        let mut table = Table::new();
        put(&mut table, sample(state, Some("old.csv"))).unwrap();
        assert_eq!(
            transition(&mut table, "alice_t1", state, Some(String::from("new.csv"))),
            Err(TodoError::BadTodoRequest)
        );
        assert_eq!(get(&table, "alice_t1"), Some(sample(state, Some("old.csv"))));
    }
}

#[test]
fn transition_of_an_unknown_todo_is_not_found() {
    let mut table = Table::new();
    put(&mut table, sample(TodoState::NotStarted, None)).unwrap();
    assert_eq!(
        transition(&mut table, "alice_t2", TodoState::InProgress, None),
        Err(TodoError::TodoNotFound)
    );
    assert_eq!(
        transition(&mut table, "bob_t1", TodoState::InProgress, None),
        Err(TodoError::TodoNotFound)
    );
    assert_eq!(table.records.len(), 1);
    assert_eq!(get(&table, "alice_t1"), Some(sample(TodoState::NotStarted, None)));
}

#[test]
fn transition_fails_when_the_write_fails() {
    let mut table = Table::new();
    put(&mut table, sample(TodoState::NotStarted, None)).unwrap();
    table.accepts_writes = false;
    assert_eq!(
        transition(&mut table, "alice_t1", TodoState::InProgress, None),
        Err(TodoError::TodoUpdateFailure)
    );
    assert_eq!(get(&table, "alice_t1"), Some(sample(TodoState::NotStarted, None)));
}

#[test]
fn complete_persists_the_result_file() {
    let mut table = Table::new();
    let id = submit(&mut table, "alice", "resize", "in.csv").unwrap();
    let request = TodoCompletionRequest { result_file: String::from("out.csv") };
    let todo = complete_todo(get(&table, &id), &request).unwrap();
    let identifier = identifier_of(&todo);
    let written = put(&mut table, todo);
    assert_eq!(
        transition_outcome(identifier, written),
        Ok(TodoIdentifier { todo_global_id: id.clone() })
    );
    let stored = get(&table, &id).unwrap();
    assert_eq!(stored.state, TodoState::Completed);
    assert_eq!(stored.result_file, Some(String::from("out.csv")));
    assert_eq!(get(&table, &id), Some(stored));
}

#[test]
fn restart_after_completion_clears_the_result_file() {
    let mut table = Table::new();
    put(&mut table, sample(TodoState::Completed, Some("out.csv"))).unwrap();
    let todo = start_todo(get(&table, "alice_t1")).unwrap();
    put(&mut table, todo).unwrap();
    assert_eq!(get(&table, "alice_t1"), Some(sample(TodoState::InProgress, None)));
}

#[test]
fn put_then_get_round_trip() {
    for state in all_states() {
        for result_file in [None, Some("out.csv")] {
            let mut table = Table::new();
            let todo = sample(state, result_file);
            put(&mut table, todo.clone()).unwrap();
            assert_eq!(get(&table, &todo.get_global_id()), Some(todo));
        }
    }
}

#[test]
fn get_of_a_malformed_record_is_absent() {
    let mut table = Table::new();
    let mut unknown_state = Item::new();
    for attribute in repository().put_todo_request(sample(TodoState::Paused, None)).item.attributes() {
        let value = if attribute.name == "state" {
            AttributeValue::S(String::from("Sleeping"))
        } else {
            attribute.value.clone()
        };
        unknown_state.insert(attribute.name.clone(), value);
    }
    table.records.insert((String::from("alice"), String::from("t1")), unknown_state);
    let mut no_source = Item::new();
    for attribute in repository().put_todo_request(sample(TodoState::Paused, None)).item.attributes() {
        if attribute.name != "source_file" {
            no_source.insert(attribute.name.clone(), attribute.value.clone());
        }
    }
    table.records.insert((String::from("alice"), String::from("t2")), no_source);
    assert_eq!(get(&table, "alice_t1"), None);
    assert_eq!(get(&table, "alice_t2"), None);
    assert_eq!(
        transition(&mut table, "alice_t1", TodoState::InProgress, None),
        Err(TodoError::TodoNotFound)
    );
}
