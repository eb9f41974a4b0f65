use crate::model::todo::{
    is_hyphenated_uuid, lemma_token_end_is_first, lemma_uuid_is_separator_free, separator_free,
    spec_global_id, spec_new_todo, spec_parse_global_id, token_end, Todo, TodoState, TodoView,
};
use crate::repository::ddb::{
    lemma_put_keeps_table_wf, lemma_put_then_get, lemma_put_todo_key, lemma_record_round_trip,
    spec_found,
    spec_get_todo, spec_put_todo, table_wf, DDBError, TableView,
};
use vstd::prelude::*;
use vstd::string::*;

verus! {

/// The handle of a todo, as it is given out after a submission or a
/// transition.
#[derive(Debug, Clone, PartialEq, Eq)]
pub struct TodoIdentifier {
    pub todo_global_id: String,
}

/// What completing a todo needs: where its result lies.
#[derive(Debug, Clone, PartialEq, Eq)]
pub struct TodoCompletionRequest {
    pub result_file: String,
}

/// What submitting a todo needs.
#[derive(Debug, Clone, PartialEq, Eq)]
pub struct SubmitTodoRequest {
    pub user_id: String,
    pub todo_type: String,
    pub source_file: String,
}

/// Why a request was turned down.
#[derive(Debug, Clone, Copy, PartialEq, Eq, Structural)]
pub enum TodoError {
    TodoNotFound,
    TodoUpdateFailure,
    TodoCreationFailure,
    BadTodoRequest,
}

impl TodoError {
    /// The HTTP status that answers a request turned down for this reason.
    pub open spec fn spec_status_code(self) -> u16 {
        match self {
            TodoError::TodoNotFound => 404,
            TodoError::TodoUpdateFailure => 424,
            TodoError::TodoCreationFailure => 424,
            TodoError::BadTodoRequest => 400,
        }
    }

    /// The short label that is the body of the answer.
    pub open spec fn spec_label(self) -> Seq<char> {
        match self {
            TodoError::TodoNotFound => "TodoNotFound"@,
            TodoError::TodoUpdateFailure => "TodoUpdateFailure"@,
            TodoError::TodoCreationFailure => "TodoCreationFailure"@,
            TodoError::BadTodoRequest => "BadTodoRequest"@,
        }
    }

    /// The HTTP status that answers a request turned down for this reason:
    /// 404 for a todo that was not found, 400 for a transition that is not
    /// allowed, 424 where the table refused a write.
    pub fn status_code(&self) -> (code: u16)
        ensures
            code == self.spec_status_code(),
    {
        match self {
            TodoError::TodoNotFound => 404,
            TodoError::TodoUpdateFailure => 424,
            TodoError::TodoCreationFailure => 424,
            TodoError::BadTodoRequest => 400,
        }
    }

    /// The short label that is the body of the answer.
    pub fn label(&self) -> (text: String)
        ensures
            text@ == self.spec_label(),
    {
        match self {
            TodoError::TodoNotFound => String::from_str("TodoNotFound"),
            TodoError::TodoUpdateFailure => String::from_str("TodoUpdateFailure"),
            TodoError::TodoCreationFailure => String::from_str("TodoCreationFailure"),
            TodoError::BadTodoRequest => String::from_str("BadTodoRequest"),
        }
    }
}

/// The text that an optional string holds.
pub open spec fn spec_text(text: Option<String>) -> Option<Seq<char>> {
    match text {
        Some(value) => Some(value@),
        None => None,
    }
}

/// The todo after a transition: `state` and `result_file` are replaced, the
/// latter also by nothing, and the rest is kept.
pub open spec fn spec_moved(
    todo: TodoView,
    new_state: TodoState,
    result_file: Option<Seq<char>>,
) -> TodoView {
    TodoView { state: new_state, result_file, ..todo }
}

/// The decision of a transition on what the lookup found: nothing found is
/// `TodoNotFound`; a todo already in `new_state` is `BadTodoRequest`; any
/// other todo is moved.
pub open spec fn spec_state_transition(
    found: Option<TodoView>,
    new_state: TodoState,
    result_file: Option<Seq<char>>,
) -> Result<TodoView, TodoError> {
    match found {
        None => Err(TodoError::TodoNotFound),
        Some(todo) => if todo.state == new_state {
            Err(TodoError::BadTodoRequest)
        } else {
            Ok(spec_moved(todo, new_state, result_file))
        },
    }
}

/// The todo or error that a decision holds, the todo as plain text.
pub open spec fn spec_decided(decision: Result<Todo, TodoError>) -> Result<TodoView, TodoError> {
    match decision {
        Ok(todo) => Ok(todo@),
        Err(error) => Err(error),
    }
}

/// The answer to a request for one todo: the todo that the lookup found, or
/// `TodoNotFound`.
pub fn get_todo(found: Option<Todo>) -> (answer: Result<Todo, TodoError>)
    ensures
        answer == match found {
            Some(todo) => Ok::<Todo, TodoError>(todo),
            None => Err(TodoError::TodoNotFound),
        },
{
    match found {
        Some(todo) => Ok(todo),
        None => Err(TodoError::TodoNotFound),
    }
}

/// The todo to store for a submission: new, not started, without a result,
/// under a fresh identifier.
pub fn submit_todo(request: &SubmitTodoRequest) -> (todo: Todo)
    ensures
        todo@ == spec_new_todo(
            request.user_id@,
            todo@.todo_uuid,
            request.todo_type@,
            request.source_file@,
        ),
        is_hyphenated_uuid(todo@.todo_uuid),
{
    Todo::new(request.user_id.clone(), request.todo_type.clone(), request.source_file.clone())
}

/// The handle to give out for `todo`.
pub fn identifier_of(todo: &Todo) -> (identifier: TodoIdentifier)
    ensures
        identifier.todo_global_id@ == spec_global_id(todo@.user_uuid, todo@.todo_uuid),
{
    TodoIdentifier { todo_global_id: todo.get_global_id() }
}

/// The answer to a submission once the write was tried: the handle where the
/// todo was stored, `TodoCreationFailure` where it was not.
pub fn submit_outcome(
    identifier: TodoIdentifier,
    written: Result<(), DDBError>,
) -> (answer: Result<TodoIdentifier, TodoError>)
    ensures
        answer == match written {
            Ok(_) => Ok::<TodoIdentifier, TodoError>(identifier),
            Err(_) => Err(TodoError::TodoCreationFailure),
        },
{
    match written {
        Ok(_) => Ok(identifier),
        Err(_) => Err(TodoError::TodoCreationFailure),
    }
}

/// Decides a transition on what the lookup found, and gives the todo to
/// store where the transition is allowed.
pub fn state_transition(
    found: Option<Todo>,
    new_state: TodoState,
    result_file: Option<String>,
) -> (decision: Result<Todo, TodoError>)
    ensures
        spec_decided(decision) == spec_state_transition(
            spec_found(found),
            new_state,
            spec_text(result_file),
        ),
{
    let mut todo = match found {
        Some(todo) => todo,
        None => return Err(TodoError::TodoNotFound),
    };
    if !todo.can_transition_to(&new_state) {
        return Err(TodoError::BadTodoRequest);
    }
    todo.state = new_state;
    todo.result_file = result_file;
    Ok(todo)
}

/// The answer to a transition once the write was tried: the handle where the
/// todo was stored, `TodoUpdateFailure` where it was not.
pub fn transition_outcome(
    identifier: TodoIdentifier,
    written: Result<(), DDBError>,
) -> (answer: Result<TodoIdentifier, TodoError>)
    ensures
        answer == match written {
            Ok(_) => Ok::<TodoIdentifier, TodoError>(identifier),
            Err(_) => Err(TodoError::TodoUpdateFailure),
        },
{
    match written {
        Ok(_) => Ok(identifier),
        Err(_) => Err(TodoError::TodoUpdateFailure),
    }
}

/// Starts the todo that the lookup found: a transition to `InProgress`,
/// which clears `result_file`.
pub fn start_todo(found: Option<Todo>) -> (decision: Result<Todo, TodoError>)
    ensures
        spec_decided(decision) == spec_state_transition(
            spec_found(found),
            TodoState::InProgress,
            None,
        ),
{
    state_transition(found, TodoState::InProgress, None)
}

/// Pauses the todo that the lookup found: a transition to `Paused`, which
/// clears `result_file`.
pub fn pause_todo(found: Option<Todo>) -> (decision: Result<Todo, TodoError>)
    ensures
        spec_decided(decision) == spec_state_transition(spec_found(found), TodoState::Paused, None),
{
    state_transition(found, TodoState::Paused, None)
}

/// Fails the todo that the lookup found: a transition to `Failed`, which
/// clears `result_file`.
pub fn fail_todo(found: Option<Todo>) -> (decision: Result<Todo, TodoError>)
    ensures
        spec_decided(decision) == spec_state_transition(spec_found(found), TodoState::Failed, None),
{
    state_transition(found, TodoState::Failed, None)
}

/// Completes the todo that the lookup found: a transition to `Completed`
/// that records the result file of the request.
pub fn complete_todo(
    found: Option<Todo>,
    completion_request: &TodoCompletionRequest,
) -> (decision: Result<Todo, TodoError>)
    ensures
        spec_decided(decision) == spec_state_transition(
            spec_found(found),
            TodoState::Completed,
            Some(completion_request.result_file@),
        ),
{
    state_transition(found, TodoState::Completed, Some(completion_request.result_file.clone()))
}

/// A submission as a whole: the table afterwards and the answer. Where the
/// write is accepted the todo is stored and its handle given out; where not,
/// the table is as before and the answer is `TodoCreationFailure`.
pub open spec fn spec_submit(table: TableView, todo: TodoView, accepted: bool) -> (
    TableView,
    Result<Seq<char>, TodoError>,
) {
    if accepted {
        (spec_put_todo(table, todo), Ok(spec_global_id(todo.user_uuid, todo.todo_uuid)))
    } else {
        (table, Err(TodoError::TodoCreationFailure))
    }
}

/// A transition as a whole: the table afterwards and the answer. The todo is
/// looked up, the transition decided, and the moved todo written in full;
/// a write that is not accepted leaves the table as before and gives
/// `TodoUpdateFailure`.
pub open spec fn spec_transition(
    table: TableView,
    todo_global_id: Seq<char>,
    new_state: TodoState,
    result_file: Option<Seq<char>>,
    accepted: bool,
) -> (TableView, Result<Seq<char>, TodoError>) {
    match spec_state_transition(spec_get_todo(table, todo_global_id), new_state, result_file) {
        Err(error) => (table, Err(error)),
        Ok(moved) => if accepted {
            (spec_put_todo(table, moved), Ok(spec_global_id(moved.user_uuid, moved.todo_uuid)))
        } else {
            (table, Err(TodoError::TodoUpdateFailure))
        },
    }
}

/// The handle given out for a submitted todo is read back as the user's
/// identifier and the todo's fresh identifier, provided the user's holds no
/// separator.
pub proof fn lemma_submitted_identifier_parses_back(todo: TodoView)
    requires
        separator_free(todo.user_uuid),
        is_hyphenated_uuid(todo.todo_uuid),
    ensures
        spec_parse_global_id(spec_global_id(todo.user_uuid, todo.todo_uuid)) == Some(
            (todo.user_uuid, todo.todo_uuid),
        ),
{
    lemma_uuid_is_separator_free(todo.todo_uuid);
    crate::model::todo::lemma_global_id_parses_back(todo.user_uuid, todo.todo_uuid);
}

/// A lookup right after an accepted submission finds the todo as it was
/// submitted, provided the user's identifier holds no separator.
pub proof fn lemma_get_after_submit(table: TableView, todo: TodoView)
    requires
        separator_free(todo.user_uuid),
        is_hyphenated_uuid(todo.todo_uuid),
    ensures
        spec_submit(table, todo, true).1.is_ok(),
        spec_get_todo(spec_submit(table, todo, true).0, spec_submit(table, todo, true).1.unwrap())
            == Some(todo),
{
    lemma_uuid_is_separator_free(todo.todo_uuid);
    lemma_put_then_get(table, todo);
}

/// A todo that a lookup finds in a table whose records carry their own keys
/// has exactly the identifiers that the handle was read as, so it is stored
/// back under the key it came from.
pub proof fn lemma_found_under_own_key(table: TableView, todo_global_id: Seq<char>)
    requires
        table_wf(table),
        spec_get_todo(table, todo_global_id).is_some(),
    ensures
        spec_parse_global_id(todo_global_id) == Some(
            (
                spec_get_todo(table, todo_global_id).unwrap().user_uuid,
                spec_get_todo(table, todo_global_id).unwrap().todo_uuid,
            ),
        ),
{
    let key = spec_parse_global_id(todo_global_id).unwrap();
    assert(table.contains_key(key));
}

/// A transition to another state than the todo's own succeeds where the
/// write is accepted, and a lookup under the same handle then finds the todo
/// in the new state, with the result file of the call and all else as before.
pub proof fn lemma_transition_moves(
    table: TableView,
    todo_global_id: Seq<char>,
    new_state: TodoState,
    result_file: Option<Seq<char>>,
)
    requires
        table_wf(table),
        spec_get_todo(table, todo_global_id).is_some(),
        spec_get_todo(table, todo_global_id).unwrap().state != new_state,
    ensures
        spec_transition(table, todo_global_id, new_state, result_file, true).1.is_ok(),
        table_wf(spec_transition(table, todo_global_id, new_state, result_file, true).0),
        spec_get_todo(
            spec_transition(table, todo_global_id, new_state, result_file, true).0,
            todo_global_id,
        ) == Some(
            spec_moved(spec_get_todo(table, todo_global_id).unwrap(), new_state, result_file),
        ),
{
    let todo = spec_get_todo(table, todo_global_id).unwrap();
    let moved = spec_moved(todo, new_state, result_file);
    lemma_found_under_own_key(table, todo_global_id);
    lemma_put_keeps_table_wf(table, moved);
    lemma_put_todo_key(table, moved);
    lemma_record_round_trip(moved);
}

/// A transition to the state that the todo is in fails with
/// `BadTodoRequest`, whatever the result file, and leaves the table as it
/// was.
pub proof fn lemma_transition_to_own_state(
    table: TableView,
    todo_global_id: Seq<char>,
    result_file: Option<Seq<char>>,
    accepted: bool,
)
    requires
        spec_get_todo(table, todo_global_id).is_some(),
    ensures
        spec_transition(
            table,
            todo_global_id,
            spec_get_todo(table, todo_global_id).unwrap().state,
            result_file,
            accepted,
        ) == (table, Err::<Seq<char>, TodoError>(TodoError::BadTodoRequest)),
{
}

/// A transition of a todo that the lookup does not find fails with
/// `TodoNotFound` and leaves the table as it was.
pub proof fn lemma_transition_of_absent(
    table: TableView,
    todo_global_id: Seq<char>,
    new_state: TodoState,
    result_file: Option<Seq<char>>,
    accepted: bool,
)
    requires
        spec_get_todo(table, todo_global_id).is_none(),
    ensures
        spec_transition(table, todo_global_id, new_state, result_file, accepted) == (
            table,
            Err::<Seq<char>, TodoError>(TodoError::TodoNotFound),
        ),
{
}

/// Where the handle holds exactly one separator, a transition that succeeds
/// gives the same handle back.
pub proof fn lemma_transition_returns_handle(
    table: TableView,
    todo_global_id: Seq<char>,
    new_state: TodoState,
    result_file: Option<Seq<char>>,
)
    requires
        table_wf(table),
        spec_transition(table, todo_global_id, new_state, result_file, true).1.is_ok(),
        token_end(todo_global_id, token_end(todo_global_id, 0) + 1) == todo_global_id.len(),
    ensures
        spec_transition(table, todo_global_id, new_state, result_file, true).1 == Ok::<
            Seq<char>,
            TodoError,
        >(todo_global_id),
{
    lemma_found_under_own_key(table, todo_global_id);
    let first = token_end(todo_global_id, 0);
    lemma_token_end_is_first(todo_global_id, 0);
    let key = spec_parse_global_id(todo_global_id).unwrap();
    assert(spec_global_id(key.0, key.1) =~= todo_global_id);
}

} // verus!
