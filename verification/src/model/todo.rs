use vstd::prelude::*;
use vstd::string::*;

verus! {

/// The character that joins the two halves of a global identifier.
pub const SEPARATOR: char = '_';

/// Where a todo stands in its lifecycle.
#[derive(Clone, Copy, Debug, PartialEq, Eq, Structural)]
pub enum TodoState {
    NotStarted,
    InProgress,
    Completed,
    Paused,
    Failed,
}

impl TodoState {
    /// The canonical name of a state: the text it is stored and shown under.
    pub open spec fn spec_name(self) -> Seq<char> {
        match self {
            TodoState::NotStarted => "NotStarted"@,
            TodoState::InProgress => "InProgress"@,
            TodoState::Completed => "Completed"@,
            TodoState::Paused => "Paused"@,
            TodoState::Failed => "Failed"@,
        }
    }

    /// The state that a text names, if it names one.
    pub open spec fn spec_from_name(name: Seq<char>) -> Option<TodoState> {
        if name == "NotStarted"@ {
            Some(TodoState::NotStarted)
        } else if name == "InProgress"@ {
            Some(TodoState::InProgress)
        } else if name == "Completed"@ {
            Some(TodoState::Completed)
        } else if name == "Paused"@ {
            Some(TodoState::Paused)
        } else if name == "Failed"@ {
            Some(TodoState::Failed)
        } else {
            None
        }
    }

    /// The canonical name of this state.
    pub fn name(&self) -> (text: String)
        ensures
            text@ == self.spec_name(),
    {
        match self {
            TodoState::NotStarted => String::from_str("NotStarted"),
            TodoState::InProgress => String::from_str("InProgress"),
            TodoState::Completed => String::from_str("Completed"),
            TodoState::Paused => String::from_str("Paused"),
            TodoState::Failed => String::from_str("Failed"),
        }
    }

    /// Reads a state from its canonical name. Any other text, a name in
    /// another case included, names no state.
    pub fn from_name(name: &str) -> (state: Option<TodoState>)
        ensures
            state == Self::spec_from_name(name@),
    {
        let name = String::from_str(name);
        if name == String::from_str("NotStarted") {
            Some(TodoState::NotStarted)
        } else if name == String::from_str("InProgress") {
            Some(TodoState::InProgress)
        } else if name == String::from_str("Completed") {
            Some(TodoState::Completed)
        } else if name == String::from_str("Paused") {
            Some(TodoState::Paused)
        } else if name == String::from_str("Failed") {
            Some(TodoState::Failed)
        } else {
            None
        }
    }

    /// The five names are pairwise different, so a state's name reads back as
    /// that state.
    pub proof fn lemma_name_reads_back(state: TodoState)
        ensures
            Self::spec_from_name(state.spec_name()) == Some(state),
    {
        reveal_strlit("NotStarted");
        reveal_strlit("InProgress");
        reveal_strlit("Completed");
        reveal_strlit("Paused");
        reveal_strlit("Failed");
        assert("NotStarted"@[0] == 'N');
        assert("InProgress"@[0] == 'I');
        assert("Paused"@[0] == 'P');
        assert("Failed"@[0] == 'F');
    }

    /// A text that reads as a state is that state's name, letter for letter.
    pub proof fn lemma_read_name_is_canonical(name: Seq<char>)
        ensures
            match Self::spec_from_name(name) {
                Some(state) => state.spec_name() == name,
                None => forall|state: TodoState| state.spec_name() != name,
            },
    {
    }
}

/// A unit of asynchronous work submitted by a user.
///
/// Only `state` and `result_file` change after creation, and only through
/// a transition.
#[derive(Clone, Debug, PartialEq, Eq)]
pub struct Todo {
    pub user_uuid: String,
    pub todo_uuid: String,
    pub todo_type: String,
    pub state: TodoState,
    pub source_file: String,
    pub result_file: Option<String>,
}

/// What a todo holds, as plain text.
pub struct TodoView {
    pub user_uuid: Seq<char>,
    pub todo_uuid: Seq<char>,
    pub todo_type: Seq<char>,
    pub state: TodoState,
    pub source_file: Seq<char>,
    pub result_file: Option<Seq<char>>,
}

impl View for Todo {
    type V = TodoView;

    open spec fn view(&self) -> TodoView {
        TodoView {
            user_uuid: self.user_uuid@,
            todo_uuid: self.todo_uuid@,
            todo_type: self.todo_type@,
            state: self.state,
            source_file: self.source_file@,
            result_file: match self.result_file {
                Some(file) => Some(file@),
                None => None,
            },
        }
    }
}

/// A todo as it is created: not started, without a result.
pub open spec fn spec_new_todo(
    user_uuid: Seq<char>,
    todo_uuid: Seq<char>,
    todo_type: Seq<char>,
    source_file: Seq<char>,
) -> TodoView {
    TodoView {
        user_uuid,
        todo_uuid,
        todo_type,
        state: TodoState::NotStarted,
        source_file,
        result_file: None,
    }
}

/// A decimal digit or one of the letters `a` to `f`.
pub open spec fn is_lower_hex(c: char) -> bool {
    ('0' <= c && c <= '9') || ('a' <= c && c <= 'f')
}

/// The textual form of a random UUID: 36 characters, hyphens after the 8th,
/// 12th, 16th and 20th digit, lower-case hexadecimal digits elsewhere, and
/// the version digit 4.
pub open spec fn is_hyphenated_uuid(text: Seq<char>) -> bool {
    &&& text.len() == 36
    &&& text[14] == '4'
    &&& forall|i: int|
        0 <= i < 36 ==> if i == 8 || i == 13 || i == 18 || i == 23 {
            #[trigger] text[i] == '-'
        } else {
            is_lower_hex(text[i])
        }
}

/// The separator occurs nowhere in the text.
pub open spec fn separator_free(text: Seq<char>) -> bool {
    forall|i: int| 0 <= i < text.len() ==> #[trigger] text[i] != SEPARATOR
}

/// The global identifier made of a user's and a todo's identifier.
pub open spec fn spec_global_id(user_uuid: Seq<char>, todo_uuid: Seq<char>) -> Seq<char> {
    user_uuid + seq![SEPARATOR] + todo_uuid
}

/// The index of the first separator of `text` at or after `from`, or the
/// length of `text` if there is none.
pub open spec fn token_end(text: Seq<char>, from: int) -> int
    decreases text.len() - from,
{
    if from < 0 || from >= text.len() || text[from] == SEPARATOR {
        from
    } else {
        token_end(text, from + 1)
    }
}

/// The two identifiers that a global identifier is read as: the text before
/// its first separator, and the text between that separator and the next (or
/// the end). A text without a separator is read as nothing.
pub open spec fn spec_parse_global_id(id: Seq<char>) -> Option<(Seq<char>, Seq<char>)> {
    let first = token_end(id, 0);
    if first >= id.len() {
        None
    } else {
        Some((id.subrange(0, first), id.subrange(first + 1, token_end(id, first + 1))))
    }
}

/// `uuid::Uuid::new_v4` followed by `to_string`: a random UUID in its
/// hyphenated lower-case form. Nothing is claimed of which UUID comes, only
/// of its shape, which the formatter fixes.
#[verifier::external_body]
fn fresh_uuid() -> (text: String)
    ensures
        is_hyphenated_uuid(text@),
{
    uuid::Uuid::new_v4().to_string()
}

impl Todo {
    /// A new todo for `user_uuid`: not started, without a result, under a
    /// freshly drawn identifier.
    pub fn new(user_uuid: String, todo_type: String, source_file: String) -> (todo: Todo)
        ensures
            todo@ == spec_new_todo(user_uuid@, todo@.todo_uuid, todo_type@, source_file@),
            is_hyphenated_uuid(todo@.todo_uuid),
    {
        Todo::with_uuid(user_uuid, fresh_uuid(), todo_type, source_file)
    }

    /// A new todo under the identifier `todo_uuid`: not started, without a
    /// result.
    pub fn with_uuid(
        user_uuid: String,
        todo_uuid: String,
        todo_type: String,
        source_file: String,
    ) -> (todo: Todo)
        ensures
            todo@ == spec_new_todo(user_uuid@, todo_uuid@, todo_type@, source_file@),
    {
        Todo {
            user_uuid,
            todo_uuid,
            todo_type,
            state: TodoState::NotStarted,
            source_file,
            result_file: None,
        }
    }

    /// The handle under which the todo is known outside and stored.
    pub fn get_global_id(&self) -> (id: String)
        ensures
            id@ == spec_global_id(self@.user_uuid, self@.todo_uuid),
    {
        proof {
            reveal_strlit("_");
        }
        let mut id = self.user_uuid.clone();
        id.append("_");
        assert("_"@ =~= seq![SEPARATOR]);
        id.append(self.todo_uuid.as_str());
        id
    }

    /// Whether the todo may move to `state`: to any state but its own.
    pub fn can_transition_to(&self, state: &TodoState) -> (allowed: bool)
        ensures
            allowed == (self.state != *state),
    {
        self.state != *state
    }
}

/// Finds the end of the token that starts at `from`.
fn find_token_end(text: &str, from: usize) -> (end: usize)
    requires
        from <= text@.len(),
    ensures
        end == token_end(text@, from as int),
        from <= end <= text@.len(),
{
    let len: usize = text.unicode_len();
    let mut i: usize = from;
    while i < len && text.get_char(i) != SEPARATOR
        invariant
            from <= i <= len,
            len == text@.len(),
            token_end(text@, i as int) == token_end(text@, from as int),
        decreases len - i,
    {
        i += 1;
    }
    i
}

/// Reads a global identifier as a user's and a todo's identifier.
pub fn parse_global_id(id: &str) -> (key: Option<(String, String)>)
    ensures
        match (key, spec_parse_global_id(id@)) {
            (Some(found), Some(expected)) => found.0@ == expected.0 && found.1@ == expected.1,
            (None, None) => true,
            _ => false,
        },
{
    let len: usize = id.unicode_len();
    let first: usize = find_token_end(id, 0);
    if first >= len {
        None
    } else {
        let second: usize = find_token_end(id, first + 1);
        let user_uuid = String::from_str(id.substring_char(0, first));
        let todo_uuid = String::from_str(id.substring_char(first + 1, second));
        Some((user_uuid, todo_uuid))
    }
}

/// Where `text` has no separator from `from` up to `end`, and `end` is a
/// separator or the end of the text, the token that starts at `from` ends
/// at `end`.
pub proof fn lemma_token_end(text: Seq<char>, from: int, end: int)
    requires
        0 <= from <= end <= text.len(),
        forall|i: int| from <= i < end ==> #[trigger] text[i] != SEPARATOR,
        end == text.len() || text[end] == SEPARATOR,
    ensures
        token_end(text, from) == end,
    decreases end - from,
{
    if from < end {
        lemma_token_end(text, from + 1, end);
    }
}

/// The token that starts at `from` ends at or after `from`, within the
/// text, before the first separator.
pub proof fn lemma_token_end_is_first(text: Seq<char>, from: int)
    requires
        0 <= from <= text.len(),
    ensures
        from <= token_end(text, from) <= text.len(),
        forall|i: int| from <= i < token_end(text, from) ==> #[trigger] text[i] != SEPARATOR,
        token_end(text, from) == text.len() || text[token_end(text, from)] == SEPARATOR,
    decreases text.len() - from,
{
    if from < text.len() && text[from] != SEPARATOR {
        lemma_token_end_is_first(text, from + 1);
    }
}

/// A random UUID holds no separator.
pub proof fn lemma_uuid_is_separator_free(text: Seq<char>)
    requires
        is_hyphenated_uuid(text),
    ensures
        separator_free(text),
{
    assert forall|i: int| 0 <= i < text.len() implies #[trigger] text[i] != SEPARATOR by {
        if i == 8 || i == 13 || i == 18 || i == 23 {
            assert(text[i] == '-');
        } else {
            assert(is_lower_hex(text[i]));
        }
    }
}

/// A global identifier made of two identifiers that hold no separator is
/// read back as those two.
pub proof fn lemma_global_id_parses_back(user_uuid: Seq<char>, todo_uuid: Seq<char>)
    requires
        separator_free(user_uuid),
        separator_free(todo_uuid),
    ensures
        spec_parse_global_id(spec_global_id(user_uuid, todo_uuid)) == Some((user_uuid, todo_uuid)),
{
    let id = spec_global_id(user_uuid, todo_uuid);
    let first = user_uuid.len() as int;
    assert(id[first] == SEPARATOR);
    assert forall|i: int| 0 <= i < first implies #[trigger] id[i] != SEPARATOR by {
        assert(id[i] == user_uuid[i]);
    }
    lemma_token_end(id, 0, first);
    assert forall|i: int| first + 1 <= i < id.len() implies #[trigger] id[i] != SEPARATOR by {
        assert(id[i] == todo_uuid[i - first - 1]);
    }
    lemma_token_end(id, first + 1, id.len() as int);
    assert(id.subrange(0, first) =~= user_uuid);
    assert(id.subrange(first + 1, id.len() as int) =~= todo_uuid);
}

} // verus!
