use crate::model::todo::{
    parse_global_id, spec_global_id, spec_parse_global_id, Todo, TodoState, TodoView,
};
use crate::repository::item::{AttributeValue, AttributeValueView, Item, ItemView};
use vstd::prelude::*;
use vstd::string::*;

verus! {

/// The one error of the repository: a write that failed, or a stored record
/// that is no todo.
#[derive(Debug, Clone, Copy, PartialEq, Eq, Structural)]
pub struct DDBError;

/// The text under `key` in a record, where the record has that attribute
/// and it is string-typed.
pub open spec fn spec_text_value(key: Seq<char>, item: ItemView) -> Option<Seq<char>> {
    if item.contains_key(key) {
        match item[key] {
            AttributeValueView::S(text) => Some(text),
            AttributeValueView::NotString => None,
        }
    } else {
        None
    }
}

/// The todo that a record stands for. The partition key `pK` is the user's
/// identifier and the sort key `sK` the todo's; these two, `todo_type`,
/// `state` and `source_file` must be there as text, `state` must name a
/// state, and `result_file` is text where it is there at all.
pub open spec fn spec_item_to_todo(item: ItemView) -> Option<TodoView> {
    let user_uuid = spec_text_value("pK"@, item);
    let todo_uuid = spec_text_value("sK"@, item);
    let todo_type = spec_text_value("todo_type"@, item);
    let state = spec_text_value("state"@, item);
    let source_file = spec_text_value("source_file"@, item);
    let result_file = spec_text_value("result_file"@, item);
    if user_uuid.is_some() && todo_uuid.is_some() && todo_type.is_some() && state.is_some()
        && source_file.is_some() && TodoState::spec_from_name(state.unwrap()).is_some()
        && (result_file.is_some() || !item.contains_key("result_file"@)) {
        Some(
            TodoView {
                user_uuid: user_uuid.unwrap(),
                todo_uuid: todo_uuid.unwrap(),
                todo_type: todo_type.unwrap(),
                state: TodoState::spec_from_name(state.unwrap()).unwrap(),
                source_file: source_file.unwrap(),
                result_file,
            },
        )
    } else {
        None
    }
}

/// The record that stands for a todo: every field as text under its name,
/// the state under its canonical name, and `result_file` only where the todo
/// has one.
pub open spec fn spec_todo_to_item(todo: TodoView) -> ItemView {
    let required = Map::<Seq<char>, AttributeValueView>::empty().insert(
        "pK"@,
        AttributeValueView::S(todo.user_uuid),
    ).insert("sK"@, AttributeValueView::S(todo.todo_uuid)).insert(
        "todo_type"@,
        AttributeValueView::S(todo.todo_type),
    ).insert("state"@, AttributeValueView::S(todo.state.spec_name())).insert(
        "source_file"@,
        AttributeValueView::S(todo.source_file),
    );
    match todo.result_file {
        Some(file) => required.insert("result_file"@, AttributeValueView::S(file)),
        None => required,
    }
}

/// The text under `key`, or nothing where the record has no such attribute.
/// An attribute that is not string-typed is an error.
pub fn item_value(key: &str, item: &Item) -> (value: Result<Option<String>, DDBError>)
    ensures
        match value {
            Ok(Some(text)) => item@.contains_key(key@) && item@[key@] == AttributeValueView::S(
                text@,
            ),
            Ok(None) => !item@.contains_key(key@),
            Err(_) => item@.contains_key(key@) && item@[key@] == AttributeValueView::NotString,
        },
{
    match item.get(key) {
        Some(value) => match value {
            AttributeValue::S(text) => Ok(Some(text.clone())),
            AttributeValue::NotString => Err(DDBError),
        },
        None => Ok(None),
    }
}

/// The text under `key`. A record without that attribute, or with another
/// kind of value under it, is an error.
pub fn required_item_value(key: &str, item: &Item) -> (value: Result<String, DDBError>)
    ensures
        match value {
            Ok(text) => spec_text_value(key@, item@) == Some(text@),
            Err(_) => spec_text_value(key@, item@).is_none(),
        },
{
    match item_value(key, item) {
        Ok(Some(value)) => Ok(value),
        Ok(None) => Err(DDBError),
        Err(_) => Err(DDBError),
    }
}

/// Reads a todo from a stored record.
pub fn item_to_todo(item: &Item) -> (todo: Result<Todo, DDBError>)
    ensures
        match todo {
            Ok(read) => spec_item_to_todo(item@) == Some(read@),
            Err(_) => spec_item_to_todo(item@).is_none(),
        },
{
    let state_name = required_item_value("state", item)?;
    let state = match TodoState::from_name(state_name.as_str()) {
        Some(value) => value,
        None => return Err(DDBError),
    };
    let result_file = item_value("result_file", item)?;
    Ok(
        Todo {
            user_uuid: required_item_value("pK", item)?,
            todo_uuid: required_item_value("sK", item)?,
            todo_type: required_item_value("todo_type", item)?,
            state,
            source_file: required_item_value("source_file", item)?,
            result_file,
        },
    )
}

/// Writes a todo as the record to store for it.
pub fn todo_to_item(todo: Todo) -> (item: Item)
    ensures
        item@ == spec_todo_to_item(todo@),
{
    let mut item = Item::new();
    item.insert(String::from_str("pK"), AttributeValue::S(todo.user_uuid));
    item.insert(String::from_str("sK"), AttributeValue::S(todo.todo_uuid));
    item.insert(String::from_str("todo_type"), AttributeValue::S(todo.todo_type));
    item.insert(String::from_str("state"), AttributeValue::S(todo.state.name()));
    item.insert(String::from_str("source_file"), AttributeValue::S(todo.source_file));
    if let Some(result_file) = todo.result_file {
        item.insert(String::from_str("result_file"), AttributeValue::S(result_file));
    }
    item
}

/// The six attribute names are pairwise different.
pub proof fn lemma_attribute_names_differ()
    ensures
        "pK"@ != "sK"@,
        "pK"@ != "todo_type"@,
        "pK"@ != "state"@,
        "pK"@ != "source_file"@,
        "pK"@ != "result_file"@,
        "sK"@ != "todo_type"@,
        "sK"@ != "state"@,
        "sK"@ != "source_file"@,
        "sK"@ != "result_file"@,
        "todo_type"@ != "state"@,
        "todo_type"@ != "source_file"@,
        "todo_type"@ != "result_file"@,
        "state"@ != "source_file"@,
        "state"@ != "result_file"@,
        "source_file"@ != "result_file"@,
{
    reveal_strlit("pK");
    reveal_strlit("sK");
    reveal_strlit("todo_type");
    reveal_strlit("state");
    reveal_strlit("source_file");
    reveal_strlit("result_file");
    assert("pK"@.len() == 2 && "pK"@[0] == 'p');
    assert("sK"@.len() == 2 && "sK"@[0] == 's');
    assert("todo_type"@.len() == 9);
    assert("state"@.len() == 5);
    assert("source_file"@.len() == 11);
    assert("result_file"@.len() == 11);
    assert("source_file"@[0] == 's');
    assert("result_file"@[0] == 'r');
}

/// Writing a todo as a record and reading the record gives the todo back,
/// field for field: the state through its name, and `result_file` whether
/// it is there or not.
pub proof fn lemma_record_round_trip(todo: TodoView)
    ensures
        spec_item_to_todo(spec_todo_to_item(todo)) == Some(todo),
{
    lemma_attribute_names_differ();
    TodoState::lemma_name_reads_back(todo.state);
}

/// A record that lacks one of the five required attributes, holds one of
/// them as something other than text, or names no state, is no todo.
pub proof fn lemma_malformed_record_is_no_todo(item: ItemView, key: Seq<char>)
    requires
        key == "pK"@ || key == "sK"@ || key == "todo_type"@ || key == "state"@ || key
            == "source_file"@,
        spec_text_value(key, item).is_none() || (key == "state"@ && TodoState::spec_from_name(
            spec_text_value(key, item).unwrap(),
        ).is_none()),
    ensures
        spec_item_to_todo(item).is_none(),
{
}

/// The request that writes one record, replacing the record under its key.
#[derive(Debug, Clone)]
pub struct PutRequest {
    pub table_name: String,
    pub item: Item,
}

/// A placeholder of a key condition and the attribute name it stands for.
#[derive(Debug, Clone, PartialEq, Eq)]
pub struct NameAlias {
    pub placeholder: String,
    pub name: String,
}

/// The request that looks one record up by both parts of its key.
#[derive(Debug, Clone)]
pub struct QueryRequest {
    pub table_name: String,
    pub key_condition_expression: String,
    pub expression_attribute_names: Vec<NameAlias>,
    pub expression_attribute_values: Item,
}

impl QueryRequest {
    /// The request asks `table_name` for the record whose partition key is
    /// `key.0` and whose sort key is `key.1`: equality on both, each name and
    /// each value behind a placeholder.
    pub open spec fn selects(&self, table_name: Seq<char>, key: (Seq<char>, Seq<char>)) -> bool {
        &&& self.table_name@ == table_name
        &&& self.key_condition_expression@ == "#pK = :user_id and #sK = :todo_uuid"@
        &&& self.expression_attribute_names@.len() == 2
        &&& self.expression_attribute_names@[0].placeholder@ == "#pK"@
        &&& self.expression_attribute_names@[0].name@ == "pK"@
        &&& self.expression_attribute_names@[1].placeholder@ == "#sK"@
        &&& self.expression_attribute_names@[1].name@ == "sK"@
        &&& self.expression_attribute_values@ == Map::<Seq<char>, AttributeValueView>::empty().insert(
            ":user_id"@,
            AttributeValueView::S(key.0),
        ).insert(":todo_uuid"@, AttributeValueView::S(key.1))
    }
}

/// The todo that an optional todo holds, as plain text.
pub open spec fn spec_found(found: Option<Todo>) -> Option<TodoView> {
    match found {
        Some(todo) => Some(todo@),
        None => None,
    }
}

/// What a list of records holds, record by record.
pub open spec fn spec_records(items: Seq<Item>) -> Seq<ItemView> {
    items.map_values(|item: Item| item@)
}

/// The todo that the records returned by a lookup come to: the first of
/// them, where there is one and it is a todo.
pub open spec fn spec_first_todo(records: Seq<ItemView>) -> Option<TodoView> {
    if records.len() > 0 {
        spec_item_to_todo(records[0])
    } else {
        None
    }
}

/// The mapping between todos and the records of one table. It forms the
/// requests and reads the answers; sending them is the caller's part.
#[derive(Debug, Clone, PartialEq, Eq)]
pub struct DDBRepository {
    table_name: String,
}

impl DDBRepository {
    /// A repository over the table called `table_name`.
    pub fn init(table_name: String) -> (repository: DDBRepository)
        ensures
            repository.table_name() == table_name@,
    {
        DDBRepository { table_name }
    }

    /// The name of the table that the requests go to.
    pub closed spec fn table_name(&self) -> Seq<char> {
        self.table_name@
    }

    /// The request that stores `todo`: its full record, to this table.
    pub fn put_todo_request(&self, todo: Todo) -> (request: PutRequest)
        ensures
            request.table_name@ == self.table_name(),
            request.item@ == spec_todo_to_item(todo@),
    {
        PutRequest { table_name: self.table_name.clone(), item: todo_to_item(todo) }
    }

    /// What storing a todo comes to: done where the table took the request,
    /// an error where it did not.
    pub fn put_todo_outcome(accepted: bool) -> (written: Result<(), DDBError>)
        ensures
            written.is_ok() == accepted,
    {
        if accepted {
            Ok(())
        } else {
            Err(DDBError)
        }
    }

    /// The request that looks up the todo known as `todo_id`, or nothing
    /// where `todo_id` holds no separator and so names no key.
    pub fn get_todo_request(&self, todo_id: &str) -> (request: Option<QueryRequest>)
        ensures
            match request {
                Some(query) => spec_parse_global_id(todo_id@).is_some() && query.selects(
                    self.table_name(),
                    spec_parse_global_id(todo_id@).unwrap(),
                ),
                None => spec_parse_global_id(todo_id@).is_none(),
            },
    {
        match parse_global_id(todo_id) {
            Some(key) => {
                let mut names: Vec<NameAlias> = Vec::new();
                names.push(
                    NameAlias {
                        placeholder: String::from_str("#pK"),
                        name: String::from_str("pK"),
                    },
                );
                names.push(
                    NameAlias {
                        placeholder: String::from_str("#sK"),
                        name: String::from_str("sK"),
                    },
                );
                let mut values = Item::new();
                values.insert(String::from_str(":user_id"), AttributeValue::S(key.0));
                values.insert(String::from_str(":todo_uuid"), AttributeValue::S(key.1));
                Some(
                    QueryRequest {
                        table_name: self.table_name.clone(),
                        key_condition_expression: String::from_str(
                            "#pK = :user_id and #sK = :todo_uuid",
                        ),
                        expression_attribute_names: names,
                        expression_attribute_values: values,
                    },
                )
            },
            None => None,
        }
    }

    /// What a lookup comes to. `response` is the answer to the query: an
    /// error where it failed, else the records it returned, if it returned a
    /// list at all. The todo is read from the first record; a failed query,
    /// no list, an empty list and a record that is no todo all come to
    /// nothing.
    pub fn get_todo_outcome(response: Result<Option<Vec<Item>>, DDBError>) -> (found: Option<Todo>)
        ensures
            spec_found(found) == match response {
                Ok(Some(items)) => spec_first_todo(spec_records(items@)),
                _ => None,
            },
    {
        match response {
            Ok(Some(items)) => {
                if items.len() == 0 {
                    return None;
                }
                match item_to_todo(&items[0]) {
                    Ok(todo) => Some(todo),
                    Err(_) => None,
                }
            },
            _ => None,
        }
    }
}

/// What a table holds: its records by their two-part key.
pub type TableView = Map<(Seq<char>, Seq<char>), ItemView>;

/// Every record of the table carries its own key as `pK` and `sK`.
pub open spec fn table_wf(table: TableView) -> bool {
    forall|key: (Seq<char>, Seq<char>)| #[trigger]
        table.contains_key(key) ==> spec_text_value("pK"@, table[key]) == Some(key.0)
            && spec_text_value("sK"@, table[key]) == Some(key.1)
}

/// The table after it took a record: the record stands under the key that
/// it carries as `pK` and `sK`, in place of any earlier one, and nothing else
/// changed. A record without such a key is not taken.
pub open spec fn spec_put_item(table: TableView, item: ItemView) -> TableView {
    match (spec_text_value("pK"@, item), spec_text_value("sK"@, item)) {
        (Some(partition), Some(sort)) => table.insert((partition, sort), item),
        _ => table,
    }
}

/// The records that the table returns for a key: the one under it, or none.
pub open spec fn spec_query(table: TableView, key: (Seq<char>, Seq<char>)) -> Seq<ItemView> {
    if table.contains_key(key) {
        seq![table[key]]
    } else {
        Seq::empty()
    }
}

/// The table after `todo` was stored.
pub open spec fn spec_put_todo(table: TableView, todo: TodoView) -> TableView {
    spec_put_item(table, spec_todo_to_item(todo))
}

/// The todo that a lookup of `todo_id` in `table` finds: what the records
/// under the key that `todo_id` is read as come to.
pub open spec fn spec_get_todo(table: TableView, todo_id: Seq<char>) -> Option<TodoView> {
    match spec_parse_global_id(todo_id) {
        Some(key) => spec_first_todo(spec_query(table, key)),
        None => None,
    }
}

/// Storing a todo puts its record under the todo's two identifiers.
pub proof fn lemma_put_todo_key(table: TableView, todo: TodoView)
    ensures
        spec_put_todo(table, todo) == table.insert(
            (todo.user_uuid, todo.todo_uuid),
            spec_todo_to_item(todo),
        ),
{
    lemma_attribute_names_differ();
}

/// Storing a todo keeps every record under its own key.
pub proof fn lemma_put_keeps_table_wf(table: TableView, todo: TodoView)
    requires
        table_wf(table),
    ensures
        table_wf(spec_put_todo(table, todo)),
{
    lemma_attribute_names_differ();
    lemma_put_todo_key(table, todo);
    let after = spec_put_todo(table, todo);
    assert forall|key: (Seq<char>, Seq<char>)| #[trigger] after.contains_key(key) implies
        spec_text_value("pK"@, after[key]) == Some(key.0) && spec_text_value("sK"@, after[key])
        == Some(key.1) by {
        if key != (todo.user_uuid, todo.todo_uuid) {
            assert(table.contains_key(key));
        }
    }
}

/// A todo whose two identifiers hold no separator is found again under its
/// global identifier once it is stored, field for field as it was stored.
pub proof fn lemma_put_then_get(table: TableView, todo: TodoView)
    requires
        crate::model::todo::separator_free(todo.user_uuid),
        crate::model::todo::separator_free(todo.todo_uuid),
    ensures
        spec_get_todo(
            spec_put_todo(table, todo),
            spec_global_id(todo.user_uuid, todo.todo_uuid),
        ) == Some(todo),
{
    crate::model::todo::lemma_global_id_parses_back(todo.user_uuid, todo.todo_uuid);
    lemma_put_todo_key(table, todo);
    lemma_record_round_trip(todo);
}

/// A lookup that meets a record which is no todo finds nothing.
pub proof fn lemma_get_of_malformed_record(table: TableView, todo_id: Seq<char>)
    requires
        spec_parse_global_id(todo_id).is_some(),
        table.contains_key(spec_parse_global_id(todo_id).unwrap()),
        spec_item_to_todo(table[spec_parse_global_id(todo_id).unwrap()]).is_none(),
    ensures
        spec_get_todo(table, todo_id).is_none(),
{
}

} // verus!
