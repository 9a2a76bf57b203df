use vstd::prelude::*;
use crate::model::{rows_view, TodoListDTO, TodoModel, TodoView, UpdateTodoDto, UpdateView};
use crate::repository::{
    row_result, store_create, store_delete, store_get, store_update, table_wf, window,
    StoreFailure, TableState, TodoRepository,
};

verus! {

/// Why an operation of the service did not succeed, in the caller's terms.
#[derive(Debug, Clone, Copy, PartialEq, Eq, Structural)]
pub enum TodoError {
    /// The title is held by another todo.
    TitleExists,
    /// An unexpected store failure; its detail is not exposed.
    Internal,
    /// No todo has this identifier.
    NotFound(u128),
    /// The todo with this identifier could not be updated.
    NotUpdated(u128),
    /// The todo with this identifier could not be deleted.
    NotDeleted(u128),
}

/// The text that `uuid` writes for the identifier with this 128-bit value.
pub uninterp spec fn uuid_text(id: u128) -> Seq<char>;

/// Relies on `uuid::Uuid::from_u128` and the `Display` impl of `uuid::Uuid`:
/// the text is a function of the identifier alone.
#[verifier::external_body]
fn id_text(id: u128) -> (r: String)
    ensures
        r@ == uuid_text(id),
{
    uuid::Uuid::from_u128(id).to_string()
}

/// The caller-facing text of a reason.
pub open spec fn reason_text(e: TodoError) -> Seq<char> {
    match e {
        TodoError::TitleExists => "Todo with that title already exists"@,
        TodoError::Internal => "Internal-Server-Error"@,
        TodoError::NotFound(id) => "Note with ID: "@ + uuid_text(id) + " not found"@,
        TodoError::NotUpdated(id) => "Note with ID: "@ + uuid_text(id) + " not updated"@,
        TodoError::NotDeleted(id) => "Note with ID: "@ + uuid_text(id) + " not deleted"@,
    }
}

fn id_message(id: u128, tail: &str) -> (r: String)
    ensures
        r@ == "Note with ID: "@ + uuid_text(id) + tail@,
{
    let mut s = String::from_str("Note with ID: ");
    let t = id_text(id);
    s.append(t.as_str());
    s.append(tail);
    s
}

impl TodoError {
    /// The caller-facing text of this reason; it names the identifier where
    /// there is one.
    pub fn message(&self) -> (r: String)
        ensures
            r@ == reason_text(*self),
    {
        match self {
            TodoError::TitleExists => String::from_str("Todo with that title already exists"),
            TodoError::Internal => String::from_str("Internal-Server-Error"),
            TodoError::NotFound(id) => id_message(*id, " not found"),
            TodoError::NotUpdated(id) => id_message(*id, " not updated"),
            TodoError::NotDeleted(id) => id_message(*id, " not deleted"),
        }
    }
}

/// The reason a failed create gives: a uniqueness violation is a title conflict,
/// anything else an internal error.
pub open spec fn create_reason(f: StoreFailure) -> TodoError {
    if f == StoreFailure::ConstraintViolation {
        TodoError::TitleExists
    } else {
        TodoError::Internal
    }
}

pub open spec fn create_outcome_spec<T>(r: Result<T, StoreFailure>) -> Result<T, TodoError> {
    match r {
        Ok(t) => Ok(t),
        Err(f) => Err(create_reason(f)),
    }
}

pub open spec fn update_outcome_spec<T>(id: u128, r: Result<T, StoreFailure>) -> Result<T, TodoError> {
    match r {
        Ok(t) => Ok(t),
        Err(_) => Err(TodoError::NotUpdated(id)),
    }
}

/// A lookup succeeds only on exactly one row; anything else is not found.
pub open spec fn get_outcome_spec(id: u128, r: Result<Seq<TodoView>, StoreFailure>) -> Result<TodoView, TodoError> {
    match r {
        Ok(v) => if v.len() == 1 {
            Ok(v[0])
        } else {
            Err(TodoError::NotFound(id))
        },
        Err(_) => Err(TodoError::NotFound(id)),
    }
}

/// A delete succeeds only when the store reports a removed row.
pub open spec fn delete_outcome_spec(id: u128, r: Result<bool, StoreFailure>) -> Option<TodoError> {
    if r == Ok::<bool, StoreFailure>(true) {
        None
    } else {
        Some(TodoError::NotDeleted(id))
    }
}

/// The outcome of a create, from the store's answer.
pub fn create_outcome(r: Result<TodoModel, StoreFailure>) -> (out: Result<TodoModel, TodoError>)
    ensures
        out == create_outcome_spec(r),
{
    match r {
        Ok(t) => Ok(t),
        Err(StoreFailure::ConstraintViolation) => Err(TodoError::TitleExists),
        Err(_) => Err(TodoError::Internal),
    }
}

/// The outcome of a list, from the store's answer: any failure is internal.
pub fn list_outcome(r: Result<Vec<TodoModel>, StoreFailure>) -> (out: Result<Vec<TodoModel>, TodoError>)
    ensures
        r matches Ok(v) ==> out == Ok::<Vec<TodoModel>, TodoError>(v),
        r is Err ==> out == Err::<Vec<TodoModel>, TodoError>(TodoError::Internal),
{
    match r {
        Ok(v) => Ok(v),
        Err(_) => Err(TodoError::Internal),
    }
}

/// The views of a result that carries rows.
pub open spec fn rows_result(r: Result<Vec<TodoModel>, StoreFailure>) -> Result<Seq<TodoView>, StoreFailure> {
    match r {
        Ok(v) => Ok(rows_view(v@)),
        Err(f) => Err(f),
    }
}

/// The outcome of a lookup, from the store's answer.
pub fn get_outcome(id: u128, r: Result<Vec<TodoModel>, StoreFailure>) -> (out: Result<TodoModel, TodoError>)
    ensures
        row_result(out) == get_outcome_spec(id, rows_result(r)),
{
    match r {
        Ok(mut v) => {
            if v.len() == 1 {
                let t = v.pop().unwrap();
                Ok(t)
            } else {
                Err(TodoError::NotFound(id))
            }
        },
        Err(_) => Err(TodoError::NotFound(id)),
    }
}

/// The outcome of an update, from the store's answer: any failure means the
/// todo was not updated.
pub fn update_outcome(id: u128, r: Result<TodoModel, StoreFailure>) -> (out: Result<TodoModel, TodoError>)
    ensures
        out == update_outcome_spec(id, r),
{
    match r {
        Ok(t) => Ok(t),
        Err(_) => Err(TodoError::NotUpdated(id)),
    }
}

/// The outcome of a delete, from the store's answer: no reason when a row was
/// removed.
pub fn delete_outcome(id: u128, r: Result<bool, StoreFailure>) -> (out: Option<TodoError>)
    ensures
        out == delete_outcome_spec(id, r),
{
    match r {
        Ok(true) => None,
        _ => Some(TodoError::NotDeleted(id)),
    }
}

/// Create through the service: the store's answer, with its failure turned into a reason.
pub open spec fn service_create(s: TableState, input: TodoListDTO) -> (Result<TodoView, TodoError>, TableState) {
    (create_outcome_spec(store_create(s, input).0), store_create(s, input).1)
}

/// Lookup through the service.
pub open spec fn service_get(s: TableState, id: u128) -> Result<TodoView, TodoError> {
    get_outcome_spec(id, Ok(store_get(s.rows, id)))
}

/// Update through the service.
pub open spec fn service_update(s: TableState, id: u128, input: UpdateView) -> (Result<TodoView, TodoError>, TableState) {
    (update_outcome_spec(id, store_update(s, id, input).0), store_update(s, id, input).1)
}

/// Delete through the service.
pub open spec fn service_delete(s: TableState, id: u128) -> (Option<TodoError>, TableState) {
    (delete_outcome_spec(id, Ok(store_delete(s, id).0)), store_delete(s, id).1)
}

/// The domain service over a todo table.
pub struct TodoService {
    repository: TodoRepository,
}

impl TodoService {
    /// The state of the table the service works on.
    pub closed spec fn state(&self) -> TableState {
        self.repository.state()
    }

    pub open spec fn wf(&self) -> bool {
        table_wf(self.state())
    }

    pub fn new(repository: TodoRepository) -> (r: TodoService)
        requires
            repository.wf(),
        ensures
            r.wf(),
            r.state() == repository.state(),
    {
        TodoService { repository }
    }

    /// Creates a todo; a duplicate title gives `TitleExists`, any other store
    /// failure `Internal`.
    pub fn create_note(&mut self, input: TodoListDTO) -> (r: Result<TodoModel, TodoError>)
        requires
            old(self).wf(),
        ensures
            final(self).wf(),
            (row_result(r), final(self).state()) == service_create(old(self).state(), input),
    {
        let ghost inp = input;
        let res = self.repository.create(input);
        let out = create_outcome(res);
        proof {
            assert(row_result(out) == create_outcome_spec(row_result(res)));
        }
        out
    }

    /// The todos of the window at `offset` of at most `limit` entries, in
    /// ascending identifier order.
    pub fn find_all_note(&mut self, limit: usize, offset: usize) -> (r: Result<Vec<TodoModel>, TodoError>)
        requires
            old(self).wf(),
        ensures
            final(self).wf(),
            final(self).state() == old(self).state(),
            r matches Ok(v) && rows_view(v@) == window(old(self).state().rows, limit as int, offset as int),
    {
        let res = self.repository.find_all(limit, offset);
        list_outcome(res)
    }

    /// The todo with this identifier, or `NotFound` with it.
    pub fn get_note(&mut self, id: u128) -> (r: Result<TodoModel, TodoError>)
        requires
            old(self).wf(),
        ensures
            final(self).wf(),
            final(self).state() == old(self).state(),
            row_result(r) == service_get(old(self).state(), id),
    {
        let res = self.repository.get_by_id(id);
        get_outcome(id, res)
    }

    /// Applies a partial update; any store failure gives `NotUpdated` with the
    /// identifier.
    pub fn update_note(&mut self, id: u128, input: UpdateTodoDto) -> (r: Result<TodoModel, TodoError>)
        requires
            old(self).wf(),
        ensures
            final(self).wf(),
            (row_result(r), final(self).state()) == service_update(old(self).state(), id, input@),
    {
        let res = self.repository.update(id, input);
        let out = update_outcome(id, res);
        proof {
            assert(row_result(out) == update_outcome_spec(id, row_result(res)));
        }
        out
    }

    /// Deletes the todo with this identifier; `NotDeleted` with the identifier
    /// when no row was removed.
    pub fn delete_note(&mut self, id: u128) -> (r: Option<TodoError>)
        requires
            old(self).wf(),
        ensures
            final(self).wf(),
            (r, final(self).state()) == service_delete(old(self).state(), id),
    {
        let res = self.repository.delete(id);
        delete_outcome(id, res)
    }
}

} // verus!
