use vstd::prelude::*;
use crate::handler::{
    create_response_spec, delete_response_spec, get_response_spec, limit_of, page_of,
    page_window_spec,
};
use crate::model::{FilterOptions, TodoListDTO, TodoView, UpdateView};
use crate::repository::{
    has_id, ids_ascending, index_of, lemma_index_of, table_wf, title_taken, window, TableState,
};
use crate::service::{service_create, service_delete, service_get, service_update, TodoError};

verus! {

/// Creating a todo whose title is already taken is a title conflict, answered
/// with 409, and leaves the table as it was.
pub proof fn lemma_duplicate_title_conflicts(s: TableState, input: TodoListDTO)
    requires
        title_taken(s.rows, input.title@),
    ensures
        service_create(s, input).0 == Err::<TodoView, TodoError>(TodoError::TitleExists),
        service_create(s, input).1 == s,
        create_response_spec(service_create(s, input).0).0 == 409,
{
}

/// After a successful create, a second create with the same title conflicts.
pub proof fn lemma_create_same_title_twice(s: TableState, first: TodoListDTO, second: TodoListDTO)
    requires
        service_create(s, first).0 is Ok,
        second.title@ == first.title@,
    ensures
        service_create(service_create(s, first).1, second).0 == Err::<TodoView, TodoError>(
            TodoError::TitleExists,
        ),
{
    let post = service_create(s, first).1;
    let last = post.rows.len() - 1;
    assert(post.rows[last].title == second.title@);
}

/// A list request selects at most `limit` rows, in ascending identifier order,
/// starting at row `(page - 1) * limit` of the table.
pub proof fn lemma_list_window(s: TableState, opts: FilterOptions)
    requires
        table_wf(s),
        page_window_spec(opts) is Some,
    ensures
        ({
            let (limit, offset) = page_window_spec(opts)->Some_0;
            let r = window(s.rows, limit as int, offset as int);
            &&& offset == (page_of(opts) - 1) * limit_of(opts)
            &&& limit == limit_of(opts)
            &&& r.len() <= limit
            &&& ids_ascending(r)
            &&& forall|k: int| 0 <= k < r.len() ==> #[trigger] r[k] == s.rows[offset + k]
        }),
{
    let (limit, offset) = page_window_spec(opts)->Some_0;
    let r = window(s.rows, limit as int, offset as int);
    assert forall|a: int, b: int| 0 <= a < b < r.len() implies #[trigger] r[a].id < #[trigger] r[b].id by {
        assert(s.rows[offset + a].id < s.rows[offset + b].id);
    }
}

/// A lookup of an identifier that no row has is not found, answered with 404.
pub proof fn lemma_get_missing(s: TableState, id: u128)
    requires
        !has_id(s.rows, id),
    ensures
        service_get(s, id) == Err::<TodoView, TodoError>(TodoError::NotFound(id)),
        get_response_spec(service_get(s, id)).0 == 404,
{
}

/// A lookup of a row's identifier gives that row as it stands.
pub proof fn lemma_get_current_row(s: TableState, i: int)
    requires
        table_wf(s),
        0 <= i < s.rows.len(),
    ensures
        service_get(s, s.rows[i].id) == Ok::<TodoView, TodoError>(s.rows[i]),
{
    lemma_index_of(s.rows, i, s.rows[i].id);
}

/// A create keeps the table well formed.
pub proof fn lemma_create_keeps_wf(s: TableState, input: TodoListDTO)
    requires
        table_wf(s),
    ensures
        table_wf(service_create(s, input).1),
{
    let post = service_create(s, input).1;
    if service_create(s, input).0 is Ok {
        let n = s.rows.len() as int;
        assert forall|i: int, j: int| 0 <= i < j < post.rows.len() implies #[trigger] post.rows[i].id
            < #[trigger] post.rows[j].id by {
            if j < n {
                assert(s.rows[i].id < s.rows[j].id);
            } else {
                assert(s.rows[i].id < s.next_id);
            }
        }
        assert forall|i: int, j: int|
            0 <= i < post.rows.len() && 0 <= j < post.rows.len() && i != j implies #[trigger] post.rows[i].title
            != #[trigger] post.rows[j].title by {
            if i == n {
                assert(!(s.rows[j].title == input.title@));
            } else if j == n {
                assert(!(s.rows[i].title == input.title@));
            }
        }
    }
}

/// A lookup of the identifier that a create returned gives the created todo.
pub proof fn lemma_get_after_create(s: TableState, input: TodoListDTO)
    requires
        table_wf(s),
        service_create(s, input).0 is Ok,
    ensures
        service_get(service_create(s, input).1, service_create(s, input).0->Ok_0.id)
            == service_create(s, input).0,
{
    let post = service_create(s, input).1;
    lemma_create_keeps_wf(s, input);
    lemma_get_current_row(post, post.rows.len() - 1);
}

/// A create that leaves out the category stores the empty category and an
/// unpublished todo, and a lookup shows both.
pub proof fn lemma_create_defaults(s: TableState, input: TodoListDTO)
    requires
        table_wf(s),
        input.category is None,
        service_create(s, input).0 is Ok,
    ensures
        ({
            let t = service_create(s, input).0->Ok_0;
            &&& service_get(service_create(s, input).1, t.id) == Ok::<TodoView, TodoError>(t)
            &&& t.category == Seq::<char>::empty()
            &&& !t.published
            &&& t.title == input.title@
            &&& t.content == input.content@
        }),
{
    lemma_get_after_create(s, input);
}

/// An update with no field set keeps every field of the row but `updated_at`,
/// which grows.
pub proof fn lemma_update_nothing(s: TableState, id: u128, input: UpdateView)
    requires
        table_wf(s),
        has_id(s.rows, id),
        input.is_empty(),
        s.clock < i64::MAX,
    ensures
        ({
            let old_row = s.rows[index_of(s.rows, id)];
            let (r, post) = service_update(s, id, input);
            &&& r matches Ok(t)
            &&& t == (TodoView { updated_at: t.updated_at, ..old_row })
            &&& t.updated_at > old_row.updated_at
            &&& post.rows == s.rows.update(index_of(s.rows, id), t)
        }),
{
    let i = index_of(s.rows, id);
    assert(0 <= i < s.rows.len() && s.rows[i].id == id);
}

/// An update changes exactly the fields that it sets, keeps the others and the
/// other rows, and a lookup then shows the new row.
pub proof fn lemma_update_sets_fields(s: TableState, id: u128, input: UpdateView)
    requires
        table_wf(s),
        has_id(s.rows, id),
        s.clock < i64::MAX,
        input.title matches Some(nt) ==> !exists|j: int|
            0 <= j < s.rows.len() && s.rows[j].id != id && #[trigger] s.rows[j].title == nt,
    ensures
        ({
            let i = index_of(s.rows, id);
            let old_row = s.rows[i];
            let (r, post) = service_update(s, id, input);
            &&& r matches Ok(t)
            &&& t.id == id && t.created_at == old_row.created_at
            &&& t.title == match input.title {
                Some(v) => v,
                None => old_row.title,
            }
            &&& t.content == match input.content {
                Some(v) => v,
                None => old_row.content,
            }
            &&& t.category == match input.category {
                Some(v) => v,
                None => old_row.category,
            }
            &&& t.published == match input.published {
                Some(v) => v,
                None => old_row.published,
            }
            &&& t.updated_at > old_row.updated_at
            &&& post.rows.len() == s.rows.len()
            &&& forall|j: int| 0 <= j < s.rows.len() && j != i ==> #[trigger] post.rows[j] == s.rows[j]
            &&& service_get(post, id) == Ok::<TodoView, TodoError>(t)
        }),
{
    let i = index_of(s.rows, id);
    assert(0 <= i < s.rows.len() && s.rows[i].id == id);
    match input.title {
        Some(nt) => {
        assert forall|j: int| 0 <= j < s.rows.len() && j != i implies #[trigger] s.rows[j].title != nt by {
            if j < i {
                assert(s.rows[j].id < s.rows[i].id);
            } else {
                assert(s.rows[i].id < s.rows[j].id);
            }
            assert(!(0 <= j < s.rows.len() && s.rows[j].id != id && s.rows[j].title == nt));
        }
        },
        None => {},
    }
    let post = service_update(s, id, input).1;
    assert(ids_ascending(post.rows)) by {
        assert forall|a: int, b: int| 0 <= a < b < post.rows.len() implies #[trigger] post.rows[a].id
            < #[trigger] post.rows[b].id by {
            assert(s.rows[a].id < s.rows[b].id);
        }
    }
    lemma_index_of(post.rows, i, id);
}

/// After deleting an existing todo, a lookup of its identifier is not found.
pub proof fn lemma_delete_then_get(s: TableState, id: u128)
    requires
        table_wf(s),
        has_id(s.rows, id),
    ensures
        service_delete(s, id).0 is None,
        delete_response_spec(service_delete(s, id).0).0 == 204,
        service_get(service_delete(s, id).1, id) == Err::<TodoView, TodoError>(TodoError::NotFound(id)),
{
    let i = index_of(s.rows, id);
    assert(0 <= i < s.rows.len() && s.rows[i].id == id);
    let post = service_delete(s, id).1;
    assert forall|k: int| 0 <= k < post.rows.len() implies #[trigger] post.rows[k].id != id by {
        if k < i {
            assert(s.rows[k].id < s.rows[i].id);
        } else {
            assert(s.rows[i].id < s.rows[k + 1].id);
        }
    }
}

/// Deleting an identifier that no row has is not found, answered with 404,
/// and leaves the table as it was.
pub proof fn lemma_delete_missing(s: TableState, id: u128)
    requires
        !has_id(s.rows, id),
    ensures
        service_delete(s, id) == (Some(TodoError::NotDeleted(id)), s),
        delete_response_spec(service_delete(s, id).0).0 == 404,
{
}

} // verus!
