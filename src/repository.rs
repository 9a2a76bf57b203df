use vstd::prelude::*;
use crate::model::{
    category_or_default, merge_update, merged, opt_text, insert_category, rows_view, TodoListDTO,
    TodoModel, TodoView, UpdateTodoDto, UpdateView,
};

verus! {

/// A raw failure signal of the store, with no business meaning attached.
#[derive(Debug, Clone, Copy, PartialEq, Eq, Structural)]
pub enum StoreFailure {
    /// A uniqueness constraint was violated (a duplicate title).
    ConstraintViolation,
    /// The referenced row does not exist.
    NotFound,
    /// Any other store-level error.
    StoreUnavailable,
}

/// Some row of `rows` has this title.
pub open spec fn title_taken(rows: Seq<TodoView>, title: Seq<char>) -> bool {
    exists|i: int| 0 <= i < rows.len() && #[trigger] rows[i].title == title
}

/// Some row of `rows` has this identifier.
pub open spec fn has_id(rows: Seq<TodoView>, id: u128) -> bool {
    exists|i: int| 0 <= i < rows.len() && #[trigger] rows[i].id == id
}

/// A row other than the one at `skip` has this title.
pub open spec fn title_taken_by_other(rows: Seq<TodoView>, skip: int, title: Seq<char>) -> bool {
    exists|i: int| 0 <= i < rows.len() && i != skip && #[trigger] rows[i].title == title
}

/// The rows of a `limit`/`offset` window, in table order.
pub open spec fn window(rows: Seq<TodoView>, limit: int, offset: int) -> Seq<TodoView> {
    if offset >= rows.len() {
        Seq::empty()
    } else if offset + limit >= rows.len() {
        rows.subrange(offset, rows.len() as int)
    } else {
        rows.subrange(offset, offset + limit)
    }
}

/// The row that a successful create stores.
pub open spec fn created_row(input: TodoListDTO, id: u128, stamp: i64) -> TodoView {
    TodoView {
        id,
        title: input.title@,
        content: input.content@,
        category: category_or_default(opt_text(input.category)),
        published: false,
        created_at: stamp,
        updated_at: stamp,
    }
}

/// The whole state of the table: its rows in identifier order, the identifier
/// that the next row receives, and the last tick of the write clock.
pub ghost struct TableState {
    pub rows: Seq<TodoView>,
    pub next_id: u128,
    pub clock: i64,
}

/// Identifiers ascend along the rows.
pub open spec fn ids_ascending(rows: Seq<TodoView>) -> bool {
    forall|i: int, j: int| 0 <= i < j < rows.len() ==> #[trigger] rows[i].id < #[trigger] rows[j].id
}

/// Identifiers ascend and stay below the next one, titles are unique, and no
/// stamp is ahead of the clock.
pub open spec fn table_wf(s: TableState) -> bool {
    &&& ids_ascending(s.rows)
    &&& forall|i: int| 0 <= i < s.rows.len() ==> #[trigger] s.rows[i].id < s.next_id
    &&& forall|i: int, j: int|
        0 <= i < s.rows.len() && 0 <= j < s.rows.len() && i != j ==> #[trigger] s.rows[i].title
            != #[trigger] s.rows[j].title
    &&& forall|i: int|
        0 <= i < s.rows.len() ==> 0 <= #[trigger] s.rows[i].created_at <= s.rows[i].updated_at
            <= s.clock
    &&& 0 <= s.clock
}

/// The position of the row with this identifier.
pub open spec fn index_of(rows: Seq<TodoView>, id: u128) -> int {
    choose|i: int| 0 <= i < rows.len() && #[trigger] rows[i].id == id
}

/// With ascending identifiers, a row with the identifier is the one `index_of` picks.
pub proof fn lemma_index_of(rows: Seq<TodoView>, i: int, id: u128)
    requires
        ids_ascending(rows),
        0 <= i < rows.len(),
        rows[i].id == id,
    ensures
        index_of(rows, id) == i,
{
    let j = index_of(rows, id);
    assert(0 <= j < rows.len() && rows[j].id == id);
    if j < i {
        assert(rows[j].id < rows[i].id);
    } else if i < j {
        assert(rows[i].id < rows[j].id);
    }
}

/// The views of a result that carries a row.
pub open spec fn row_result<E>(r: Result<TodoModel, E>) -> Result<TodoView, E> {
    match r {
        Ok(t) => Ok(t@),
        Err(e) => Err(e),
    }
}

/// Insertion: a duplicate title violates the uniqueness constraint; when
/// identifiers or clock ticks run out the store is unavailable; otherwise the
/// new row is appended with the next identifier and the next tick.
pub open spec fn store_create(s: TableState, input: TodoListDTO) -> (Result<TodoView, StoreFailure>, TableState) {
    if title_taken(s.rows, input.title@) {
        (Err(StoreFailure::ConstraintViolation), s)
    } else if s.next_id == u128::MAX || s.clock == i64::MAX {
        (Err(StoreFailure::StoreUnavailable), s)
    } else {
        let t = created_row(input, s.next_id, (s.clock + 1) as i64);
        (Ok(t), TableState { rows: s.rows.push(t), next_id: (s.next_id + 1) as u128, clock: t.updated_at })
    }
}

/// The rows with this identifier: one or none.
pub open spec fn store_get(rows: Seq<TodoView>, id: u128) -> Seq<TodoView> {
    if has_id(rows, id) {
        seq![rows[index_of(rows, id)]]
    } else {
        Seq::empty()
    }
}

/// Partial update: a missing row is not found; a new title held by another row
/// violates the uniqueness constraint; when clock ticks run out the store is
/// unavailable; otherwise the merged row replaces the old one in place.
pub open spec fn store_update(s: TableState, id: u128, input: UpdateView) -> (Result<TodoView, StoreFailure>, TableState) {
    if !has_id(s.rows, id) {
        (Err(StoreFailure::NotFound), s)
    } else {
        let i = index_of(s.rows, id);
        if input.title matches Some(nt) && title_taken_by_other(s.rows, i, nt) {
            (Err(StoreFailure::ConstraintViolation), s)
        } else if s.clock == i64::MAX {
            (Err(StoreFailure::StoreUnavailable), s)
        } else {
            let t = merged(s.rows[i], input, (s.clock + 1) as i64);
            (Ok(t), TableState { rows: s.rows.update(i, t), next_id: s.next_id, clock: t.updated_at })
        }
    }
}

/// Deletion: removes the row with this identifier and tells whether one was removed.
pub open spec fn store_delete(s: TableState, id: u128) -> (bool, TableState) {
    if has_id(s.rows, id) {
        (true, TableState { rows: s.rows.remove(index_of(s.rows, id)), ..s })
    } else {
        (false, s)
    }
}

/// Whether a delete went through, from the number of rows it removed: only
/// exactly one counts, since the identifier is a primary key.
pub fn delete_succeeded(rows_affected: u64) -> (r: bool)
    ensures
        r == (rows_affected == 1),
{
    if rows_affected == 0 || rows_affected > 1 {
        return false;
    }
    true
}

/// The table of todo rows. The store assigns identifiers in ascending order and
/// stamps every write with the next tick of its clock.
pub struct TodoRepository {
    rows: Vec<TodoModel>,
    next_id: u128,
    clock: i64,
}

impl View for TodoRepository {
    type V = Seq<TodoView>;

    /// The rows, ordered by ascending identifier.
    open spec fn view(&self) -> Seq<TodoView> {
        self.state().rows
    }
}

impl TodoRepository {
    /// The abstract state of the table.
    pub closed spec fn state(&self) -> TableState {
        TableState { rows: rows_view(self.rows@), next_id: self.next_id, clock: self.clock }
    }

    pub open spec fn wf(&self) -> bool {
        table_wf(self.state())
    }

    /// An empty table.
    pub fn new() -> (r: TodoRepository)
        ensures
            r.wf(),
            r.state() == (TableState { rows: Seq::empty(), next_id: 0, clock: 0 }),
    {
        let r = TodoRepository { rows: Vec::new(), next_id: 0, clock: 0 };
        assert(r.state().rows =~= Seq::<TodoView>::empty());
        r
    }

    /// The position of the row with this identifier, if any.
    fn position(&self, id: u128) -> (r: Option<usize>)
        requires
            self.wf(),
        ensures
            r is None ==> !has_id(self@, id),
            r matches Some(i) ==> i < self@.len() && i == index_of(self@, id) && has_id(self@, id),
    {
        let mut i: usize = 0;
        while i < self.rows.len()
            invariant
                i <= self.rows.len(),
                self.wf(),
                self@ == rows_view(self.rows@),
                forall|k: int| 0 <= k < i ==> self@[k].id != id,
            decreases self.rows.len() - i,
        {
            if self.rows[i].id == id {
                proof {
                    lemma_index_of(self@, i as int, id);
                    assert(self@[i as int].id == id);
                }
                return Some(i);
            }
            i = i + 1;
        }
        None
    }

    /// The position of a row other than `skip` with this title, if any.
    fn title_position(&self, title: &String, skip: usize) -> (r: Option<usize>)
        ensures
            r is None ==> !title_taken_by_other(self@, skip as int, title@),
            r matches Some(i) ==> title_taken_by_other(self@, skip as int, title@),
    {
        proof {
            assert(self@ == rows_view(self.rows@));
        }
        let mut i: usize = 0;
        while i < self.rows.len()
            invariant
                i <= self.rows.len(),
                self@ == rows_view(self.rows@),
                forall|k: int| 0 <= k < i && k != skip ==> self@[k].title != title@,
            decreases self.rows.len() - i,
        {
            if i != skip && self.rows[i].title == *title {
                assert(self@[i as int].title == title@);
                return Some(i);
            }
            i = i + 1;
        }
        None
    }

    /// Inserts a row, as `store_create` says.
    pub fn create(&mut self, input: TodoListDTO) -> (r: Result<TodoModel, StoreFailure>)
        requires
            old(self).wf(),
        ensures
            final(self).wf(),
            (row_result(r), final(self).state()) == store_create(old(self).state(), input),
    {
        let ghost pre = self.state();
        let ghost inp = input;
        let skip = self.rows.len();
        match self.title_position(&input.title, skip) {
            Some(_) => {
                assert(title_taken(pre.rows, inp.title@));
                return Err(StoreFailure::ConstraintViolation);
            },
            None => {},
        }
        proof {
            assert forall|i: int| 0 <= i < pre.rows.len() implies pre.rows[i].title != inp.title@ by {
                assert(i != skip);
            }
        }
        if self.next_id == u128::MAX || self.clock == i64::MAX {
            return Err(StoreFailure::StoreUnavailable);
        }
        let stamp = self.clock + 1;
        let category = insert_category(&input);
        let t = TodoModel {
            id: self.next_id,
            title: input.title,
            content: input.content,
            category,
            published: false,
            created_at: stamp,
            updated_at: stamp,
        };
        let out = t.duplicate();
        self.rows.push(t);
        self.next_id = self.next_id + 1;
        self.clock = stamp;
        proof {
            assert(out@ == created_row(inp, pre.next_id, stamp));
            assert(rows_view(self.rows@) =~= pre.rows.push(out@));
        }
        Ok(out)
    }

    /// The rows of the window that starts at `offset` and holds at most `limit`
    /// rows, ordered by ascending identifier. An empty table gives an empty list.
    pub fn find_all(&self, limit: usize, offset: usize) -> (r: Result<Vec<TodoModel>, StoreFailure>)
        requires
            self.wf(),
        ensures
            r matches Ok(v) && rows_view(v@) == window(self@, limit as int, offset as int),
    {
        proof {
            assert(self@ == rows_view(self.rows@));
        }
        let mut out: Vec<TodoModel> = Vec::new();
        if offset >= self.rows.len() {
            assert(rows_view(out@) =~= window(self@, limit as int, offset as int));
            return Ok(out);
        }
        let end: usize = if limit >= self.rows.len() - offset {
            self.rows.len()
        } else {
            offset + limit
        };
        let mut i: usize = offset;
        while i < end
            invariant
                offset <= i <= end <= self.rows.len(),
                self@ == rows_view(self.rows@),
                rows_view(out@) =~= self@.subrange(offset as int, i as int),
            decreases end - i,
        {
            let t = self.rows[i].duplicate();
            let ghost before = out@;
            assert(t@ == self@[i as int]);
            out.push(t);
            assert(out@ == before.push(t));
            assert(rows_view(out@) =~= rows_view(before).push(t@));
            i = i + 1;
            assert(rows_view(out@) =~= self@.subrange(offset as int, i as int));
        }
        Ok(out)
    }

    /// The rows with this identifier: one or none.
    pub fn get_by_id(&self, id: u128) -> (r: Result<Vec<TodoModel>, StoreFailure>)
        requires
            self.wf(),
        ensures
            r matches Ok(v) && rows_view(v@) == store_get(self@, id),
    {
        let mut out: Vec<TodoModel> = Vec::new();
        match self.position(id) {
            Some(i) => {
                proof {
                    assert(self@ == rows_view(self.rows@));
                }
                let t = self.rows[i].duplicate();
                out.push(t);
                assert(rows_view(out@) =~= store_get(self@, id));
            },
            None => {
                assert(rows_view(out@) =~= store_get(self@, id));
            },
        }
        Ok(out)
    }

    /// Replaces the fields set in `input` on the row with this identifier, as
    /// `store_update` says.
    pub fn update(&mut self, id: u128, input: UpdateTodoDto) -> (r: Result<TodoModel, StoreFailure>)
        requires
            old(self).wf(),
        ensures
            final(self).wf(),
            (row_result(r), final(self).state()) == store_update(old(self).state(), id, input@),
    {
        let ghost pre = self.state();
        let idx = match self.position(id) {
            Some(i) => i,
            None => {
                return Err(StoreFailure::NotFound);
            },
        };
        proof {
            assert(self@ == rows_view(self.rows@));
        }
        match &input.title {
            Some(t) => {
                match self.title_position(t, idx) {
                    Some(_) => {
                        return Err(StoreFailure::ConstraintViolation);
                    },
                    None => {},
                }
            },
            None => {},
        }
        if self.clock == i64::MAX {
            return Err(StoreFailure::StoreUnavailable);
        }
        let stamp = self.clock + 1;
        let t = merge_update(&self.rows[idx], &input, stamp);
        let out = t.duplicate();
        self.rows.set(idx, t);
        self.clock = stamp;
        proof {
            assert(rows_view(self.rows@) =~= pre.rows.update(idx as int, out@));
            let post = self@;
            assert forall|i: int, j: int|
                0 <= i < post.len() && 0 <= j < post.len() && i != j implies #[trigger] post[i].title
                != #[trigger] post[j].title by {
                if i == idx {
                    assert(!(pre.rows[j].title == post[i].title));
                } else if j == idx {
                    assert(!(pre.rows[i].title == post[j].title));
                }
            }
            assert forall|i: int, j: int| 0 <= i < j < post.len() implies #[trigger] post[i].id
                < #[trigger] post[j].id by {
                assert(pre.rows[i].id < pre.rows[j].id);
            }
        }
        Ok(out)
    }

    /// Removes the row with this identifier, as `store_delete` says: `Ok(true)`
    /// when exactly one row was removed.
    pub fn delete(&mut self, id: u128) -> (r: Result<bool, StoreFailure>)
        requires
            old(self).wf(),
        ensures
            final(self).wf(),
            r matches Ok(b) && (b, final(self).state()) == store_delete(old(self).state(), id),
    {
        let ghost pre = self.state();
        let affected: u64 = match self.position(id) {
            Some(i) => {
                proof {
                    assert(self@ == rows_view(self.rows@));
                }
                self.rows.remove(i);
                proof {
                    assert(rows_view(self.rows@) =~= pre.rows.remove(i as int));
                    let post = self@;
                    assert forall|a: int, b: int| 0 <= a < b < post.len() implies #[trigger] post[a].id
                        < #[trigger] post[b].id by {
                        if a < i {
                            if b < i {
                                assert(pre.rows[a].id < pre.rows[b].id);
                            } else {
                                assert(pre.rows[a].id < pre.rows[b + 1].id);
                            }
                        } else {
                            assert(pre.rows[a + 1].id < pre.rows[b + 1].id);
                        }
                    }
                    assert forall|a: int, b: int|
                        0 <= a < post.len() && 0 <= b < post.len() && a != b implies #[trigger] post[a].title
                        != #[trigger] post[b].title by {
                        let a0 = if a < i { a } else { a + 1 };
                        let b0 = if b < i { b } else { b + 1 };
                        assert(pre.rows[a0].title != pre.rows[b0].title);
                    }
                }
                1
            },
            None => 0,
        };
        Ok(delete_succeeded(affected))
    }
}

} // verus!
