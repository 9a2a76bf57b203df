use vstd::prelude::*;

verus! {

/// A persisted todo row. The identifier is the 128-bit value of the row's UUID;
/// timestamps are ticks of the store's write clock.
#[derive(Debug)]
pub struct TodoModel {
    pub id: u128,
    pub title: String,
    pub content: String,
    pub category: String,
    pub published: bool,
    pub created_at: i64,
    pub updated_at: i64,
}

/// The mathematical value of a row.
pub ghost struct TodoView {
    pub id: u128,
    pub title: Seq<char>,
    pub content: Seq<char>,
    pub category: Seq<char>,
    pub published: bool,
    pub created_at: i64,
    pub updated_at: i64,
}

impl View for TodoModel {
    type V = TodoView;

    open spec fn view(&self) -> TodoView {
        TodoView {
            id: self.id,
            title: self.title@,
            content: self.content@,
            category: self.category@,
            published: self.published,
            created_at: self.created_at,
            updated_at: self.updated_at,
        }
    }
}

impl TodoModel {
    /// A copy of the row with the same value.
    pub fn duplicate(&self) -> (r: TodoModel)
        ensures
            r@ == self@,
    {
        TodoModel {
            id: self.id,
            title: self.title.clone(),
            content: self.content.clone(),
            category: self.category.clone(),
            published: self.published,
            created_at: self.created_at,
            updated_at: self.updated_at,
        }
    }
}

/// The views of a sequence of rows.
pub open spec fn rows_view(rows: Seq<TodoModel>) -> Seq<TodoView> {
    rows.map_values(|t: TodoModel| t@)
}

/// The body of a create request: the category may be left out.
#[derive(Debug)]
pub struct TodoListDTO {
    pub title: String,
    pub content: String,
    pub category: Option<String>,
}

/// The body of a partial update: each field that is present replaces the stored one.
#[derive(Debug)]
pub struct UpdateTodoDto {
    pub title: Option<String>,
    pub content: Option<String>,
    pub category: Option<String>,
    pub published: Option<bool>,
}

/// The optional query parameters of a list request.
#[derive(Debug)]
pub struct FilterOptions {
    pub page: Option<usize>,
    pub limit: Option<usize>,
}

pub open spec fn opt_text(o: Option<String>) -> Option<Seq<char>> {
    match o {
        Some(s) => Some(s@),
        None => None,
    }
}

/// The mathematical value of a partial update.
pub ghost struct UpdateView {
    pub title: Option<Seq<char>>,
    pub content: Option<Seq<char>>,
    pub category: Option<Seq<char>>,
    pub published: Option<bool>,
}

impl View for UpdateTodoDto {
    type V = UpdateView;

    open spec fn view(&self) -> UpdateView {
        UpdateView {
            title: opt_text(self.title),
            content: opt_text(self.content),
            category: opt_text(self.category),
            published: self.published,
        }
    }
}

impl UpdateView {
    /// No field is set.
    pub open spec fn is_empty(self) -> bool {
        self.title is None && self.content is None && self.category is None
            && self.published is None
    }
}

/// The category stored for a create request: empty when it was left out.
pub open spec fn category_or_default(c: Option<Seq<char>>) -> Seq<char> {
    match c {
        Some(s) => s,
        None => Seq::empty(),
    }
}

/// The row that a partial update writes over `cur`, stamped with `stamp`.
pub open spec fn merged(cur: TodoView, input: UpdateView, stamp: i64) -> TodoView {
    TodoView {
        id: cur.id,
        title: match input.title {
            Some(t) => t,
            None => cur.title,
        },
        content: match input.content {
            Some(c) => c,
            None => cur.content,
        },
        category: match input.category {
            Some(c) => c,
            None => cur.category,
        },
        published: match input.published {
            Some(p) => p,
            None => cur.published,
        },
        created_at: cur.created_at,
        updated_at: stamp,
    }
}

/// Writes the row that a partial update stores: each field present in `input`
/// replaces the stored one, and `updated_at` becomes `stamp`.
pub fn merge_update(cur: &TodoModel, input: &UpdateTodoDto, stamp: i64) -> (r: TodoModel)
    ensures
        r@ == merged(cur@, input@, stamp),
{
    let title = match &input.title {
        Some(t) => t.clone(),
        None => cur.title.clone(),
    };
    let content = match &input.content {
        Some(c) => c.clone(),
        None => cur.content.clone(),
    };
    let category = match &input.category {
        Some(c) => c.clone(),
        None => cur.category.clone(),
    };
    let published = match input.published {
        Some(p) => p,
        None => cur.published,
    };
    TodoModel {
        id: cur.id,
        title,
        content,
        category,
        published,
        created_at: cur.created_at,
        updated_at: stamp,
    }
}

/// The category that a create request stores: the given one, or the empty string.
pub fn insert_category(input: &TodoListDTO) -> (r: String)
    ensures
        r@ == category_or_default(opt_text(input.category)),
{
    match &input.category {
        Some(c) => c.clone(),
        None => String::new(),
    }
}

} // verus!
