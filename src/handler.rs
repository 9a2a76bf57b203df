use vstd::prelude::*;
use crate::model::{rows_view, FilterOptions, TodoListDTO, TodoModel, TodoView, UpdateTodoDto};
use crate::repository::{row_result, window};
use crate::service::{
    reason_text, service_create, service_delete, service_get, service_update, TodoError,
    TodoService,
};

verus! {

/// The `status` field of a response envelope: `Fail` is an expected domain
/// condition, `Error` an unexpected internal one.
#[derive(Debug, Clone, Copy, PartialEq, Eq, Structural)]
pub enum EnvelopeStatus {
    Success,
    Fail,
    Error,
}

impl EnvelopeStatus {
    /// The text written in the envelope.
    pub fn as_text(&self) -> (r: &'static str)
        ensures
            r@ == status_text(*self),
    {
        match self {
            EnvelopeStatus::Success => "success",
            EnvelopeStatus::Fail => "fail",
            EnvelopeStatus::Error => "error",
        }
    }
}

pub open spec fn status_text(s: EnvelopeStatus) -> Seq<char> {
    match s {
        EnvelopeStatus::Success => "success"@,
        EnvelopeStatus::Fail => "fail"@,
        EnvelopeStatus::Error => "error"@,
    }
}

/// The body of a response.
#[derive(Debug)]
pub enum Body {
    /// Plain text.
    Text(String),
    /// `{status, message}`.
    Message(EnvelopeStatus, String),
    /// `{status: "success", data: {todo}}`.
    Todo(TodoModel),
    /// `{status: "success", data: {note}}`.
    Note(TodoModel),
    /// `{status: "success", results, todo: [...]}`, where `results` is the count.
    List(Vec<TodoModel>),
    /// No body.
    Empty,
}

pub ghost enum BodyView {
    Text(Seq<char>),
    Message(EnvelopeStatus, Seq<char>),
    Todo(TodoView),
    Note(TodoView),
    List(Seq<TodoView>),
    Empty,
}

impl View for Body {
    type V = BodyView;

    open spec fn view(&self) -> BodyView {
        match self {
            Body::Text(s) => BodyView::Text(s@),
            Body::Message(st, m) => BodyView::Message(*st, m@),
            Body::Todo(t) => BodyView::Todo(t@),
            Body::Note(t) => BodyView::Note(t@),
            Body::List(v) => BodyView::List(rows_view(v@)),
            Body::Empty => BodyView::Empty,
        }
    }
}

/// An HTTP status code with its body.
#[derive(Debug)]
pub struct ApiResponse {
    pub status: u16,
    pub body: Body,
}

impl View for ApiResponse {
    type V = (u16, BodyView);

    open spec fn view(&self) -> (u16, BodyView) {
        (self.status, self.body@)
    }
}

pub const DEFAULT_LIMIT: usize = 10;

pub const DEFAULT_PAGE: usize = 1;

/// The answer of the root path.
pub fn root_handler() -> (r: ApiResponse)
    ensures
        r@ == (200u16, BodyView::Text("Hello, World!"@)),
{
    ApiResponse { status: 200, body: Body::Text(String::from_str("Hello, World!")) }
}

/// The liveness probe: always a success envelope with a fixed message.
pub fn health_checker_handler() -> (r: ApiResponse)
    ensures
        r@ == (200u16, BodyView::Message(
            EnvelopeStatus::Success,
            "Simple CRUD API with Rust, SQLX, Postgres,and Axum"@,
        )),
{
    ApiResponse {
        status: 200,
        body: Body::Message(
            EnvelopeStatus::Success,
            String::from_str("Simple CRUD API with Rust, SQLX, Postgres,and Axum"),
        ),
    }
}

pub open spec fn limit_of(opts: FilterOptions) -> int {
    match opts.limit {
        Some(l) => l as int,
        None => DEFAULT_LIMIT as int,
    }
}

pub open spec fn page_of(opts: FilterOptions) -> int {
    match opts.page {
        Some(p) => p as int,
        None => DEFAULT_PAGE as int,
    }
}

/// The `(limit, offset)` window of a list request, `offset` being
/// `(page - 1) * limit`; none for page 0 or an offset past `usize`.
pub open spec fn page_window_spec(opts: FilterOptions) -> Option<(usize, usize)> {
    let limit = limit_of(opts);
    let page = page_of(opts);
    if page >= 1 && (page - 1) * limit <= usize::MAX {
        Some((limit as usize, ((page - 1) * limit) as usize))
    } else {
        None
    }
}

/// The `(limit, offset)` window of a list request: `limit` defaults to 10,
/// `page` to 1, and `offset` is `(page - 1) * limit`. Page 0, and a page whose
/// offset does not fit, give none.
pub fn page_window(opts: &FilterOptions) -> (r: Option<(usize, usize)>)
    ensures
        r == page_window_spec(*opts),
{
    let limit: usize = match opts.limit {
        Some(l) => l,
        None => DEFAULT_LIMIT,
    };
    let page: usize = match opts.page {
        Some(p) => p,
        None => DEFAULT_PAGE,
    };
    if page == 0 {
        return None;
    }
    match (page - 1).checked_mul(limit) {
        Some(offset) => Some((limit, offset)),
        None => None,
    }
}

pub open spec fn create_response_spec(r: Result<TodoView, TodoError>) -> (u16, BodyView) {
    match r {
        Ok(t) => (201u16, BodyView::Todo(t)),
        Err(e) => if e == TodoError::TitleExists {
            (409u16, BodyView::Message(EnvelopeStatus::Fail, reason_text(e)))
        } else {
            (500u16, BodyView::Message(EnvelopeStatus::Error, reason_text(e)))
        },
    }
}

/// The response to a create: 201 with the new todo, 409 on a title conflict,
/// 500 on any other failure.
pub fn create_response(r: Result<TodoModel, TodoError>) -> (out: ApiResponse)
    ensures
        out@ == create_response_spec(row_result(r)),
{
    match r {
        Ok(t) => ApiResponse { status: 201, body: Body::Todo(t) },
        Err(e) => {
            let m = e.message();
            if e == TodoError::TitleExists {
                ApiResponse { status: 409, body: Body::Message(EnvelopeStatus::Fail, m) }
            } else {
                ApiResponse { status: 500, body: Body::Message(EnvelopeStatus::Error, m) }
            }
        },
    }
}

pub open spec fn list_failure_text() -> Seq<char> {
    "Something bad happened while fetching all note items"@
}

/// The response to a list: 200 with the entries, or 500 with a generic message.
pub fn list_response(r: Result<Vec<TodoModel>, TodoError>) -> (out: ApiResponse)
    ensures
        r matches Ok(v) ==> out@ == (200u16, BodyView::List(rows_view(v@))),
        r is Err ==> out@ == (500u16, BodyView::Message(EnvelopeStatus::Fail, list_failure_text())),
{
    match r {
        Ok(v) => ApiResponse { status: 200, body: Body::List(v) },
        Err(_) => ApiResponse {
            status: 500,
            body: Body::Message(
                EnvelopeStatus::Fail,
                String::from_str("Something bad happened while fetching all note items"),
            ),
        },
    }
}

pub open spec fn invalid_page_text() -> Seq<char> {
    "Page must be at least 1 and the offset must fit"@
}

/// The response to a list request whose page cannot be served.
pub fn invalid_page_response() -> (out: ApiResponse)
    ensures
        out@ == (400u16, BodyView::Message(EnvelopeStatus::Fail, invalid_page_text())),
{
    ApiResponse {
        status: 400,
        body: Body::Message(
            EnvelopeStatus::Fail,
            String::from_str("Page must be at least 1 and the offset must fit"),
        ),
    }
}

pub open spec fn get_response_spec(r: Result<TodoView, TodoError>) -> (u16, BodyView) {
    match r {
        Ok(t) => (200u16, BodyView::Todo(t)),
        Err(e) => (404u16, BodyView::Message(EnvelopeStatus::Fail, reason_text(e))),
    }
}

/// The response to a lookup: 200 with the todo, or 404 with the reason.
pub fn get_response(r: Result<TodoModel, TodoError>) -> (out: ApiResponse)
    ensures
        out@ == get_response_spec(row_result(r)),
{
    match r {
        Ok(t) => ApiResponse { status: 200, body: Body::Todo(t) },
        Err(e) => ApiResponse {
            status: 404,
            body: Body::Message(EnvelopeStatus::Fail, e.message()),
        },
    }
}

pub open spec fn update_response_spec(r: Result<TodoView, TodoError>) -> (u16, BodyView) {
    match r {
        Ok(t) => (200u16, BodyView::Note(t)),
        Err(e) => (500u16, BodyView::Message(EnvelopeStatus::Error, reason_text(e))),
    }
}

/// The response to an update: 200 with the updated todo, or 500 with the
/// reason, which names the identifier and no store detail.
pub fn update_response(r: Result<TodoModel, TodoError>) -> (out: ApiResponse)
    ensures
        out@ == update_response_spec(row_result(r)),
{
    match r {
        Ok(t) => ApiResponse { status: 200, body: Body::Note(t) },
        Err(e) => ApiResponse {
            status: 500,
            body: Body::Message(EnvelopeStatus::Error, e.message()),
        },
    }
}

pub open spec fn delete_response_spec(r: Option<TodoError>) -> (u16, BodyView) {
    match r {
        Some(e) => (404u16, BodyView::Message(EnvelopeStatus::Fail, reason_text(e))),
        None => (204u16, BodyView::Empty),
    }
}

/// The response to a delete: 204 with no body, or 404 with the reason.
pub fn delete_response(r: Option<TodoError>) -> (out: ApiResponse)
    ensures
        out@ == delete_response_spec(r),
{
    match r {
        Some(e) => ApiResponse {
            status: 404,
            body: Body::Message(EnvelopeStatus::Fail, e.message()),
        },
        None => ApiResponse { status: 204, body: Body::Empty },
    }
}

/// POST /todo: creates the todo and shapes the answer.
pub fn create_todo_handler(service: &mut TodoService, body: TodoListDTO) -> (r: ApiResponse)
    requires
        old(service).wf(),
    ensures
        final(service).wf(),
        final(service).state() == service_create(old(service).state(), body).1,
        r@ == create_response_spec(service_create(old(service).state(), body).0),
{
    let res = service.create_note(body);
    create_response(res)
}

/// GET /todos: lists the window that `limit` and `page` select.
pub fn findall_todo_handler(service: &mut TodoService, opts: FilterOptions) -> (r: ApiResponse)
    requires
        old(service).wf(),
    ensures
        final(service).wf(),
        final(service).state() == old(service).state(),
        page_window_spec(opts) is None ==> r@ == (400u16, BodyView::Message(
            EnvelopeStatus::Fail,
            invalid_page_text(),
        )),
        page_window_spec(opts) matches Some(w) ==> r@ == (200u16, BodyView::List(
            window(old(service).state().rows, w.0 as int, w.1 as int),
        )),
{
    match page_window(&opts) {
        Some((limit, offset)) => {
            let res = service.find_all_note(limit, offset);
            list_response(res)
        },
        None => invalid_page_response(),
    }
}

/// GET /todo/{id}: the todo with this identifier.
pub fn get_by_id_todo_handler(service: &mut TodoService, id: u128) -> (r: ApiResponse)
    requires
        old(service).wf(),
    ensures
        final(service).wf(),
        final(service).state() == old(service).state(),
        r@ == get_response_spec(service_get(old(service).state(), id)),
{
    let res = service.get_note(id);
    get_response(res)
}

/// PATCH /todo/{id}: applies the partial update.
pub fn update_todo_handler(service: &mut TodoService, id: u128, body: UpdateTodoDto) -> (r: ApiResponse)
    requires
        old(service).wf(),
    ensures
        final(service).wf(),
        final(service).state() == service_update(old(service).state(), id, body@).1,
        r@ == update_response_spec(service_update(old(service).state(), id, body@).0),
{
    let res = service.update_note(id, body);
    update_response(res)
}

/// DELETE /todo/{id}: removes the todo with this identifier.
pub fn delete_todo_handler(service: &mut TodoService, id: u128) -> (r: ApiResponse)
    requires
        old(service).wf(),
    ensures
        final(service).wf(),
        final(service).state() == service_delete(old(service).state(), id).1,
        r@ == delete_response_spec(service_delete(old(service).state(), id).0),
{
    let res = service.delete_note(id);
    delete_response(res)
}

} // verus!
