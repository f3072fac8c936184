use vstd::prelude::*;
use crate::todo::{Todo, TodoView, get_dummy_data, find_todo, find_by_id, seed};
use crate::response::{HandlerResponse, ReplyView, reply_single, reply_multiple, reply_not_found, reply_missing_field};

verus! {

/// The body of an update request: each field that is present replaces the record's.
#[derive(Debug)]
pub struct TodoUpdate {
    pub title: Option<String>,
    pub completed: Option<bool>,
}

/// The body of a create request: both fields are required.
#[derive(Debug)]
pub struct TodoCreate {
    pub title: Option<String>,
    pub completed: Option<bool>,
}

/// The mathematical value of a request body with two optional fields.
pub struct FieldsView {
    pub title: Option<Seq<char>>,
    pub completed: Option<bool>,
}

pub open spec fn title_view(t: Option<String>) -> Option<Seq<char>> {
    match t {
        Some(s) => Some(s@),
        None => None,
    }
}

impl View for TodoUpdate {
    type V = FieldsView;

    open spec fn view(&self) -> FieldsView {
        FieldsView { title: title_view(self.title), completed: self.completed }
    }
}

impl View for TodoCreate {
    type V = FieldsView;

    open spec fn view(&self) -> FieldsView {
        FieldsView { title: title_view(self.title), completed: self.completed }
    }
}

/// `t` with each field that `u` supplies replaced by it.
pub open spec fn apply_update(t: TodoView, u: FieldsView) -> TodoView {
    TodoView {
        id: t.id,
        title: match u.title {
            Some(s) => s,
            None => t.title,
        },
        completed: match u.completed {
            Some(c) => c,
            None => t.completed,
        },
    }
}

/// The id given to a created record: one past the id of the last seed record.
pub open spec fn next_id() -> u64 {
    (seed().last().id + 1) as u64
}

/// The reply to `GET /todos`.
pub open spec fn all_todos_reply() -> ReplyView {
    reply_multiple(seed())
}

/// The reply to `GET /todo/{id}`.
pub open spec fn todo_by_id_reply(id: u64) -> ReplyView {
    match find_by_id(seed(), id) {
        Some(t) => reply_single(t),
        None => reply_not_found(),
    }
}

/// The reply to `POST /todo/update/{id}` with body `u`.
pub open spec fn update_reply(id: u64, u: FieldsView) -> ReplyView {
    match find_by_id(seed(), id) {
        Some(t) => reply_single(apply_update(t, u)),
        None => reply_not_found(),
    }
}

/// The reply to `POST /todo/create` with body `c`.
pub open spec fn create_reply(c: FieldsView) -> ReplyView {
    match (c.title, c.completed) {
        (Some(title), Some(completed)) => reply_single(
            TodoView { id: next_id(), title, completed },
        ),
        _ => reply_missing_field(),
    }
}

/// The reply to `GET /todo/delete/{id}`: the record that would be removed.
pub open spec fn delete_reply(id: u64) -> ReplyView {
    match find_by_id(seed(), id) {
        Some(t) => reply_single(t),
        None => reply_not_found(),
    }
}

/// `GET /todos`: every seed record, in order.
pub fn get_all_todos() -> (r: HandlerResponse)
    ensures
        r@ == all_todos_reply(),
{
    let data = get_dummy_data();
    HandlerResponse::multiple(data)
}

/// `GET /todo/{id}`: the seed record with that id, or 404.
pub fn get_todo_by_id(id: u64) -> (r: HandlerResponse)
    ensures
        r@ == todo_by_id_reply(id),
{
    let data = get_dummy_data();
    match find_todo(&data, id) {
        Some(t) => HandlerResponse::single(t),
        None => HandlerResponse::not_found(),
    }
}

/// `POST /todo/update/{id}`: a copy of the seed record with that id, with the
/// fields the body supplies replaced, or 404. Nothing is stored.
pub fn update_todo_by_id(id: u64, payload: &TodoUpdate) -> (r: HandlerResponse)
    ensures
        r@ == update_reply(id, payload@),
{
    let data = get_dummy_data();
    let found = find_todo(&data, id);
    match found {
        None => HandlerResponse::not_found(),
        Some(t) => {
            let mut updated = t;
            match &payload.title {
                Some(title) => {
                    updated.title = title.clone();
                },
                None => {},
            }
            match payload.completed {
                Some(completed) => {
                    updated.completed = completed;
                },
                None => {},
            }
            HandlerResponse::single(updated)
        },
    }
}

/// `POST /todo/create`: a new record with the next id and the body's fields,
/// or 400 when a field is missing. Nothing is stored.
pub fn create_todo(payload: &TodoCreate) -> (r: HandlerResponse)
    ensures
        r@ == create_reply(payload@),
{
    let data = get_dummy_data();
    let last_index = data.len() - 1;
    let latest_id = data[last_index].id + 1;
    match (&payload.title, payload.completed) {
        (Some(title), Some(completed)) => {
            let new_todo = Todo { id: latest_id, title: title.clone(), completed };
            HandlerResponse::single(new_todo)
        },
        _ => HandlerResponse::missing_field(),
    }
}

/// `GET /todo/delete/{id}`: the seed record with that id, or 404. Nothing is removed.
pub fn delete_todo_by_id(id: u64) -> (r: HandlerResponse)
    ensures
        r@ == delete_reply(id),
{
    let data = get_dummy_data();
    match find_todo(&data, id) {
        Some(t) => HandlerResponse::single(t),
        None => HandlerResponse::not_found(),
    }
}

} // verus!
