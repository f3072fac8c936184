use vstd::prelude::*;
use crate::todo::{Todo, TodoView, todos_view};

verus! {

/// The `status` field of every envelope.
#[derive(PartialEq, Eq, Structural, Clone, Copy, Debug)]
pub enum ResponseStatus {
    Success,
    Error,
}

/// The `data` field of a success envelope: one record or a list of them.
#[derive(Debug)]
pub enum ResponseData {
    Single(Todo),
    Multiple(Vec<Todo>),
}

/// A success envelope, `{status, data}`.
#[derive(Debug)]
pub struct ResponseSuccess {
    pub status: ResponseStatus,
    pub data: ResponseData,
}

/// An error envelope, `{status, message}`.
#[derive(Debug)]
pub struct ResponseError {
    pub status: ResponseStatus,
    pub message: String,
}

/// The body of a reply: one of the two envelopes.
#[derive(Debug)]
pub enum ResponseBody {
    Success(ResponseSuccess),
    Error(ResponseError),
}

/// What a handler answers: an HTTP status code and an envelope.
#[derive(Debug)]
pub struct HandlerResponse {
    pub code: u16,
    pub body: ResponseBody,
}

pub enum PayloadView {
    Single(TodoView),
    Multiple(Seq<TodoView>),
}

pub enum BodyView {
    Success { status: ResponseStatus, data: PayloadView },
    Error { status: ResponseStatus, message: Seq<char> },
}

pub struct ReplyView {
    pub code: u16,
    pub body: BodyView,
}

impl View for ResponseData {
    type V = PayloadView;

    open spec fn view(&self) -> PayloadView {
        match self {
            ResponseData::Single(t) => PayloadView::Single(t@),
            ResponseData::Multiple(v) => PayloadView::Multiple(todos_view(v@)),
        }
    }
}

impl View for ResponseBody {
    type V = BodyView;

    open spec fn view(&self) -> BodyView {
        match self {
            ResponseBody::Success(s) => BodyView::Success { status: s.status, data: s.data@ },
            ResponseBody::Error(e) => BodyView::Error { status: e.status, message: e.message@ },
        }
    }
}

impl View for HandlerResponse {
    type V = ReplyView;

    open spec fn view(&self) -> ReplyView {
        ReplyView { code: self.code, body: self.body@ }
    }
}

/// HTTP 200 with one record.
pub open spec fn reply_single(t: TodoView) -> ReplyView {
    ReplyView {
        code: 200,
        body: BodyView::Success { status: ResponseStatus::Success, data: PayloadView::Single(t) },
    }
}

/// HTTP 200 with a list of records.
pub open spec fn reply_multiple(s: Seq<TodoView>) -> ReplyView {
    ReplyView {
        code: 200,
        body: BodyView::Success { status: ResponseStatus::Success, data: PayloadView::Multiple(s) },
    }
}

/// HTTP 404, `"Data not found"`.
pub open spec fn reply_not_found() -> ReplyView {
    ReplyView {
        code: 404,
        body: BodyView::Error { status: ResponseStatus::Error, message: "Data not found"@ },
    }
}

/// HTTP 400, `"Missing required field"`.
pub open spec fn reply_missing_field() -> ReplyView {
    ReplyView {
        code: 400,
        body: BodyView::Error { status: ResponseStatus::Error, message: "Missing required field"@ },
    }
}

impl HandlerResponse {
    pub fn single(t: Todo) -> (r: HandlerResponse)
        ensures
            r@ == reply_single(t@),
    {
        HandlerResponse {
            code: 200,
            body: ResponseBody::Success(
                ResponseSuccess { status: ResponseStatus::Success, data: ResponseData::Single(t) },
            ),
        }
    }

    pub fn multiple(v: Vec<Todo>) -> (r: HandlerResponse)
        ensures
            r@ == reply_multiple(todos_view(v@)),
    {
        HandlerResponse {
            code: 200,
            body: ResponseBody::Success(
                ResponseSuccess { status: ResponseStatus::Success, data: ResponseData::Multiple(v) },
            ),
        }
    }

    pub fn not_found() -> (r: HandlerResponse)
        ensures
            r@ == reply_not_found(),
    {
        HandlerResponse {
            code: 404,
            body: ResponseBody::Error(
                ResponseError { status: ResponseStatus::Error, message: "Data not found".to_string() },
            ),
        }
    }

    pub fn missing_field() -> (r: HandlerResponse)
        ensures
            r@ == reply_missing_field(),
    {
        HandlerResponse {
            code: 400,
            body: ResponseBody::Error(
                ResponseError {
                    status: ResponseStatus::Error,
                    message: "Missing required field".to_string(),
                },
            ),
        }
    }
}

} // verus!
