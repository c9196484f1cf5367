use vstd::prelude::*;

use crate::metrics::{bumped, Counters};
use crate::store::StorageError;
use crate::todo::{Row, TodoItem};

verus! {

/// Status of a successful response.
pub const STATUS_OK: u16 = 200;

/// Status of every failed response.
pub const STATUS_SERVER_ERROR: u16 = 500;

/// Content type of the metrics exposition text.
pub const EXPOSITION_CONTENT_TYPE: &'static str = "text/plain; version=0.0.4";

/// Content type of a JSON body.
pub const JSON_CONTENT_TYPE: &'static str = "application/json";

/// Failure to write the metrics exposition.
#[derive(Debug, PartialEq, Eq, Structural, Clone, Copy)]
pub struct EncodingError;

/// What a response carries; the server turns it into bytes.
#[derive(Debug)]
pub enum Body {
    /// No body.
    Empty,
    /// One item, as JSON.
    Item(TodoItem),
    /// A list of items, as a JSON array.
    Items(Vec<TodoItem>),
    /// The metrics exposition text.
    Exposition(String),
}

impl Body {
    /// The content type that the body is served with, if it has one.
    pub fn content_type(&self) -> (r: Option<&'static str>)
        ensures
            self is Empty ==> r is None,
            self is Item || self is Items ==> r == Some(JSON_CONTENT_TYPE),
            self is Exposition ==> r == Some(EXPOSITION_CONTENT_TYPE),
    {
        match self {
            Body::Empty => None,
            Body::Item(_) => Some(JSON_CONTENT_TYPE),
            Body::Items(_) => Some(JSON_CONTENT_TYPE),
            Body::Exposition(_) => Some(EXPOSITION_CONTENT_TYPE),
        }
    }
}

/// A response of one of the endpoints.
#[derive(Debug)]
pub struct Response {
    pub status: u16,
    pub body: Body,
}

/// A 200 response whose body is the given item.
pub open spec fn is_item_response(r: Response, row: Row) -> bool {
    &&& r.status == STATUS_OK
    &&& r.body is Item
    &&& r.body->Item_0@ == row
}

/// A 200 response without a body.
pub open spec fn is_empty_ok(r: Response) -> bool {
    r.status == STATUS_OK && r.body is Empty
}

/// The opaque failure: a 500 response without a body.
pub open spec fn is_server_error(r: Response) -> bool {
    r.status == STATUS_SERVER_ERROR && r.body is Empty
}

/// The response to a list request, from what the store returned.
pub fn list_response(result: Result<Vec<TodoItem>, StorageError>) -> (r: Response)
    ensures
        match result {
            Ok(items) => r == (Response { status: STATUS_OK, body: Body::Items(items) }),
            Err(_) => is_server_error(r),
        },
{
    match result {
        Ok(items) => Response { status: STATUS_OK, body: Body::Items(items) },
        Err(_) => Response { status: STATUS_SERVER_ERROR, body: Body::Empty },
    }
}

/// The response to a create request, from the id that the store assigned;
/// a successful insert is counted.
pub fn create_response(counters: &mut Counters, title: String, result: Result<i32, StorageError>) -> (r:
    Response)
    ensures
        match result {
            Ok(id) => {
                &&& is_item_response(r, (id, title@, false))
                &&& final(counters).created_total == bumped(old(counters).created_total)
                &&& final(counters).completed_total == old(counters).completed_total
            },
            Err(_) => is_server_error(r) && *final(counters) == *old(counters),
        },
{
    match result {
        Ok(id) => {
            counters.record_created();
            Response { status: STATUS_OK, body: Body::Item(TodoItem { id, title, completed: false }) }
        },
        Err(_) => Response { status: STATUS_SERVER_ERROR, body: Body::Empty },
    }
}

/// The response to an update request, from the store's outcome; a
/// successful update that set the flag to `true` is counted.
pub fn update_response(counters: &mut Counters, completed: bool, result: Result<(), StorageError>) -> (r:
    Response)
    ensures
        match result {
            Ok(_) => {
                &&& is_empty_ok(r)
                &&& final(counters).created_total == old(counters).created_total
                &&& final(counters).completed_total == if completed {
                    bumped(old(counters).completed_total)
                } else {
                    old(counters).completed_total
                }
            },
            Err(_) => is_server_error(r) && *final(counters) == *old(counters),
        },
{
    match result {
        Ok(_) => {
            counters.record_update(completed);
            Response { status: STATUS_OK, body: Body::Empty }
        },
        Err(_) => Response { status: STATUS_SERVER_ERROR, body: Body::Empty },
    }
}

/// The response to a delete request, from the store's outcome.
pub fn delete_response(result: Result<(), StorageError>) -> (r: Response)
    ensures
        result is Ok ==> is_empty_ok(r),
        result is Err ==> is_server_error(r),
{
    match result {
        Ok(_) => Response { status: STATUS_OK, body: Body::Empty },
        Err(_) => Response { status: STATUS_SERVER_ERROR, body: Body::Empty },
    }
}

/// The response to a metrics request, from the encoder's outcome: the
/// exposition text, or the opaque failure.
pub fn metrics_response(encoded: Result<String, EncodingError>) -> (r: Response)
    ensures
        match encoded {
            Ok(text) => r == (Response { status: STATUS_OK, body: Body::Exposition(text) }),
            Err(_) => is_server_error(r),
        },
{
    match encoded {
        Ok(text) => Response { status: STATUS_OK, body: Body::Exposition(text) },
        Err(_) => Response { status: STATUS_SERVER_ERROR, body: Body::Empty },
    }
}

} // verus!
