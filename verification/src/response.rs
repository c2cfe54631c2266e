//! HTTP outcomes: how each database result is translated into a
//! status and a body.
//!
//! Success payloads are structured (a record or an array of records;
//! the web layer renders them as JSON); every failure body is plain
//! text. A storage error is answered 500 with the error's own text, a
//! miss 404 with a descriptive text, and a malformed identifier 400 —
//! never a crash.

use vstd::prelude::*;

use crate::user::User;

verus! {

pub const STATUS_OK: u16 = 200;

pub const STATUS_BAD_REQUEST: u16 = 400;

pub const STATUS_NOT_FOUND: u16 = 404;

pub const STATUS_ERROR: u16 = 500;

/// A response body: plain text, one record, or an array of records.
pub enum Body {
    Text(String),
    Json(User),
    JsonList(Vec<User>),
}

/// An HTTP response as far as the service decides it.
pub struct Response {
    pub status: u16,
    pub body: Body,
}

/// Outcome of a create: confirmation text on success, the storage
/// error's text with status 500 otherwise.
pub fn respond_created(outcome: Result<(), String>) -> (r: Response)
    ensures
        outcome is Ok ==> r.status == STATUS_OK,
        outcome is Ok ==> r.body is Text && r.body->Text_0@ == "user added"@,
        outcome is Err ==> r.status == STATUS_ERROR,
        outcome is Err ==> r.body is Text && r.body->Text_0@ == outcome->Err_0@,
{
    match outcome {
        Ok(_) => Response { status: STATUS_OK, body: Body::Text(String::from_str("user added")) },
        Err(e) => Response { status: STATUS_ERROR, body: Body::Text(e) },
    }
}

/// Outcome of a get-by-id: the record found, a 404 naming the
/// identifier, or the storage error's text with status 500.
pub fn respond_found(outcome: Result<Option<User>, String>, id: &str) -> (r: Response)
    ensures
        outcome matches Ok(Some(u)) ==> r.status == STATUS_OK && r.body is Json && r.body->Json_0
            == u,
        outcome matches Ok(None) ==> r.status == STATUS_NOT_FOUND && r.body is Text
            && r.body->Text_0@ == "No user found with id "@ + id@,
        outcome is Err ==> r.status == STATUS_ERROR && r.body is Text && r.body->Text_0@
            == outcome->Err_0@,
{
    match outcome {
        Ok(Some(u)) => Response { status: STATUS_OK, body: Body::Json(u) },
        Ok(None) => Response {
            status: STATUS_NOT_FOUND,
            body: Body::Text(String::from_str("No user found with id ").concat(id)),
        },
        Err(e) => Response { status: STATUS_ERROR, body: Body::Text(e) },
    }
}

/// Outcome of a delete: the removed record, a 404, or the storage
/// error's text with status 500.
pub fn respond_removed(outcome: Result<Option<User>, String>) -> (r: Response)
    ensures
        outcome matches Ok(Some(u)) ==> r.status == STATUS_OK && r.body is Json && r.body->Json_0
            == u,
        outcome matches Ok(None) ==> r.status == STATUS_NOT_FOUND && r.body is Text
            && r.body->Text_0@ == "user not found"@,
        outcome is Err ==> r.status == STATUS_ERROR && r.body is Text && r.body->Text_0@
            == outcome->Err_0@,
{
    match outcome {
        Ok(Some(u)) => Response { status: STATUS_OK, body: Body::Json(u) },
        Ok(None) => Response {
            status: STATUS_NOT_FOUND,
            body: Body::Text(String::from_str("user not found")),
        },
        Err(e) => Response { status: STATUS_ERROR, body: Body::Text(e) },
    }
}

/// Outcome of an update: the record as it was before the update, a
/// 404, or the storage error's text with status 500.
pub fn respond_replaced(outcome: Result<Option<User>, String>) -> (r: Response)
    ensures
        outcome matches Ok(Some(u)) ==> r.status == STATUS_OK && r.body is Json && r.body->Json_0
            == u,
        outcome matches Ok(None) ==> r.status == STATUS_NOT_FOUND && r.body is Text
            && r.body->Text_0@ == "No user found"@,
        outcome is Err ==> r.status == STATUS_ERROR && r.body is Text && r.body->Text_0@
            == outcome->Err_0@,
{
    match outcome {
        Ok(Some(u)) => Response { status: STATUS_OK, body: Body::Json(u) },
        Ok(None) => Response {
            status: STATUS_NOT_FOUND,
            body: Body::Text(String::from_str("No user found")),
        },
        Err(e) => Response { status: STATUS_ERROR, body: Body::Text(e) },
    }
}

/// A malformed path identifier is rejected with status 400, naming
/// the offending string — never by aborting.
pub fn respond_bad_id(id: &str) -> (r: Response)
    ensures
        r.status == STATUS_BAD_REQUEST,
        r.body is Text && r.body->Text_0@ == "invalid id "@ + id@,
{
    Response {
        status: STATUS_BAD_REQUEST,
        body: Body::Text(String::from_str("invalid id ").concat(id)),
    }
}

/// The full set of records as a 200 array response.
pub fn respond_listed(users: Vec<User>) -> (r: Response)
    ensures
        r.status == STATUS_OK,
        r.body is JsonList && r.body->JsonList_0 == users,
{
    Response { status: STATUS_OK, body: Body::JsonList(users) }
}

/// The list scan's decision: records are collected in order until the
/// first record that fails to decode; that record's error text wins
/// and everything already collected is discarded.
pub fn collect_scan(items: Vec<Result<User, String>>) -> (r: Result<Vec<User>, String>)
    ensures
        r is Ok <==> (forall|i: int| 0 <= i < items@.len() ==> (#[trigger] items@[i]) is Ok),
        r is Ok ==> r->Ok_0@.len() == items@.len(),
        r is Ok ==> forall|i: int|
            0 <= i < items@.len() ==> (#[trigger] r->Ok_0@[i])@ == items@[i]->Ok_0@,
        r is Err ==> exists|i: int|
            0 <= i < items@.len() && (#[trigger] items@[i]) is Err && r->Err_0@
                == items@[i]->Err_0@ && (forall|j: int| 0 <= j < i ==> items@[j] is Ok),
{
    let mut out: Vec<User> = Vec::new();
    let mut i: usize = 0;
    while i < items.len()
        invariant
            0 <= i <= items@.len(),
            out@.len() == i,
            forall|j: int| 0 <= j < i ==> (#[trigger] items@[j]) is Ok,
            forall|j: int| 0 <= j < i ==> (#[trigger] out@[j])@ == items@[j]->Ok_0@,
        decreases items@.len() - i,
    {
        match &items[i] {
            Ok(u) => out.push(u.clone()),
            Err(e) => {
                return Err(e.clone());
            },
        }
        i += 1;
    }
    Ok(out)
}

} // verus!
