//! Table rows and the handler cores of the database routes.
//!
//! The SQL client itself is the host's business: it hands the outcome of
//! each query in as a plain `Result`, with a failure already rendered as
//! text, and the functions here turn that outcome into the response the
//! route answers with.

use vstd::prelude::*;

verus! {

use vstd::string::StringExecFns;
use crate::api::{ApiResponse, Empty};

/// A row of the `users` table.
#[derive(Debug, PartialEq, Eq, Clone)]
pub struct Users {
    pub id: i64,
    pub name: String,
}

/// A row of the legacy `user` table.
#[derive(Debug, PartialEq, Eq, Clone)]
pub struct User {
    pub id: usize,
    pub name: String,
}

/// A row of the `posts` table.
#[derive(Debug, PartialEq, Eq, Clone)]
pub struct Posts {
    pub id: i64,
    pub title: String,
    pub content: String,
    pub user_id: i64,
}

pub struct GetUserQuery {
    pub name: String,
}

pub struct SetUserQuery {
    pub name: String,
}

pub struct GetPostQuery {
    pub user_id: i64,
    pub title: Option<String>,
}

#[derive(Debug, PartialEq, Eq, Clone)]
pub struct GetPostResponse {
    pub id: i64,
    pub title: String,
    pub content: String,
    pub user_id: i64,
}

/// The `users` row that a name-only request stands for: every other
/// column left at its default.
pub fn user_row(name: String) -> (u: Users)
    ensures
        u.id == 0,
        u.name == name,
{
    Users { id: 0, name }
}

/// The status text reporting a failed query.
fn error_resp(err: String) -> (s: String)
    ensures
        s@ == "Error occur: "@ + err@,
{
    "Error occur: ".to_owned().concat(err.as_str())
}

/// Builds the response for a user lookup from the rows the query
/// returned, or from its failure text.
pub fn get_user(outcome: Result<Vec<Users>, String>) -> (r: ApiResponse<Vec<Users>>)
    ensures
        outcome matches Ok(v) ==> r.code == 0 && r.resp@ == "ok"@ && r.data == v,
        outcome matches Err(e) ==> r.code == 1 && r.resp@ == "Error occur: "@ + e@ && r.data@
            == Seq::<Users>::empty(),
{
    match outcome {
        Ok(v) => ApiResponse { code: 0, resp: "ok".to_owned(), data: v },
        Err(err) => ApiResponse { code: 1, resp: error_resp(err), data: Vec::new() },
    }
}

/// Builds the response for a user insertion from the insertion's
/// outcome.
pub fn set_user(outcome: Result<(), String>) -> (r: ApiResponse<Empty>)
    ensures
        outcome is Ok ==> r.code == 0 && r.resp@ == "ok"@,
        outcome matches Err(e) ==> r.code == 1 && r.resp@ == "Error occur: "@ + e@,
        r.data == Empty,
{
    match outcome {
        Ok(()) => ApiResponse { code: 0, resp: "ok".to_owned(), data: Empty },
        Err(err) => ApiResponse { code: 1, resp: error_resp(err), data: Empty },
    }
}

/// Builds the response for a post insertion from the insertion's
/// outcome.
pub fn get_post(outcome: Result<(), String>) -> (r: ApiResponse<Empty>)
    ensures
        outcome is Ok ==> r.code == 0 && r.resp@ == "ok"@,
        outcome matches Err(e) ==> r.code == 1 && r.resp@ == "Error occur: "@ + e@,
        r.data == Empty,
{
    match outcome {
        Ok(()) => ApiResponse { code: 0, resp: "ok".to_owned(), data: Empty },
        Err(err) => ApiResponse { code: 1, resp: error_resp(err), data: Empty },
    }
}

} // verus!
