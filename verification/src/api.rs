//! The response envelope every route answers with, and the handler cores
//! of the plain index routes.

use vstd::prelude::*;

verus! {

/// The envelope of every JSON answer: an application status code, a short
/// status text, and the payload.
#[derive(Debug, PartialEq, Eq, Clone)]
pub struct ApiResponse<T> {
    pub code: isize,
    pub resp: String,
    pub data: T,
}

impl<T> ApiResponse<T> {
    /// The same response with the status code replaced.
    pub fn code(self, code: isize) -> (r: Self)
        ensures
            r.code == code,
            r.resp == self.resp,
            r.data == self.data,
    {
        ApiResponse { code, resp: self.resp, data: self.data }
    }

    /// The same response with the status text replaced.
    pub fn resp(self, resp: String) -> (r: Self)
        ensures
            r.code == self.code,
            r.resp == resp,
            r.data == self.data,
    {
        ApiResponse { code: self.code, resp, data: self.data }
    }

    /// The same response with the payload replaced.
    pub fn data(self, data: T) -> (r: Self)
        ensures
            r.code == self.code,
            r.resp == self.resp,
            r.data == data,
    {
        ApiResponse { code: self.code, resp: self.resp, data }
    }
}

/// An empty payload, standing for `null`.
#[derive(Debug, PartialEq, Eq, Clone)]
pub struct Empty;

/// The liveness probe's answer.
pub fn is_alive() -> (r: ApiResponse<String>)
    ensures
        r.code == 200,
        r.resp@ == "ok"@,
        r.data@ == "Server is alive!"@,
{
    ApiResponse { code: 200, resp: "ok".to_owned(), data: "Server is alive!".to_owned() }
}

pub struct UserResp {
    pub id: usize,
    pub name: String,
    pub email: Option<String>,
}

pub struct GetUserQuery {
    pub name: String,
}

/// The answer of the user-listing probe route: it echoes the requested
/// name back as a fixed sample row.
pub fn get_users(query: GetUserQuery) -> (r: ApiResponse<UserResp>)
    ensures
        r.code == 200,
        r.resp@ == "ok"@,
        r.data.id == 1,
        r.data.name == query.name,
        r.data.email is None,
{
    ApiResponse {
        code: 200,
        resp: "ok".to_owned(),
        data: UserResp { id: 1, name: query.name, email: None },
    }
}

/// The answer of the user-storing probe route.
pub fn set_users() -> (r: ApiResponse<Empty>)
    ensures
        r.code == 0,
        r.resp@ == "ok"@,
        r.data == Empty,
{
    ApiResponse { code: 0, resp: "ok".to_owned(), data: Empty }
}

} // verus!
