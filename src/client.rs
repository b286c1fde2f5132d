use vstd::prelude::*;

use crate::error::{ApiError, Error};
use crate::json::{field, present, Json, JsonV};
use crate::params::FromJson;

verus! {

/// The HTTP method of a request to the service.
#[derive(Clone, Copy, Debug, PartialEq, Eq, Structural)]
pub enum Method {
    Get,
    Post,
    Delete,
}

/// One call to the service, as the transport is to send it: the method, the
/// path under the API's base, and the parameters (query string for `Get` and
/// `Delete`, form body for `Post`).
#[derive(Debug, PartialEq)]
pub struct Request {
    pub method: Method,
    pub path: String,
    pub params: Json,
}

/// What an operation gives back once the transport has answered.
pub type Response<T> = Result<T, Error>;

/// The string held by the optional member `key`, if it holds one.
pub open spec fn error_text(v: JsonV, key: Seq<char>) -> Option<Seq<char>> {
    match present(field(v, key)) {
        Some(JsonV::Str(s)) => Some(s),
        _ => None,
    }
}

/// The `error` member of a failure body, or `null` when there is none.
pub open spec fn error_body(v: JsonV) -> JsonV {
    match field(v, "error"@) {
        Some(e) => e,
        None => JsonV::Null,
    }
}

/// `a` is the API failure that a response of `status` with `body` reports.
pub open spec fn api_error_of(a: ApiError, status: u16, body: JsonV) -> bool {
    &&& a.status == status
    &&& opt_str(a.kind) == error_text(error_body(body), "type"@)
    &&& opt_str(a.code) == error_text(error_body(body), "code"@)
    &&& opt_str(a.message) == error_text(error_body(body), "message"@)
}

pub open spec fn is_success(status: u16) -> bool {
    200 <= status < 300
}

fn text_member(v: Option<&Json>, key: &str) -> (r: Option<String>)
    ensures
        v is None ==> r is None,
        v matches Some(x) ==> match r {
            Some(s) => error_text(x@, key@) == Some(s@),
            None => error_text(x@, key@) is None,
        },
{
    match v {
        Some(x) => match x.get(key) {
            Some(Json::Str(s)) => Some(s.clone()),
            _ => None,
        },
        None => None,
    }
}

/// Turns the status and body of a response into the expected value or an error.
///
/// A success status reads the body as a `T`; any other status is an API
/// failure carrying the fields of the body's `error` member that are present.
pub fn parse_response<T: FromJson>(status: u16, body: &Json) -> (r: Response<T>)
    ensures
        is_success(status) ==> (r is Ok <==> T::accepts(body@)),
        is_success(status) ==> (r matches Ok(x) ==> x.decoded_from(body@)),
        is_success(status) ==> (r matches Err(e) ==> e is Shape),
        !is_success(status) ==> (r matches Err(Error::Api(a)) && api_error_of(a, status, body@)),
{
    if 200 <= status && status < 300 {
        T::from_json(body)
    } else {
        let e = body.get("error");
        let kind = text_member(e, "type");
        let code = text_member(e, "code");
        let message = text_member(e, "message");
        proof {
            if e is None {
                assert(error_text(JsonV::Null, "type"@) is None);
                assert(error_text(JsonV::Null, "code"@) is None);
                assert(error_text(JsonV::Null, "message"@) is None);
            }
        }
        Err(Error::Api(ApiError { status, kind, code, message }))
    }
}

pub open spec fn opt_str(o: Option<String>) -> Option<Seq<char>> {
    match o {
        Some(s) => Some(s@),
        None => None,
    }
}

} // verus!
