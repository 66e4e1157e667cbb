//! Requests, notifications and responses, as they appear on the wire.
//!
//! `method` and `params` stay raw in a request so a server can tell an unknown method from
//! parameters it could not parse. A request for a call is built from the call's kind and its
//! encoded parameters, so its method can only be that call's.
use vstd::prelude::*;

use crate::call::{call_for_method, method_name, method_name_reads_back, CallKind};
use crate::code;
use crate::error::{Error, Id};
use crate::text::str_eq;
use crate::JSONRPC_VERSION;

verus! {

broadcast use vstd::string::group_string_axioms;

/// A request or a notification.
#[derive(Debug, Clone, PartialEq)]
pub struct Request {
    pub jsonrpc: String,
    /// Absent on a notification.
    pub id: Option<Id>,
    pub method: String,
    pub params: Option<serde_json::Value>,
}

impl Request {
    /// A call, answered under `id`. `params` is the call's parameters as the wire encodes them.
    pub fn call(id: Id, kind: CallKind, params: serde_json::Value) -> (r: Request)
        ensures
            r.jsonrpc@ == JSONRPC_VERSION@,
            r.id == Some(id),
            r.method@ == method_name(kind),
            r.params == Some(params),
    {
        Request {
            jsonrpc: String::from_str(JSONRPC_VERSION),
            id: Some(id),
            method: String::from_str(kind.method()),
            params: Some(params),
        }
    }

    /// A call sent as a notification: no `id`, so no response is expected. This is how
    /// continuous intents travel.
    pub fn notify(kind: CallKind, params: serde_json::Value) -> (r: Request)
        ensures
            r.jsonrpc@ == JSONRPC_VERSION@,
            r.id is None,
            r.method@ == method_name(kind),
            r.params == Some(params),
    {
        Request {
            jsonrpc: String::from_str(JSONRPC_VERSION),
            id: None,
            method: String::from_str(kind.method()),
            params: Some(params),
        }
    }

    /// A server-to-client notification — `robot.state`, `pad.report`, `tof.frame`,
    /// `update.progress` — carrying `params`.
    pub fn notification(method_name: &str, params: serde_json::Value) -> (r: Request)
        ensures
            r.jsonrpc@ == JSONRPC_VERSION@,
            r.id is None,
            r.method@ == method_name@,
            r.params == Some(params),
    {
        Request {
            jsonrpc: String::from_str(JSONRPC_VERSION),
            id: None,
            method: String::from_str(method_name),
            params: Some(params),
        }
    }

    /// Whether this request is for `method_name` — how a notification is recognised before its
    /// parameters are read.
    pub fn carries(&self, method_name: &str) -> (r: bool)
        ensures
            r == (self.method@ == method_name@),
    {
        str_eq(self.method.as_str(), method_name)
    }

    pub fn is_notification(&self) -> (r: bool)
        ensures
            r == (self.id is None),
    {
        self.id.is_none()
    }
}

/// A request built for a call reads back as that call: its method names the call's kind and no
/// other, and its parameters are the ones it was built with, handed untouched to the decoder.
/// (Whether the decoder gives back the same parameters is the wire encoding's question.)
pub proof fn a_call_request_reads_back_as_its_call(id: Id, kind: CallKind, params: serde_json::Value, r: Request)
    requires
        r.jsonrpc@ == JSONRPC_VERSION@,
        r.id == Some(id),
        r.method@ == method_name(kind),
        r.params == Some(params),
    ensures
        call_for_method(r.method@) == Some(kind),
        r.params == Some(params),
        r.id is Some,
{
    method_name_reads_back(kind);
}

/// A response: exactly one of `result` and `error` is present.
#[derive(Debug, Clone, PartialEq)]
pub struct Response {
    pub jsonrpc: String,
    /// `None` when the request could not be parsed well enough to recover an id.
    pub id: Option<Id>,
    pub result: Option<serde_json::Value>,
    pub error: Option<Error>,
}

impl Response {
    /// A success response, from the result as it encoded. A result that could not be encoded
    /// becomes an [`code::INTERNAL_ERROR`] response carrying the encoder's message: visibly wrong,
    /// rather than a silent `null` the client would read as an answer.
    pub fn ok(id: Option<Id>, encoded: Result<serde_json::Value, String>) -> (r: Response)
        ensures
            r.jsonrpc@ == JSONRPC_VERSION@,
            r.id == id,
            match encoded {
                Ok(value) => r.result == Some(value) && r.error is None,
                Err(message) => r.result is None && (r.error matches Some(e) && e.code
                    == code::INTERNAL_ERROR && e.message@ == message@ && e.data is None),
            },
    {
        match encoded {
            Ok(value) => Response {
                jsonrpc: String::from_str(JSONRPC_VERSION),
                id,
                result: Some(value),
                error: None,
            },
            Err(message) => Response::err(id, Error::new(code::INTERNAL_ERROR, message)),
        }
    }

    pub fn err(id: Option<Id>, error: Error) -> (r: Response)
        ensures
            r.jsonrpc@ == JSONRPC_VERSION@,
            r.id == id,
            r.result is None,
            r.error == Some(error),
    {
        Response { jsonrpc: String::from_str(JSONRPC_VERSION), id, result: None, error: Some(error) }
    }
}

} // verus!
