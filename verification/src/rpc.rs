//! The protocol envelope: decoding one request from a JSON value and encoding
//! one response as a JSON line. A response always carries `jsonrpc`, the
//! echoed `id`, and exactly one of `result` or `error`.

use vstd::prelude::*;

use crate::json::{clone_json, jlookup, obj_get, views_of_pairs, JVal, Json};
use crate::ser::json_to_string;
use crate::ser::json_text;
use vstd::string::StringExecFns;

verus! {

pub const PARSE_ERROR: i64 = -32700;

pub const METHOD_NOT_FOUND: i64 = -32601;

pub const INVALID_PARAMS: i64 = -32602;

pub const INTERNAL_ERROR: i64 = -32603;

pub const CONNECTION_FAILED: i64 = -32001;

pub const NOT_INITIALIZED: i64 = -32002;

pub const ACQUIRE_FAILED: i64 = -32003;

pub const EXECUTION_FAILED: i64 = -32004;

/// A protocol-level error: a reserved code and a human-readable message.
#[derive(Debug, PartialEq, Eq)]
pub struct ErrorObj {
    pub code: i64,
    pub message: String,
}

/// One response: the echoed request id and either a result or an error.
#[derive(Debug, PartialEq, Eq)]
pub struct Response {
    pub id: Json,
    pub body: Result<Json, ErrorObj>,
}

/// A decoded request envelope.
#[derive(Debug, PartialEq, Eq)]
pub struct Request {
    pub id: Option<Json>,
    pub method: String,
    pub params: Option<Json>,
}

/// The mathematical form of a decoded envelope.
pub struct ReqView {
    pub id: Option<JVal>,
    pub method: Seq<char>,
    pub params: Option<JVal>,
}

impl Request {
    /// The mathematical form of this request.
    pub open spec fn view(&self) -> ReqView {
        ReqView {
            id: match self.id {
                Some(j) => Some(j.deep_view()),
                None => None,
            },
            method: self.method@,
            params: match self.params {
                Some(p) => Some(p.deep_view()),
                None => None,
            },
        }
    }
}

/// What a JSON value decodes to as a request envelope: the value must be an
/// object whose `jsonrpc` and `method` members are strings; a missing or null
/// `id` marks a notification, and a missing or null `params` counts as
/// absent.
pub open spec fn spec_envelope(v: JVal) -> Option<ReqView> {
    match v {
        JVal::Obj(o) => match (jlookup(o, "jsonrpc"@), jlookup(o, "method"@)) {
            (Some(JVal::Str(_)), Some(JVal::Str(m))) => Some(
                ReqView {
                    id: match jlookup(o, "id"@) {
                        Some(JVal::Null) => None,
                        x => x,
                    },
                    method: m,
                    params: match jlookup(o, "params"@) {
                        Some(JVal::Null) => None,
                        x => x,
                    },
                },
            ),
            _ => None,
        },
        _ => None,
    }
}

/// Decodes a request envelope from a JSON value.
pub fn decode_envelope(v: &Json) -> (r: Option<Request>)
    ensures
        match r {
            Some(req) => spec_envelope(v.deep_view()) == Some(req.view()),
            None => spec_envelope(v.deep_view()) is None,
        },
{
    match v {
        Json::Obj(fields) => {
            proof {
                assert(v.deep_view() == JVal::Obj(views_of_pairs(fields@)));
            }
            let version_ok = match obj_get(fields, "jsonrpc") {
                Some(Json::Str(_)) => true,
                _ => false,
            };
            if !version_ok {
                return None;
            }
            let method: String = match obj_get(fields, "method") {
                Some(Json::Str(m)) => m.clone(),
                _ => {
                    return None;
                },
            };
            let id: Option<Json> = match obj_get(fields, "id") {
                None => None,
                Some(Json::Null) => None,
                Some(j) => Some(clone_json(j)),
            };
            let params: Option<Json> = match obj_get(fields, "params") {
                None => None,
                Some(Json::Null) => None,
                Some(p) => Some(clone_json(p)),
            };
            Some(Request { id, method, params })
        },
        _ => None,
    }
}

/// The JSON form of a successful response.
pub open spec fn ok_response_jval(id: JVal, result: JVal) -> JVal {
    JVal::Obj(
        seq![
            ("jsonrpc"@, JVal::Str("2.0"@)),
            ("id"@, id),
            ("result"@, result),
        ],
    )
}

/// The JSON form of an error response.
pub open spec fn err_response_jval(id: JVal, code: i64, message: Seq<char>) -> JVal {
    JVal::Obj(
        seq![
            ("jsonrpc"@, JVal::Str("2.0"@)),
            ("id"@, id),
            (
                "error"@,
                JVal::Obj(seq![("code"@, JVal::Int(code)), ("message"@, JVal::Str(message))]),
            ),
        ],
    )
}

impl Response {
    /// The JSON value this response encodes to.
    pub open spec fn jval(&self) -> JVal {
        match self.body {
            Ok(res) => ok_response_jval(self.id.deep_view(), res.deep_view()),
            Err(e) => err_response_jval(self.id.deep_view(), e.code, e.message@),
        }
    }

    /// The one line this response puts on the output stream.
    pub open spec fn line(&self) -> Seq<char> {
        json_text(self.jval())
    }

    /// Encodes the response as its compact JSON line.
    pub fn to_line(&self) -> (r: String)
        ensures
            r@ == self.line(),
    {
        let mut fields: Vec<(String, Json)> = Vec::new();
        fields.push((String::from_str("jsonrpc"), Json::Str(String::from_str("2.0"))));
        fields.push((String::from_str("id"), clone_json(&self.id)));
        match &self.body {
            Ok(res) => {
                fields.push((String::from_str("result"), clone_json(res)));
            },
            Err(e) => {
                let mut eo: Vec<(String, Json)> = Vec::new();
                eo.push((String::from_str("code"), Json::Int(e.code)));
                eo.push((String::from_str("message"), Json::Str(e.message.clone())));
                proof {
                    assert(views_of_pairs(eo@) =~= seq![
                        ("code"@, JVal::Int(e.code)),
                        ("message"@, JVal::Str(e.message@)),
                    ]);
                }
                fields.push((String::from_str("error"), Json::Obj(eo)));
            },
        }
        let o = Json::Obj(fields);
        proof {
            match &self.body {
                Ok(res) => {
                    assert(views_of_pairs(fields@) =~= seq![
                        ("jsonrpc"@, JVal::Str("2.0"@)),
                        ("id"@, self.id.deep_view()),
                        ("result"@, res.deep_view()),
                    ]);
                },
                Err(e) => {
                    assert(views_of_pairs(fields@) =~= seq![
                        ("jsonrpc"@, JVal::Str("2.0"@)),
                        ("id"@, self.id.deep_view()),
                        (
                            "error"@,
                            JVal::Obj(
                                seq![("code"@, JVal::Int(e.code)), ("message"@, JVal::Str(e.message@))],
                            ),
                        ),
                    ]);
                },
            }
            assert(o.deep_view() == self.jval());
        }
        json_to_string(&o)
    }
}

/// An error response carrying the given id, code and message.
pub fn error_response(id: Json, code: i64, message: String) -> (r: Response)
    ensures
        r.jval() == err_response_jval(id.deep_view(), code, message@),
        r.id == id,
        r.body matches Err(e) && e.code == code && e.message == message,
{
    Response { id, body: Err(ErrorObj { code, message }) }
}

} // verus!
