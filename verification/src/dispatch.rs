//! The request dispatcher. One inbound line either deserves no output
//! (blank lines and notifications), an immediate response (protocol errors,
//! `tools/list`, gating), a connection flow (`initialize`), or a validated
//! database task (`tools/call` on a live session). Everything the dispatcher
//! decides is pinned by `dispatch_post`.

use vstd::prelude::*;

use crate::guard::{forbidden_keyword_text, forbidden_keywords, guard_query, spec_guard,
    GuardVerdict};
use crate::json::{jlookup, obj_get, opt_view, views_of, views_of_pairs, JVal, Json};
use crate::parse::{parse_json_line, parsed_json};
use crate::rpc::{decode_envelope, err_response_jval, error_response, ok_response_jval,
    spec_envelope, Response, INVALID_PARAMS, METHOD_NOT_FOUND, NOT_INITIALIZED, PARSE_ERROR};
use crate::session::{resolved_url, start_connect, Config, ConnectFlow, Session};
use crate::sqlcmd::{build_delete, build_insert, build_update, delete_sql, insert_sql, update_sql,
    vals_of};
use crate::text::{is_valid_table_name, str_eq, trim_str, trimmed, valid_table_name};
use crate::tools::{tools_list_jval, tools_list_response};
use vstd::string::StringExecFns;
use vstd::string::StrSliceExecFns;

verus! {

/// A validated `tools/call`, ready for the database.
#[derive(Debug)]
pub enum ToolTask {
    /// Introspect one table, or all base tables when `table` is `None`.
    Schema { id: Json, table: Option<String> },
    /// Run a free-form query and return its rows.
    Query { id: Json, sql: String },
    /// Run an insert, then read `LAST_INSERT_ID()`.
    Insert { id: Json, sql: String, params: Vec<Json> },
    /// Run an update and report the affected row count.
    Update { id: Json, sql: String, params: Vec<Json> },
    /// Run a delete and report the affected row count.
    Delete { id: Json, sql: String, params: Vec<Json> },
}

/// What one line of input asks the caller to do.
#[derive(Debug)]
pub enum Outcome {
    /// Emit nothing.
    Silent,
    /// Emit exactly this response.
    Reply(Response),
    /// Start connection attempts, then emit the flow's response.
    Connect(ConnectFlow),
    /// Perform the database task, then emit the response built from its
    /// events.
    Call(ToolTask),
}

/// Methods that are notifications: recognized, never answered.
pub open spec fn is_notification_method(m: Seq<char>) -> bool {
    m == "initialized"@ || m == "notifications/initialized"@
}

/// `r` is exactly an error reply with this id, code and message.
pub open spec fn is_err_reply(r: Outcome, idv: JVal, code: i64, msg: Seq<char>) -> bool {
    r matches Outcome::Reply(resp) && resp.jval() == err_response_jval(idv, code, msg)
}

/// The `name` and `arguments` members of a `tools/call` parameter object.
pub open spec fn tool_call_fields(p: JVal) -> Option<(Seq<char>, JVal)> {
    match p {
        JVal::Obj(o) => match (jlookup(o, "name"@), jlookup(o, "arguments"@)) {
            (Some(JVal::Str(n)), Some(a)) => Some((n, a)),
            _ => None,
        },
        _ => None,
    }
}

/// The `table_name` member of the schema tool's arguments.
pub open spec fn schema_args(a: JVal) -> Option<Seq<char>> {
    match a {
        JVal::Obj(o) => match jlookup(o, "table_name"@) {
            Some(JVal::Str(t)) => Some(t),
            _ => None,
        },
        _ => None,
    }
}

/// The `query` member of the query tool's arguments.
pub open spec fn query_args(a: JVal) -> Option<Seq<char>> {
    match a {
        JVal::Obj(o) => match jlookup(o, "query"@) {
            Some(JVal::Str(q)) => Some(q),
            _ => None,
        },
        _ => None,
    }
}

/// The `table_name` and `data` members of the insert tool's arguments.
pub open spec fn insert_args(a: JVal) -> Option<(Seq<char>, JVal)> {
    match a {
        JVal::Obj(o) => match (jlookup(o, "table_name"@), jlookup(o, "data"@)) {
            (Some(JVal::Str(t)), Some(d)) => Some((t, d)),
            _ => None,
        },
        _ => None,
    }
}

/// The `table_name`, `data` and `conditions` members of the update tool's
/// arguments.
pub open spec fn update_args(a: JVal) -> Option<(Seq<char>, JVal, JVal)> {
    match a {
        JVal::Obj(o) => match (
            jlookup(o, "table_name"@),
            jlookup(o, "data"@),
            jlookup(o, "conditions"@),
        ) {
            (Some(JVal::Str(t)), Some(d), Some(c)) => Some((t, d, c)),
            _ => None,
        },
        _ => None,
    }
}

/// The `table_name` and `conditions` members of the delete tool's arguments.
pub open spec fn delete_args(a: JVal) -> Option<(Seq<char>, JVal)> {
    match a {
        JVal::Obj(o) => match (jlookup(o, "table_name"@), jlookup(o, "conditions"@)) {
            (Some(JVal::Str(t)), Some(c)) => Some((t, c)),
            _ => None,
        },
        _ => None,
    }
}

/// What the schema tool decides: `all-tables` scans everything, any other
/// name is gated on `[A-Za-z0-9_]+` before a single catalog query is built.
pub open spec fn schema_call_post(idv: JVal, a: JVal, r: Outcome) -> bool {
    match schema_args(a) {
        None => is_err_reply(
            r,
            idv,
            INVALID_PARAMS,
            "Invalid query arguments: expected an object with a string table_name"@,
        ),
        Some(t) => if t == "all-tables"@ {
            r matches Outcome::Call(ToolTask::Schema { id, table }) && id.deep_view() == idv
                && table is None
        } else if !is_valid_table_name(t) {
            is_err_reply(r, idv, INVALID_PARAMS, "Invalid table name"@)
        } else {
            r matches Outcome::Call(ToolTask::Schema { id, table }) && id.deep_view() == idv
                && (table matches Some(tt) && tt@ == t)
        },
    }
}

/// What the query tool decides: with the safety flag off, the guard's
/// verdict either admits the text verbatim or names the refusal.
pub open spec fn query_call_post(idv: JVal, a: JVal, allow_dangerous: bool, r: Outcome) -> bool {
    match query_args(a) {
        None => is_err_reply(
            r,
            idv,
            INVALID_PARAMS,
            "Invalid query arguments: expected an object with a string query"@,
        ),
        Some(q) => {
            let task_ok = r matches Outcome::Call(ToolTask::Query { id, sql })
                && id.deep_view() == idv && sql@ == q;
            if allow_dangerous {
                task_ok
            } else {
                match spec_guard(q) {
                    GuardVerdict::Allowed => task_ok,
                    GuardVerdict::NotSelect => is_err_reply(
                        r,
                        idv,
                        INVALID_PARAMS,
                        "Only SELECT queries are allowed. Use --allow-dangerous-queries flag to execute other query types."@,
                    ),
                    GuardVerdict::ForbiddenAt(k) => is_err_reply(
                        r,
                        idv,
                        INVALID_PARAMS,
                        "Query contains forbidden keyword: "@ + forbidden_keywords()[k as int]
                            + ". Use --allow-dangerous-queries flag to allow such queries."@,
                    ),
                }
            }
        },
    }
}

/// What the insert tool decides: table gate, then a non-empty data object,
/// then the statement and its bind values in column order.
pub open spec fn insert_call_post(idv: JVal, a: JVal, r: Outcome) -> bool {
    match insert_args(a) {
        None => is_err_reply(
            r,
            idv,
            INVALID_PARAMS,
            "Invalid insert arguments: expected an object with a string table_name and data"@,
        ),
        Some((t, d)) => if !is_valid_table_name(t) {
            is_err_reply(r, idv, INVALID_PARAMS, "Invalid table name"@)
        } else {
            match d {
                JVal::Obj(o) => if o.len() == 0 {
                    is_err_reply(r, idv, INVALID_PARAMS, "Data object is empty"@)
                } else {
                    r matches Outcome::Call(ToolTask::Insert { id, sql, params })
                        && id.deep_view() == idv && sql@ == insert_sql(t, o) && views_of(params@)
                        == vals_of(o)
                },
                _ => is_err_reply(r, idv, INVALID_PARAMS, "Data must be an object"@),
            }
        },
    }
}

/// What the update tool decides: table gate, both maps must be objects,
/// both non-empty, then the statement binding data values before condition
/// values.
pub open spec fn update_call_post(idv: JVal, a: JVal, r: Outcome) -> bool {
    match update_args(a) {
        None => is_err_reply(
            r,
            idv,
            INVALID_PARAMS,
            "Invalid update arguments: expected an object with a string table_name, data and conditions"@,
        ),
        Some((t, d, c)) => if !is_valid_table_name(t) {
            is_err_reply(r, idv, INVALID_PARAMS, "Invalid table name"@)
        } else {
            match (d, c) {
                (JVal::Obj(dd), JVal::Obj(cc)) => if dd.len() == 0 {
                    is_err_reply(r, idv, INVALID_PARAMS, "Data object is empty"@)
                } else if cc.len() == 0 {
                    is_err_reply(r, idv, INVALID_PARAMS, "Conditions object is empty"@)
                } else {
                    r matches Outcome::Call(ToolTask::Update { id, sql, params })
                        && id.deep_view() == idv && sql@ == update_sql(t, dd, cc) && views_of(
                        params@,
                    ) == vals_of(dd) + vals_of(cc)
                },
                (JVal::Obj(_), _) => is_err_reply(
                    r,
                    idv,
                    INVALID_PARAMS,
                    "Conditions must be an object"@,
                ),
                _ => is_err_reply(r, idv, INVALID_PARAMS, "Data must be an object"@),
            }
        },
    }
}

/// What the delete tool decides: table gate, a non-empty conditions object,
/// then the statement and its bind values in condition order.
pub open spec fn delete_call_post(idv: JVal, a: JVal, r: Outcome) -> bool {
    match delete_args(a) {
        None => is_err_reply(
            r,
            idv,
            INVALID_PARAMS,
            "Invalid delete arguments: expected an object with a string table_name and conditions"@,
        ),
        Some((t, c)) => if !is_valid_table_name(t) {
            is_err_reply(r, idv, INVALID_PARAMS, "Invalid table name"@)
        } else {
            match c {
                JVal::Obj(cc) => if cc.len() == 0 {
                    is_err_reply(r, idv, INVALID_PARAMS, "Conditions object is empty"@)
                } else {
                    r matches Outcome::Call(ToolTask::Delete { id, sql, params })
                        && id.deep_view() == idv && sql@ == delete_sql(t, cc) && views_of(params@)
                        == vals_of(cc)
                },
                _ => is_err_reply(r, idv, INVALID_PARAMS, "Conditions must be an object"@),
            }
        },
    }
}

/// What `tools/call` decides once the session is connected.
pub open spec fn tool_call_post(
    idv: JVal,
    params: Option<JVal>,
    allow_dangerous: bool,
    r: Outcome,
) -> bool {
    match params {
        None => is_err_reply(r, idv, INVALID_PARAMS, "Missing parameters"@),
        Some(p) => match tool_call_fields(p) {
            None => is_err_reply(
                r,
                idv,
                INVALID_PARAMS,
                "Invalid tool call parameters: expected an object with a string name and arguments"@,
            ),
            Some((name, a)) => if name == "mysql"@ {
                schema_call_post(idv, a, r)
            } else if name == "query"@ {
                query_call_post(idv, a, allow_dangerous, r)
            } else if name == "insert"@ {
                insert_call_post(idv, a, r)
            } else if name == "update"@ {
                update_call_post(idv, a, r)
            } else if name == "delete"@ {
                delete_call_post(idv, a, r)
            } else {
                is_err_reply(r, idv, METHOD_NOT_FOUND, "Unknown tool: "@ + name)
            },
        },
    }
}

/// An error reply built from a fixed message.
fn err_out(id: Json, code: i64, msg: &str) -> (r: Outcome)
    ensures
        is_err_reply(r, id.deep_view(), code, msg@),
{
    Outcome::Reply(error_response(id, code, String::from_str(msg)))
}

/// Routes the schema tool.
fn schema_call(id: Json, args: &Json) -> (r: Outcome)
    ensures
        schema_call_post(id.deep_view(), args.deep_view(), r),
{
    let fields = match args {
        Json::Obj(fields) => fields,
        _ => {
            return err_out(
                id,
                INVALID_PARAMS,
                "Invalid query arguments: expected an object with a string table_name",
            );
        },
    };
    let t = match obj_get(fields, "table_name") {
        Some(Json::Str(t)) => t,
        _ => {
            return err_out(
                id,
                INVALID_PARAMS,
                "Invalid query arguments: expected an object with a string table_name",
            );
        },
    };
    if str_eq(t.as_str(), "all-tables") {
        Outcome::Call(ToolTask::Schema { id, table: None })
    } else if !valid_table_name(t.as_str()) {
        err_out(id, INVALID_PARAMS, "Invalid table name")
    } else {
        let table = t.clone();
        Outcome::Call(ToolTask::Schema { id, table: Some(table) })
    }
}

/// Routes the query tool.
fn query_call(id: Json, args: &Json, allow_dangerous: bool) -> (r: Outcome)
    ensures
        query_call_post(id.deep_view(), args.deep_view(), allow_dangerous, r),
{
    let fields = match args {
        Json::Obj(fields) => fields,
        _ => {
            return err_out(
                id,
                INVALID_PARAMS,
                "Invalid query arguments: expected an object with a string query",
            );
        },
    };
    let q = match obj_get(fields, "query") {
        Some(Json::Str(q)) => q.clone(),
        _ => {
            return err_out(
                id,
                INVALID_PARAMS,
                "Invalid query arguments: expected an object with a string query",
            );
        },
    };
    if allow_dangerous {
        return Outcome::Call(ToolTask::Query { id, sql: q });
    }
    match guard_query(q.as_str()) {
        GuardVerdict::Allowed => Outcome::Call(ToolTask::Query { id, sql: q }),
        GuardVerdict::NotSelect => err_out(
            id,
            INVALID_PARAMS,
            "Only SELECT queries are allowed. Use --allow-dangerous-queries flag to execute other query types.",
        ),
        GuardVerdict::ForbiddenAt(k) => {
            proof {
                crate::guard::lemma_first_forbidden_range(
                    crate::text::to_upper(trimmed(q@)),
                    0,
                );
            }
            let mut msg = String::new();
            msg.append("Query contains forbidden keyword: ");
            msg.append(forbidden_keyword_text(k));
            msg.append(". Use --allow-dangerous-queries flag to allow such queries.");
            proof {
                assert(((Seq::<char>::empty() + "Query contains forbidden keyword: "@)
                    + forbidden_keywords()[k as int])
                    + ". Use --allow-dangerous-queries flag to allow such queries."@ =~=
                "Query contains forbidden keyword: "@ + forbidden_keywords()[k as int]
                    + ". Use --allow-dangerous-queries flag to allow such queries."@);
            }
            Outcome::Reply(error_response(id, INVALID_PARAMS, msg))
        },
    }
}

/// Routes the insert tool.
fn insert_call(id: Json, args: &Json) -> (r: Outcome)
    ensures
        insert_call_post(id.deep_view(), args.deep_view(), r),
{
    let fields = match args {
        Json::Obj(fields) => fields,
        _ => {
            return err_out(
                id,
                INVALID_PARAMS,
                "Invalid insert arguments: expected an object with a string table_name and data",
            );
        },
    };
    let (t, data) = match (obj_get(fields, "table_name"), obj_get(fields, "data")) {
        (Some(Json::Str(t)), Some(data)) => (t, data),
        _ => {
            return err_out(
                id,
                INVALID_PARAMS,
                "Invalid insert arguments: expected an object with a string table_name and data",
            );
        },
    };
    if !valid_table_name(t.as_str()) {
        return err_out(id, INVALID_PARAMS, "Invalid table name");
    }
    let dfields = match data {
        Json::Obj(dfields) => dfields,
        _ => {
            return err_out(id, INVALID_PARAMS, "Data must be an object");
        },
    };
    if dfields.len() == 0 {
        return err_out(id, INVALID_PARAMS, "Data object is empty");
    }
    let (sql, params) = build_insert(t.as_str(), dfields);
    Outcome::Call(ToolTask::Insert { id, sql, params })
}

/// Routes the update tool.
fn update_call(id: Json, args: &Json) -> (r: Outcome)
    ensures
        update_call_post(id.deep_view(), args.deep_view(), r),
{
    let fields = match args {
        Json::Obj(fields) => fields,
        _ => {
            return err_out(
                id,
                INVALID_PARAMS,
                "Invalid update arguments: expected an object with a string table_name, data and conditions",
            );
        },
    };
    let (t, data, conds) = match (
        obj_get(fields, "table_name"),
        obj_get(fields, "data"),
        obj_get(fields, "conditions"),
    ) {
        (Some(Json::Str(t)), Some(data), Some(conds)) => (t, data, conds),
        _ => {
            return err_out(
                id,
                INVALID_PARAMS,
                "Invalid update arguments: expected an object with a string table_name, data and conditions",
            );
        },
    };
    if !valid_table_name(t.as_str()) {
        return err_out(id, INVALID_PARAMS, "Invalid table name");
    }
    let dfields = match data {
        Json::Obj(dfields) => dfields,
        _ => {
            return err_out(id, INVALID_PARAMS, "Data must be an object");
        },
    };
    let cfields = match conds {
        Json::Obj(cfields) => cfields,
        _ => {
            return err_out(id, INVALID_PARAMS, "Conditions must be an object");
        },
    };
    proof {
        assert(data.deep_view() == JVal::Obj(views_of_pairs(dfields@)));
        assert(conds.deep_view() == JVal::Obj(views_of_pairs(cfields@)));
    }
    if dfields.len() == 0 {
        return err_out(id, INVALID_PARAMS, "Data object is empty");
    }
    if cfields.len() == 0 {
        return err_out(id, INVALID_PARAMS, "Conditions object is empty");
    }
    let (sql, params) = build_update(t.as_str(), dfields, cfields);
    Outcome::Call(ToolTask::Update { id, sql, params })
}

/// Routes the delete tool.
fn delete_call(id: Json, args: &Json) -> (r: Outcome)
    ensures
        delete_call_post(id.deep_view(), args.deep_view(), r),
{
    let fields = match args {
        Json::Obj(fields) => fields,
        _ => {
            return err_out(
                id,
                INVALID_PARAMS,
                "Invalid delete arguments: expected an object with a string table_name and conditions",
            );
        },
    };
    let (t, conds) = match (obj_get(fields, "table_name"), obj_get(fields, "conditions")) {
        (Some(Json::Str(t)), Some(conds)) => (t, conds),
        _ => {
            return err_out(
                id,
                INVALID_PARAMS,
                "Invalid delete arguments: expected an object with a string table_name and conditions",
            );
        },
    };
    if !valid_table_name(t.as_str()) {
        return err_out(id, INVALID_PARAMS, "Invalid table name");
    }
    let cfields = match conds {
        Json::Obj(cfields) => cfields,
        _ => {
            return err_out(id, INVALID_PARAMS, "Conditions must be an object");
        },
    };
    if cfields.len() == 0 {
        return err_out(id, INVALID_PARAMS, "Conditions object is empty");
    }
    let (sql, params) = build_delete(t.as_str(), cfields);
    Outcome::Call(ToolTask::Delete { id, sql, params })
}

/// Routes a `tools/call` request on a connected session.
pub fn route_tool_call(id: Json, params: Option<Json>, allow_dangerous: bool) -> (r: Outcome)
    ensures
        tool_call_post(id.deep_view(), opt_view(params), allow_dangerous, r),
{
    let p = match params {
        Some(p) => p,
        None => {
            return err_out(id, INVALID_PARAMS, "Missing parameters");
        },
    };
    let fields = match &p {
        Json::Obj(fields) => fields,
        _ => {
            return err_out(
                id,
                INVALID_PARAMS,
                "Invalid tool call parameters: expected an object with a string name and arguments",
            );
        },
    };
    let (name, args) = match (obj_get(fields, "name"), obj_get(fields, "arguments")) {
        (Some(Json::Str(name)), Some(args)) => (name, args),
        _ => {
            return err_out(
                id,
                INVALID_PARAMS,
                "Invalid tool call parameters: expected an object with a string name and arguments",
            );
        },
    };
    if str_eq(name.as_str(), "mysql") {
        schema_call(id, args)
    } else if str_eq(name.as_str(), "query") {
        query_call(id, args, allow_dangerous)
    } else if str_eq(name.as_str(), "insert") {
        insert_call(id, args)
    } else if str_eq(name.as_str(), "update") {
        update_call(id, args)
    } else if str_eq(name.as_str(), "delete") {
        delete_call(id, args)
    } else {
        let mut msg = String::new();
        msg.append("Unknown tool: ");
        msg.append(name.as_str());
        proof {
            assert((Seq::<char>::empty() + "Unknown tool: "@) + name@ =~= "Unknown tool: "@
                + name@);
        }
        Outcome::Reply(error_response(id, METHOD_NOT_FOUND, msg))
    }
}

/// Everything `handle_line` decides, for every line: blank lines and
/// notifications are silent; undecodable lines get an untargeted parse
/// error; `initialize` starts a connection flow with the resolved URL;
/// `tools/list` answers from the static catalog; `tools/call` is gated on a
/// connected session and otherwise routed by `tool_call_post`; any other
/// method is unknown.
pub open spec fn dispatch_post(lv: Seq<char>, session: Session, cfg: &Config, r: Outcome) -> bool {
    &&& trimmed(lv).len() == 0 ==> r is Silent
    &&& (trimmed(lv).len() > 0 && parsed_json(lv) is None) ==> is_err_reply(
        r,
        JVal::Null,
        PARSE_ERROR,
        "Parse error"@,
    )
    &&& trimmed(lv).len() > 0 ==> (parsed_json(lv) matches Some(jv) ==> match spec_envelope(jv) {
        None => is_err_reply(r, JVal::Null, PARSE_ERROR, "Parse error"@),
        Some(rv) => if is_notification_method(rv.method) {
            r is Silent
        } else {
            match rv.id {
                None => r is Silent,
                Some(idv) => if rv.method == "initialize"@ {
                    r matches Outcome::Connect(flow) && flow.id.deep_view() == idv
                        && flow.attempts == 0 && flow.url@ == resolved_url(rv.params, cfg)
                } else if rv.method == "tools/list"@ {
                    r matches Outcome::Reply(resp) && resp.jval() == ok_response_jval(
                        idv,
                        tools_list_jval(cfg.allow_dangerous),
                    )
                } else if rv.method == "tools/call"@ {
                    if session is Disconnected {
                        is_err_reply(r, idv, NOT_INITIALIZED, "Server not initialized"@)
                    } else {
                        tool_call_post(idv, rv.params, cfg.allow_dangerous, r)
                    }
                } else {
                    is_err_reply(r, idv, METHOD_NOT_FOUND, "Method not found: "@ + rv.method)
                },
            }
        },
    })
}

/// Handles one line of input.
pub fn handle_line(line: &str, session: &Session, cfg: &Config) -> (r: Outcome)
    ensures
        dispatch_post(line@, *session, cfg, r),
{
    let t = trim_str(line);
    if t.unicode_len() == 0 {
        return Outcome::Silent;
    }
    let v = match parse_json_line(line) {
        Some(v) => v,
        None => {
            return err_out(Json::Null, PARSE_ERROR, "Parse error");
        },
    };
    let req = match decode_envelope(&v) {
        Some(req) => req,
        None => {
            return err_out(Json::Null, PARSE_ERROR, "Parse error");
        },
    };
    if str_eq(req.method.as_str(), "initialized") || str_eq(
        req.method.as_str(),
        "notifications/initialized",
    ) {
        return Outcome::Silent;
    }
    let id = match req.id {
        Some(id) => id,
        None => {
            return Outcome::Silent;
        },
    };
    if str_eq(req.method.as_str(), "initialize") {
        return Outcome::Connect(start_connect(id, &req.params, cfg));
    }
    if str_eq(req.method.as_str(), "tools/list") {
        return Outcome::Reply(tools_list_response(id, cfg.allow_dangerous));
    }
    if str_eq(req.method.as_str(), "tools/call") {
        return match session {
            Session::Disconnected => err_out(id, NOT_INITIALIZED, "Server not initialized"),
            Session::Connected => route_tool_call(id, req.params, cfg.allow_dangerous),
        };
    }
    let mut msg = String::new();
    msg.append("Method not found: ");
    msg.append(req.method.as_str());
    proof {
        assert((Seq::<char>::empty() + "Method not found: "@) + req.method@ =~=
        "Method not found: "@ + req.method@);
    }
    Outcome::Reply(error_response(id, METHOD_NOT_FOUND, msg))
}

} // verus!
