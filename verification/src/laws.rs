//! Protocol laws: consequences of the dispatcher's contract, stated on their
//! own so a reader finds them in one place. Each law quantifies over every
//! line, request or argument object its premises admit.

use vstd::prelude::*;

use crate::dispatch::{delete_args, dispatch_post, insert_args, is_err_reply,
    is_notification_method, query_args, query_call_post, schema_args, tool_call_fields,
    tool_call_post, update_args, Outcome};
use crate::guard::{first_forbidden_from, forbidden_keywords, lemma_no_forbidden_when_none,
    spec_guard};
use crate::json::{jlookup, JVal};
use crate::parse::parsed_json;
use crate::rpc::{err_response_jval, ok_response_jval, spec_envelope, ReqView, INVALID_PARAMS,
    METHOD_NOT_FOUND, NOT_INITIALIZED};
use crate::session::{Config, Session};
use crate::text::{has_substring, is_ident_char, is_valid_table_name, starts_with, to_upper,
    trimmed};

verus! {

/// Law: a well-formed request without an id, and any request whose method is
/// a notification, is never answered — the dispatcher emits nothing for it.
pub proof fn lemma_notification_never_answered(
    lv: Seq<char>,
    session: Session,
    cfg: &Config,
    r: Outcome,
    jv: JVal,
    rv: ReqView,
)
    requires
        dispatch_post(lv, session, cfg, r),
        trimmed(lv).len() > 0,
        parsed_json(lv) == Some(jv),
        spec_envelope(jv) == Some(rv),
        rv.id is None || is_notification_method(rv.method),
    ensures
        r is Silent,
{
}

/// Law: a request whose method is outside the recognized set is answered
/// with `METHOD_NOT_FOUND`, and the method's name stands in the message.
pub proof fn lemma_unknown_method_named(
    lv: Seq<char>,
    session: Session,
    cfg: &Config,
    r: Outcome,
    jv: JVal,
    rv: ReqView,
    idv: JVal,
)
    requires
        dispatch_post(lv, session, cfg, r),
        trimmed(lv).len() > 0,
        parsed_json(lv) == Some(jv),
        spec_envelope(jv) == Some(rv),
        rv.id == Some(idv),
        !is_notification_method(rv.method),
        rv.method != "initialize"@,
        rv.method != "tools/list"@,
        rv.method != "tools/call"@,
    ensures
        is_err_reply(r, idv, METHOD_NOT_FOUND, "Method not found: "@ + rv.method),
{
}

/// Law: every `tools/call` on a disconnected session is answered with
/// `NOT_INITIALIZED`, whatever tool it names and whatever its parameters —
/// no connection flow and no database task comes of it.
pub proof fn lemma_uninitialized_gate(
    lv: Seq<char>,
    cfg: &Config,
    r: Outcome,
    jv: JVal,
    rv: ReqView,
    idv: JVal,
)
    requires
        dispatch_post(lv, Session::Disconnected, cfg, r),
        trimmed(lv).len() > 0,
        parsed_json(lv) == Some(jv),
        spec_envelope(jv) == Some(rv),
        rv.id == Some(idv),
        rv.method == "tools/call"@,
    ensures
        is_err_reply(r, idv, NOT_INITIALIZED, "Server not initialized"@),
        !(r is Call),
        !(r is Connect),
{
    reveal_strlit("tools/call");
    reveal_strlit("initialize");
    reveal_strlit("tools/list");
    reveal_strlit("initialized");
    reveal_strlit("notifications/initialized");
    assert("tools/call"@ != "initialize"@) by {
        assert("tools/call"@[0] == 't');
        assert("initialize"@[0] == 'i');
    }
    assert("tools/call"@ != "tools/list"@) by {
        assert("tools/call"@[6] == 'c');
        assert("tools/list"@[6] == 'l');
    }
    assert("tools/call"@ != "initialized"@);
    assert("tools/call"@ != "notifications/initialized"@) by {
        assert("tools/call"@[0] == 't');
        assert("notifications/initialized"@[0] == 'n');
    }
}

/// The table name a tool call asks to touch, for the tools that take one.
pub open spec fn requested_table(name: Seq<char>, a: JVal) -> Option<Seq<char>> {
    if name == "mysql"@ {
        schema_args(a)
    } else if name == "insert"@ {
        match insert_args(a) {
            Some((t, _)) => Some(t),
            None => None,
        }
    } else if name == "update"@ {
        match update_args(a) {
            Some((t, _, _)) => Some(t),
            None => None,
        }
    } else if name == "delete"@ {
        match delete_args(a) {
            Some((t, _)) => Some(t),
            None => None,
        }
    } else {
        None
    }
}

/// Law: a tool call whose table name holds any character outside
/// `[A-Za-z0-9_]` is answered with `INVALID_PARAMS`, and no statement is
/// built or issued — the outcome is never a database task. The schema tool's
/// sentinel `all-tables` is the one name read otherwise, as the scan over
/// every table.
pub proof fn lemma_invalid_table_rejected(
    idv: JVal,
    p: JVal,
    allow_dangerous: bool,
    r: Outcome,
    name: Seq<char>,
    a: JVal,
    t: Seq<char>,
    bad: int,
)
    requires
        tool_call_post(idv, Some(p), allow_dangerous, r),
        tool_call_fields(p) == Some((name, a)),
        requested_table(name, a) == Some(t),
        0 <= bad < t.len(),
        !is_ident_char(t[bad]),
        name == "mysql"@ ==> t != "all-tables"@,
    ensures
        is_err_reply(r, idv, INVALID_PARAMS, "Invalid table name"@),
        !(r is Call),
{
    assert(!is_valid_table_name(t));
    reveal_strlit("mysql");
    reveal_strlit("query");
    reveal_strlit("insert");
    reveal_strlit("update");
    reveal_strlit("delete");
    lemma_tool_names_distinct();
}

proof fn lemma_tool_names_distinct()
    ensures
        "insert"@ != "mysql"@,
        "insert"@ != "query"@,
        "update"@ != "mysql"@,
        "update"@ != "query"@,
        "update"@ != "insert"@,
        "delete"@ != "mysql"@,
        "delete"@ != "query"@,
        "delete"@ != "insert"@,
        "delete"@ != "update"@,
{
    reveal_strlit("mysql");
    reveal_strlit("query");
    reveal_strlit("insert");
    reveal_strlit("update");
    reveal_strlit("delete");
    assert("mysql"@[0] == 'm');
    assert("query"@[0] == 'q');
    assert("insert"@[0] == 'i');
    assert("update"@[0] == 'u');
    assert("delete"@[0] == 'd');
}

/// Law: an insert whose `data` object is empty is answered with
/// `INVALID_PARAMS`, and no statement is built or issued.
pub proof fn lemma_empty_insert_rejected(
    idv: JVal,
    p: JVal,
    allow_dangerous: bool,
    r: Outcome,
    a: JVal,
    t: Seq<char>,
    d: JVal,
)
    requires
        tool_call_post(idv, Some(p), allow_dangerous, r),
        tool_call_fields(p) == Some(("insert"@, a)),
        insert_args(a) == Some((t, d)),
        is_valid_table_name(t),
        d matches JVal::Obj(o) && o.len() == 0,
    ensures
        is_err_reply(r, idv, INVALID_PARAMS, "Data object is empty"@),
        !(r is Call),
{
    lemma_tool_names_distinct();
}

/// Law: under the safe mode, any query text that reaches the store as a
/// task begins with `SELECT` after trimming and case-folding, and contains
/// none of the forbidden keywords anywhere in that folded text — a text such
/// as `SELECT * FROM t; DROP TABLE t` can never become a task.
pub proof fn lemma_guarded_query_reads_only(
    idv: JVal,
    a: JVal,
    r: Outcome,
    q: Seq<char>,
)
    requires
        query_call_post(idv, a, false, r),
        query_args(a) == Some(q),
        r is Call,
    ensures
        starts_with(to_upper(trimmed(q)), "SELECT"@),
        forall|k: int|
            0 <= k < forbidden_keywords().len() ==> !has_substring(
                to_upper(trimmed(q)),
                #[trigger] forbidden_keywords()[k],
            ),
{
    let u = to_upper(trimmed(q));
    assert(spec_guard(q) is Allowed);
    assert(first_forbidden_from(u, 0) is None);
    lemma_no_forbidden_when_none(u, 0);
}

proof fn lemma_response_id_lookup(id: JVal)
    ensures
        forall|x: JVal|
            jlookup((#[trigger] ok_response_jval(id, x))->Obj_0, "id"@) == Some(id),
        forall|c: i64, m: Seq<char>|
            jlookup((#[trigger] err_response_jval(id, c, m))->Obj_0, "id"@) == Some(id),
{
    reveal_strlit("jsonrpc");
    reveal_strlit("id");
    assert("jsonrpc"@ != "id"@) by {
        assert("jsonrpc"@[0] == 'j');
        assert("id"@[0] == 'i');
    }
    assert forall|x: JVal| jlookup((#[trigger] ok_response_jval(id, x))->Obj_0, "id"@) == Some(
        id,
    ) by {
        let o = ok_response_jval(id, x)->Obj_0;
        assert(o[0].0 == "jsonrpc"@);
        assert(o.drop_first()[0] == o[1]);
        assert(jlookup(o.drop_first(), "id"@) == Some(id));
    }
    assert forall|c: i64, m: Seq<char>|
        jlookup((#[trigger] err_response_jval(id, c, m))->Obj_0, "id"@) == Some(id) by {
        let o = err_response_jval(id, c, m)->Obj_0;
        assert(o[0].0 == "jsonrpc"@);
        assert(o.drop_first()[0] == o[1]);
        assert(jlookup(o.drop_first(), "id"@) == Some(id));
    }
}

/// Law: whatever a request with an id is answered with, the response's `id`
/// member is that id, echoed verbatim.
pub proof fn lemma_reply_echoes_id(
    lv: Seq<char>,
    session: Session,
    cfg: &Config,
    r: Outcome,
    jv: JVal,
    rv: ReqView,
    idv: JVal,
)
    requires
        dispatch_post(lv, session, cfg, r),
        trimmed(lv).len() > 0,
        parsed_json(lv) == Some(jv),
        spec_envelope(jv) == Some(rv),
        rv.id == Some(idv),
    ensures
        r matches Outcome::Reply(resp) ==> (resp.jval() matches JVal::Obj(o) && jlookup(
            o,
            "id"@,
        ) == Some(idv)),
{
    lemma_response_id_lookup(idv);
}

} // verus!
