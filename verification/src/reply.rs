//! Responses built from database events. The caller runs the statements a
//! `ToolTask` describes and reports what came back; the functions here turn
//! every possible report into exactly one response.

use vstd::prelude::*;

use crate::json::{views_of, views_of_pairs, jstr, obj1, obj2, arr1, JVal, Json};
use crate::rpc::{err_response_jval, error_response, ok_response_jval, Response, ACQUIRE_FAILED,
    EXECUTION_FAILED};
use crate::ser::{append_rows_pretty, is_scalar, json_pretty};
use crate::text::{append_u64, dec_of};
use vstd::string::StringExecFns;

verus! {

/// One attempt to read a cell as some type: the driver refused, produced
/// SQL `NULL`, or produced a value.
#[derive(Debug)]
pub enum CellTry<T> {
    Failed,
    Null,
    Value(T),
}

/// One result cell, as the driver offered it under each decode attempt, in
/// the fixed priority order text, integer, float, boolean. A float is
/// carried as its decimal rendering.
#[derive(Debug)]
pub struct CellFetch {
    pub column: String,
    pub as_text: CellTry<String>,
    pub as_int: CellTry<i64>,
    pub as_float: CellTry<String>,
    pub as_bool: CellTry<bool>,
}

/// The value a cell decodes to: the first attempt the driver did not
/// refuse, with `null` both for SQL `NULL` and for a cell nothing could
/// decode.
pub open spec fn spec_decode_cell(c: CellFetch) -> JVal {
    match c.as_text {
        CellTry::Value(s) => JVal::Str(s@),
        CellTry::Null => JVal::Null,
        CellTry::Failed => match c.as_int {
            CellTry::Value(i) => JVal::Int(i),
            CellTry::Null => JVal::Null,
            CellTry::Failed => match c.as_float {
                CellTry::Value(f) => JVal::NumText(f@),
                CellTry::Null => JVal::Null,
                CellTry::Failed => match c.as_bool {
                    CellTry::Value(b) => JVal::Bool(b),
                    CellTry::Null => JVal::Null,
                    CellTry::Failed => JVal::Null,
                },
            },
        },
    }
}

/// Decodes one cell.
pub fn decode_cell(c: &CellFetch) -> (r: Json)
    ensures
        r.deep_view() == spec_decode_cell(*c),
        is_scalar(r.deep_view()),
{
    match &c.as_text {
        CellTry::Value(s) => Json::Str(s.clone()),
        CellTry::Null => Json::Null,
        CellTry::Failed => match &c.as_int {
            CellTry::Value(i) => Json::Int(*i),
            CellTry::Null => Json::Null,
            CellTry::Failed => match &c.as_float {
                CellTry::Value(f) => Json::NumText(f.clone()),
                CellTry::Null => Json::Null,
                CellTry::Failed => match &c.as_bool {
                    CellTry::Value(b) => Json::Bool(*b),
                    CellTry::Null => Json::Null,
                    CellTry::Failed => Json::Null,
                },
            },
        },
    }
}

/// One row as a JSON object: each cell under its column name, in order.
pub open spec fn spec_row_obj(row: Seq<CellFetch>) -> JVal {
    JVal::Obj(
        Seq::new(
            row.len(),
            |i: int|
                if 0 <= i < row.len() {
                    (row[i].column@, spec_decode_cell(row[i]))
                } else {
                    (Seq::empty(), JVal::Null)
                },
        ),
    )
}

/// Builds the JSON object for one row.
pub fn row_obj(row: &Vec<CellFetch>) -> (r: Json)
    ensures
        r.deep_view() == spec_row_obj(row@),
        crate::ser::is_flat_obj(r.deep_view()),
{
    let n = row.len();
    let mut fields: Vec<(String, Json)> = Vec::new();
    let mut i: usize = 0;
    while i < n
        invariant
            n == row@.len(),
            i <= n,
            fields@.len() == i,
            forall|j: int|
                0 <= j < i ==> (#[trigger] fields@[j]).0@ == row@[j].column@
                    && fields@[j].1.deep_view() == spec_decode_cell(row@[j]),
        decreases n - i,
    {
        let v = decode_cell(&row[i]);
        fields.push((row[i].column.clone(), v));
        i = i + 1;
    }
    proof {
        assert forall|j: int| 0 <= j < fields@.len() implies views_of_pairs(fields@)[j] == (
        row@[j].column@, spec_decode_cell(row@[j])) by {
            assert((fields@[j]).0@ == row@[j].column@);
        }
        assert(views_of_pairs(fields@) =~= spec_row_obj(row@)->Obj_0);
    }
    Json::Obj(fields)
}

/// The decoded rows, each as a JSON object.
pub open spec fn spec_rows(rows: Seq<Vec<CellFetch>>) -> Seq<JVal> {
    Seq::new(
        rows.len(),
        |i: int|
            if 0 <= i < rows.len() {
                spec_row_obj(rows[i]@)
            } else {
                JVal::Null
            },
    )
}

/// The human-readable block a query response carries: the row count, and the
/// indented rendering of the rows when there are any.
pub open spec fn query_content_text(rows: Seq<Vec<CellFetch>>) -> Seq<char> {
    let head = "Query executed successfully. Retrieved "@ + dec_of(rows.len() as int)
        + " rows.\n\n"@;
    if rows.len() == 0 {
        head
    } else {
        head + "Results:\n"@ + json_pretty(JVal::Arr(spec_rows(rows)), 0)
    }
}

/// The payload of a successful query response.
pub open spec fn query_ok_jval(rows: Seq<Vec<CellFetch>>) -> JVal {
    JVal::Obj(
        seq![
            (
                "content"@,
                JVal::Arr(
                    seq![
                        JVal::Obj(
                            seq![
                                ("type"@, JVal::Str("text"@)),
                                ("text"@, JVal::Str(query_content_text(rows))),
                            ],
                        ),
                    ],
                ),
            ),
        ],
    )
}

/// The response to a query whose rows came back.
pub fn query_ok_response(id: Json, rows: &Vec<Vec<CellFetch>>) -> (r: Response)
    ensures
        r.jval() == ok_response_jval(id.deep_view(), query_ok_jval(rows@)),
        r.id == id,
{
    let n = rows.len();
    let mut objs: Vec<Json> = Vec::new();
    let mut i: usize = 0;
    while i < n
        invariant
            n == rows@.len(),
            i <= n,
            objs@.len() == i,
            forall|j: int|
                0 <= j < i ==> #[trigger] objs@[j].deep_view() == spec_row_obj(rows@[j]@)
                    && crate::ser::is_flat_obj(objs@[j].deep_view()),
        decreases n - i,
    {
        let o = row_obj(&rows[i]);
        objs.push(o);
        i = i + 1;
    }
    let mut text = String::new();
    text.append("Query executed successfully. Retrieved ");
    append_u64(&mut text, n as u64);
    text.append(" rows.\n\n");
    proof {
        assert(((Seq::<char>::empty() + "Query executed successfully. Retrieved "@) + dec_of(
            n as int,
        )) + " rows.\n\n"@ =~= "Query executed successfully. Retrieved "@ + dec_of(n as int)
            + " rows.\n\n"@);
    }
    if n > 0 {
        text.append("Results:\n");
        proof {
            assert forall|j: int| 0 <= j < objs@.len() implies views_of(objs@)[j] == spec_rows(
                rows@,
            )[j] by {
                assert(objs@[j].deep_view() == spec_row_obj(rows@[j]@));
            }
            assert(views_of(objs@) =~= spec_rows(rows@));
        }
        append_rows_pretty(&mut text, &objs);
        proof {
            let head = "Query executed successfully. Retrieved "@ + dec_of(n as int)
                + " rows.\n\n"@;
            assert((head + "Results:\n"@) + json_pretty(JVal::Arr(spec_rows(rows@)), 0) =~= head
                + "Results:\n"@ + json_pretty(JVal::Arr(spec_rows(rows@)), 0));
        }
    }
    let payload = obj1("content", arr1(obj2("type", jstr("text"), "text", Json::Str(text))));
    Response { id, body: Ok(payload) }
}

/// The response when the pool would not hand out a connection.
pub fn acquire_failed_response(id: Json, message: &str) -> (r: Response)
    ensures
        r.jval() == err_response_jval(
            id.deep_view(),
            ACQUIRE_FAILED,
            "Database connection error: "@ + message@,
        ),
        r.id == id,
{
    failure_response(id, ACQUIRE_FAILED, "Database connection error: ", message)
}

/// The response when an insert statement failed to execute.
pub fn insert_failed_response(id: Json, message: &str) -> (r: Response)
    ensures
        r.jval() == err_response_jval(
            id.deep_view(),
            EXECUTION_FAILED,
            "Insert failed: "@ + message@,
        ),
        r.id == id,
{
    failure_response(id, EXECUTION_FAILED, "Insert failed: ", message)
}

/// The response when an update statement failed to execute.
pub fn update_failed_response(id: Json, message: &str) -> (r: Response)
    ensures
        r.jval() == err_response_jval(
            id.deep_view(),
            EXECUTION_FAILED,
            "Update failed: "@ + message@,
        ),
        r.id == id,
{
    failure_response(id, EXECUTION_FAILED, "Update failed: ", message)
}

/// The response when a delete statement failed to execute.
pub fn delete_failed_response(id: Json, message: &str) -> (r: Response)
    ensures
        r.jval() == err_response_jval(
            id.deep_view(),
            EXECUTION_FAILED,
            "Delete failed: "@ + message@,
        ),
        r.id == id,
{
    failure_response(id, EXECUTION_FAILED, "Delete failed: ", message)
}

/// The response when a free-form query failed to execute.
pub fn query_failed_response(id: Json, message: &str) -> (r: Response)
    ensures
        r.jval() == err_response_jval(
            id.deep_view(),
            EXECUTION_FAILED,
            "Query execution failed: "@ + message@,
        ),
        r.id == id,
{
    failure_response(id, EXECUTION_FAILED, "Query execution failed: ", message)
}

fn failure_response(id: Json, code: i64, prefix: &str, message: &str) -> (r: Response)
    ensures
        r.jval() == err_response_jval(id.deep_view(), code, prefix@ + message@),
        r.id == id,
{
    let mut msg = String::new();
    msg.append(prefix);
    msg.append(message);
    proof {
        assert((Seq::<char>::empty() + prefix@) + message@ =~= prefix@ + message@);
    }
    error_response(id, code, msg)
}

/// The payload of a successful insert: `last_insert_id` is what the
/// follow-up lookup returned, or 0 where that lookup itself failed.
pub open spec fn insert_ok_jval(last: Option<u64>) -> JVal {
    JVal::Obj(
        seq![
            ("success"@, JVal::Bool(true)),
            (
                "last_insert_id"@,
                JVal::UInt(
                    match last {
                        Some(v) => v,
                        None => 0,
                    },
                ),
            ),
        ],
    )
}

/// The response to an insert whose statement executed.
pub fn insert_ok_response(id: Json, last_insert_id: Option<u64>) -> (r: Response)
    ensures
        r.jval() == ok_response_jval(id.deep_view(), insert_ok_jval(last_insert_id)),
        r.id == id,
{
    let last: u64 = match last_insert_id {
        Some(v) => v,
        None => 0,
    };
    let payload = obj2("success", Json::Bool(true), "last_insert_id", Json::UInt(last));
    proof {
        let target = insert_ok_jval(last_insert_id);
        assert(target is Obj);
        assert(target->Obj_0 =~~= seq![
            ("success"@, JVal::Bool(true)),
            ("last_insert_id"@, JVal::UInt(last)),
        ]);
        assert(payload.deep_view()->Obj_0 =~~= target->Obj_0);
        assert(payload.deep_view() =~~= target);
    }
    Response { id, body: Ok(payload) }
}

/// The payload of a successful update or delete.
pub open spec fn affected_jval(n: u64) -> JVal {
    JVal::Obj(seq![("success"@, JVal::Bool(true)), ("affected_rows"@, JVal::UInt(n))])
}

/// The response to an update or delete whose statement executed.
pub fn affected_response(id: Json, affected_rows: u64) -> (r: Response)
    ensures
        r.jval() == ok_response_jval(id.deep_view(), affected_jval(affected_rows)),
        r.id == id,
{
    let payload = obj2("success", Json::Bool(true), "affected_rows", Json::UInt(affected_rows));
    Response { id, body: Ok(payload) }
}

/// The statement an insert follows up with to learn the new row's id.
pub fn last_insert_id_sql() -> (r: String)
    ensures
        r@ == "SELECT LAST_INSERT_ID()"@,
{
    String::from_str("SELECT LAST_INSERT_ID()")
}

} // verus!
