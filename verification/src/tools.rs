//! The static tool catalog served by `tools/list`: five tools, fixed names
//! and schemas; only the `query` tool's wording depends on the safety mode.

use vstd::prelude::*;

use crate::json::{arr1, jstr, obj1, obj2, obj3, views_of, JVal, Json};
use crate::rpc::{ok_response_jval, Response};

verus! {

/// A JSON-schema property of type `string`.
pub open spec fn string_prop(desc: Seq<char>) -> JVal {
    JVal::Obj(seq![("type"@, JVal::Str("string"@)), ("description"@, JVal::Str(desc))])
}

/// A JSON-schema property of type `object`.
pub open spec fn object_prop(desc: Seq<char>) -> JVal {
    JVal::Obj(seq![("type"@, JVal::Str("object"@)), ("description"@, JVal::Str(desc))])
}

/// One tool descriptor.
pub open spec fn tool_jval(name: Seq<char>, desc: Seq<char>, schema: JVal) -> JVal {
    JVal::Obj(
        seq![
            ("name"@, JVal::Str(name)),
            ("description"@, JVal::Str(desc)),
            ("inputSchema"@, schema),
        ],
    )
}

pub open spec fn mysql_tool_jval() -> JVal {
    tool_jval(
        "mysql"@,
        "Retrieve MySQL database schema information for tables"@,
        JVal::Obj(
            seq![
                ("type"@, JVal::Str("object"@)),
                (
                    "properties"@,
                    JVal::Obj(
                        seq![
                            (
                                "table_name"@,
                                string_prop(
                                    "Name of the table to inspect, or 'all-tables' to get all table schemas"@,
                                ),
                            ),
                        ],
                    ),
                ),
                ("required"@, JVal::Arr(seq![JVal::Str("table_name"@)])),
            ],
        ),
    )
}

pub open spec fn query_tool_jval(allow_dangerous: bool) -> JVal {
    tool_jval(
        "query"@,
        if allow_dangerous {
            "Execute any SQL query on the database (unrestricted)"@
        } else {
            "Execute a SELECT query on the database (read-only)"@
        },
        JVal::Obj(
            seq![
                ("type"@, JVal::Str("object"@)),
                (
                    "properties"@,
                    JVal::Obj(
                        seq![
                            (
                                "query"@,
                                string_prop(
                                    if allow_dangerous {
                                        "SQL query to execute"@
                                    } else {
                                        "SELECT query to execute"@
                                    },
                                ),
                            ),
                        ],
                    ),
                ),
                ("required"@, JVal::Arr(seq![JVal::Str("query"@)])),
            ],
        ),
    )
}

pub open spec fn insert_tool_jval() -> JVal {
    tool_jval(
        "insert"@,
        "Insert data into a specified table"@,
        JVal::Obj(
            seq![
                ("type"@, JVal::Str("object"@)),
                (
                    "properties"@,
                    JVal::Obj(
                        seq![
                            ("table_name"@, string_prop("Name of the table to insert data into"@)),
                            ("data"@, object_prop("Data to insert as key-value pairs"@)),
                        ],
                    ),
                ),
                (
                    "required"@,
                    JVal::Arr(seq![JVal::Str("table_name"@), JVal::Str("data"@)]),
                ),
            ],
        ),
    )
}

pub open spec fn update_tool_jval() -> JVal {
    tool_jval(
        "update"@,
        "Update data in a specified table based on conditions"@,
        JVal::Obj(
            seq![
                ("type"@, JVal::Str("object"@)),
                (
                    "properties"@,
                    JVal::Obj(
                        seq![
                            ("table_name"@, string_prop("Name of the table to update data in"@)),
                            ("data"@, object_prop("Data to update as key-value pairs"@)),
                            (
                                "conditions"@,
                                object_prop("Conditions for update as key-value pairs"@),
                            ),
                        ],
                    ),
                ),
                (
                    "required"@,
                    JVal::Arr(
                        seq![
                            JVal::Str("table_name"@),
                            JVal::Str("data"@),
                            JVal::Str("conditions"@),
                        ],
                    ),
                ),
            ],
        ),
    )
}

pub open spec fn delete_tool_jval() -> JVal {
    tool_jval(
        "delete"@,
        "Delete data from a specified table based on conditions"@,
        JVal::Obj(
            seq![
                ("type"@, JVal::Str("object"@)),
                (
                    "properties"@,
                    JVal::Obj(
                        seq![
                            ("table_name"@, string_prop("Name of the table to delete data from"@)),
                            (
                                "conditions"@,
                                object_prop("Conditions for deletion as key-value pairs"@),
                            ),
                        ],
                    ),
                ),
                (
                    "required"@,
                    JVal::Arr(seq![JVal::Str("table_name"@), JVal::Str("conditions"@)]),
                ),
            ],
        ),
    )
}

/// The whole `tools/list` payload: the five tools, in a fixed order.
pub open spec fn tools_list_jval(allow_dangerous: bool) -> JVal {
    JVal::Obj(
        seq![
            (
                "tools"@,
                JVal::Arr(
                    seq![
                        mysql_tool_jval(),
                        query_tool_jval(allow_dangerous),
                        insert_tool_jval(),
                        update_tool_jval(),
                        delete_tool_jval(),
                    ],
                ),
            ),
        ],
    )
}

/// A property object of type `string`.
fn build_string_prop(desc: &str) -> (r: Json)
    ensures
        r.deep_view() == string_prop(desc@),
{
    obj2("type", jstr("string"), "description", jstr(desc))
}

/// A property object of type `object`.
fn build_object_prop(desc: &str) -> (r: Json)
    ensures
        r.deep_view() == object_prop(desc@),
{
    obj2("type", jstr("object"), "description", jstr(desc))
}

/// An array of one string.
fn str_arr1(a: &str) -> (r: Json)
    ensures
        r.deep_view() == JVal::Arr(seq![JVal::Str(a@)]),
{
    arr1(jstr(a))
}

/// An array of two strings, in order.
fn str_arr2(a: &str, b: &str) -> (r: Json)
    ensures
        r.deep_view() == JVal::Arr(seq![JVal::Str(a@), JVal::Str(b@)]),
{
    let mut v: Vec<Json> = Vec::new();
    v.push(jstr(a));
    v.push(jstr(b));
    proof {
        assert(views_of(v@) =~= seq![JVal::Str(a@), JVal::Str(b@)]);
    }
    Json::Arr(v)
}

/// An array of three strings, in order.
fn str_arr3(a: &str, b: &str, c: &str) -> (r: Json)
    ensures
        r.deep_view() == JVal::Arr(seq![JVal::Str(a@), JVal::Str(b@), JVal::Str(c@)]),
{
    let mut v: Vec<Json> = Vec::new();
    v.push(jstr(a));
    v.push(jstr(b));
    v.push(jstr(c));
    proof {
        assert(views_of(v@) =~= seq![JVal::Str(a@), JVal::Str(b@), JVal::Str(c@)]);
    }
    Json::Arr(v)
}

/// One tool descriptor.
fn build_tool(name: &str, desc: &str, schema: Json) -> (r: Json)
    ensures
        r.deep_view() == tool_jval(name@, desc@, schema.deep_view()),
{
    obj3("name", jstr(name), "description", jstr(desc), "inputSchema", schema)
}

/// The `tools/list` payload.
pub fn build_tools_list(allow_dangerous: bool) -> (r: Json)
    ensures
        r.deep_view() == tools_list_jval(allow_dangerous),
{
    let mysql_tool = build_tool(
        "mysql",
        "Retrieve MySQL database schema information for tables",
        obj3(
            "type",
            jstr("object"),
            "properties",
            obj1(
                "table_name",
                build_string_prop(
                    "Name of the table to inspect, or 'all-tables' to get all table schemas",
                ),
            ),
            "required",
            str_arr1("table_name"),
        ),
    );
    let query_tool = build_tool(
        "query",
        if allow_dangerous {
            "Execute any SQL query on the database (unrestricted)"
        } else {
            "Execute a SELECT query on the database (read-only)"
        },
        obj3(
            "type",
            jstr("object"),
            "properties",
            obj1(
                "query",
                build_string_prop(
                    if allow_dangerous {
                        "SQL query to execute"
                    } else {
                        "SELECT query to execute"
                    },
                ),
            ),
            "required",
            str_arr1("query"),
        ),
    );
    let insert_tool = build_tool(
        "insert",
        "Insert data into a specified table",
        obj3(
            "type",
            jstr("object"),
            "properties",
            obj2(
                "table_name",
                build_string_prop("Name of the table to insert data into"),
                "data",
                build_object_prop("Data to insert as key-value pairs"),
            ),
            "required",
            str_arr2("table_name", "data"),
        ),
    );
    let update_tool = build_tool(
        "update",
        "Update data in a specified table based on conditions",
        obj3(
            "type",
            jstr("object"),
            "properties",
            obj3(
                "table_name",
                build_string_prop("Name of the table to update data in"),
                "data",
                build_object_prop("Data to update as key-value pairs"),
                "conditions",
                build_object_prop("Conditions for update as key-value pairs"),
            ),
            "required",
            str_arr3("table_name", "data", "conditions"),
        ),
    );
    let delete_tool = build_tool(
        "delete",
        "Delete data from a specified table based on conditions",
        obj3(
            "type",
            jstr("object"),
            "properties",
            obj2(
                "table_name",
                build_string_prop("Name of the table to delete data from"),
                "conditions",
                build_object_prop("Conditions for deletion as key-value pairs"),
            ),
            "required",
            str_arr2("table_name", "conditions"),
        ),
    );
    let ghost t1 = mysql_tool.deep_view();
    let ghost t2 = query_tool.deep_view();
    let ghost t3 = insert_tool.deep_view();
    let ghost t4 = update_tool.deep_view();
    let ghost t5 = delete_tool.deep_view();
    let mut tools: Vec<Json> = Vec::new();
    tools.push(mysql_tool);
    tools.push(query_tool);
    tools.push(insert_tool);
    tools.push(update_tool);
    tools.push(delete_tool);
    proof {
        assert(views_of(tools@) =~= seq![t1, t2, t3, t4, t5]);
    }
    obj1("tools", Json::Arr(tools))
}

/// The `tools/list` response for the given request id.
pub fn tools_list_response(id: Json, allow_dangerous: bool) -> (r: Response)
    ensures
        r.jval() == ok_response_jval(id.deep_view(), tools_list_jval(allow_dangerous)),
        r.id == id,
{
    let payload = build_tools_list(allow_dangerous);
    Response { id, body: Ok(payload) }
}

} // verus!
