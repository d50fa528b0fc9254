use mcp_mysql::dispatch::{handle_line, route_tool_call, Outcome, ToolTask};
use mcp_mysql::json::Json;
use mcp_mysql::rpc::Response;
use mcp_mysql::session::{Config, Session};

fn test_config() -> Config {
    Config {
        host: String::from("localhost"),
        port: 3306,
        username: String::from("user"),
        password: String::from("pw"),
        database: String::from("testdb"),
        allow_dangerous: false,
    }
}

fn reply_of(out: Outcome) -> Response {
    match out {
        Outcome::Reply(resp) => resp,
        other => panic!("expected a reply, got {:?}", other),
    }
}

fn error_parts(resp: &Response) -> (i64, &str) {
    match &resp.body {
        Err(e) => (e.code, e.message.as_str()),
        Ok(v) => panic!("expected an error, got result {:?}", v),
    }
}

fn obj(pairs: Vec<(&str, Json)>) -> Json {
    Json::Obj(pairs.into_iter().map(|(k, v)| (String::from(k), v)).collect())
}

fn tool_call_params(name: &str, args: Json) -> Option<Json> {
    Some(obj(vec![
        ("name", Json::Str(String::from(name))),
        ("arguments", args),
    ]))
}

#[test]
fn blank_line_is_silent() {
    let cfg = test_config();
    let out = handle_line("   \t  ", &Session::Connected, &cfg);
    assert!(matches!(out, Outcome::Silent));
}

#[test]
fn notification_without_id_gets_no_response() {
    let cfg = test_config();
    let out = handle_line(
        "{\"jsonrpc\":\"2.0\",\"method\":\"tools/list\"}",
        &Session::Connected,
        &cfg,
    );
    assert!(matches!(out, Outcome::Silent));
}

#[test]
fn initialized_notification_is_silent_even_with_id() {
    let cfg = test_config();
    let out = handle_line(
        "{\"jsonrpc\":\"2.0\",\"id\":9,\"method\":\"initialized\"}",
        &Session::Connected,
        &cfg,
    );
    assert!(matches!(out, Outcome::Silent));
    let out2 = handle_line(
        "{\"jsonrpc\":\"2.0\",\"id\":9,\"method\":\"notifications/initialized\"}",
        &Session::Connected,
        &cfg,
    );
    assert!(matches!(out2, Outcome::Silent));
}

#[test]
fn unparseable_line_yields_untargeted_parse_error() {
    let cfg = test_config();
    let out = handle_line("this is not json", &Session::Connected, &cfg);
    let resp = reply_of(out);
    assert_eq!(resp.id, Json::Null);
    let (code, msg) = error_parts(&resp);
    assert_eq!(code, -32700);
    assert_eq!(msg, "Parse error");
    assert_eq!(
        resp.to_line(),
        "{\"jsonrpc\":\"2.0\",\"id\":null,\"error\":{\"code\":-32700,\"message\":\"Parse error\"}}"
    );
}

#[test]
fn wrong_envelope_shape_yields_parse_error() {
    let cfg = test_config();
    let out = handle_line("{\"id\":1,\"method\":\"tools/list\"}", &Session::Connected, &cfg);
    let resp = reply_of(out);
    let (code, _) = error_parts(&resp);
    assert_eq!(code, -32700);
}

#[test]
fn unknown_method_names_the_method() {
    let cfg = test_config();
    let out = handle_line(
        "{\"jsonrpc\":\"2.0\",\"id\":1,\"method\":\"frobnicate\"}",
        &Session::Connected,
        &cfg,
    );
    let resp = reply_of(out);
    assert_eq!(resp.id, Json::Int(1));
    let (code, msg) = error_parts(&resp);
    assert_eq!(code, -32601);
    assert_eq!(msg, "Method not found: frobnicate");
}

#[test]
fn tools_call_before_initialize_is_gated() {
    let cfg = test_config();
    for body in [
        "{\"jsonrpc\":\"2.0\",\"id\":1,\"method\":\"tools/call\",\"params\":{\"name\":\"query\",\"arguments\":{\"query\":\"SELECT 1\"}}}",
        "{\"jsonrpc\":\"2.0\",\"id\":2,\"method\":\"tools/call\",\"params\":{\"name\":\"insert\",\"arguments\":{}}}",
        "{\"jsonrpc\":\"2.0\",\"id\":3,\"method\":\"tools/call\"}",
    ] {
        let out = handle_line(body, &Session::Disconnected, &cfg);
        let resp = reply_of(out);
        let (code, msg) = error_parts(&resp);
        assert_eq!(code, -32002);
        assert_eq!(msg, "Server not initialized");
    }
}

#[test]
fn tools_list_catalog_has_five_tools() {
    let cfg = test_config();
    let out = handle_line(
        "{\"jsonrpc\":\"2.0\",\"id\":7,\"method\":\"tools/list\"}",
        &Session::Disconnected,
        &cfg,
    );
    let resp = reply_of(out);
    let line = resp.to_line();
    for name in ["\"name\":\"mysql\"", "\"name\":\"query\"", "\"name\":\"insert\"", "\"name\":\"update\"", "\"name\":\"delete\""] {
        assert!(line.contains(name), "missing {name} in {line}");
    }
    assert_eq!(line.matches("\"inputSchema\"").count(), 5);
    assert!(line.contains("Execute a SELECT query on the database (read-only)"));
}

#[test]
fn tools_list_description_follows_safety_flag() {
    let mut cfg = test_config();
    cfg.allow_dangerous = true;
    let out = handle_line(
        "{\"jsonrpc\":\"2.0\",\"id\":7,\"method\":\"tools/list\"}",
        &Session::Disconnected,
        &cfg,
    );
    let line = reply_of(out).to_line();
    assert!(line.contains("Execute any SQL query on the database (unrestricted)"));
}

#[test]
fn missing_params_is_invalid() {
    let out = route_tool_call(Json::Int(4), None, false);
    let resp = reply_of(out);
    let (code, msg) = error_parts(&resp);
    assert_eq!(code, -32602);
    assert_eq!(msg, "Missing parameters");
}

#[test]
fn unknown_tool_names_the_tool() {
    let params = tool_call_params("frobnicate", obj(vec![]));
    let out = route_tool_call(Json::Int(4), params, false);
    let resp = reply_of(out);
    let (code, msg) = error_parts(&resp);
    assert_eq!(code, -32601);
    assert_eq!(msg, "Unknown tool: frobnicate");
}

#[test]
fn invalid_table_name_is_rejected_for_every_tool() {
    let cases: Vec<(&str, Json)> = vec![
        ("mysql", obj(vec![("table_name", Json::Str(String::from("users; DROP")))])),
        (
            "insert",
            obj(vec![
                ("table_name", Json::Str(String::from("bad-name"))),
                ("data", obj(vec![("a", Json::Int(1))])),
            ]),
        ),
        (
            "update",
            obj(vec![
                ("table_name", Json::Str(String::from("bad name"))),
                ("data", obj(vec![("a", Json::Int(1))])),
                ("conditions", obj(vec![("id", Json::Int(1))])),
            ]),
        ),
        (
            "delete",
            obj(vec![
                ("table_name", Json::Str(String::from(""))),
                ("conditions", obj(vec![("id", Json::Int(1))])),
            ]),
        ),
    ];
    for (tool, args) in cases {
        let out = route_tool_call(Json::Int(5), tool_call_params(tool, args), false);
        let resp = reply_of(out);
        let (code, msg) = error_parts(&resp);
        assert_eq!(code, -32602, "tool {tool}");
        assert_eq!(msg, "Invalid table name", "tool {tool}");
    }
}

#[test]
fn empty_insert_data_is_rejected_before_any_statement() {
    let args = obj(vec![
        ("table_name", Json::Str(String::from("users"))),
        ("data", obj(vec![])),
    ]);
    let out = route_tool_call(Json::Int(6), tool_call_params("insert", args), false);
    let resp = reply_of(out);
    let (code, msg) = error_parts(&resp);
    assert_eq!(code, -32602);
    assert_eq!(msg, "Data object is empty");
}

#[test]
fn insert_data_must_be_an_object() {
    let args = obj(vec![
        ("table_name", Json::Str(String::from("users"))),
        ("data", Json::Arr(vec![Json::Int(1)])),
    ]);
    let out = route_tool_call(Json::Int(6), tool_call_params("insert", args), false);
    let resp = reply_of(out);
    let (code, msg) = error_parts(&resp);
    assert_eq!(code, -32602);
    assert_eq!(msg, "Data must be an object");
}

#[test]
fn insert_builds_parameterized_statement() {
    let args = obj(vec![
        ("table_name", Json::Str(String::from("users"))),
        (
            "data",
            obj(vec![
                ("age", Json::Int(33)),
                ("name", Json::Str(String::from("Ada"))),
            ]),
        ),
    ]);
    let out = route_tool_call(Json::Int(6), tool_call_params("insert", args), false);
    match out {
        Outcome::Call(ToolTask::Insert { id, sql, params }) => {
            assert_eq!(id, Json::Int(6));
            assert_eq!(sql, "INSERT INTO users (age, name) VALUES (?, ?)");
            assert_eq!(params, vec![Json::Int(33), Json::Str(String::from("Ada"))]);
        }
        other => panic!("expected an insert task, got {:?}", other),
    }
}

#[test]
fn update_binds_data_then_conditions() {
    let args = obj(vec![
        ("table_name", Json::Str(String::from("users"))),
        (
            "data",
            obj(vec![
                ("age", Json::Int(34)),
                ("name", Json::Str(String::from("Ada"))),
            ]),
        ),
        ("conditions", obj(vec![("id", Json::Int(42))])),
    ]);
    let out = route_tool_call(Json::Int(8), tool_call_params("update", args), false);
    match out {
        Outcome::Call(ToolTask::Update { sql, params, .. }) => {
            assert_eq!(sql, "UPDATE users SET age = ?, name = ? WHERE id = ?");
            assert_eq!(
                params,
                vec![Json::Int(34), Json::Str(String::from("Ada")), Json::Int(42)]
            );
        }
        other => panic!("expected an update task, got {:?}", other),
    }
}

#[test]
fn update_requires_nonempty_conditions() {
    let args = obj(vec![
        ("table_name", Json::Str(String::from("users"))),
        ("data", obj(vec![("age", Json::Int(1))])),
        ("conditions", obj(vec![])),
    ]);
    let out = route_tool_call(Json::Int(8), tool_call_params("update", args), false);
    let resp = reply_of(out);
    let (code, msg) = error_parts(&resp);
    assert_eq!(code, -32602);
    assert_eq!(msg, "Conditions object is empty");
}

#[test]
fn delete_builds_conjunctive_predicate() {
    let args = obj(vec![
        ("table_name", Json::Str(String::from("logs"))),
        (
            "conditions",
            obj(vec![
                ("level", Json::Str(String::from("debug"))),
                ("stale", Json::Bool(true)),
            ]),
        ),
    ]);
    let out = route_tool_call(Json::Int(9), tool_call_params("delete", args), false);
    match out {
        Outcome::Call(ToolTask::Delete { sql, params, .. }) => {
            assert_eq!(sql, "DELETE FROM logs WHERE level = ? AND stale = ?");
            assert_eq!(
                params,
                vec![Json::Str(String::from("debug")), Json::Bool(true)]
            );
        }
        other => panic!("expected a delete task, got {:?}", other),
    }
}

#[test]
fn malformed_tool_call_params_are_invalid() {
    let out = route_tool_call(Json::Int(4), Some(Json::Arr(vec![])), false);
    let resp = reply_of(out);
    let (code, msg) = error_parts(&resp);
    assert_eq!(code, -32602);
    assert_eq!(
        msg,
        "Invalid tool call parameters: expected an object with a string name and arguments"
    );
    let out = route_tool_call(
        Json::Int(4),
        Some(obj(vec![("name", Json::Str(String::from("query")))])),
        false,
    );
    let (code, _) = error_parts(&reply_of(out));
    assert_eq!(code, -32602);
}

#[test]
fn malformed_tool_arguments_are_invalid() {
    let out = route_tool_call(Json::Int(4), tool_call_params("query", obj(vec![])), false);
    let resp = reply_of(out);
    let (code, msg) = error_parts(&resp);
    assert_eq!(code, -32602);
    assert_eq!(msg, "Invalid query arguments: expected an object with a string query");
    let out = route_tool_call(Json::Int(4), tool_call_params("mysql", Json::Null), false);
    let resp = reply_of(out);
    let (code, msg) = error_parts(&resp);
    assert_eq!(code, -32602);
    assert_eq!(msg, "Invalid query arguments: expected an object with a string table_name");
    let out = route_tool_call(Json::Int(4), tool_call_params("delete", obj(vec![])), false);
    let resp = reply_of(out);
    let (code, msg) = error_parts(&resp);
    assert_eq!(code, -32602);
    assert_eq!(
        msg,
        "Invalid delete arguments: expected an object with a string table_name and conditions"
    );
}

#[test]
fn update_maps_must_be_objects() {
    let args = obj(vec![
        ("table_name", Json::Str(String::from("users"))),
        ("data", Json::Str(String::from("nope"))),
        ("conditions", obj(vec![("id", Json::Int(1))])),
    ]);
    let out = route_tool_call(Json::Int(8), tool_call_params("update", args), false);
    let resp = reply_of(out);
    let (code, msg) = error_parts(&resp);
    assert_eq!(code, -32602);
    assert_eq!(msg, "Data must be an object");
    let args = obj(vec![
        ("table_name", Json::Str(String::from("users"))),
        ("data", obj(vec![("a", Json::Int(1))])),
        ("conditions", Json::Int(3)),
    ]);
    let out = route_tool_call(Json::Int(8), tool_call_params("update", args), false);
    let resp = reply_of(out);
    let (code, msg) = error_parts(&resp);
    assert_eq!(code, -32602);
    assert_eq!(msg, "Conditions must be an object");
}

#[test]
fn string_ids_are_echoed_verbatim() {
    let cfg = test_config();
    let out = handle_line(
        "{\"jsonrpc\":\"2.0\",\"id\":\"req-77\",\"method\":\"nope\"}",
        &Session::Connected,
        &cfg,
    );
    let resp = reply_of(out);
    assert_eq!(resp.id, Json::Str(String::from("req-77")));
    assert!(resp.to_line().starts_with("{\"jsonrpc\":\"2.0\",\"id\":\"req-77\","));
}

#[test]
fn schema_all_tables_becomes_a_scan() {
    let args = obj(vec![("table_name", Json::Str(String::from("all-tables")))]);
    let out = route_tool_call(Json::Int(10), tool_call_params("mysql", args), false);
    match out {
        Outcome::Call(ToolTask::Schema { table, .. }) => assert!(table.is_none()),
        other => panic!("expected a schema task, got {:?}", other),
    }
}

#[test]
fn schema_single_table_keeps_the_name() {
    let args = obj(vec![("table_name", Json::Str(String::from("users")))]);
    let out = route_tool_call(Json::Int(10), tool_call_params("mysql", args), false);
    match out {
        Outcome::Call(ToolTask::Schema { table, .. }) => {
            assert_eq!(table.as_deref(), Some("users"))
        }
        other => panic!("expected a schema task, got {:?}", other),
    }
}
