use mcp_mysql::dispatch::{handle_line, Outcome, ToolTask};
use mcp_mysql::json::Json;
use mcp_mysql::reply::{insert_ok_response, query_ok_response, CellFetch, CellTry};
use mcp_mysql::rpc::Response;
use mcp_mysql::session::{connect_result, start_connect, Config, ConnectStep, Session};

fn test_config() -> Config {
    Config {
        host: String::from("localhost"),
        port: 3306,
        username: String::from("user"),
        password: String::from("pw"),
        database: String::from("testdb"),
        allow_dangerous: false,
    }
}

#[test]
fn default_url_comes_from_the_configuration() {
    let cfg = test_config();
    let flow = start_connect(Json::Int(1), &None, &cfg);
    assert_eq!(flow.url, "mysql://user:pw@localhost:3306/testdb");
    assert_eq!(flow.attempts, 0);
}

#[test]
fn initialize_params_override_the_url() {
    let cfg = test_config();
    let params = Json::Obj(vec![(
        String::from("initializationOptions"),
        Json::Obj(vec![(
            String::from("settings"),
            Json::Obj(vec![(
                String::from("databaseUrl"),
                Json::Str(String::from("mysql://other:secret@db:3307/prod")),
            )]),
        )]),
    )]);
    let flow = start_connect(Json::Int(1), &Some(params), &cfg);
    assert_eq!(flow.url, "mysql://other:secret@db:3307/prod");
}

#[test]
fn malformed_override_falls_back_to_the_configuration() {
    let cfg = test_config();
    let params = Json::Obj(vec![(
        String::from("initializationOptions"),
        Json::Str(String::from("not an object")),
    )]);
    let flow = start_connect(Json::Int(1), &Some(params), &cfg);
    assert_eq!(flow.url, "mysql://user:pw@localhost:3306/testdb");
}

#[test]
fn unreachable_host_fails_after_exactly_five_attempts() {
    let cfg = test_config();
    let mut flow = start_connect(Json::Int(3), &None, &cfg);
    let mut attempts_made = 0u32;
    let response: Response;
    loop {
        attempts_made += 1;
        match connect_result(flow, Err(String::from("Connection refused"))) {
            ConnectStep::Retry { delay_ms, flow: next } => {
                assert_eq!(delay_ms, 1000);
                assert_eq!(next.attempts, attempts_made);
                flow = next;
            }
            ConnectStep::Done { connected, response: resp } => {
                assert!(!connected);
                response = resp;
                break;
            }
        }
    }
    assert_eq!(attempts_made, 5);
    match response.body {
        Err(e) => {
            assert_eq!(e.code, -32001);
            assert_eq!(e.message, "Database connection failed: Connection refused");
        }
        Ok(v) => panic!("expected an error, got {:?}", v),
    }
    assert_eq!(response.id, Json::Int(3));
}

#[test]
fn successful_connect_returns_protocol_metadata() {
    let cfg = test_config();
    let flow = start_connect(Json::Int(4), &None, &cfg);
    match connect_result(flow, Ok(())) {
        ConnectStep::Done { connected, response } => {
            assert!(connected);
            assert_eq!(
                response.to_line(),
                "{\"jsonrpc\":\"2.0\",\"id\":4,\"result\":{\"protocolVersion\":\"2025-03-26\",\"capabilities\":{\"tools\":{\"listChanged\":true}},\"serverInfo\":{\"name\":\"mcp-server-mysql\",\"version\":\"0.1.0\"}}}"
            );
        }
        ConnectStep::Retry { .. } => panic!("success must end the flow"),
    }
}

#[test]
fn retry_succeeds_midway() {
    let cfg = test_config();
    let flow = start_connect(Json::Int(4), &None, &cfg);
    let flow = match connect_result(flow, Err(String::from("down"))) {
        ConnectStep::Retry { flow, .. } => flow,
        ConnectStep::Done { .. } => panic!("first failure should retry"),
    };
    match connect_result(flow, Ok(())) {
        ConnectStep::Done { connected, .. } => assert!(connected),
        ConnectStep::Retry { .. } => panic!("success must end the flow"),
    }
}

fn content_text(resp: &Response) -> String {
    let payload = match &resp.body {
        Ok(p) => p,
        Err(e) => panic!("expected a result, got error {:?}", e),
    };
    let fields = match payload {
        Json::Obj(fields) => fields,
        other => panic!("expected an object, got {:?}", other),
    };
    let content = &fields.iter().find(|(k, _)| k == "content").expect("content").1;
    let first = match content {
        Json::Arr(items) => &items[0],
        other => panic!("expected an array, got {:?}", other),
    };
    let inner = match first {
        Json::Obj(fields) => fields,
        other => panic!("expected an object, got {:?}", other),
    };
    match &inner.iter().find(|(k, _)| k == "text").expect("text").1 {
        Json::Str(text) => text.clone(),
        other => panic!("expected a string, got {:?}", other),
    }
}

/// Inserting a row, reading its `last_insert_id`, and querying for it again
/// round-trips: the one row that comes back carries the inserted values.
#[test]
fn insert_then_query_round_trip() {
    let cfg = test_config();

    // initialize: the one connection attempt succeeds.
    let out = handle_line(
        "{\"jsonrpc\":\"2.0\",\"id\":1,\"method\":\"initialize\"}",
        &Session::Disconnected,
        &cfg,
    );
    let flow = match out {
        Outcome::Connect(flow) => flow,
        other => panic!("expected a connection flow, got {:?}", other),
    };
    let session = match connect_result(flow, Ok(())) {
        ConnectStep::Done { connected: true, .. } => Session::Connected,
        other => panic!("expected a connected session, got {:?}", other),
    };

    // insert a row; the store reports last_insert_id 42.
    let out = handle_line(
        "{\"jsonrpc\":\"2.0\",\"id\":2,\"method\":\"tools/call\",\"params\":{\"name\":\"insert\",\"arguments\":{\"table_name\":\"users\",\"data\":{\"age\":33,\"name\":\"Ada\"}}}}",
        &session,
        &cfg,
    );
    let (task_id, sql, params) = match out {
        Outcome::Call(ToolTask::Insert { id, sql, params }) => (id, sql, params),
        other => panic!("expected an insert task, got {:?}", other),
    };
    assert_eq!(sql, "INSERT INTO users (age, name) VALUES (?, ?)");
    assert_eq!(params, vec![Json::Int(33), Json::Str(String::from("Ada"))]);
    let resp = insert_ok_response(task_id, Some(42));
    assert_eq!(
        resp.to_line(),
        "{\"jsonrpc\":\"2.0\",\"id\":2,\"result\":{\"success\":true,\"last_insert_id\":42}}"
    );

    // query the row back by that id; the store returns it.
    let out = handle_line(
        "{\"jsonrpc\":\"2.0\",\"id\":3,\"method\":\"tools/call\",\"params\":{\"name\":\"query\",\"arguments\":{\"query\":\"SELECT id, age, name FROM users WHERE id = 42\"}}}",
        &session,
        &cfg,
    );
    let (query_id, sql) = match out {
        Outcome::Call(ToolTask::Query { id, sql }) => (id, sql),
        other => panic!("expected a query task, got {:?}", other),
    };
    assert_eq!(sql, "SELECT id, age, name FROM users WHERE id = 42");
    let row = vec![
        CellFetch {
            column: String::from("id"),
            as_text: CellTry::Failed,
            as_int: CellTry::Value(42),
            as_float: CellTry::Failed,
            as_bool: CellTry::Failed,
        },
        CellFetch {
            column: String::from("age"),
            as_text: CellTry::Failed,
            as_int: CellTry::Value(33),
            as_float: CellTry::Failed,
            as_bool: CellTry::Failed,
        },
        CellFetch {
            column: String::from("name"),
            as_text: CellTry::Value(String::from("Ada")),
            as_int: CellTry::Failed,
            as_float: CellTry::Failed,
            as_bool: CellTry::Failed,
        },
    ];
    let resp = query_ok_response(query_id, &vec![row]);
    assert_eq!(resp.id, Json::Int(3));
    assert_eq!(
        content_text(&resp),
        "Query executed successfully. Retrieved 1 rows.\n\nResults:\n[\n  {\n    \"id\": 42,\n    \"age\": 33,\n    \"name\": \"Ada\"\n  }\n]"
    );
}

#[test]
fn empty_result_reports_zero_rows() {
    let resp = query_ok_response(Json::Int(5), &vec![]);
    assert_eq!(
        content_text(&resp),
        "Query executed successfully. Retrieved 0 rows.\n\n"
    );
}

#[test]
fn cell_decoding_follows_the_priority_order() {
    let rows = vec![vec![
        CellFetch {
            column: String::from("t"),
            as_text: CellTry::Value(String::from("7")),
            as_int: CellTry::Value(7),
            as_float: CellTry::Failed,
            as_bool: CellTry::Failed,
        },
        CellFetch {
            column: String::from("f"),
            as_text: CellTry::Failed,
            as_int: CellTry::Failed,
            as_float: CellTry::Value(String::from("2.5")),
            as_bool: CellTry::Failed,
        },
        CellFetch {
            column: String::from("b"),
            as_text: CellTry::Failed,
            as_int: CellTry::Failed,
            as_float: CellTry::Failed,
            as_bool: CellTry::Value(true),
        },
        CellFetch {
            column: String::from("n"),
            as_text: CellTry::Null,
            as_int: CellTry::Value(9),
            as_float: CellTry::Failed,
            as_bool: CellTry::Failed,
        },
        CellFetch {
            column: String::from("u"),
            as_text: CellTry::Failed,
            as_int: CellTry::Failed,
            as_float: CellTry::Failed,
            as_bool: CellTry::Failed,
        },
    ]];
    let resp = query_ok_response(Json::Int(6), &rows);
    assert_eq!(
        content_text(&resp),
        "Query executed successfully. Retrieved 1 rows.\n\nResults:\n[\n  {\n    \"t\": \"7\",\n    \"f\": 2.5,\n    \"b\": true,\n    \"n\": null,\n    \"u\": null\n  }\n]"
    );
}
