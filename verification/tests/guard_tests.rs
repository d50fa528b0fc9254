use mcp_mysql::dispatch::{route_tool_call, Outcome, ToolTask};
use mcp_mysql::guard::{guard_query, GuardVerdict};
use mcp_mysql::json::Json;

fn query_call(text: &str, allow: bool) -> Outcome {
    let args = Json::Obj(vec![(
        String::from("query"),
        Json::Str(String::from(text)),
    )]);
    let params = Json::Obj(vec![
        (String::from("name"), Json::Str(String::from("query"))),
        (String::from("arguments"), args),
    ]);
    route_tool_call(Json::Int(1), Some(params), allow)
}

#[test]
fn plain_select_is_allowed() {
    assert_eq!(guard_query("SELECT * FROM t"), GuardVerdict::Allowed);
}

#[test]
fn select_with_trailing_drop_is_rejected() {
    assert_eq!(
        guard_query("SELECT * FROM t; DROP TABLE t"),
        GuardVerdict::ForbiddenAt(3)
    );
    match query_call("SELECT * FROM t; DROP TABLE t", false) {
        Outcome::Reply(resp) => match resp.body {
            Err(e) => {
                assert_eq!(e.code, -32602);
                assert_eq!(
                    e.message,
                    "Query contains forbidden keyword: DROP. Use --allow-dangerous-queries flag to allow such queries."
                );
            }
            Ok(v) => panic!("expected an error, got {:?}", v),
        },
        other => panic!("expected a reply, got {:?}", other),
    }
}

#[test]
fn non_select_is_rejected() {
    assert_eq!(guard_query("SHOW TABLES"), GuardVerdict::NotSelect);
    match query_call("UPDATE t SET a = 1", false) {
        Outcome::Reply(resp) => match resp.body {
            Err(e) => {
                assert_eq!(e.code, -32602);
                assert_eq!(
                    e.message,
                    "Only SELECT queries are allowed. Use --allow-dangerous-queries flag to execute other query types."
                );
            }
            Ok(v) => panic!("expected an error, got {:?}", v),
        },
        other => panic!("expected a reply, got {:?}", other),
    }
}

#[test]
fn guard_trims_and_folds_case() {
    assert_eq!(guard_query("   select 1   "), GuardVerdict::Allowed);
    assert_eq!(guard_query("\tSeLeCt now()"), GuardVerdict::Allowed);
}

#[test]
fn first_matching_keyword_wins() {
    assert_eq!(
        guard_query("SELECT 'DELETE INSERT UPDATE'"),
        GuardVerdict::ForbiddenAt(0)
    );
}

#[test]
fn keyword_inside_a_word_still_blocks() {
    assert_eq!(guard_query("SELECT * FROM updates"), GuardVerdict::ForbiddenAt(1));
}

#[test]
fn dangerous_mode_skips_the_guard() {
    match query_call("DROP TABLE t", true) {
        Outcome::Call(ToolTask::Query { sql, .. }) => assert_eq!(sql, "DROP TABLE t"),
        other => panic!("expected a query task, got {:?}", other),
    }
}

#[test]
fn guarded_query_passes_through_verbatim() {
    match query_call("SELECT a, b FROM t WHERE c = 3", false) {
        Outcome::Call(ToolTask::Query { sql, .. }) => {
            assert_eq!(sql, "SELECT a, b FROM t WHERE c = 3")
        }
        other => panic!("expected a query task, got {:?}", other),
    }
}
