use mcp_mysql::json::Json;
use mcp_mysql::reply::{acquire_failed_response, affected_response, delete_failed_response,
    insert_failed_response, insert_ok_response, last_insert_id_sql, query_failed_response,
    update_failed_response};
use mcp_mysql::rpc::Response;
use mcp_mysql::schema::{all_schemas_failed_response, all_schemas_response, catalog_queries,
    single_schema_response, tables_list_sql, ColumnRow, IndexRow, TableFetch};

fn error_parts(resp: &Response) -> (i64, &str) {
    match &resp.body {
        Err(e) => (e.code, e.message.as_str()),
        Ok(v) => panic!("expected an error, got {:?}", v),
    }
}

fn id_column() -> ColumnRow {
    ColumnRow {
        name: String::from("id"),
        data_type: String::from("bigint"),
        is_nullable: String::from("NO"),
        column_default: None,
        column_key: String::from("PRI"),
        extra: String::from("auto_increment"),
        comment: String::from(""),
    }
}

fn name_column() -> ColumnRow {
    ColumnRow {
        name: String::from("name"),
        data_type: String::from("varchar"),
        is_nullable: String::from("YES"),
        column_default: Some(String::from("anon")),
        column_key: String::from(""),
        extra: String::from(""),
        comment: String::from("display name"),
    }
}

fn primary_index() -> IndexRow {
    IndexRow {
        key_name: String::from("PRIMARY"),
        column_name: String::from("id"),
        non_unique: 0,
        index_type: String::from("BTREE"),
    }
}

#[test]
fn catalog_queries_embed_only_validated_names() {
    let (q1, q2, q3) = catalog_queries("users").expect("valid name");
    assert_eq!(
        q1,
        "SELECT * FROM information_schema.tables WHERE table_name = 'users' AND table_schema = DATABASE()"
    );
    assert_eq!(
        q2,
        "SELECT column_name, data_type, is_nullable, column_default, column_key, extra, column_comment FROM information_schema.columns WHERE table_name = 'users' AND table_schema = DATABASE() ORDER BY ordinal_position"
    );
    assert_eq!(q3, "SHOW INDEX FROM `users`");
    assert!(catalog_queries("users'; DROP TABLE x --").is_none());
    assert!(catalog_queries("").is_none());
}

#[test]
fn fixed_statements_are_exact() {
    assert_eq!(
        tables_list_sql(),
        "SELECT table_name FROM information_schema.tables WHERE table_schema = DATABASE() AND table_type = 'BASE TABLE'"
    );
    assert_eq!(last_insert_id_sql(), "SELECT LAST_INSERT_ID()");
}

#[test]
fn single_schema_describes_columns_and_indexes() {
    let fetch = TableFetch::Found {
        columns: vec![id_column(), name_column()],
        indexes: vec![primary_index()],
    };
    let resp = single_schema_response(Json::Int(1), "users", fetch);
    let line = resp.to_line();
    assert!(line.contains("Retrieved schema for table 'users'."));
    assert!(line.contains(
        "{\"name\":\"id\",\"type\":\"bigint\",\"nullable\":false,\"default\":null,\"key\":\"PRI\",\"extra\":\"auto_increment\",\"comment\":\"\"}"
    ));
    assert!(line.contains(
        "{\"name\":\"name\",\"type\":\"varchar\",\"nullable\":true,\"default\":\"anon\",\"key\":\"\",\"extra\":\"\",\"comment\":\"display name\"}"
    ));
    assert!(line.contains(
        "{\"name\":\"PRIMARY\",\"column\":\"id\",\"unique\":true,\"type\":\"BTREE\"}"
    ));
}

#[test]
fn missing_table_is_an_internal_error() {
    let resp = single_schema_response(Json::Int(2), "ghosts", TableFetch::Absent);
    let (code, msg) = error_parts(&resp);
    assert_eq!(code, -32603);
    assert_eq!(msg, "Failed to get schema for table 'ghosts': table not found");
}

#[test]
fn single_table_failure_carries_the_driver_message() {
    let resp = single_schema_response(
        Json::Int(2),
        "users",
        TableFetch::Failed(String::from("timeout")),
    );
    let (code, msg) = error_parts(&resp);
    assert_eq!(code, -32603);
    assert_eq!(msg, "Failed to get schema for table 'users': timeout");
}

/// A failure on one table's introspection leaves every other table's schema
/// in the scan, and the count reflects only the successes.
#[test]
fn scan_keeps_partial_results() {
    let outcomes = vec![
        (
            String::from("alpha"),
            TableFetch::Found { columns: vec![id_column()], indexes: vec![primary_index()] },
        ),
        (
            String::from("broken"),
            TableFetch::Failed(String::from("index listing failed")),
        ),
        (
            String::from("gamma"),
            TableFetch::Found { columns: vec![name_column()], indexes: vec![] },
        ),
    ];
    let resp = all_schemas_response(Json::Int(3), &outcomes);
    let line = resp.to_line();
    assert!(line.contains("Retrieved schemas for 2 tables."));
    assert!(line.contains("\"table_name\":\"alpha\""));
    assert!(line.contains("\"table_name\":\"gamma\""));
    assert!(!line.contains("broken"));
}

#[test]
fn scan_listing_failure_is_an_internal_error() {
    let resp = all_schemas_failed_response(Json::Int(4), "no catalog");
    let (code, msg) = error_parts(&resp);
    assert_eq!(code, -32603);
    assert_eq!(msg, "Failed to get table schemas: no catalog");
}

#[test]
fn database_event_responses_carry_their_codes() {
    let resp = acquire_failed_response(Json::Int(1), "pool gone");
    assert_eq!(error_parts(&resp), (-32003, "Database connection error: pool gone"));
    let resp = insert_failed_response(Json::Int(1), "dup key");
    assert_eq!(error_parts(&resp), (-32004, "Insert failed: dup key"));
    let resp = update_failed_response(Json::Int(1), "lost");
    assert_eq!(error_parts(&resp), (-32004, "Update failed: lost"));
    let resp = delete_failed_response(Json::Int(1), "lost");
    assert_eq!(error_parts(&resp), (-32004, "Delete failed: lost"));
    let resp = query_failed_response(Json::Int(1), "syntax");
    assert_eq!(error_parts(&resp), (-32004, "Query execution failed: syntax"));
}

#[test]
fn affected_rows_and_fallback_insert_id() {
    let resp = affected_response(Json::Int(8), 3);
    assert_eq!(
        resp.to_line(),
        "{\"jsonrpc\":\"2.0\",\"id\":8,\"result\":{\"success\":true,\"affected_rows\":3}}"
    );
    let resp = insert_ok_response(Json::Int(9), None);
    assert_eq!(
        resp.to_line(),
        "{\"jsonrpc\":\"2.0\",\"id\":9,\"result\":{\"success\":true,\"last_insert_id\":0}}"
    );
}
