use mcp_mysql::json::Json;
use mcp_mysql::parse::parse_json_line;
use mcp_mysql::rpc::{error_response, Response};
use mcp_mysql::ser::json_to_string;

fn s(text: &str) -> Json {
    Json::Str(String::from(text))
}

#[test]
fn scalars_render_compactly() {
    assert_eq!(json_to_string(&Json::Null), "null");
    assert_eq!(json_to_string(&Json::Bool(true)), "true");
    assert_eq!(json_to_string(&Json::Bool(false)), "false");
    assert_eq!(json_to_string(&Json::Int(0)), "0");
    assert_eq!(json_to_string(&Json::Int(-7)), "-7");
    assert_eq!(json_to_string(&Json::Int(i64::MIN)), "-9223372036854775808");
    assert_eq!(json_to_string(&Json::Int(i64::MAX)), "9223372036854775807");
    assert_eq!(json_to_string(&Json::UInt(u64::MAX)), "18446744073709551615");
}

#[test]
fn strings_escape_like_json() {
    assert_eq!(json_to_string(&s("plain")), "\"plain\"");
    assert_eq!(json_to_string(&s("a\"b")), "\"a\\\"b\"");
    assert_eq!(json_to_string(&s("a\\b")), "\"a\\\\b\"");
    assert_eq!(json_to_string(&s("line\nbreak\ttab")), "\"line\\nbreak\\ttab\"");
    assert_eq!(json_to_string(&s("\u{1}")), "\"\\u0001\"");
    assert_eq!(json_to_string(&s("héllo")), "\"héllo\"");
}

#[test]
fn containers_render_without_spaces() {
    assert_eq!(json_to_string(&Json::Arr(vec![])), "[]");
    assert_eq!(json_to_string(&Json::Obj(vec![])), "{}");
    let v = Json::Obj(vec![
        (String::from("a"), Json::Arr(vec![Json::Int(1), Json::Int(2)])),
        (String::from("b"), Json::Null),
    ]);
    assert_eq!(json_to_string(&v), "{\"a\":[1,2],\"b\":null}");
}

#[test]
fn parse_then_serialize_round_trips_compact_text() {
    let line = "{\"a\":[1,2,\"x\"],\"b\":{\"c\":true,\"d\":null}}";
    let v = parse_json_line(line).expect("valid JSON should parse");
    assert_eq!(json_to_string(&v), line);
}

#[test]
fn parse_rejects_bad_text() {
    assert!(parse_json_line("{oops").is_none());
    assert!(parse_json_line("").is_none());
}

#[test]
fn parse_keeps_number_flavors() {
    let v = parse_json_line("[-3,18446744073709551615]").expect("parses");
    assert_eq!(
        v,
        Json::Arr(vec![Json::Int(-3), Json::UInt(18446744073709551615)])
    );
}

#[test]
fn error_response_line_is_exact() {
    let resp = error_response(Json::Str(String::from("abc")), -32601, String::from("nope"));
    assert_eq!(
        resp.to_line(),
        "{\"jsonrpc\":\"2.0\",\"id\":\"abc\",\"error\":{\"code\":-32601,\"message\":\"nope\"}}"
    );
}

#[test]
fn result_response_line_is_exact() {
    let resp = Response {
        id: Json::Int(12),
        body: Ok(Json::Obj(vec![(String::from("success"), Json::Bool(true))])),
    };
    assert_eq!(
        resp.to_line(),
        "{\"jsonrpc\":\"2.0\",\"id\":12,\"result\":{\"success\":true}}"
    );
}
